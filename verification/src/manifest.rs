//! What a deployment reads of an application's manifest, and which
//! applications the platform takes.

use vstd::prelude::*;

use crate::error::DeployError;
use crate::text::same_text;

verus! {

/// The only key/value store that the platform offers.
pub const SPIN_DEFAULT_KV_STORE: &'static str = "default";

/// What starts an application.
#[derive(Debug, Clone, Copy, PartialEq, Eq, Structural)]
pub enum ApplicationTrigger {
    Http,
    Redis,
    External,
}

/// A component of an application.
#[derive(Debug)]
pub struct Component {
    pub id: String,
    pub description: Option<String>,
    /// The key/value stores that the component asks for.
    pub key_value_stores: Option<Vec<String>>,
    /// The full route pattern of a component that answers HTTP requests.
    pub route: Option<String>,
}

/// An application, as its manifest describes it.
#[derive(Debug)]
pub struct AppManifest {
    pub trigger: ApplicationTrigger,
    pub components: Vec<Component>,
}

impl Component {
    /// The key/value stores that the component asks for.
    pub open spec fn stores(self) -> Seq<String> {
        match self.key_value_stores {
            Some(stores) => stores@,
            None => Seq::empty(),
        }
    }
}

/// The first store of a list that is not the default one.
pub open spec fn first_foreign(stores: Seq<String>) -> Option<Seq<char>>
    decreases stores.len(),
{
    if stores.len() == 0 {
        None
    } else if stores[0]@ != SPIN_DEFAULT_KV_STORE@ {
        Some(stores[0]@)
    } else {
        first_foreign(stores.skip(1))
    }
}

/// Whether every component is content with the default store; if not, the error
/// names the first store that is another one, and its component.
pub open spec fn stores_verdict(components: Seq<Component>) -> Result<(), DeployError<Seq<char>>>
    decreases components.len(),
{
    if components.len() == 0 {
        Ok(())
    } else {
        match first_foreign(components[0].stores()) {
            Some(store) => Err(
                DeployError::InvalidStore { store, component: components[0].id@ },
            ),
            None => stores_verdict(components.skip(1)),
        }
    }
}

/// Whether the platform takes an application with these components.
pub open spec fn cloud_verdict(components: Seq<Component>) -> Result<(), DeployError<Seq<char>>> {
    if components.len() == 0 {
        Err(DeployError::NoComponents)
    } else {
        stores_verdict(components)
    }
}

/// The position of the first store that is not the default one.
fn find_foreign(stores: &Vec<String>) -> (found: Option<usize>)
    ensures
        match found {
            Some(j) => j < stores@.len() && first_foreign(stores@) == Some(stores@[j as int]@),
            None => first_foreign(stores@) is None,
        },
{
    let mut j: usize = 0;
    assert(stores@.skip(0) == stores@);
    while j < stores.len()
        invariant
            j <= stores@.len(),
            first_foreign(stores@) == first_foreign(stores@.skip(j as int)),
        decreases stores@.len() - j,
    {
        if !same_text(stores[j].as_str(), SPIN_DEFAULT_KV_STORE) {
            return Some(j);
        }
        assert(stores@.skip(j as int).skip(1) == stores@.skip(j + 1));
        j += 1;
    }
    None
}

/// Whether the platform takes the application.
pub fn validate_cloud_app(app: &AppManifest) -> (verdict: Result<(), DeployError>)
    ensures
        match verdict {
            Ok(()) => cloud_verdict(app.components@) is Ok,
            Err(error) => cloud_verdict(app.components@) == Err::<(), DeployError<Seq<char>>>(
                error@,
            ),
        },
{
    if app.components.len() == 0 {
        return Err(DeployError::NoComponents);
    }
    let mut i: usize = 0;
    assert(app.components@.skip(0) == app.components@);
    while i < app.components.len()
        invariant
            i <= app.components@.len(),
            stores_verdict(app.components@) == stores_verdict(app.components@.skip(i as int)),
            cloud_verdict(app.components@) == stores_verdict(app.components@),
        decreases app.components@.len() - i,
    {
        let component = &app.components[i];
        assert(app.components@.skip(i as int).skip(1) == app.components@.skip(i + 1));
        if let Some(stores) = &component.key_value_stores {
            if let Some(j) = find_foreign(stores) {
                return Err(
                    DeployError::InvalidStore {
                        store: stores[j].clone(),
                        component: component.id.clone(),
                    },
                );
            }
        }
        i += 1;
    }
    Ok(())
}

/// Whether the platform runs applications of a trigger.
pub open spec fn trigger_outcome(trigger: ApplicationTrigger) -> Result<
    (),
    DeployError<Seq<char>>,
> {
    match trigger {
        ApplicationTrigger::Http => Ok(()),
        ApplicationTrigger::Redis => Err(DeployError::RedisTrigger),
        ApplicationTrigger::External => Err(DeployError::ExternalTrigger),
    }
}

/// Whether the platform runs applications of a trigger: only HTTP ones.
pub fn check_trigger(trigger: ApplicationTrigger) -> (verdict: Result<(), DeployError>)
    ensures
        match verdict {
            Ok(()) => trigger_outcome(trigger) is Ok,
            Err(error) => trigger_outcome(trigger) == Err::<(), DeployError<Seq<char>>>(error@),
        },
{
    match trigger {
        ApplicationTrigger::Http => Ok(()),
        ApplicationTrigger::Redis => Err(DeployError::RedisTrigger),
        ApplicationTrigger::External => Err(DeployError::ExternalTrigger),
    }
}

/// A list of stores has no foreign one exactly if each is the default one.
proof fn lemma_no_foreign(stores: Seq<String>)
    ensures
        first_foreign(stores) is None <==> forall|j: int|
            0 <= j < stores.len() ==> #[trigger] stores[j]@ == SPIN_DEFAULT_KV_STORE@,
    decreases stores.len(),
{
    if stores.len() > 0 {
        lemma_no_foreign(stores.skip(1));
        if forall|j: int|
            0 <= j < stores.len() ==> #[trigger] stores[j]@ == SPIN_DEFAULT_KV_STORE@ {
            assert forall|j: int| 0 <= j < stores.skip(1).len() implies #[trigger] stores.skip(
                1,
            )[j]@ == SPIN_DEFAULT_KV_STORE@ by {
                assert(stores[j + 1]@ == SPIN_DEFAULT_KV_STORE@);
            }
        }
        if first_foreign(stores) is None {
            assert forall|j: int| 0 <= j < stores.len() implies #[trigger] stores[j]@
                == SPIN_DEFAULT_KV_STORE@ by {
                if j > 0 {
                    assert(stores.skip(1)[j - 1]@ == SPIN_DEFAULT_KV_STORE@);
                }
            }
        }
    }
}

/// Whether every store that the components ask for is the default one.
pub open spec fn default_stores_only(components: Seq<Component>) -> bool {
    forall|i: int, j: int|
        0 <= i < components.len() && 0 <= j < components[i].stores().len()
            ==> #[trigger] components[i].stores()[j]@ == SPIN_DEFAULT_KV_STORE@
}

proof fn lemma_stores_verdict(components: Seq<Component>)
    ensures
        stores_verdict(components) is Ok <==> default_stores_only(components),
    decreases components.len(),
{
    if components.len() > 0 {
        let rest = components.skip(1);
        lemma_stores_verdict(rest);
        lemma_no_foreign(components[0].stores());
        if default_stores_only(components) {
            assert forall|i: int, j: int|
                0 <= i < rest.len() && 0 <= j < rest[i].stores().len() implies #[trigger] rest[i].stores()[j]@
                == SPIN_DEFAULT_KV_STORE@ by {
                assert(components[i + 1].stores()[j]@ == SPIN_DEFAULT_KV_STORE@);
            }
            assert forall|j: int|
                0 <= j < components[0].stores().len() implies #[trigger] components[0].stores()[j]@
                == SPIN_DEFAULT_KV_STORE@ by {}
        }
        if stores_verdict(components) is Ok {
            assert forall|i: int, j: int|
                0 <= i < components.len() && 0 <= j
                    < components[i].stores().len() implies #[trigger] components[i].stores()[j]@
                == SPIN_DEFAULT_KV_STORE@ by {
                if i > 0 {
                    assert(rest[i - 1].stores()[j]@ == SPIN_DEFAULT_KV_STORE@);
                }
            }
        }
    }
}

/// The platform takes an application exactly if it has a component and every
/// key/value store that any component asks for is the default one.
pub proof fn law_taken_apps(app: AppManifest)
    ensures
        cloud_verdict(app.components@) is Ok <==> app.components@.len() > 0 && default_stores_only(
            app.components@,
        ),
{
    lemma_stores_verdict(app.components@);
}

/// The position of the first foreign store of a list.
proof fn lemma_first_foreign(stores: Seq<String>) -> (j: int)
    requires
        first_foreign(stores) is Some,
    ensures
        0 <= j < stores.len(),
        first_foreign(stores) == Some(stores[j]@),
        stores[j]@ != SPIN_DEFAULT_KV_STORE@,
        forall|k: int| 0 <= k < j ==> #[trigger] stores[k]@ == SPIN_DEFAULT_KV_STORE@,
    decreases stores.len(),
{
    if stores[0]@ != SPIN_DEFAULT_KV_STORE@ {
        0
    } else {
        let j = lemma_first_foreign(stores.skip(1));
        assert forall|k: int| 0 <= k < j + 1 implies #[trigger] stores[k]@
            == SPIN_DEFAULT_KV_STORE@ by {
            if k > 0 {
                assert(stores.skip(1)[k - 1]@ == SPIN_DEFAULT_KV_STORE@);
            }
        }
        j + 1
    }
}

/// Whether the store at position `j` of component `i` is the first in the whole
/// manifest that is not the default one.
pub open spec fn first_foreign_at(components: Seq<Component>, i: int, j: int) -> bool {
    &&& 0 <= i < components.len()
    &&& 0 <= j < components[i].stores().len()
    &&& components[i].stores()[j]@ != SPIN_DEFAULT_KV_STORE@
    &&& default_stores_only(components.take(i))
    &&& forall|k: int|
        0 <= k < j ==> #[trigger] components[i].stores()[k]@ == SPIN_DEFAULT_KV_STORE@
}

proof fn lemma_reported_store(components: Seq<Component>) -> (at: (int, int))
    requires
        stores_verdict(components) is Err,
    ensures
        first_foreign_at(components, at.0, at.1),
        stores_verdict(components) == Err::<(), DeployError<Seq<char>>>(
            DeployError::InvalidStore {
                store: components[at.0].stores()[at.1]@,
                component: components[at.0].id@,
            },
        ),
    decreases components.len(),
{
    if first_foreign(components[0].stores()) is Some {
        let j = lemma_first_foreign(components[0].stores());
        (0, j)
    } else {
        lemma_no_foreign(components[0].stores());
        let rest = components.skip(1);
        let (i, j) = lemma_reported_store(rest);
        assert forall|a: int, b: int|
            0 <= a < components.take(i + 1).len() && 0 <= b < components.take(
                i + 1,
            )[a].stores().len() implies #[trigger] components.take(i + 1)[a].stores()[b]@
            == SPIN_DEFAULT_KV_STORE@ by {
            if a > 0 {
                assert(rest.take(i)[a - 1].stores()[b]@ == SPIN_DEFAULT_KV_STORE@);
            }
        }
        assert forall|k: int| 0 <= k < j implies #[trigger] components[i + 1].stores()[k]@
            == SPIN_DEFAULT_KV_STORE@ by {
            assert(rest[i].stores()[k]@ == SPIN_DEFAULT_KV_STORE@);
        }
        (i + 1, j)
    }
}

/// The error on an application that asks for another store names the first such
/// store in the order of the manifest, and the component that asks for it.
pub proof fn law_reported_store(app: AppManifest)
    requires
        app.components@.len() > 0,
        !default_stores_only(app.components@),
    ensures
        exists|i: int, j: int| #[trigger]
            first_foreign_at(app.components@, i, j) && cloud_verdict(app.components@) == Err::<
                (),
                DeployError<Seq<char>>,
            >(
                DeployError::InvalidStore {
                    store: app.components@[i].stores()[j]@,
                    component: app.components@[i].id@,
                },
            ),
{
    lemma_stores_verdict(app.components@);
    let (i, j) = lemma_reported_store(app.components@);
    assert(first_foreign_at(app.components@, i, j));
}

/// Whether the component at a position asks for a store, at a position of its
/// list, that is not named `default`.
pub open spec fn asks_for_another(components: Seq<Component>, i: int, j: int) -> bool {
    components[i].key_value_stores matches Some(stores) && 0 <= j < stores@.len() && stores@[j]@
        != "default"@
}

/// An application is taken exactly if it has a component and no component has in
/// its list a store of another name than `default`.
pub proof fn law_what_is_taken(components: Seq<Component>)
    ensures
        cloud_verdict(components) is Ok <==> components.len() > 0 && forall|i: int, j: int|
            0 <= i < components.len() ==> !#[trigger] asks_for_another(components, i, j),
{
    lemma_stores_verdict(components);
    if default_stores_only(components) {
        assert forall|i: int, j: int| 0 <= i < components.len() implies !#[trigger]
            asks_for_another(components, i, j) by {
            if asks_for_another(components, i, j) {
                assert(components[i].stores()[j]@ == SPIN_DEFAULT_KV_STORE@);
            }
        }
    }
    if forall|i: int, j: int|
        0 <= i < components.len() ==> !#[trigger] asks_for_another(components, i, j) {
        assert forall|i: int, j: int|
            0 <= i < components.len() && 0 <= j < components[i].stores().len() implies #[trigger] components[i].stores()[j]@
            == SPIN_DEFAULT_KV_STORE@ by {
            assert(!asks_for_another(components, i, j));
        }
    }
}

/// An application without components is refused for that.
pub proof fn law_no_components_are_refused(components: Seq<Component>)
    requires
        components.len() == 0,
    ensures
        cloud_verdict(components) == Err::<(), DeployError<Seq<char>>>(DeployError::NoComponents),
{
}

proof fn lemma_first_of_list(stores: Seq<String>, j: int)
    requires
        0 <= j < stores.len(),
        stores[j]@ != "default"@,
        forall|k: int| 0 <= k < j ==> #[trigger] stores[k]@ == "default"@,
    ensures
        first_foreign(stores) == Some(stores[j]@),
    decreases j,
{
    if j > 0 {
        assert(stores[0]@ == "default"@);
        let rest = stores.skip(1);
        assert forall|k: int| 0 <= k < j - 1 implies #[trigger] rest[k]@ == "default"@ by {
            assert(stores[k + 1]@ == "default"@);
        }
        lemma_first_of_list(rest, j - 1);
    }
}

proof fn lemma_first_of_components(components: Seq<Component>, i: int, j: int)
    requires
        0 <= i < components.len(),
        asks_for_another(components, i, j),
        forall|a: int, b: int|
            0 <= a < i || (a == i && b < j) ==> !#[trigger] asks_for_another(components, a, b),
    ensures
        stores_verdict(components) == Err::<(), DeployError<Seq<char>>>(
            DeployError::InvalidStore {
                store: components[i].key_value_stores->0@[j]@,
                component: components[i].id@,
            },
        ),
    decreases i,
{
    if i == 0 {
        let stores = components[0].key_value_stores->0@;
        assert forall|k: int| 0 <= k < j implies #[trigger] stores[k]@ == "default"@ by {
            assert(!asks_for_another(components, 0, k));
        }
        lemma_first_of_list(stores, j);
    } else {
        let rest = components.skip(1);
        lemma_no_foreign(components[0].stores());
        assert forall|k: int|
            0 <= k < components[0].stores().len() implies #[trigger] components[0].stores()[k]@
            == SPIN_DEFAULT_KV_STORE@ by {
            assert(!asks_for_another(components, 0, k));
        }
        assert(asks_for_another(rest, i - 1, j));
        assert forall|a: int, b: int|
            0 <= a < i - 1 || (a == i - 1 && b < j) implies !#[trigger] asks_for_another(
            rest,
            a,
            b,
        ) by {
            if asks_for_another(rest, a, b) && 0 <= a {
                assert(rest[a] == components[a + 1]);
                assert(asks_for_another(components, a + 1, b));
            }
            if a < 0 {
                assert(a == i - 1);
            }
        }
        lemma_first_of_components(rest, i - 1, j);
    }
}

/// An application that asks for another store is refused for the first such store
/// in the order of the manifest, under the component that asks for it.
pub proof fn law_the_first_other_store_is_reported(components: Seq<Component>, i: int, j: int)
    requires
        0 <= i < components.len(),
        asks_for_another(components, i, j),
        forall|a: int, b: int|
            0 <= a < i || (a == i && b < j) ==> !#[trigger] asks_for_another(components, a, b),
    ensures
        cloud_verdict(components) == Err::<(), DeployError<Seq<char>>>(
            DeployError::InvalidStore {
                store: components[i].key_value_stores->0@[j]@,
                component: components[i].id@,
            },
        ),
{
    lemma_first_of_components(components, i, j);
}

/// Of the triggers only HTTP is run, and each of the others is refused as what it
/// is.
pub proof fn law_only_http_is_run(trigger: ApplicationTrigger)
    ensures
        trigger_outcome(trigger) is Ok <==> trigger is Http,
        trigger is Redis ==> trigger_outcome(trigger) == Err::<(), DeployError<Seq<char>>>(
            DeployError::RedisTrigger,
        ),
        trigger is External ==> trigger_outcome(trigger) == Err::<(), DeployError<Seq<char>>>(
            DeployError::ExternalTrigger,
        ),
{
}

} // verus!
