//! What the platform lists, and the search in its lists.

use vstd::prelude::*;

use crate::error::{outcome, DeployError};
use crate::text::same_text;

verus! {

/// An application of the platform.
#[derive(Debug)]
pub struct AppItem {
    pub id: u128,
    pub name: String,
}

/// A revision of an application.
#[derive(Debug)]
pub struct RevisionItem {
    pub id: u128,
    pub app_id: u128,
    pub revision_number: String,
}

/// A channel of an application.
#[derive(Debug)]
pub struct ChannelItem {
    pub id: u128,
    pub app_id: u128,
    pub name: String,
}

/// One page of a list.
#[derive(Debug)]
pub struct Page<T> {
    pub items: Vec<T>,
    pub is_last_page: bool,
}

/// What a page of a list tells a search.
#[derive(Debug, PartialEq, Eq)]
pub enum Search<S = String> {
    /// The id that was searched for.
    Found(u128),
    /// Nothing yet: the list has to be asked for again.
    Again,
    /// That it is not in the list.
    Missing(DeployError<S>),
}

impl View for Search {
    type V = Search<Seq<char>>;

    open spec fn view(&self) -> Search<Seq<char>> {
        match *self {
            Search::Found(id) => Search::Found(id),
            Search::Again => Search::Again,
            Search::Missing(error) => Search::Missing(error@),
        }
    }
}

/// Whether an application has a name.
pub open spec fn is_named(app: AppItem, name: Seq<char>) -> bool {
    app.name@ == name
}

/// Whether a revision is that of a version of an application.
pub open spec fn is_revision_of(
    revision: RevisionItem,
    version: Seq<char>,
    app_id: u128,
) -> bool {
    revision.revision_number@ == version && revision.app_id == app_id
}

/// Whether a channel is that of an application under a name.
pub open spec fn is_channel_of(channel: ChannelItem, name: Seq<char>, app_id: u128) -> bool {
    channel.app_id == app_id && channel.name@ == name
}

/// The first application of a list that has a name.
pub open spec fn first_app(apps: Seq<AppItem>, name: Seq<char>) -> Option<AppItem>
    decreases apps.len(),
{
    if apps.len() == 0 {
        None
    } else if is_named(apps[0], name) {
        Some(apps[0])
    } else {
        first_app(apps.skip(1), name)
    }
}

/// The first revision of a list that is that of a version of an application.
pub open spec fn first_revision(
    revisions: Seq<RevisionItem>,
    version: Seq<char>,
    app_id: u128,
) -> Option<RevisionItem>
    decreases revisions.len(),
{
    if revisions.len() == 0 {
        None
    } else if is_revision_of(revisions[0], version, app_id) {
        Some(revisions[0])
    } else {
        first_revision(revisions.skip(1), version, app_id)
    }
}

/// The first channel of a list that is that of an application under a name.
pub open spec fn first_channel(
    channels: Seq<ChannelItem>,
    name: Seq<char>,
    app_id: u128,
) -> Option<ChannelItem>
    decreases channels.len(),
{
    if channels.len() == 0 {
        None
    } else if is_channel_of(channels[0], name, app_id) {
        Some(channels[0])
    } else {
        first_channel(channels.skip(1), name, app_id)
    }
}

/// The outcome of the search for an application by its name.
pub open spec fn app_outcome(apps: Seq<AppItem>, name: Seq<char>) -> Result<
    u128,
    DeployError<Seq<char>>,
> {
    match first_app(apps, name) {
        Some(app) => Ok(app.id),
        None => Err(DeployError::NoSuchApp { name }),
    }
}

/// What a page of revisions tells the search for a version of an application.
pub open spec fn revision_search(
    page: Page<RevisionItem>,
    version: Seq<char>,
    app_id: u128,
) -> Search<Seq<char>> {
    match first_revision(page.items@, version, app_id) {
        Some(revision) => Search::Found(revision.id),
        None => if page.is_last_page {
            Search::Missing(DeployError::NoSuchRevision { version, app_id })
        } else {
            Search::Again
        },
    }
}

/// What a page of channels tells the search for a channel of an application.
pub open spec fn channel_search(page: Page<ChannelItem>, name: Seq<char>, app_id: u128) -> Search<
    Seq<char>,
> {
    match first_channel(page.items@, name, app_id) {
        Some(channel) => Search::Found(channel.id),
        None => if page.is_last_page {
            Search::Missing(DeployError::NoSuchChannel { app_id, name })
        } else {
            Search::Again
        },
    }
}

/// The id of the first application of that name among the listed ones.
pub fn get_app_id_cloud(apps: &Vec<AppItem>, name: &str) -> (id: Result<u128, DeployError>)
    ensures
        outcome(id) == app_outcome(apps@, name@),
{
    let mut i: usize = 0;
    assert(apps@.skip(0) == apps@);
    while i < apps.len()
        invariant
            i <= apps@.len(),
            first_app(apps@, name@) == first_app(apps@.skip(i as int), name@),
        decreases apps@.len() - i,
    {
        if same_text(apps[i].name.as_str(), name) {
            return Ok(apps[i].id);
        }
        assert(apps@.skip(i as int).skip(1) == apps@.skip(i + 1));
        i += 1;
    }
    Err(DeployError::NoSuchApp { name: name.to_owned() })
}

/// What a page of revisions tells the search for the revision of a version of
/// an application.
pub fn get_revision_id_cloud(
    page: &Page<RevisionItem>,
    bindle_version: &str,
    app_id: u128,
) -> (search: Search)
    ensures
        search@ == revision_search(*page, bindle_version@, app_id),
{
    let items = &page.items;
    let mut i: usize = 0;
    assert(items@.skip(0) == items@);
    while i < items.len()
        invariant
            i <= items@.len(),
            items@ == page.items@,
            first_revision(items@, bindle_version@, app_id) == first_revision(
                items@.skip(i as int),
                bindle_version@,
                app_id,
            ),
        decreases items@.len() - i,
    {
        if same_text(items[i].revision_number.as_str(), bindle_version) && items[i].app_id
            == app_id {
            return Search::Found(items[i].id);
        }
        assert(items@.skip(i as int).skip(1) == items@.skip(i + 1));
        i += 1;
    }
    if page.is_last_page {
        Search::Missing(
            DeployError::NoSuchRevision { version: bindle_version.to_owned(), app_id },
        )
    } else {
        Search::Again
    }
}

/// What a page of channels tells the search for the channel of an application
/// under a name.
pub fn get_channel_id_cloud(page: &Page<ChannelItem>, name: &str, app_id: u128) -> (search: Search)
    ensures
        search@ == channel_search(*page, name@, app_id),
{
    let items = &page.items;
    let mut i: usize = 0;
    assert(items@.skip(0) == items@);
    while i < items.len()
        invariant
            i <= items@.len(),
            items@ == page.items@,
            first_channel(items@, name@, app_id) == first_channel(
                items@.skip(i as int),
                name@,
                app_id,
            ),
        decreases items@.len() - i,
    {
        if items[i].app_id == app_id && same_text(items[i].name.as_str(), name) {
            return Search::Found(items[i].id);
        }
        assert(items@.skip(i as int).skip(1) == items@.skip(i + 1));
        i += 1;
    }
    if page.is_last_page {
        Search::Missing(DeployError::NoSuchChannel { app_id, name: name.to_owned() })
    } else {
        Search::Again
    }
}

/// The search for an application gives the first one of the name, and fails
/// exactly if no listed application has it.
pub proof fn law_app_search(apps: Seq<AppItem>, name: Seq<char>)
    ensures
        match first_app(apps, name) {
            Some(app) => exists|i: int|
                0 <= i < apps.len() && #[trigger] apps[i] == app && is_named(app, name) && forall|
                    k: int,
                |
                    0 <= k < i ==> !is_named(#[trigger] apps[k], name),
            None => forall|k: int| 0 <= k < apps.len() ==> !is_named(#[trigger] apps[k], name),
        },
    decreases apps.len(),
{
    if apps.len() > 0 && !is_named(apps[0], name) {
        let rest = apps.skip(1);
        law_app_search(rest, name);
        match first_app(rest, name) {
            Some(app) => {
                let i = choose|i: int|
                    0 <= i < rest.len() && #[trigger] rest[i] == app && is_named(app, name)
                        && forall|k: int| 0 <= k < i ==> !is_named(#[trigger] rest[k], name);
                assert(apps[i + 1] == app);
                assert forall|k: int| 0 <= k < i + 1 implies !is_named(#[trigger] apps[k], name) by {
                    if k > 0 {
                        assert(!is_named(rest[k - 1], name));
                    }
                }
            },
            None => {
                assert forall|k: int| 0 <= k < apps.len() implies !is_named(
                    #[trigger] apps[k],
                    name,
                ) by {
                    if k > 0 {
                        assert(!is_named(rest[k - 1], name));
                    }
                }
            },
        }
    }
}

/// The search in a page of revisions gives the first one of the version and of
/// the application, and gives none exactly if the page has none.
pub proof fn law_revision_search(revisions: Seq<RevisionItem>, version: Seq<char>, app_id: u128)
    ensures
        match first_revision(revisions, version, app_id) {
            Some(revision) => exists|i: int|
                0 <= i < revisions.len() && #[trigger] revisions[i] == revision && is_revision_of(
                    revision,
                    version, app_id,
                ) && forall|k: int|
                    0 <= k < i ==> !is_revision_of(#[trigger] revisions[k], version, app_id),
            None => forall|k: int|
                0 <= k < revisions.len() ==> !is_revision_of(#[trigger] revisions[k], version, app_id),
        },
    decreases revisions.len(),
{
    if revisions.len() > 0 && !is_revision_of(revisions[0], version, app_id) {
        let rest = revisions.skip(1);
        law_revision_search(rest, version, app_id);
        match first_revision(rest, version, app_id) {
            Some(revision) => {
                let i = choose|i: int|
                    0 <= i < rest.len() && #[trigger] rest[i] == revision && is_revision_of(
                        revision,
                        version, app_id,
                    ) && forall|k: int|
                        0 <= k < i ==> !is_revision_of(#[trigger] rest[k], version, app_id);
                assert(revisions[i + 1] == revision);
                assert forall|k: int| 0 <= k < i + 1 implies !is_revision_of(
                    #[trigger] revisions[k],
                    version, app_id,
                ) by {
                    if k > 0 {
                        assert(!is_revision_of(rest[k - 1], version, app_id));
                    }
                }
            },
            None => {
                assert forall|k: int| 0 <= k < revisions.len() implies !is_revision_of(
                    #[trigger] revisions[k],
                    version, app_id,
                ) by {
                    if k > 0 {
                        assert(!is_revision_of(rest[k - 1], version, app_id));
                    }
                }
            },
        }
    }
}

/// The search in a page of channels gives the first one of the application under
/// the name, and gives none exactly if the page has none.
pub proof fn law_channel_search(channels: Seq<ChannelItem>, name: Seq<char>, app_id: u128)
    ensures
        match first_channel(channels, name, app_id) {
            Some(channel) => exists|i: int|
                0 <= i < channels.len() && #[trigger] channels[i] == channel && is_channel_of(
                    channel,
                    name, app_id,
                ) && forall|k: int|
                    0 <= k < i ==> !is_channel_of(#[trigger] channels[k], name, app_id),
            None => forall|k: int|
                0 <= k < channels.len() ==> !is_channel_of(#[trigger] channels[k], name, app_id),
        },
    decreases channels.len(),
{
    if channels.len() > 0 && !is_channel_of(channels[0], name, app_id) {
        let rest = channels.skip(1);
        law_channel_search(rest, name, app_id);
        match first_channel(rest, name, app_id) {
            Some(channel) => {
                let i = choose|i: int|
                    0 <= i < rest.len() && #[trigger] rest[i] == channel && is_channel_of(
                        channel,
                        name, app_id,
                    ) && forall|k: int|
                        0 <= k < i ==> !is_channel_of(#[trigger] rest[k], name, app_id);
                assert(channels[i + 1] == channel);
                assert forall|k: int| 0 <= k < i + 1 implies !is_channel_of(
                    #[trigger] channels[k],
                    name, app_id,
                ) by {
                    if k > 0 {
                        assert(!is_channel_of(rest[k - 1], name, app_id));
                    }
                }
            },
            None => {
                assert forall|k: int| 0 <= k < channels.len() implies !is_channel_of(
                    #[trigger] channels[k],
                    name, app_id,
                ) by {
                    if k > 0 {
                        assert(!is_channel_of(rest[k - 1], name, app_id));
                    }
                }
            },
        }
    }
}

/// The application that is found is the first of the listed ones with exactly the
/// name.
pub proof fn law_the_app_of_the_name_is_found(apps: Seq<AppItem>, name: Seq<char>, i: int)
    requires
        0 <= i < apps.len(),
        apps[i].name@ == name,
        forall|k: int| 0 <= k < i ==> (#[trigger] apps[k]).name@ != name,
    ensures
        app_outcome(apps, name) == Ok::<u128, DeployError<Seq<char>>>(apps[i].id),
    decreases i,
{
    if i > 0 {
        assert(apps[0].name@ != name);
        let rest = apps.skip(1);
        assert forall|k: int| 0 <= k < i - 1 implies (#[trigger] rest[k]).name@ != name by {
            assert(apps[k + 1].name@ != name);
        }
        law_the_app_of_the_name_is_found(rest, name, i - 1);
    }
}

/// Without an application of the name the search says so.
pub proof fn law_an_unlisted_app_is_missing(apps: Seq<AppItem>, name: Seq<char>)
    requires
        forall|k: int| 0 <= k < apps.len() ==> (#[trigger] apps[k]).name@ != name,
    ensures
        app_outcome(apps, name) == Err::<u128, DeployError<Seq<char>>>(
            DeployError::NoSuchApp { name },
        ),
    decreases apps.len(),
{
    if apps.len() > 0 {
        assert(apps[0].name@ != name);
        let rest = apps.skip(1);
        assert forall|k: int| 0 <= k < rest.len() implies (#[trigger] rest[k]).name@ != name by {
            assert(apps[k + 1].name@ != name);
        }
        law_an_unlisted_app_is_missing(rest, name);
    }
}

proof fn lemma_revision_at(items: Seq<RevisionItem>, version: Seq<char>, app_id: u128, i: int)
    requires
        0 <= i < items.len(),
        items[i].revision_number@ == version && items[i].app_id == app_id,
        forall|k: int|
            0 <= k < i ==> (#[trigger] items[k]).revision_number@ != version || items[k].app_id
                != app_id,
    ensures
        first_revision(items, version, app_id) == Some(items[i]),
    decreases i,
{
    if i > 0 {
        assert(items[0].revision_number@ != version || items[0].app_id != app_id);
        let rest = items.skip(1);
        assert forall|k: int| 0 <= k < i - 1 implies (#[trigger] rest[k]).revision_number@
            != version || rest[k].app_id != app_id by {
            assert(items[k + 1].revision_number@ != version || items[k + 1].app_id != app_id);
        }
        lemma_revision_at(rest, version, app_id, i - 1);
    }
}

proof fn lemma_no_revision(items: Seq<RevisionItem>, version: Seq<char>, app_id: u128)
    requires
        forall|k: int|
            0 <= k < items.len() ==> (#[trigger] items[k]).revision_number@ != version
                || items[k].app_id != app_id,
    ensures
        first_revision(items, version, app_id) is None,
    decreases items.len(),
{
    if items.len() > 0 {
        assert(items[0].revision_number@ != version || items[0].app_id != app_id);
        let rest = items.skip(1);
        assert forall|k: int| 0 <= k < rest.len() implies (#[trigger] rest[k]).revision_number@
            != version || rest[k].app_id != app_id by {
            assert(items[k + 1].revision_number@ != version || items[k + 1].app_id != app_id);
        }
        lemma_no_revision(rest, version, app_id);
    }
}

/// The revision that is found is the first of the page that has both the version
/// and the application, whether or not it is the last page.
pub proof fn law_the_revision_of_the_version_is_found(
    page: Page<RevisionItem>,
    version: Seq<char>,
    app_id: u128,
    i: int,
)
    requires
        0 <= i < page.items@.len(),
        page.items@[i].revision_number@ == version && page.items@[i].app_id == app_id,
        forall|k: int|
            0 <= k < i ==> (#[trigger] page.items@[k]).revision_number@ != version
                || page.items@[k].app_id != app_id,
    ensures
        revision_search(page, version, app_id) == Search::<Seq<char>>::Found(page.items@[i].id),
{
    lemma_revision_at(page.items@, version, app_id, i);
}

/// A page without the revision is asked for again, unless it is the last one: then
/// the revision is missing.
pub proof fn law_an_unlisted_revision_is_missing(
    page: Page<RevisionItem>,
    version: Seq<char>,
    app_id: u128,
)
    requires
        forall|k: int|
            0 <= k < page.items@.len() ==> (#[trigger] page.items@[k]).revision_number@ != version
                || page.items@[k].app_id != app_id,
    ensures
        !page.is_last_page ==> revision_search(page, version, app_id) == Search::<
            Seq<char>,
        >::Again,
        page.is_last_page ==> revision_search(page, version, app_id) == Search::<
            Seq<char>,
        >::Missing(DeployError::NoSuchRevision { version, app_id }),
{
    lemma_no_revision(page.items@, version, app_id);
}

proof fn lemma_channel_at(items: Seq<ChannelItem>, name: Seq<char>, app_id: u128, i: int)
    requires
        0 <= i < items.len(),
        items[i].name@ == name && items[i].app_id == app_id,
        forall|k: int|
            0 <= k < i ==> (#[trigger] items[k]).name@ != name || items[k].app_id != app_id,
    ensures
        first_channel(items, name, app_id) == Some(items[i]),
    decreases i,
{
    if i > 0 {
        assert(items[0].name@ != name || items[0].app_id != app_id);
        let rest = items.skip(1);
        assert forall|k: int| 0 <= k < i - 1 implies (#[trigger] rest[k]).name@ != name
            || rest[k].app_id != app_id by {
            assert(items[k + 1].name@ != name || items[k + 1].app_id != app_id);
        }
        lemma_channel_at(rest, name, app_id, i - 1);
    }
}

proof fn lemma_no_channel(items: Seq<ChannelItem>, name: Seq<char>, app_id: u128)
    requires
        forall|k: int|
            0 <= k < items.len() ==> (#[trigger] items[k]).name@ != name || items[k].app_id
                != app_id,
    ensures
        first_channel(items, name, app_id) is None,
    decreases items.len(),
{
    if items.len() > 0 {
        assert(items[0].name@ != name || items[0].app_id != app_id);
        let rest = items.skip(1);
        assert forall|k: int| 0 <= k < rest.len() implies (#[trigger] rest[k]).name@ != name
            || rest[k].app_id != app_id by {
            assert(items[k + 1].name@ != name || items[k + 1].app_id != app_id);
        }
        lemma_no_channel(rest, name, app_id);
    }
}

/// The channel that is found is the first of the page that has both the name and
/// the application, whether or not it is the last page.
pub proof fn law_the_channel_of_the_name_is_found(
    page: Page<ChannelItem>,
    name: Seq<char>,
    app_id: u128,
    i: int,
)
    requires
        0 <= i < page.items@.len(),
        page.items@[i].name@ == name && page.items@[i].app_id == app_id,
        forall|k: int|
            0 <= k < i ==> (#[trigger] page.items@[k]).name@ != name || page.items@[k].app_id
                != app_id,
    ensures
        channel_search(page, name, app_id) == Search::<Seq<char>>::Found(page.items@[i].id),
{
    lemma_channel_at(page.items@, name, app_id, i);
}

/// A page without the channel is asked for again, unless it is the last one: then
/// the channel is missing.
pub proof fn law_an_unlisted_channel_is_missing(
    page: Page<ChannelItem>,
    name: Seq<char>,
    app_id: u128,
)
    requires
        forall|k: int|
            0 <= k < page.items@.len() ==> (#[trigger] page.items@[k]).name@ != name
                || page.items@[k].app_id != app_id,
    ensures
        !page.is_last_page ==> channel_search(page, name, app_id) == Search::<Seq<char>>::Again,
        page.is_last_page ==> channel_search(page, name, app_id) == Search::<Seq<char>>::Missing(
            DeployError::NoSuchChannel { app_id, name },
        ),
{
    lemma_no_channel(page.items@, name, app_id);
}

} // verus!
