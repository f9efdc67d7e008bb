//! The list of an application's routes.

use vstd::prelude::*;
use vstd::string::*;

use crate::manifest::Component;
use crate::text::{law_one_trailing_character_goes, strip_trailing, without_trailing};
use crate::web_url::Url;

verus! {

/// The lines about one component: its route behind the prefix, then its
/// description. A component without a route has none.
pub open spec fn component_lines(route_prefix: Seq<char>, component: Component) -> Seq<Seq<char>> {
    match component.route {
        Some(route) => {
            let line = "  "@ + component.id@ + ": "@ + route_prefix + route@;
            match component.description {
                Some(description) => seq![line, "    "@ + description@],
                None => seq![line],
            }
        },
        None => Seq::empty(),
    }
}

/// The lines about some components, in their order.
pub open spec fn all_lines(route_prefix: Seq<char>, components: Seq<Component>) -> Seq<Seq<char>>
    decreases components.len(),
{
    if components.len() == 0 {
        Seq::empty()
    } else {
        all_lines(route_prefix, components.drop_last()) + component_lines(
            route_prefix,
            components.last(),
        )
    }
}

/// The list of an application's routes. The prefix of each route is the base
/// URL without its trailing slash.
pub open spec fn route_lines(app_base_url: Seq<char>, components: Seq<Component>) -> Seq<
    Seq<char>,
> {
    if components.len() == 0 {
        Seq::empty()
    } else {
        seq!["Available Routes:"@] + all_lines(without_trailing(app_base_url, '/'), components)
    }
}

/// The list of an application's routes, line by line.
pub fn available_routes(app_base_url: &Url, components: &Vec<Component>) -> (lines: Vec<String>)
    ensures
        lines.deep_view() == route_lines(app_base_url@.0, components@),
{
    let mut lines: Vec<String> = Vec::new();
    if components.len() == 0 {
        assert(lines.deep_view() =~= Seq::<Seq<char>>::empty());
        return lines;
    }
    let route_prefix = strip_trailing(app_base_url.as_str(), '/');
    lines.push("Available Routes:".to_owned());
    let ghost head = seq!["Available Routes:"@];
    let mut i: usize = 0;
    assert(components@.take(0) == Seq::<Component>::empty());
    assert(lines.deep_view() =~= head + all_lines(route_prefix@, components@.take(0)));
    while i < components.len()
        invariant
            i <= components@.len(),
            lines.deep_view() == head + all_lines(route_prefix@, components@.take(i as int)),
        decreases components@.len() - i,
    {
        let component = &components[i];
        let ghost before = lines.deep_view();
        if let Some(route) = &component.route {
            let line = "  ".to_owned().concat(component.id.as_str()).concat(": ").concat(
                route_prefix.as_str(),
            ).concat(route.as_str());
            lines.push(line);
            if let Some(description) = &component.description {
                lines.push("    ".to_owned().concat(description.as_str()));
            }
        }
        assert(lines.deep_view() =~= before + component_lines(route_prefix@, *component));
        i += 1;
        assert(components@.take(i as int).drop_last() == components@.take(i - 1));
        assert(head + all_lines(route_prefix@, components@.take(i as int)) =~= before
            + component_lines(route_prefix@, *component));
    }
    assert(components@.take(components@.len() as int) == components@);
    lines
}

/// A component with a route is listed: the line with its route is in the list.
pub proof fn law_every_route_is_listed(
    app_base_url: Seq<char>,
    components: Seq<Component>,
    i: int,
)
    requires
        0 <= i < components.len(),
        components[i].route is Some,
    ensures
        route_lines(app_base_url, components).contains(
            "  "@ + components[i].id@ + ": "@ + without_trailing(app_base_url, '/')
                + components[i].route->0@,
        ),
{
    let prefix = without_trailing(app_base_url, '/');
    lemma_listed(prefix, components, i);
    let line = "  "@ + components[i].id@ + ": "@ + prefix + components[i].route->0@;
    let lines = all_lines(prefix, components);
    let k = choose|k: int| 0 <= k < lines.len() && lines[k] == line;
    assert(route_lines(app_base_url, components)[k + 1] == line);
}

proof fn lemma_listed(prefix: Seq<char>, components: Seq<Component>, i: int)
    requires
        0 <= i < components.len(),
        components[i].route is Some,
    ensures
        all_lines(prefix, components).contains(
            "  "@ + components[i].id@ + ": "@ + prefix + components[i].route->0@,
        ),
    decreases components.len(),
{
    let line = "  "@ + components[i].id@ + ": "@ + prefix + components[i].route->0@;
    let front = all_lines(prefix, components.drop_last());
    let own = component_lines(prefix, components.last());
    if i == components.len() - 1 {
        assert(own[0] == line);
        assert((front + own)[front.len() as int] == line);
    } else {
        lemma_listed(prefix, components.drop_last(), i);
        let k = choose|k: int| 0 <= k < front.len() && front[k] == line;
        assert((front + own)[k] == line);
    }
}

/// Every line below the heading is about a component with a route.
pub proof fn law_only_routes_are_listed(
    app_base_url: Seq<char>,
    components: Seq<Component>,
    k: int,
)
    requires
        1 <= k < route_lines(app_base_url, components).len(),
    ensures
        exists|i: int|
            0 <= i < components.len() && (#[trigger] components[i]).route is Some
                && component_lines(
                without_trailing(app_base_url, '/'),
                components[i],
            ).contains(route_lines(app_base_url, components)[k]),
{
    let prefix = without_trailing(app_base_url, '/');
    let i = lemma_line_of(prefix, components, k - 1);
    assert(route_lines(app_base_url, components)[k] == all_lines(prefix, components)[k - 1]);
    assert(components[i].route is Some);
}

/// The component that a line is about.
proof fn lemma_line_of(prefix: Seq<char>, components: Seq<Component>, k: int) -> (i: int)
    requires
        0 <= k < all_lines(prefix, components).len(),
    ensures
        0 <= i < components.len(),
        components[i].route is Some,
        component_lines(prefix, components[i]).contains(all_lines(prefix, components)[k]),
    decreases components.len(),
{
    let front = all_lines(prefix, components.drop_last());
    if k < front.len() {
        lemma_line_of(prefix, components.drop_last(), k)
    } else {
        let own = component_lines(prefix, components.last());
        assert(own[k - front.len()] == all_lines(prefix, components)[k]);
        components.len() - 1
    }
}

/// One more component adds to the list, behind everything else, the line with its
/// route, if it has one, and then its description, if it has one too; the first
/// component brings the heading.
pub proof fn law_a_component_adds_its_lines(
    app_base_url: Seq<char>,
    route_prefix: Seq<char>,
    components: Seq<Component>,
    component: Component,
)
    requires
        app_base_url == route_prefix.push('/') || (app_base_url == route_prefix && (
        route_prefix.len() == 0 || route_prefix[route_prefix.len() - 1] != '/')),
    ensures
        route_lines(app_base_url, Seq::empty()).len() == 0,
        ({
            let before = if components.len() == 0 {
                seq!["Available Routes:"@]
            } else {
                route_lines(app_base_url, components)
            };
            let after = route_lines(app_base_url, components.push(component));
            match component.route {
                None => after == before,
                Some(route) => {
                    let line = "  "@ + component.id@ + ": "@ + route_prefix + route@;
                    match component.description {
                        None => after == before.push(line),
                        Some(description) => after == before.push(line).push(
                            "    "@ + description@,
                        ),
                    }
                },
            }
        }),
{
    law_one_trailing_character_goes(route_prefix, '/');
    assert(components.push(component).drop_last() =~= components);
    assert(without_trailing(app_base_url, '/') == route_prefix);
    let heading = seq!["Available Routes:"@];
    let front = all_lines(route_prefix, components);
    let own = component_lines(route_prefix, component);
    let after = route_lines(app_base_url, components.push(component));
    assert(after == heading + (front + own));
    assert(after =~= heading + front + own);
    if components.len() == 0 {
        assert(heading + front =~= heading);
    }
    match component.route {
        None => {
            assert(heading + front + own =~= heading + front);
        },
        Some(route) => {
            let line = "  "@ + component.id@ + ": "@ + route_prefix + route@;
            match component.description {
                None => {
                    assert(heading + front + own =~= (heading + front).push(line));
                },
                Some(description) => {
                    assert(heading + front + own =~= (heading + front).push(line).push(
                        "    "@ + description@,
                    ));
                },
            }
        },
    }
}

} // verus!
