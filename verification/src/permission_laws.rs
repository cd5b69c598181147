//! What the permissions per feature area are, by the scopes they come from.

use vstd::prelude::*;

#[allow(unused_imports)]
use crate::access_laws;
#[allow(unused_imports)]
use crate::scopes;
#[allow(unused_imports)]
use crate::text;
#[allow(unused_imports)]
use crate::text_laws;

verus! {

/// An action is shown on an area exactly if both are known and some scope is the area,
/// the area with `*`, or the area with the action. An area is a key exactly if some
/// action is shown on it.
pub proof fn law_permissions_by_scopes(held: Seq<Seq<char>>, area: Seq<char>, action: Seq<char>)
    ensures
        ({
            let shown = scopes::permissions_of(held);
            &&& (shown.contains_key(area) && shown[area].contains(action)) <==> {
                &&& seq![
                    "dashboards"@,
                    "alerts"@,
                    "streams"@,
                    "search"@,
                    "pipelines"@,
                    "functions"@,
                    "ingestion"@,
                    "reports"@,
                    "iam"@,
                    "settings"@,
                ].contains(area)
                &&& seq!["read"@, "create"@, "update"@, "delete"@].contains(action)
                &&& exists|s: Seq<char>|
                    {
                        &&& #[trigger] held.contains(s)
                        &&& s == area || s == area + seq![':'] + "*"@ || s == area + seq![':']
                            + action
                    }
            }
            &&& shown.contains_key(area) ==> shown[area].len() > 0 && shown[area].no_duplicates()
        }),
{
    let shown = scopes::permissions_of(held);
    access_laws::law_permissions_show_grants(held, area, action);
    lemma_known_areas(area);
    lemma_no_empty_entry(held, area);
    if shown.contains_key(area) && shown[area].contains(action) {
        let i = choose|i: int|
            0 <= i < held.len() && access_laws::grants(#[trigger] held[i], area, action);
        lemma_grants(held[i], area, action);
        assert(held.contains(held[i]));
    }
    if seq![
        "dashboards"@,
        "alerts"@,
        "streams"@,
        "search"@,
        "pipelines"@,
        "functions"@,
        "ingestion"@,
        "reports"@,
        "iam"@,
        "settings"@,
    ].contains(area) && seq!["read"@, "create"@, "update"@, "delete"@].contains(action) {
        assert forall|s: Seq<char>| #[trigger] held.contains(s) && (s == area || s == area + seq![
            ':',
        ] + "*"@ || s == area + seq![':'] + action) implies access_laws::any_grants(
            held,
            area,
            action,
        ) by {
            lemma_grants(s, area, action);
            let i = choose|i: int| 0 <= i < held.len() && held[i] == s;
            assert(access_laws::grants(held[i], area, action));
        }
    }
}

proof fn lemma_known_areas(area: Seq<char>)
    ensures
        scopes::is_area(area) <==> seq![
            "dashboards"@,
            "alerts"@,
            "streams"@,
            "search"@,
            "pipelines"@,
            "functions"@,
            "ingestion"@,
            "reports"@,
            "iam"@,
            "settings"@,
        ].contains(area),
        scopes::is_area(area) ==> !area.contains(':'),
{
    let areas = seq![
        "dashboards"@,
        "alerts"@,
        "streams"@,
        "search"@,
        "pipelines"@,
        "functions"@,
        "ingestion"@,
        "reports"@,
        "iam"@,
        "settings"@,
    ];
    assert(areas[0] == "dashboards"@ && areas[1] == "alerts"@ && areas[2] == "streams"@ && areas[3]
        == "search"@ && areas[4] == "pipelines"@ && areas[5] == "functions"@ && areas[6]
        == "ingestion"@ && areas[7] == "reports"@ && areas[8] == "iam"@ && areas[9]
        == "settings"@);
    reveal_strlit("dashboards");
    reveal_strlit("alerts");
    reveal_strlit("streams");
    reveal_strlit("search");
    reveal_strlit("pipelines");
    reveal_strlit("functions");
    reveal_strlit("ingestion");
    reveal_strlit("reports");
    reveal_strlit("iam");
    reveal_strlit("settings");
}

proof fn lemma_grants(scope: Seq<char>, area: Seq<char>, action: Seq<char>)
    ensures
        scopes::is_area(area) && seq!["read"@, "create"@, "update"@, "delete"@].contains(action)
            ==> (access_laws::grants(scope, area, action) <==> scope == area || scope == area
            + seq![':'] + "*"@ || scope == area + seq![':'] + action),
        access_laws::grants(scope, area, action) ==> scopes::is_area(area) && seq![
            "read"@,
            "create"@,
            "update"@,
            "delete"@,
        ].contains(action),
{
    lemma_known_areas(area);
    access_laws::lemma_scope_shape(scope);
    let four = seq!["read"@, "create"@, "update"@, "delete"@];
    assert(scopes::all_actions() =~= four);
    if scopes::is_area(area) {
        text_laws::law_no_split_without_separator(area, ':');
        text_laws::law_split_undoes_join(area, ':', "*"@);
        text_laws::law_split_undoes_join(area, ':', action);
        match scopes::scope_action(scope) {
            Some(a) => {
                assert(seq![a][0] == a);
                if scopes::scope_area(scope) == area {
                    assert(scope == area + seq![':'] + a);
                }
            },
            None => {},
        }
        assert(seq![action][0] == action);
    }
    match scopes::scope_action(scope) {
        Some(a) => {
            assert(seq![a][0] == a);
        },
        None => {},
    }
}

proof fn lemma_no_empty_entry(held: Seq<Seq<char>>, area: Seq<char>)
    ensures
        scopes::permissions_of(held).contains_key(area) ==> scopes::permissions_of(held)[area].len()
            > 0,
    decreases held.len(),
{
    if held.len() > 0 {
        let fewer = held.drop_last();
        lemma_no_empty_entry(fewer, area);
        let p = scopes::permissions_of(fewer);
        let actions = scopes::expand_action(scopes::scope_action(held.last()));
        let entry = if p.contains_key(scopes::scope_area(held.last())) {
            p[scopes::scope_area(held.last())]
        } else {
            seq![]
        };
        if actions.len() > 0 {
            access_laws::lemma_merged(entry, actions, actions[0]);
        }
    }
}

proof fn lemma_merged_order(entry: Seq<Seq<char>>, actions: Seq<Seq<char>>)
    ensures
        entry.is_prefix_of(scopes::merged(entry, actions)),
        forall|i: int, j: int|
            #![trigger scopes::merged(entry, actions)[i], scopes::merged(entry, actions)[j]]
            entry.len() <= i < j < scopes::merged(entry, actions).len() ==> exists|a: int, b: int|
                0 <= a < b < actions.len() && #[trigger] actions[a] == scopes::merged(
                    entry,
                    actions,
                )[i] && #[trigger] actions[b] == scopes::merged(entry, actions)[j],
        forall|i: int|
            entry.len() <= i < scopes::merged(entry, actions).len() ==> actions.contains(
                #[trigger] scopes::merged(entry, actions)[i],
            ),
    decreases actions.len(),
{
    let r = scopes::merged(entry, actions);
    if actions.len() > 0 {
        let fewer = actions.drop_last();
        let m = scopes::merged(entry, fewer);
        lemma_merged_order(entry, fewer);
        assert(entry =~= r.take(entry.len() as int)) by {
            assert(entry =~= m.take(entry.len() as int));
        }
        assert forall|i: int| entry.len() <= i < r.len() implies actions.contains(
            #[trigger] r[i],
        ) by {
            if i < m.len() {
                assert(r[i] == m[i]);
                assert(fewer.contains(m[i]));
                let a = choose|a: int| 0 <= a < fewer.len() && fewer[a] == m[i];
                assert(actions[a] == r[i]);
            } else {
                assert(actions[actions.len() - 1] == r[i]);
            }
        }
        assert forall|i: int, j: int|
            #![trigger r[i], r[j]]
            entry.len() <= i < j < r.len() implies exists|a: int, b: int|
            0 <= a < b < actions.len() && #[trigger] actions[a] == r[i] && #[trigger] actions[b]
                == r[j] by {
            assert(r[i] == m[i]);
            if j < m.len() {
                assert(r[j] == m[j]);
                let (a, b) = choose|a: int, b: int|
                    0 <= a < b < fewer.len() && #[trigger] fewer[a] == m[i] && #[trigger] fewer[b]
                        == m[j];
                assert(actions[a] == r[i] && actions[b] == r[j]);
            } else {
                assert(fewer.contains(m[i]));
                let a = choose|a: int| 0 <= a < fewer.len() && fewer[a] == m[i];
                assert(actions[a] == r[i] && actions[actions.len() - 1] == r[j]);
            }
        }
    } else {
        assert(entry =~= r.take(entry.len() as int));
    }
}

/// One more scope adds to the end of the entry of its area and leaves the others as
/// they are; what it adds stands in the order read, create, update, delete.
pub proof fn law_permissions_grow(
    held: Seq<Seq<char>>,
    scope: Seq<char>,
    area: Seq<char>,
    i: int,
    j: int,
)
    ensures
        ({
            let p = scopes::permissions_of(held);
            let q = scopes::permissions_of(held.push(scope));
            let four = seq!["read"@, "create"@, "update"@, "delete"@];
            let n = if p.contains_key(area) {
                p[area].len() as int
            } else {
                0
            };
            &&& p.contains_key(area) ==> q.contains_key(area) && p[area].is_prefix_of(q[area])
            &&& area != text::before(scope, ':') ==> p.contains_key(area) == q.contains_key(area)
                && (p.contains_key(area) ==> p[area] == q[area])
            &&& q.contains_key(area) && n <= i < j < q[area].len() ==> exists|a: int, b: int|
                0 <= a < b < 4 && #[trigger] four[a] == q[area][i] && #[trigger] four[b]
                    == q[area][j]
        }),
{
    let more = held.push(scope);
    assert(more.drop_last() =~= held);
    let p = scopes::permissions_of(held);
    let q = scopes::permissions_of(more);
    let four = seq!["read"@, "create"@, "update"@, "delete"@];
    assert(scopes::all_actions() =~= four);
    let own = scopes::scope_area(scope);
    let actions = scopes::expand_action(scopes::scope_action(scope));
    let entry = if p.contains_key(own) {
        p[own]
    } else {
        seq![]
    };
    lemma_merged_order(entry, actions);
    if p.contains_key(area) {
        assert(p[area] =~= p[area].take(p[area].len() as int));
    }
    let n = if p.contains_key(area) {
        p[area].len() as int
    } else {
        0
    };
    if q.contains_key(area) {
        let r = q[area];
        let changed = area == own && scopes::is_area(own) && actions.len() > 0;
        assert(changed ==> r == scopes::merged(entry, actions) && n == entry.len());
        assert(!changed ==> n == r.len());
        assert(actions.len() <= 1 || actions == four);
        if n <= i < j < r.len() {
            let m = scopes::merged(entry, actions);
            assert(m[i] == r[i] && m[j] == r[j]);
            let (a, b) = choose|a: int, b: int|
                0 <= a < b < actions.len() && #[trigger] actions[a] == m[i] && #[trigger] actions[b]
                    == m[j];
            assert(four[a] == r[i] && four[b] == r[j]);
        }
    }
}

} // verus!
