//! Laws of authorization: what scopes permit, whom a request is refused, and what
//! the web application is told.

use vstd::prelude::*;

#[allow(unused_imports)]
use crate::letter_case;
#[allow(unused_imports)]
use crate::scope_store;
#[allow(unused_imports)]
use crate::scopes;
#[allow(unused_imports)]
use crate::text;

verus! {

/// Whether every scope of a list is also in another list.
pub open spec fn all_in(list: Seq<Seq<char>>, other: Seq<Seq<char>>) -> bool {
    forall|i: int| 0 <= i < list.len() ==> other.contains(#[trigger] list[i])
}

proof fn lemma_first_index_exists(s: Seq<char>, c: char)
    requires
        s.contains(c),
    ensures
        exists|i: int| #[trigger] text::is_first_index(s, c, i),
    decreases s.len(),
{
    if s[0] == c {
        assert(text::is_first_index(s, c, 0));
    } else {
        let k = choose|k: int| 0 <= k < s.len() && s[k] == c;
        assert(s.skip(1)[k - 1] == c);
        lemma_first_index_exists(s.skip(1), c);
        let i = choose|i: int| #[trigger] text::is_first_index(s.skip(1), c, i);
        assert(s[i + 1] == s.skip(1)[i]);
        assert forall|j: int| 0 <= j < i + 1 implies s[j] != c by {
            if j > 0 {
                assert(s[j] == s.skip(1)[j - 1]);
            }
        }
        assert(text::is_first_index(s, c, i + 1));
    }
}

/// A scope is its area, or begins with its area and a colon.
pub proof fn lemma_scope_shape(scope: Seq<char>)
    ensures
        scopes::scope_action(scope) is None ==> scope == scopes::scope_area(scope),
        scopes::scope_action(scope) matches Some(action) ==> scope == scopes::scope_area(scope)
            + seq![':'] + action,
{
    if scope.contains(':') {
        lemma_first_index_exists(scope, ':');
        let i = choose|i: int| #[trigger] text::is_first_index(scope, ':', i);
        text::lemma_split_at_first(scope, ':', i);
        assert(scope =~= scope.take(i) + seq![':'] + scope.skip(i + 1));
    } else {
        text::lemma_no_split(scope, ':');
    }
}

/// What follows an area and a colon is the action of a scope.
proof fn lemma_area_and_action(area: Seq<char>, action: Seq<char>)
    requires
        !area.contains(':'),
    ensures
        scopes::scope_area(area + ":"@ + action) == area,
        scopes::scope_action(area + ":"@ + action) == Some(action),
        area + ":"@ + action != "*"@,
{
    reveal_strlit(":");
    reveal_strlit("*");
    let s = area + ":"@ + action;
    let i = area.len() as int;
    assert(s[i] == ':');
    assert forall|j: int| 0 <= j < i implies s[j] != ':' by {
        assert(s[j] == area[j]);
        assert(area.contains(area[j]));
    }
    text::lemma_split_at_first(s, ':', i);
    assert(s.take(i) =~= area);
    assert(s.skip(i + 1) =~= action);
    if s == "*"@ {
        assert(s[0] == '*');
    }
}

/// The scope `*` authorizes everything.
pub proof fn law_global_scope(feature: Seq<char>, method: Seq<char>)
    ensures
        scopes::authorizes("*"@, feature, method),
{
}

/// The scopes `<area>` and `<area>:*` authorize every method on the area and
/// nothing on another.
pub proof fn law_whole_area(area: Seq<char>, feature: Seq<char>, method: Seq<char>)
    requires
        !area.contains(':'),
        area != "*"@,
    ensures
        scopes::authorizes(area, feature, method) <==> area == feature,
        scopes::authorizes(area + ":"@ + "*"@, feature, method) <==> area == feature,
{
    text::lemma_no_split(area, ':');
    lemma_area_and_action(area, "*"@);
}

/// The scope `<area>:<action>` authorizes on its area, and on no other, exactly
/// the methods of the action; an unknown action has none.
pub proof fn law_area_action(
    area: Seq<char>,
    action: Seq<char>,
    feature: Seq<char>,
    method: Seq<char>,
)
    requires
        !area.contains(':'),
        action != "*"@,
    ensures
        scopes::authorizes(area + ":"@ + action, feature, method) <==> area == feature
            && scopes::methods_of(action).contains(method),
        !scopes::all_actions().contains(action) ==> !scopes::authorizes(
            area + ":"@ + action,
            feature,
            method,
        ),
{
    lemma_area_and_action(area, action);
    let all = scopes::all_actions();
    assert(all[0] == "read"@ && all[1] == "create"@ && all[2] == "update"@ && all[3] == "delete"@);
    if !all.contains(action) {
        assert(scopes::methods_of(action) =~= seq![]);
    }
}

/// The case of the letters of a method does not matter: methods that differ only in
/// the case of ASCII letters are authorized alike, and get the same decision.
pub proof fn law_method_case(
    scope: Seq<char>,
    held: Seq<Seq<char>>,
    feature: Seq<char>,
    is_root: bool,
    enabled: bool,
    public: bool,
    o2_type: Seq<char>,
    known: Option<Seq<Seq<char>>>,
    policy: bool,
    method: Seq<char>,
    other: Seq<char>,
)
    requires
        letter_case::ascii_lowercase(method) == letter_case::ascii_lowercase(other),
    ensures
        ({
            let m = letter_case::folded_uppercase(method);
            let n = letter_case::folded_uppercase(other);
            &&& scopes::authorizes(scope, feature, m) == scopes::authorizes(scope, feature, n)
            &&& scopes::any_authorizes(held, feature, m) == scopes::any_authorizes(held, feature, n)
            &&& scopes::permitted(is_root, enabled, public, o2_type, m, known, policy)
                == scopes::permitted(is_root, enabled, public, o2_type, n, known, policy)
        }),
{
    letter_case::law_folded_uppercase_ignores_ascii_case(method, other);
}

/// The decision of [`scopes::permitted`] follows the documented order.
pub proof fn law_decision_order(
    o2_type: Seq<char>,
    method: Seq<char>,
    held: Option<Seq<Seq<char>>>,
    enabled: bool,
    public: bool,
    policy: bool,
)
    ensures
        // the root user is allowed, always
        scopes::permitted(true, enabled, public, o2_type, method, held, policy),
        // everybody is allowed while the integration is disabled
        scopes::permitted(false, false, public, o2_type, method, held, policy),
        // public and self-service endpoints are allowed
        scopes::permitted(false, true, true, o2_type, method, held, policy),
        // on a mapped feature, unknown scopes are a denial, whatever the policy
        scopes::feature_of(text::before(o2_type, ':')) is Some ==> !scopes::permitted(
            false,
            true,
            false,
            o2_type,
            method,
            None,
            policy,
        ),
        // on a mapped feature, the scopes decide, whatever the policy
        scopes::feature_of(text::before(o2_type, ':')) matches Some(feature) ==> (held matches Some(
            list,
        ) ==> scopes::permitted(false, true, false, o2_type, method, held, policy)
            == scopes::any_authorizes(list, feature, method)),
        // on an unmapped route, the policy decides, whatever the scopes
        scopes::feature_of(text::before(o2_type, ':')) is None ==> scopes::permitted(
            false,
            true,
            false,
            o2_type,
            method,
            held,
            policy,
        ) == policy,
{
}

/// More scopes never take a permission away: neither a method on an area, nor a
/// decision, nor the role of an administrator. So neither the order of scopes nor
/// their repetition matters.
pub proof fn law_more_scopes_permit_more(
    fewer: Seq<Seq<char>>,
    more: Seq<Seq<char>>,
    feature: Seq<char>,
    o2_type: Seq<char>,
    method: Seq<char>,
    policy: bool,
)
    requires
        all_in(fewer, more),
    ensures
        scopes::any_authorizes(fewer, feature, method) ==> scopes::any_authorizes(
            more,
            feature,
            method,
        ),
        scopes::permitted(false, true, false, o2_type, method, Some(fewer), policy)
            ==> scopes::permitted(false, true, false, o2_type, method, Some(more), policy),
        scopes::is_admin(fewer) ==> scopes::is_admin(more),
{
    lemma_more_authorize_more(fewer, more, feature, method);
    match scopes::feature_of(text::before(o2_type, ':')) {
        Some(area) => {
            lemma_more_authorize_more(fewer, more, area, method);
        },
        None => {},
    }
    if scopes::is_admin(fewer) {
        let i = choose|i: int|
            0 <= i < fewer.len() && scopes::is_admin_scope(#[trigger] fewer[i]);
        assert(more.contains(fewer[i]));
        let j = choose|j: int| 0 <= j < more.len() && more[j] == fewer[i];
        assert(scopes::is_admin_scope(more[j]));
    }
}

proof fn lemma_more_authorize_more(
    fewer: Seq<Seq<char>>,
    more: Seq<Seq<char>>,
    feature: Seq<char>,
    method: Seq<char>,
)
    requires
        all_in(fewer, more),
    ensures
        scopes::any_authorizes(fewer, feature, method) ==> scopes::any_authorizes(
            more,
            feature,
            method,
        ),
{
    if scopes::any_authorizes(fewer, feature, method) {
        let i = choose|i: int|
            0 <= i < fewer.len() && scopes::authorizes(#[trigger] fewer[i], feature, method);
        assert(more.contains(fewer[i]));
        let j = choose|j: int| 0 <= j < more.len() && more[j] == fewer[i];
        assert(scopes::authorizes(more[j], feature, method));
    }
}

/// Who may do anything on the users or the settings is an administrator.
pub proof fn law_management_needs_admin(held: Seq<Seq<char>>, method: Seq<char>)
    ensures
        scopes::any_authorizes(held, "iam"@, method) ==> scopes::is_admin(held),
        scopes::any_authorizes(held, "settings"@, method) ==> scopes::is_admin(held),
{
    reveal_strlit("iam");
    reveal_strlit("settings");
    reveal_strlit("iam:");
    reveal_strlit("settings:");
    assert("iam:"@ =~= "iam"@ + seq![':']);
    assert("settings:"@ =~= "settings"@ + seq![':']);
    if scopes::any_authorizes(held, "iam"@, method) {
        let i = choose|i: int|
            0 <= i < held.len() && scopes::authorizes(#[trigger] held[i], "iam"@, method);
        lemma_scope_shape(held[i]);
        assert(scopes::is_admin_scope(held[i]));
    }
    if scopes::any_authorizes(held, "settings"@, method) {
        let i = choose|i: int|
            0 <= i < held.len() && scopes::authorizes(#[trigger] held[i], "settings"@, method);
        lemma_scope_shape(held[i]);
        assert(scopes::is_admin_scope(held[i]));
    }
}

proof fn lemma_standard_scope_authorizes_nothing(
    scope: Seq<char>,
    feature: Seq<char>,
    method: Seq<char>,
)
    requires
        scopes::is_standard_scope(scope),
        scopes::is_area(feature),
    ensures
        !scopes::authorizes(scope, feature, method),
{
    reveal_strlit("openid");
    reveal_strlit("profile");
    reveal_strlit("email");
    reveal_strlit("address");
    reveal_strlit("phone");
    reveal_strlit("offline_access");
    reveal_strlit("roles");
    reveal_strlit("groups");
    reveal_strlit("urn:loggto");
    reveal_strlit("dashboards");
    reveal_strlit("alerts");
    reveal_strlit("streams");
    reveal_strlit("search");
    reveal_strlit("pipelines");
    reveal_strlit("functions");
    reveal_strlit("ingestion");
    reveal_strlit("reports");
    reveal_strlit("iam");
    reveal_strlit("settings");
    reveal_strlit("*");
    let area = scopes::scope_area(scope);
    if scope == "urn:loggto"@ {
        assert(text::is_first_index(scope, ':', 3));
        text::lemma_split_at_first(scope, ':', 3);
        assert(area.len() == 3 && area[0] == 'u');
        assert("iam"@[0] == 'i');
    } else {
        assert(!scope.contains(':'));
        text::lemma_no_split(scope, ':');
        assert(area == scope);
        assert("openid"@[0] == 'o');
        assert("profile"@[0] == 'p');
        assert("address"@[0] == 'a');
        assert("groups"@[0] == 'g');
        assert("alerts"@[0] == 'a');
        assert("streams"@[0] == 's');
        assert("search"@[0] == 's');
        assert("reports"@[0] == 'r');
        assert(area != feature);
    }
}

/// The OIDC standard scopes carry no permission, and repetitions add none: a
/// normalized field authorizes what its words authorize.
pub proof fn law_normalization_keeps_permissions(
    raw: Seq<char>,
    feature: Seq<char>,
    method: Seq<char>,
)
    requires
        scopes::is_area(feature),
    ensures
        scopes::any_authorizes(text::words(raw), feature, method) == scopes::any_authorizes(
            scopes::normalized(raw),
            feature,
            method,
        ),
{
    let list = text::words(raw);
    let r = scopes::normalized(raw);
    if scopes::any_authorizes(list, feature, method) {
        let i = choose|i: int|
            0 <= i < list.len() && scopes::authorizes(#[trigger] list[i], feature, method);
        if scopes::is_standard_scope(list[i]) {
            lemma_standard_scope_authorizes_nothing(list[i], feature, method);
        }
        crate::scope_laws::law_normalized_scopes(raw, list[i]);
        assert(r.contains(list[i]));
        let j = choose|j: int| 0 <= j < r.len() && r[j] == list[i];
        assert(scopes::authorizes(r[j], feature, method));
    }
    if scopes::any_authorizes(r, feature, method) {
        let j = choose|j: int|
            0 <= j < r.len() && scopes::authorizes(#[trigger] r[j], feature, method);
        crate::scope_laws::law_normalized_scopes(raw, r[j]);
        assert(r.contains(r[j]));
        let i = choose|i: int| 0 <= i < list.len() && list[i] == r[j];
        assert(scopes::authorizes(list[i], feature, method));
    }
}

/// The scopes that the provider granted decide: once the normalized `scope` field
/// of a token response is in the cache, a user who is not root gets on a mapped
/// feature exactly what the words of the field authorize.
pub proof fn law_granted_scopes_decide(
    cache: Map<Seq<char>, Seq<Seq<char>>>,
    email: Seq<char>,
    granted: Seq<char>,
    o2_type: Seq<char>,
    method: Seq<char>,
    policy: bool,
)
    requires
        scopes::feature_of(text::before(o2_type, ':')) is Some,
    ensures
        ({
            let stored = scope_store::with_scopes(cache, email, scopes::normalized(granted));
            let held = scope_store::cached_scopes(stored, email);
            scopes::permitted(false, true, false, o2_type, method, held, policy)
                == scopes::any_authorizes(
                text::words(granted),
                scopes::feature_of(text::before(o2_type, ':'))->0,
                method,
            )
        }),
{
    let feature = scopes::feature_of(text::before(o2_type, ':'))->0;
    crate::scope_laws::law_areas_are_registered(feature);
    law_normalization_keeps_permissions(granted, feature, method);
}

/// Whether a scope grants an action on an area by name; the scope `*` names no
/// area.
pub open spec fn grants(scope: Seq<char>, area: Seq<char>, action: Seq<char>) -> bool {
    &&& scopes::is_area(area)
    &&& scopes::scope_area(scope) == area
    &&& scopes::expand_action(scopes::scope_action(scope)).contains(action)
}

/// Whether one of the scopes grants an action on an area by name.
pub open spec fn any_grants(held: Seq<Seq<char>>, area: Seq<char>, action: Seq<char>) -> bool {
    exists|i: int| 0 <= i < held.len() && grants(#[trigger] held[i], area, action)
}

/// Whether the permissions show an action on an area.
pub open spec fn shows(
    permissions: Map<Seq<char>, Seq<Seq<char>>>,
    area: Seq<char>,
    action: Seq<char>,
) -> bool {
    permissions.contains_key(area) && permissions[area].contains(action)
}

pub proof fn lemma_merged(entry: Seq<Seq<char>>, actions: Seq<Seq<char>>, action: Seq<char>)
    ensures
        scopes::merged(entry, actions).contains(action) <==> entry.contains(action)
            || actions.contains(action),
        entry.no_duplicates() ==> scopes::merged(entry, actions).no_duplicates(),
    decreases actions.len(),
{
    if actions.len() > 0 {
        let fewer = actions.drop_last();
        let last = actions.last();
        let m = scopes::merged(entry, fewer);
        let r = scopes::merged(entry, actions);
        lemma_merged(entry, fewer, action);
        lemma_merged(entry, fewer, last);
        assert(actions.contains(action) <==> fewer.contains(action) || action == last) by {
            if fewer.contains(action) {
                let i = choose|i: int| 0 <= i < fewer.len() && fewer[i] == action;
                assert(actions[i] == action);
            }
            if action == last {
                assert(actions[actions.len() - 1] == action);
            }
            if actions.contains(action) {
                let i = choose|i: int| 0 <= i < actions.len() && actions[i] == action;
                if i < fewer.len() {
                    assert(fewer[i] == action);
                }
            }
        }
        if !m.contains(last) {
            assert(r == m.push(last));
            assert(r.contains(action) <==> m.contains(action) || action == last) by {
                if m.contains(action) {
                    let i = choose|i: int| 0 <= i < m.len() && m[i] == action;
                    assert(r[i] == action);
                }
                if action == last {
                    assert(r[m.len() as int] == action);
                }
            }
            if entry.no_duplicates() {
                assert forall|i: int, j: int|
                    0 <= i < r.len() && 0 <= j < r.len() && i != j implies r[i] != r[j] by {
                    if i < m.len() && j < m.len() {
                        assert(m[i] != m[j]);
                    } else if i < m.len() {
                        assert(m.contains(m[i]));
                    } else {
                        assert(m.contains(m[j]));
                    }
                }
            }
        }
    }
}

proof fn lemma_any_grants_step(held: Seq<Seq<char>>, area: Seq<char>, action: Seq<char>)
    requires
        held.len() > 0,
    ensures
        any_grants(held, area, action) <==> any_grants(held.drop_last(), area, action) || grants(
            held.last(),
            area,
            action,
        ),
{
    let fewer = held.drop_last();
    if any_grants(fewer, area, action) {
        let i = choose|i: int| 0 <= i < fewer.len() && grants(#[trigger] fewer[i], area, action);
        assert(grants(held[i], area, action));
    }
    if grants(held.last(), area, action) {
        assert(grants(held[held.len() - 1], area, action));
    }
    if any_grants(held, area, action) {
        let i = choose|i: int| 0 <= i < held.len() && grants(#[trigger] held[i], area, action);
        if i < fewer.len() {
            assert(grants(fewer[i], area, action));
        }
    }
}

/// The permissions show exactly the actions that some scope grants by name: only
/// known areas, only known actions, and none twice.
pub proof fn law_permissions_show_grants(held: Seq<Seq<char>>, area: Seq<char>, action: Seq<char>)
    ensures
        shows(scopes::permissions_of(held), area, action) <==> any_grants(held, area, action),
        shows(scopes::permissions_of(held), area, action) ==> scopes::is_area(area)
            && scopes::all_actions().contains(action),
        scopes::permissions_of(held).contains_key(area) ==> scopes::permissions_of(
            held,
        )[area].no_duplicates(),
    decreases held.len(),
{
    if held.len() > 0 {
        let fewer = held.drop_last();
        let p = scopes::permissions_of(fewer);
        let scope = held.last();
        let actions = scopes::expand_action(scopes::scope_action(scope));
        law_permissions_show_grants(fewer, area, action);
        lemma_any_grants_step(held, area, action);
        if scopes::is_area(scopes::scope_area(scope)) && actions.len() > 0 && area
            == scopes::scope_area(scope) {
            let entry = if p.contains_key(area) {
                p[area]
            } else {
                seq![]
            };
            lemma_merged(entry, actions, action);
        }
        lemma_expanded_actions(scopes::scope_action(scope), action);
    }
}

proof fn lemma_expanded_actions(part: Option<Seq<char>>, action: Seq<char>)
    ensures
        scopes::expand_action(part).contains(action) ==> scopes::all_actions().contains(action),
{
}

proof fn lemma_action_of_method(action: Seq<char>, method: Seq<char>)
    requires
        scopes::methods_of(action).contains(method),
    ensures
        ({
            ||| action == "read"@ && method == "GET"@
            ||| action == "create"@ && method == "POST"@
            ||| action == "update"@ && (method == "PUT"@ || method == "PATCH"@)
            ||| action == "delete"@ && method == "DELETE"@
        }),
{
    let list = scopes::methods_of(action);
    let i = choose|i: int| 0 <= i < list.len() && list[i] == method;
    if action == "read"@ {
        assert(list =~= seq!["GET"@]);
    } else if action == "create"@ {
        assert(list =~= seq!["POST"@]);
    } else if action == "update"@ {
        assert(list =~= seq!["PUT"@, "PATCH"@]);
    } else if action == "delete"@ {
        assert(list =~= seq!["DELETE"@]);
    } else {
        assert(list.len() == 0);
    }
}

/// The methods of the actions are all different, so that a method stands for one
/// action.
proof fn lemma_method_names_action(action: Seq<char>, other: Seq<char>, method: Seq<char>)
    requires
        scopes::methods_of(action).contains(method),
        scopes::methods_of(other).contains(method),
    ensures
        action == other,
{
    reveal_strlit("GET");
    reveal_strlit("POST");
    reveal_strlit("PUT");
    reveal_strlit("PATCH");
    reveal_strlit("DELETE");
    assert("GET"@[0] == 'G');
    assert("PUT"@[0] == 'P');
    assert("GET"@.len() == 3 && "POST"@.len() == 4 && "PUT"@.len() == 3);
    assert("PATCH"@.len() == 5 && "DELETE"@.len() == 6);
    lemma_action_of_method(action, method);
    lemma_action_of_method(other, method);
}

/// The web application is told what requests get: an action that the permissions
/// show is authorized on its area, and without the scope `*` an authorized action
/// is shown.
pub proof fn law_permissions_agree_with_authorization(
    held: Seq<Seq<char>>,
    area: Seq<char>,
    action: Seq<char>,
    method: Seq<char>,
)
    requires
        scopes::is_area(area),
        scopes::methods_of(action).contains(method),
    ensures
        shows(scopes::permissions_of(held), area, action) ==> scopes::any_authorizes(
            held,
            area,
            method,
        ),
        scopes::any_authorizes(held, area, method) && !held.contains("*"@) ==> shows(
            scopes::permissions_of(held),
            area,
            action,
        ),
{
    law_permissions_show_grants(held, area, action);
    let all = scopes::all_actions();
    assert(all[0] == "read"@ && all[1] == "create"@ && all[2] == "update"@ && all[3] == "delete"@);
    assert(all.contains(action));
    if shows(scopes::permissions_of(held), area, action) {
        let i = choose|i: int| 0 <= i < held.len() && grants(#[trigger] held[i], area, action);
        match scopes::scope_action(held[i]) {
            Some(a) => {
                if a != "*"@ {
                    assert(scopes::expand_action(Some(a)) == seq![a] || scopes::expand_action(
                        Some(a),
                    ).len() == 0);
                    assert(a == action);
                }
            },
            None => {},
        }
        assert(scopes::authorizes(held[i], area, method));
    }
    if scopes::any_authorizes(held, area, method) && !held.contains("*"@) {
        let i = choose|i: int|
            0 <= i < held.len() && scopes::authorizes(#[trigger] held[i], area, method);
        assert(held.contains(held[i]));
        match scopes::scope_action(held[i]) {
            Some(a) => {
                if a != "*"@ {
                    lemma_method_names_action(a, action, method);
                    assert(seq![a][0] == action);
                    assert(scopes::expand_action(Some(a)).contains(action));
                }
            },
            None => {},
        }
        assert(grants(held[i], area, action));
    }
}

} // verus!
