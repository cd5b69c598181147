//! Scope logic: normalization, the registry of feature areas, matching of
//! scopes against requests, the coarse role, and the permissions per feature
//! area that the web application shows.

use vstd::hash_map::StringHashMap;
use vstd::prelude::*;

use crate::text;

verus! {

/// The OIDC standard scopes, which carry no permission.
pub open spec fn is_standard_scope(s: Seq<char>) -> bool {
    ||| s == "openid"@
    ||| s == "profile"@
    ||| s == "email"@
    ||| s == "address"@
    ||| s == "phone"@
    ||| s == "offline_access"@
    ||| s == "roles"@
    ||| s == "groups"@
    ||| s == "urn:loggto"@
}

/// The texts of `list` that are not standard scopes, each where it first
/// occurs.
pub open spec fn kept(list: Seq<Seq<char>>) -> Seq<Seq<char>>
    decreases list.len(),
{
    if list.len() == 0 {
        seq![]
    } else {
        let earlier = kept(list.drop_last());
        if is_standard_scope(list.last()) || earlier.contains(list.last()) {
            earlier
        } else {
            earlier.push(list.last())
        }
    }
}

/// The scopes that the `scope` field of a token response grants.
pub open spec fn normalized(raw: Seq<char>) -> Seq<Seq<char>> {
    kept(text::words(raw))
}

/// The feature area of a type of resource.
pub open spec fn feature_of(resource: Seq<char>) -> Option<Seq<char>> {
    if resource == "dashboard"@ || resource == "dfolder"@ {
        Some("dashboards"@)
    } else if resource == "alert"@ || resource == "destinations"@ || resource == "destination"@
        || resource == "templates"@ || resource == "template"@ || resource == "afolder"@ {
        Some("alerts"@)
    } else if resource == "stream"@ {
        Some("streams"@)
    } else if resource == "search"@ || resource == "query"@ {
        Some("search"@)
    } else if resource == "pipeline"@ {
        Some("pipelines"@)
    } else if resource == "function"@ {
        Some("functions"@)
    } else if resource == "logs"@ || resource == "metrics"@ || resource == "traces"@ {
        Some("ingestion"@)
    } else if resource == "report"@ {
        Some("reports"@)
    } else if resource == "user"@ || resource == "role"@ || resource == "group"@ || resource
        == "organization"@ || resource == "org"@ {
        Some("iam"@)
    } else if resource == "settings"@ || resource == "sysinfo"@ || resource == "config"@ {
        Some("settings"@)
    } else {
        None
    }
}

/// The feature areas.
pub open spec fn is_area(area: Seq<char>) -> bool {
    ||| area == "dashboards"@
    ||| area == "alerts"@
    ||| area == "streams"@
    ||| area == "search"@
    ||| area == "pipelines"@
    ||| area == "functions"@
    ||| area == "ingestion"@
    ||| area == "reports"@
    ||| area == "iam"@
    ||| area == "settings"@
}

/// The HTTP methods that an action of a scope authorizes.
pub open spec fn methods_of(action: Seq<char>) -> Seq<Seq<char>> {
    if action == "read"@ {
        seq!["GET"@]
    } else if action == "create"@ {
        seq!["POST"@]
    } else if action == "update"@ {
        seq!["PUT"@, "PATCH"@]
    } else if action == "delete"@ {
        seq!["DELETE"@]
    } else {
        seq![]
    }
}

/// The area that a scope names: what stands before its first colon.
pub open spec fn scope_area(scope: Seq<char>) -> Seq<char> {
    text::before(scope, ':')
}

/// The action that a scope names, where it names one.
pub open spec fn scope_action(scope: Seq<char>) -> Option<Seq<char>> {
    text::after(scope, ':')
}

/// Whether a scope authorizes a method, given in upper case, on an area.
pub open spec fn authorizes(scope: Seq<char>, feature: Seq<char>, method: Seq<char>) -> bool {
    ||| scope == "*"@
    ||| {
        &&& scope_area(scope) == feature
        &&& match scope_action(scope) {
            None => true,
            Some(action) => action == "*"@ || methods_of(action).contains(method),
        }
    }
}

/// Whether one of the scopes authorizes a method, given in upper case.
pub open spec fn any_authorizes(
    scopes: Seq<Seq<char>>,
    feature: Seq<char>,
    method: Seq<char>,
) -> bool {
    exists|i: int| 0 <= i < scopes.len() && authorizes(#[trigger] scopes[i], feature, method)
}

/// The decision on a request whose method is given in upper case.
pub open spec fn permitted(
    is_root: bool,
    logto_enabled: bool,
    is_public_or_self_service: bool,
    o2_type: Seq<char>,
    method: Seq<char>,
    scopes: Option<Seq<Seq<char>>>,
    unmapped_policy_allow: bool,
) -> bool {
    if is_root || !logto_enabled || is_public_or_self_service {
        true
    } else {
        match feature_of(text::before(o2_type, ':')) {
            Some(feature) => match scopes {
                Some(s) => any_authorizes(s, feature, method),
                None => false,
            },
            None => unmapped_policy_allow,
        }
    }
}

/// The scopes whose holder is an administrator.
pub open spec fn is_admin_scope(s: Seq<char>) -> bool {
    ||| s == "*"@
    ||| s == "iam"@
    ||| s == "settings"@
    ||| "iam:"@.is_prefix_of(s)
    ||| "settings:"@.is_prefix_of(s)
}

/// Whether one of the scopes makes its holder an administrator.
pub open spec fn is_admin(scopes: Seq<Seq<char>>) -> bool {
    exists|i: int| 0 <= i < scopes.len() && is_admin_scope(#[trigger] scopes[i])
}

/// The actions that exist on every area, in the order in which they are shown.
pub open spec fn all_actions() -> Seq<Seq<char>> {
    seq!["read"@, "create"@, "update"@, "delete"@]
}

/// The actions that the action part of a scope stands for: all of them where
/// it is absent or `*`, and none where it is not a known action.
pub open spec fn expand_action(action: Option<Seq<char>>) -> Seq<Seq<char>> {
    match action {
        None => all_actions(),
        Some(a) => if a == "*"@ {
            all_actions()
        } else if all_actions().contains(a) {
            seq![a]
        } else {
            seq![]
        },
    }
}

/// `entry` followed by those of `actions` that it lacks.
pub open spec fn merged(entry: Seq<Seq<char>>, actions: Seq<Seq<char>>) -> Seq<Seq<char>>
    decreases actions.len(),
{
    if actions.len() == 0 {
        entry
    } else {
        let earlier = merged(entry, actions.drop_last());
        if earlier.contains(actions.last()) {
            earlier
        } else {
            earlier.push(actions.last())
        }
    }
}

/// The permissions after one more scope.
pub open spec fn with_scope(
    permissions: Map<Seq<char>, Seq<Seq<char>>>,
    scope: Seq<char>,
) -> Map<Seq<char>, Seq<Seq<char>>> {
    let area = scope_area(scope);
    let actions = expand_action(scope_action(scope));
    if !is_area(area) || actions.len() == 0 {
        permissions
    } else {
        let entry = if permissions.contains_key(area) {
            permissions[area]
        } else {
            seq![]
        };
        permissions.insert(area, merged(entry, actions))
    }
}

/// The permitted actions per feature area that a list of scopes grants.
pub open spec fn permissions_of(scopes: Seq<Seq<char>>) -> Map<Seq<char>, Seq<Seq<char>>>
    decreases scopes.len(),
{
    if scopes.len() == 0 {
        Map::empty()
    } else {
        with_scope(permissions_of(scopes.drop_last()), scopes.last())
    }
}

/// The texts that a map from texts to lists of strings holds.
pub open spec fn list_texts(map: Map<Seq<char>, Vec<String>>) -> Map<Seq<char>, Seq<Seq<char>>> {
    map.map_values(|list: Vec<String>| text::texts(list@))
}

fn is_standard(s: &str) -> (r: bool)
    ensures
        r == is_standard_scope(s@),
{
    text::same(s, "openid") || text::same(s, "profile") || text::same(s, "email") || text::same(
        s,
        "address",
    ) || text::same(s, "phone") || text::same(s, "offline_access") || text::same(s, "roles")
        || text::same(s, "groups") || text::same(s, "urn:loggto")
}

/// The scopes of the `scope` field of a token response: its words, without the
/// OIDC standard scopes and without repetitions, in order.
pub fn normalize_scopes(raw: &str) -> (r: Vec<String>)
    ensures
        text::texts(r@) == normalized(raw@),
{
    let list = text::split_whitespace(raw);
    let mut out: Vec<String> = Vec::new();
    let ghost all = text::words(raw@);
    let mut i: usize = 0;
    proof {
        assert(all.take(0) =~= seq![]);
        assert(text::texts(out@) =~= seq![]);
    }
    while i < list.len()
        invariant
            i <= list.len(),
            text::texts(list@) == all,
            text::texts(out@) == kept(all.take(i as int)),
        decreases list.len() - i,
    {
        let word = list[i].as_str();
        proof {
            assert(all[i as int] == word@);
            assert(all.take(i + 1).drop_last() =~= all.take(i as int));
            assert(all.take(i + 1).last() == word@);
        }
        if !is_standard(word) && !text::contains_text(&out, word) {
            let ghost earlier = text::texts(out@);
            out.push(word.to_string());
            proof {
                assert(text::texts(out@) =~= earlier.push(word@));
            }
        }
        i += 1;
    }
    proof {
        assert(all.take(i as int) =~= all);
    }
    out
}

/// The HTTP methods that an action of a scope authorizes.
pub fn action_methods(action: &str) -> (r: Vec<String>)
    ensures
        text::texts(r@) == methods_of(action@),
{
    let mut out: Vec<String> = Vec::new();
    if text::same(action, "read") {
        out.push("GET".to_string());
    } else if text::same(action, "create") {
        out.push("POST".to_string());
    } else if text::same(action, "update") {
        out.push("PUT".to_string());
        out.push("PATCH".to_string());
    } else if text::same(action, "delete") {
        out.push("DELETE".to_string());
    }
    assert(text::texts(out@) =~= methods_of(action@));
    out
}

fn registry_lookup(resource: &str) -> (r: Option<&'static str>)
    ensures
        text::opt_str(r) == feature_of(resource@),
{
    if text::same(resource, "dashboard") || text::same(resource, "dfolder") {
        Some("dashboards")
    } else if text::same(resource, "alert") || text::same(resource, "destinations") || text::same(
        resource,
        "destination",
    ) || text::same(resource, "templates") || text::same(resource, "template") || text::same(
        resource,
        "afolder",
    ) {
        Some("alerts")
    } else if text::same(resource, "stream") {
        Some("streams")
    } else if text::same(resource, "search") || text::same(resource, "query") {
        Some("search")
    } else if text::same(resource, "pipeline") {
        Some("pipelines")
    } else if text::same(resource, "function") {
        Some("functions")
    } else if text::same(resource, "logs") || text::same(resource, "metrics") || text::same(
        resource,
        "traces",
    ) {
        Some("ingestion")
    } else if text::same(resource, "report") {
        Some("reports")
    } else if text::same(resource, "user") || text::same(resource, "role") || text::same(
        resource,
        "group",
    ) || text::same(resource, "organization") || text::same(resource, "org") {
        Some("iam")
    } else if text::same(resource, "settings") || text::same(resource, "sysinfo") || text::same(
        resource,
        "config",
    ) {
        Some("settings")
    } else {
        None
    }
}

/// The feature area of a resource such as `dashboard:<id>`, by what stands
/// before its first colon. `None` for a type of resource that is not mapped.
pub fn resolve_feature(o2_type: &str) -> (r: Option<&'static str>)
    ensures
        text::opt_str(r) == feature_of(text::before(o2_type@, ':')),
{
    let (resource, _) = text::split_at_first(o2_type, ':');
    registry_lookup(resource)
}

/// Whether a scope authorizes a method, given in upper case, on an area.
pub fn scope_authorizes_method(scope: &str, feature: &str, method: &str) -> (r: bool)
    ensures
        r == authorizes(scope@, feature@, method@),
{
    if text::same(scope, "*") {
        return true;
    }
    let (area, action) = text::split_at_first(scope, ':');
    if !text::same(area, feature) {
        return false;
    }
    match action {
        None => true,
        Some(action) => text::same(action, "*") || text::contains_text(
            &action_methods(action),
            method,
        ),
    }
}

/// Whether a scope authorizes a method on an area:
/// - `*` authorizes everything;
/// - `<area>` and `<area>:*` authorize every method on the area;
/// - `<area>:<action>` authorizes the methods of the action.
///
/// The case of the letters of `method` does not matter.
pub fn scope_authorizes(scope: &str, feature: &str, method: &str) -> (r: bool)
    ensures
        r == authorizes(scope@, feature@, crate::letter_case::folded_uppercase(method@)),
        crate::letter_case::is_ascii_text(method@) ==> r == authorizes(
            scope@,
            feature@,
            crate::letter_case::ascii_uppercase(method@),
        ),
{
    scope_authorizes_method(scope, feature, crate::letter_case::to_folded_uppercase(method).as_str())
}

/// Whether one of the scopes authorizes a method, given in upper case.
pub fn any_scope_authorizes_method(scopes: &[String], feature: &str, method: &str) -> (r: bool)
    ensures
        r == any_authorizes(text::texts(scopes@), feature@, method@),
        r == exists|i: int|
            0 <= i < scopes@.len() && authorizes(#[trigger] scopes@[i]@, feature@, method@),
{
    let mut i: usize = 0;
    while i < scopes.len()
        invariant
            i <= scopes.len(),
            forall|j: int| 0 <= j < i ==> !authorizes(#[trigger] scopes@[j]@, feature@, method@),
        decreases scopes.len() - i,
    {
        if scope_authorizes_method(scopes[i].as_str(), feature, method) {
            assert(text::texts(scopes@)[i as int] == scopes@[i as int]@);
            return true;
        }
        i += 1;
    }
    assert forall|j: int| 0 <= j < scopes@.len() implies !authorizes(
        #[trigger] text::texts(scopes@)[j],
        feature@,
        method@,
    ) by {
        assert(text::texts(scopes@)[j] == scopes@[j]@);
    }
    false
}

/// Whether one of the scopes authorizes a method on an area.
pub fn any_scope_authorizes(scopes: &[String], feature: &str, method: &str) -> (r: bool)
    ensures
        r == any_authorizes(
            text::texts(scopes@),
            feature@,
            crate::letter_case::folded_uppercase(method@),
        ),
        crate::letter_case::is_ascii_text(method@) ==> r == any_authorizes(
            text::texts(scopes@),
            feature@,
            crate::letter_case::ascii_uppercase(method@),
        ),
{
    any_scope_authorizes_method(scopes, feature, crate::letter_case::to_folded_uppercase(method).as_str())
}

/// The decision on a request, in this order:
/// 1. the root user is allowed;
/// 2. everybody is allowed while Logto is disabled;
/// 3. public and self-service endpoints are allowed;
/// 4. on a mapped feature the scopes decide;
/// 5. on a mapped feature, without known scopes, the request is denied;
/// 6. on an unmapped route the policy for such routes decides.
pub fn evaluate_permission(
    is_root: bool,
    logto_enabled: bool,
    is_public_or_self_service: bool,
    o2_type: &str,
    method: &str,
    scopes: Option<&[String]>,
    unmapped_policy_allow: bool,
) -> (r: bool)
    ensures
        r == permitted(
            is_root,
            logto_enabled,
            is_public_or_self_service,
            o2_type@,
            crate::letter_case::folded_uppercase(method@),
            slice_texts(scopes),
            unmapped_policy_allow,
        ),
        crate::letter_case::is_ascii_text(method@) ==> r == permitted(
            is_root,
            logto_enabled,
            is_public_or_self_service,
            o2_type@,
            crate::letter_case::ascii_uppercase(method@),
            slice_texts(scopes),
            unmapped_policy_allow,
        ),
{
    if is_root {
        return true;
    }
    if !logto_enabled {
        return true;
    }
    if is_public_or_self_service {
        return true;
    }
    match resolve_feature(o2_type) {
        Some(feature) => match scopes {
            Some(s) => any_scope_authorizes(s, feature, method),
            None => false,
        },
        None => unmapped_policy_allow,
    }
}

/// The texts that an optional list of strings holds.
pub open spec fn slice_texts(list: Option<&[String]>) -> Option<Seq<Seq<char>>> {
    match list {
        Some(s) => Some(text::texts(s@)),
        None => None,
    }
}

fn makes_admin(s: &str) -> (r: bool)
    ensures
        r == is_admin_scope(s@),
{
    text::same(s, "*") || text::same(s, "iam") || text::same(s, "settings") || text::starts_with(
        s,
        "iam:",
    ) || text::starts_with(s, "settings:")
}

/// The coarse role: `admin` for the holder of a scope on `iam` or `settings`
/// or of `*`, and `member` for everybody else.
pub fn derive_role(scopes: &[String]) -> (r: &'static str)
    ensures
        r@ == if is_admin(text::texts(scopes@)) {
            "admin"@
        } else {
            "member"@
        },
{
    let mut i: usize = 0;
    while i < scopes.len()
        invariant
            i <= scopes.len(),
            forall|j: int| 0 <= j < i ==> !is_admin_scope(#[trigger] scopes@[j]@),
        decreases scopes.len() - i,
    {
        if makes_admin(scopes[i].as_str()) {
            assert(text::texts(scopes@)[i as int] == scopes@[i as int]@);
            return "admin";
        }
        i += 1;
    }
    assert forall|j: int| 0 <= j < scopes@.len() implies !is_admin_scope(
        #[trigger] text::texts(scopes@)[j],
    ) by {
        assert(text::texts(scopes@)[j] == scopes@[j]@);
    }
    "member"
}

fn is_known_area(area: &str) -> (r: bool)
    ensures
        r == is_area(area@),
{
    text::same(area, "dashboards") || text::same(area, "alerts") || text::same(area, "streams")
        || text::same(area, "search") || text::same(area, "pipelines") || text::same(
        area,
        "functions",
    ) || text::same(area, "ingestion") || text::same(area, "reports") || text::same(area, "iam")
        || text::same(area, "settings")
}

fn every_action() -> (r: Vec<String>)
    ensures
        text::texts(r@) == all_actions(),
{
    let mut out: Vec<String> = Vec::new();
    out.push("read".to_string());
    out.push("create".to_string());
    out.push("update".to_string());
    out.push("delete".to_string());
    assert(text::texts(out@) =~= all_actions());
    out
}

fn expanded(action: Option<&str>) -> (r: Vec<String>)
    ensures
        text::texts(r@) == expand_action(text::opt_str(action)),
{
    let all = every_action();
    match action {
        None => all,
        Some(a) => {
            if text::same(a, "*") {
                all
            } else {
                let mut out: Vec<String> = Vec::new();
                if text::contains_text(&all, a) {
                    out.push(a.to_string());
                }
                assert(text::texts(out@) =~= expand_action(Some(a@)));
                out
            }
        },
    }
}

fn merge_actions(entry: &mut Vec<String>, actions: &Vec<String>)
    ensures
        text::texts(final(entry)@) == merged(text::texts(old(entry)@), text::texts(actions@)),
{
    let ghost start = text::texts(entry@);
    let ghost all = text::texts(actions@);
    let mut i: usize = 0;
    proof {
        assert(all.take(0) =~= seq![]);
    }
    while i < actions.len()
        invariant
            i <= actions.len(),
            all == text::texts(actions@),
            text::texts(entry@) == merged(start, all.take(i as int)),
        decreases actions.len() - i,
    {
        let action = actions[i].as_str();
        proof {
            assert(all[i as int] == action@);
            assert(all.take(i + 1).drop_last() =~= all.take(i as int));
        }
        if !text::contains_text(entry, action) {
            let ghost earlier = text::texts(entry@);
            entry.push(action.to_string());
            proof {
                assert(text::texts(entry@) =~= earlier.push(action@));
            }
        }
        i += 1;
    }
    proof {
        assert(all.take(i as int) =~= all);
    }
}

/// A list of strings with the same texts.
pub fn copy_texts(list: &Vec<String>) -> (r: Vec<String>)
    ensures
        text::texts(r@) == text::texts(list@),
{
    let mut out: Vec<String> = Vec::new();
    let mut i: usize = 0;
    while i < list.len()
        invariant
            i <= list.len(),
            out@.len() == i,
            forall|j: int| 0 <= j < i ==> (#[trigger] out@[j])@ == list@[j]@,
        decreases list.len() - i,
    {
        out.push(list[i].clone());
        i += 1;
    }
    assert(text::texts(out@) =~= text::texts(list@));
    out
}

/// The permitted actions per feature area, as the web application shows them.
/// A scope on a whole area stands for every action; a scope on an unknown area
/// or with an unknown action stands for none.
pub fn feature_permissions(scopes: &[String]) -> (r: StringHashMap<Vec<String>>)
    ensures
        list_texts(r@) == permissions_of(text::texts(scopes@)),
{
    let mut out: StringHashMap<Vec<String>> = StringHashMap::new();
    let ghost all = text::texts(scopes@);
    let mut i: usize = 0;
    proof {
        assert(all.take(0) =~= seq![]);
        assert(list_texts(out@) =~= Map::empty());
    }
    while i < scopes.len()
        invariant
            i <= scopes.len(),
            all == text::texts(scopes@),
            list_texts(out@) == permissions_of(all.take(i as int)),
        decreases scopes.len() - i,
    {
        let scope = scopes[i].as_str();
        let (area, action) = text::split_at_first(scope, ':');
        proof {
            assert(all[i as int] == scope@);
            assert(all.take(i + 1).drop_last() =~= all.take(i as int));
            assert(all.take(i + 1).last() == scope@);
        }
        let ghost earlier = list_texts(out@);
        if is_known_area(area) {
            let actions = expanded(action);
            assert(text::texts(actions@).len() == actions@.len());
            if actions.len() > 0 {
                let mut entry: Vec<String> = match out.get(area) {
                    Some(list) => copy_texts(list),
                    None => Vec::new(),
                };
                proof {
                    if earlier.contains_key(area@) {
                        assert(text::texts(entry@) == earlier[area@]);
                    } else {
                        assert(text::texts(entry@) =~= seq![]);
                    }
                }
                merge_actions(&mut entry, &actions);
                out.insert(area.to_string(), entry);
                proof {
                    assert(list_texts(out@) =~= earlier.insert(area@, text::texts(entry@)));
                }
            }
        }
        i += 1;
    }
    proof {
        assert(all.take(i as int) =~= all);
    }
    out
}

} // verus!
