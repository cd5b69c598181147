//! What the registry, the actions and the roles are, scope by scope.

use vstd::prelude::*;

#[allow(unused_imports)]
use crate::access_laws;
#[allow(unused_imports)]
use crate::scope_laws;
#[allow(unused_imports)]
use crate::scopes;
#[allow(unused_imports)]
use crate::text;
#[allow(unused_imports)]
use crate::text_laws;

verus! {

proof fn lemma_areas_differ()
    ensures
        seq![
            "dashboards"@,
            "alerts"@,
            "streams"@,
            "search"@,
            "pipelines"@,
            "functions"@,
            "ingestion"@,
            "reports"@,
            "iam"@,
            "settings"@,
        ].no_duplicates(),
{
    reveal_strlit("dashboards");
    reveal_strlit("alerts");
    reveal_strlit("streams");
    reveal_strlit("search");
    reveal_strlit("pipelines");
    reveal_strlit("functions");
    reveal_strlit("ingestion");
    reveal_strlit("reports");
    reveal_strlit("iam");
    reveal_strlit("settings");
    assert("dashboards"@[0] == 'd');
    assert("alerts"@[0] == 'a');
    assert("streams"@[0] == 's' && "streams"@[1] == 't');
    assert("search"@[0] == 's' && "search"@[1] == 'e' && "search"@[2] == 'a');
    assert("pipelines"@[0] == 'p');
    assert("functions"@[0] == 'f');
    assert("ingestion"@[0] == 'i' && "ingestion"@[1] == 'n');
    assert("reports"@[0] == 'r');
    assert("iam"@[0] == 'i' && "iam"@[1] == 'a');
    assert("settings"@[0] == 's' && "settings"@[1] == 'e' && "settings"@[2] == 't');
}

proof fn lemma_resources_differ()
    ensures
        seq![
            "dashboard"@,
            "dfolder"@,
            "alert"@,
            "destinations"@,
            "destination"@,
            "templates"@,
            "template"@,
            "afolder"@,
            "stream"@,
            "search"@,
            "query"@,
            "pipeline"@,
            "function"@,
            "logs"@,
            "metrics"@,
            "traces"@,
            "report"@,
            "user"@,
            "role"@,
            "group"@,
            "organization"@,
            "org"@,
            "settings"@,
            "sysinfo"@,
            "config"@,
        ].no_duplicates(),
{
    reveal_strlit("dashboard");
    reveal_strlit("dfolder");
    reveal_strlit("alert");
    reveal_strlit("destinations");
    reveal_strlit("destination");
    reveal_strlit("templates");
    reveal_strlit("template");
    reveal_strlit("afolder");
    reveal_strlit("stream");
    reveal_strlit("search");
    reveal_strlit("query");
    reveal_strlit("pipeline");
    reveal_strlit("function");
    reveal_strlit("logs");
    reveal_strlit("metrics");
    reveal_strlit("traces");
    reveal_strlit("report");
    reveal_strlit("user");
    reveal_strlit("role");
    reveal_strlit("group");
    reveal_strlit("organization");
    reveal_strlit("org");
    reveal_strlit("settings");
    reveal_strlit("sysinfo");
    reveal_strlit("config");
    assert("dashboard"@.len() == 9 && "dashboard"@[0] == 'd' && "dashboard"@[1] == 'a' && "dashboard"@[2] == 's' && "dashboard"@[3] == 'h');
    assert("dfolder"@.len() == 7 && "dfolder"@[0] == 'd' && "dfolder"@[1] == 'f' && "dfolder"@[2] == 'o' && "dfolder"@[3] == 'l');
    assert("alert"@.len() == 5 && "alert"@[0] == 'a' && "alert"@[1] == 'l' && "alert"@[2] == 'e' && "alert"@[3] == 'r');
    assert("destinations"@.len() == 12 && "destinations"@[0] == 'd' && "destinations"@[1] == 'e' && "destinations"@[2] == 's' && "destinations"@[3] == 't');
    assert("destination"@.len() == 11 && "destination"@[0] == 'd' && "destination"@[1] == 'e' && "destination"@[2] == 's' && "destination"@[3] == 't');
    assert("templates"@.len() == 9 && "templates"@[0] == 't' && "templates"@[1] == 'e' && "templates"@[2] == 'm' && "templates"@[3] == 'p');
    assert("template"@.len() == 8 && "template"@[0] == 't' && "template"@[1] == 'e' && "template"@[2] == 'm' && "template"@[3] == 'p');
    assert("afolder"@.len() == 7 && "afolder"@[0] == 'a' && "afolder"@[1] == 'f' && "afolder"@[2] == 'o' && "afolder"@[3] == 'l');
    assert("stream"@.len() == 6 && "stream"@[0] == 's' && "stream"@[1] == 't' && "stream"@[2] == 'r' && "stream"@[3] == 'e');
    assert("search"@.len() == 6 && "search"@[0] == 's' && "search"@[1] == 'e' && "search"@[2] == 'a' && "search"@[3] == 'r');
    assert("query"@.len() == 5 && "query"@[0] == 'q' && "query"@[1] == 'u' && "query"@[2] == 'e' && "query"@[3] == 'r');
    assert("pipeline"@.len() == 8 && "pipeline"@[0] == 'p' && "pipeline"@[1] == 'i' && "pipeline"@[2] == 'p' && "pipeline"@[3] == 'e');
    assert("function"@.len() == 8 && "function"@[0] == 'f' && "function"@[1] == 'u' && "function"@[2] == 'n' && "function"@[3] == 'c');
    assert("logs"@.len() == 4 && "logs"@[0] == 'l' && "logs"@[1] == 'o' && "logs"@[2] == 'g' && "logs"@[3] == 's');
    assert("metrics"@.len() == 7 && "metrics"@[0] == 'm' && "metrics"@[1] == 'e' && "metrics"@[2] == 't' && "metrics"@[3] == 'r');
    assert("traces"@.len() == 6 && "traces"@[0] == 't' && "traces"@[1] == 'r' && "traces"@[2] == 'a' && "traces"@[3] == 'c');
    assert("report"@.len() == 6 && "report"@[0] == 'r' && "report"@[1] == 'e' && "report"@[2] == 'p' && "report"@[3] == 'o');
    assert("user"@.len() == 4 && "user"@[0] == 'u' && "user"@[1] == 's' && "user"@[2] == 'e' && "user"@[3] == 'r');
    assert("role"@.len() == 4 && "role"@[0] == 'r' && "role"@[1] == 'o' && "role"@[2] == 'l' && "role"@[3] == 'e');
    assert("group"@.len() == 5 && "group"@[0] == 'g' && "group"@[1] == 'r' && "group"@[2] == 'o' && "group"@[3] == 'u');
    assert("organization"@.len() == 12 && "organization"@[0] == 'o' && "organization"@[1] == 'r' && "organization"@[2] == 'g' && "organization"@[3] == 'a');
    assert("org"@.len() == 3 && "org"@[0] == 'o' && "org"@[1] == 'r' && "org"@[2] == 'g');
    assert("settings"@.len() == 8 && "settings"@[0] == 's' && "settings"@[1] == 'e' && "settings"@[2] == 't' && "settings"@[3] == 't');
    assert("sysinfo"@.len() == 7 && "sysinfo"@[0] == 's' && "sysinfo"@[1] == 'y' && "sysinfo"@[2] == 's' && "sysinfo"@[3] == 'i');
    assert("config"@.len() == 6 && "config"@[0] == 'c' && "config"@[1] == 'o' && "config"@[2] == 'n' && "config"@[3] == 'f');
}

/// Which resource types each feature area has; every other type is unmapped.
pub proof fn law_registry(resource: Seq<char>)
    ensures
        scopes::feature_of(resource) == Some("dashboards"@) <==> seq![
            "dashboard"@,
            "dfolder"@,
        ].contains(resource),
        scopes::feature_of(resource) == Some("alerts"@) <==> seq![
            "alert"@,
            "destinations"@,
            "destination"@,
            "templates"@,
            "template"@,
            "afolder"@,
        ].contains(resource),
        scopes::feature_of(resource) == Some("streams"@) <==> resource == "stream"@,
        scopes::feature_of(resource) == Some("search"@) <==> seq!["search"@, "query"@].contains(
            resource,
        ),
        scopes::feature_of(resource) == Some("pipelines"@) <==> resource == "pipeline"@,
        scopes::feature_of(resource) == Some("functions"@) <==> resource == "function"@,
        scopes::feature_of(resource) == Some("ingestion"@) <==> seq![
            "logs"@,
            "metrics"@,
            "traces"@,
        ].contains(resource),
        scopes::feature_of(resource) == Some("reports"@) <==> resource == "report"@,
        scopes::feature_of(resource) == Some("iam"@) <==> seq![
            "user"@,
            "role"@,
            "group"@,
            "organization"@,
            "org"@,
        ].contains(resource),
        scopes::feature_of(resource) == Some("settings"@) <==> seq![
            "settings"@,
            "sysinfo"@,
            "config"@,
        ].contains(resource),
        scopes::feature_of(resource) is Some ==> seq![
            "dashboards"@,
            "alerts"@,
            "streams"@,
            "search"@,
            "pipelines"@,
            "functions"@,
            "ingestion"@,
            "reports"@,
            "iam"@,
            "settings"@,
        ].contains(scopes::feature_of(resource)->0),
{
    lemma_areas_differ();
    lemma_resources_differ();
    let all = seq![
        "dashboard"@,
        "dfolder"@,
        "alert"@,
        "destinations"@,
        "destination"@,
        "templates"@,
        "template"@,
        "afolder"@,
        "stream"@,
        "search"@,
        "query"@,
        "pipeline"@,
        "function"@,
        "logs"@,
        "metrics"@,
        "traces"@,
        "report"@,
        "user"@,
        "role"@,
        "group"@,
        "organization"@,
        "org"@,
        "settings"@,
        "sysinfo"@,
        "config"@,
    ];
    assert(all[0] == "dashboard"@ && all[1] == "dfolder"@ && all[2] == "alert"@ && all[3] == "destinations"@ && all[4] == "destination"@ && all[5] == "templates"@ && all[6] == "template"@ && all[7] == "afolder"@ && all[8] == "stream"@ && all[9] == "search"@ && all[10] == "query"@ && all[11] == "pipeline"@ && all[12] == "function"@ && all[13] == "logs"@ && all[14] == "metrics"@ && all[15] == "traces"@ && all[16] == "report"@ && all[17] == "user"@ && all[18] == "role"@ && all[19] == "group"@ && all[20] == "organization"@ && all[21] == "org"@ && all[22] == "settings"@ && all[23] == "sysinfo"@ && all[24] == "config"@);
    let areas = seq![
        "dashboards"@,
        "alerts"@,
        "streams"@,
        "search"@,
        "pipelines"@,
        "functions"@,
        "ingestion"@,
        "reports"@,
        "iam"@,
        "settings"@,
    ];
    assert(areas[0] == "dashboards"@ && areas[1] == "alerts"@ && areas[2] == "streams"@ && areas[3]
        == "search"@ && areas[4] == "pipelines"@ && areas[5] == "functions"@ && areas[6]
        == "ingestion"@ && areas[7] == "reports"@ && areas[8] == "iam"@ && areas[9]
        == "settings"@);
    lemma_pair("dashboard"@, "dfolder"@, resource);
    lemma_pair("search"@, "query"@, resource);
    lemma_triple("logs"@, "metrics"@, "traces"@, resource);
    lemma_triple("settings"@, "sysinfo"@, "config"@, resource);
    let alerts = seq![
        "alert"@,
        "destinations"@,
        "destination"@,
        "templates"@,
        "template"@,
        "afolder"@,
    ];
    assert(alerts[0] == "alert"@ && alerts[1] == "destinations"@ && alerts[2] == "destination"@
        && alerts[3] == "templates"@ && alerts[4] == "template"@ && alerts[5] == "afolder"@);
    let users = seq!["user"@, "role"@, "group"@, "organization"@, "org"@];
    assert(users[0] == "user"@ && users[1] == "role"@ && users[2] == "group"@ && users[3]
        == "organization"@ && users[4] == "org"@);
}

proof fn lemma_pair(a: Seq<char>, b: Seq<char>, x: Seq<char>)
    ensures
        seq![a, b].contains(x) <==> x == a || x == b,
{
    assert(seq![a, b][0] == a && seq![a, b][1] == b);
}

proof fn lemma_triple(a: Seq<char>, b: Seq<char>, c: Seq<char>, x: Seq<char>)
    ensures
        seq![a, b, c].contains(x) <==> x == a || x == b || x == c,
{
    let s = seq![a, b, c];
    assert(s[0] == a && s[1] == b && s[2] == c);
}

/// The methods of each action: every other action has none.
pub proof fn law_methods_of_actions(action: Seq<char>)
    ensures
        action == "read"@ ==> scopes::methods_of(action) == seq!["GET"@],
        action == "create"@ ==> scopes::methods_of(action) == seq!["POST"@],
        action == "update"@ ==> scopes::methods_of(action) == seq!["PUT"@, "PATCH"@],
        action == "delete"@ ==> scopes::methods_of(action) == seq!["DELETE"@],
        !seq!["read"@, "create"@, "update"@, "delete"@].contains(action) ==> scopes::methods_of(
            action,
        ).len() == 0,
{
    reveal_strlit("read");
    reveal_strlit("create");
    reveal_strlit("update");
    reveal_strlit("delete");
    assert("read"@[0] == 'r' && "create"@[0] == 'c' && "update"@[0] == 'u' && "delete"@[0] == 'd');
    let all = seq!["read"@, "create"@, "update"@, "delete"@];
    assert(all[0] == "read"@ && all[1] == "create"@ && all[2] == "update"@ && all[3] == "delete"@);
}

/// A list of scopes authorizes a method exactly if some scope in it does so on its
/// own: two lists together authorize what either does, a list of one scope what the
/// scope does, and no scopes authorize nothing.
pub proof fn law_list_authorizes_by_its_scopes(
    a: Seq<Seq<char>>,
    b: Seq<Seq<char>>,
    scope: Seq<char>,
    feature: Seq<char>,
    method: Seq<char>,
)
    ensures
        scopes::any_authorizes(a, feature, method) <==> exists|s: Seq<char>|
            #[trigger] a.contains(s) && scopes::authorizes(s, feature, method),
        scopes::any_authorizes(a + b, feature, method) <==> scopes::any_authorizes(
            a,
            feature,
            method,
        ) || scopes::any_authorizes(b, feature, method),
        scopes::any_authorizes(seq![scope], feature, method) <==> scopes::authorizes(
            scope,
            feature,
            method,
        ),
        !scopes::any_authorizes(seq![], feature, method),
{
    if scopes::any_authorizes(a, feature, method) {
        let i = choose|i: int|
            0 <= i < a.len() && scopes::authorizes(#[trigger] a[i], feature, method);
        assert(a.contains(a[i]));
        assert((a + b)[i] == a[i]);
    }
    if exists|s: Seq<char>| #[trigger] a.contains(s) && scopes::authorizes(s, feature, method) {
        let s = choose|s: Seq<char>|
            #[trigger] a.contains(s) && scopes::authorizes(s, feature, method);
        let i = choose|i: int| 0 <= i < a.len() && a[i] == s;
        assert(scopes::authorizes(a[i], feature, method));
    }
    if scopes::any_authorizes(b, feature, method) {
        let i = choose|i: int|
            0 <= i < b.len() && scopes::authorizes(#[trigger] b[i], feature, method);
        assert((a + b)[a.len() + i] == b[i]);
    }
    if scopes::any_authorizes(a + b, feature, method) {
        let i = choose|i: int|
            0 <= i < (a + b).len() && scopes::authorizes(#[trigger] (a + b)[i], feature, method);
        if i < a.len() {
            assert(scopes::authorizes(a[i], feature, method));
        } else {
            assert(scopes::authorizes(b[i - a.len()], feature, method));
        }
    }
    if scopes::authorizes(scope, feature, method) {
        assert(scopes::authorizes(seq![scope][0], feature, method));
    }
}

/// Who holds `*` may do everything: every method on every feature area, on every
/// mapped resource, as an administrator.
pub proof fn law_star_permits_everything(
    held: Seq<Seq<char>>,
    feature: Seq<char>,
    o2_type: Seq<char>,
    method: Seq<char>,
    policy: bool,
)
    requires
        held.contains("*"@),
    ensures
        scopes::any_authorizes(held, feature, method),
        scopes::feature_of(text::before(o2_type, ':')) is Some ==> scopes::permitted(
            false,
            true,
            false,
            o2_type,
            method,
            Some(held),
            policy,
        ),
        scopes::is_admin(held),
{
    let i = choose|i: int| 0 <= i < held.len() && held[i] == "*"@;
    assert(scopes::authorizes(held[i], feature, method));
    assert(scopes::is_admin_scope(held[i]));
    match scopes::feature_of(text::before(o2_type, ':')) {
        Some(area) => {
            assert(scopes::authorizes(held[i], area, method));
        },
        None => {},
    }
}

/// What a scope authorizes, by its form: without a colon it is `*` or a whole area;
/// with a colon it is an area and `*` or one action.
pub proof fn law_scope_forms(
    area: Seq<char>,
    action: Seq<char>,
    feature: Seq<char>,
    method: Seq<char>,
)
    requires
        !area.contains(':'),
    ensures
        scopes::authorizes(area, feature, method) <==> area == "*"@ || area == feature,
        scopes::authorizes(area + seq![':'] + action, feature, method) <==> area == feature && (
        action == "*"@ || (action == "read"@ && method == "GET"@) || (action == "create"@ && method
            == "POST"@) || (action == "update"@ && (method == "PUT"@ || method == "PATCH"@)) || (
        action == "delete"@ && method == "DELETE"@)),
{
    let scope = area + seq![':'] + action;
    text_laws::law_no_split_without_separator(area, ':');
    text_laws::law_split_undoes_join(area, ':', action);
    law_methods_of_actions(action);
    reveal_strlit("*");
    assert(scope != "*"@) by {
        if scope == "*"@ {
            assert(scope[area.len() as int] == ':');
        }
    }
    let all = seq!["read"@, "create"@, "update"@, "delete"@];
    assert(all[0] == "read"@ && all[1] == "create"@ && all[2] == "update"@ && all[3] == "delete"@);
    if all.contains(action) {
        let i = choose|i: int| 0 <= i < all.len() && all[i] == action;
    }
    lemma_single("GET"@, method);
    lemma_single("POST"@, method);
    lemma_single("DELETE"@, method);
    lemma_pair("PUT"@, "PATCH"@, method);
    reveal_strlit("read");
    reveal_strlit("create");
    reveal_strlit("update");
    reveal_strlit("delete");
    assert("read"@[0] == 'r' && "create"@[0] == 'c' && "update"@[0] == 'u' && "delete"@[0] == 'd');
    assert("*"@[0] == '*');
}

proof fn lemma_single(a: Seq<char>, x: Seq<char>)
    ensures
        seq![a].contains(x) <==> x == a,
{
    assert(seq![a][0] == a);
}

/// An administrator holds `*`, or a scope whose area is `iam` or `settings`; a list of
/// scopes makes an administrator exactly if one of them does.
pub proof fn law_administrators(
    area: Seq<char>,
    action: Seq<char>,
    a: Seq<Seq<char>>,
    b: Seq<Seq<char>>,
    scope: Seq<char>,
)
    requires
        !area.contains(':'),
    ensures
        scopes::is_admin(seq![area]) <==> area == "*"@ || area == "iam"@ || area == "settings"@,
        scopes::is_admin(seq![area + seq![':'] + action]) <==> area == "iam"@ || area
            == "settings"@,
        scopes::is_admin(a + b) <==> scopes::is_admin(a) || scopes::is_admin(b),
        !scopes::is_admin(seq![]),
{
    reveal_strlit("iam");
    reveal_strlit("settings");
    reveal_strlit("iam:");
    reveal_strlit("settings:");
    reveal_strlit("*");
    let full = area + seq![':'] + action;
    assert("iam:"@ =~= "iam"@ + seq![':']);
    assert("settings:"@ =~= "settings"@ + seq![':']);
    lemma_prefix(area, action, "iam"@);
    lemma_prefix(area, action, "settings"@);
    assert(full[area.len() as int] == ':');
    assert(full != "*"@ && full != "iam"@ && full != "settings"@) by {
        if full == "*"@ || full == "iam"@ || full == "settings"@ {
            assert(full[area.len() as int] == ':');
        }
    }
    assert(scopes::is_admin_scope(area) <==> area == "*"@ || area == "iam"@ || area
        == "settings"@) by {
        if "iam:"@.is_prefix_of(area) {
            assert(area[3] == "iam:"@[3]);
            assert(area.contains(area[3]));
        }
        if "settings:"@.is_prefix_of(area) {
            assert(area[8] == "settings:"@[8]);
            assert(area.contains(area[8]));
        }
    }
    assert(seq![area][0] == area);
    assert(seq![full][0] == full);
    if scopes::is_admin(a) {
        let i = choose|i: int| 0 <= i < a.len() && scopes::is_admin_scope(#[trigger] a[i]);
        assert((a + b)[i] == a[i]);
    }
    if scopes::is_admin(b) {
        let i = choose|i: int| 0 <= i < b.len() && scopes::is_admin_scope(#[trigger] b[i]);
        assert((a + b)[a.len() + i] == b[i]);
    }
    if scopes::is_admin(a + b) {
        let i = choose|i: int|
            0 <= i < (a + b).len() && scopes::is_admin_scope(#[trigger] (a + b)[i]);
        if i < a.len() {
            assert(scopes::is_admin_scope(a[i]));
        } else {
            assert(scopes::is_admin_scope(b[i - a.len()]));
        }
    }
}

proof fn lemma_prefix(area: Seq<char>, action: Seq<char>, name: Seq<char>)
    requires
        !area.contains(':'),
        !name.contains(':'),
    ensures
        (name + seq![':']).is_prefix_of(area + seq![':'] + action) <==> area == name,
{
    let full = area + seq![':'] + action;
    let p = name + seq![':'];
    if p.is_prefix_of(full) {
        text_laws::law_split_undoes_join(area, ':', action);
        let rest = full.skip(p.len() as int);
        assert(full =~= name + seq![':'] + rest);
        text_laws::law_split_undoes_join(name, ':', rest);
    }
    if area == name {
        assert(p =~= full.take(p.len() as int));
    }
}

/// Normalization drops these nine scopes and no others, keeps each other scope once,
/// and puts a scope before another exactly if it occurs before the other does.
pub proof fn law_normalization_of_a_field(raw: Seq<char>, scope: Seq<char>, i: int, j: int)
    ensures
        scopes::normalized(raw).contains(scope) <==> text::words(raw).contains(scope) && scope
            != "openid"@ && scope != "profile"@ && scope != "email"@ && scope != "address"@ && scope
            != "phone"@ && scope != "offline_access"@ && scope != "roles"@ && scope != "groups"@
            && scope != "urn:loggto"@,
        0 <= i < j < scopes::normalized(raw).len() ==> scopes::normalized(raw)[i]
            != scopes::normalized(raw)[j] && exists|p: int|
            0 <= p < text::words(raw).len() && text::words(raw)[p] == scopes::normalized(raw)[i]
                && forall|q: int|
                0 <= q <= p ==> #[trigger] text::words(raw)[q] != scopes::normalized(raw)[j],
{
    scope_laws::law_normalized_scopes(raw, scope);
    let list = text::words(raw);
    let r = scopes::normalized(raw);
    if 0 <= i < j < r.len() {
        scope_laws::law_normalized_scopes(raw, r[i]);
        scope_laws::law_normalized_scopes(raw, r[j]);
        assert(r.contains(r[i]) && r.contains(r[j]));
        let p = lemma_first(list, r[i]);
        let q = lemma_first(list, r[j]);
        assert(scope_laws::first_at(list, r[i], p));
        assert(scope_laws::first_at(list, r[j], q));
        assert(p < q);
        assert(list[p] == r[i]);
    }
}

proof fn lemma_first(list: Seq<Seq<char>>, x: Seq<char>) -> (p: int)
    requires
        list.contains(x),
    ensures
        scope_laws::first_at(list, x, p),
    decreases list.len(),
{
    if list.drop_last().contains(x) {
        let p = lemma_first(list.drop_last(), x);
        assert(list[p] == x);
        assert forall|q: int| 0 <= q < p implies list[q] != x by {
            assert(list.drop_last()[q] == list[q]);
        }
        p
    } else {
        let p = list.len() - 1;
        let k = choose|k: int| 0 <= k < list.len() && list[k] == x;
        if k < p {
            assert(list.drop_last()[k] == x);
        }
        assert forall|q: int| 0 <= q < p implies list[q] != x by {
            assert(list.drop_last()[q] == list[q]);
            assert(list.drop_last().contains(list.drop_last()[q]));
        }
        p
    }
}

} // verus!
