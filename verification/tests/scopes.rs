use logto::letter_case::to_folded_uppercase;
use logto::scopes::{
    action_methods, any_scope_authorizes, derive_role, evaluate_permission, feature_permissions,
    normalize_scopes, resolve_feature, scope_authorizes, scope_authorizes_method,
};

fn strings(list: &[&str]) -> Vec<String> {
    list.iter().map(|s| s.to_string()).collect()
}

#[test]
fn strips_oidc_standard_scopes() {
    let raw = "openid profile email dashboards:write alerts:read";
    assert_eq!(
        normalize_scopes(raw),
        vec!["dashboards:write", "alerts:read"]
    );
}

#[test]
fn trims_and_dedups() {
    assert_eq!(
        normalize_scopes("  dashboards:read   dashboards:read "),
        vec!["dashboards:read"]
    );
}

#[test]
fn empty_or_standard_only() {
    assert!(normalize_scopes("").is_empty());
    assert!(normalize_scopes("openid profile email").is_empty());
}

#[test]
fn test_resolve_feature() {
    assert_eq!(resolve_feature("dashboard:abc123"), Some("dashboards"));
    assert_eq!(resolve_feature("dfolder:xyz"), Some("dashboards"));
    assert_eq!(resolve_feature("alert:id"), Some("alerts"));
    assert_eq!(resolve_feature("destinations:id"), Some("alerts"));
    assert_eq!(resolve_feature("stream:org_id"), Some("streams"));
    assert_eq!(resolve_feature("pipeline:id"), Some("pipelines"));
    assert_eq!(resolve_feature("function:id"), Some("functions"));
    assert_eq!(resolve_feature("user:id"), Some("iam"));
    assert_eq!(resolve_feature("org:id"), Some("iam"));
    assert_eq!(resolve_feature("settings:org"), Some("settings"));
    assert_eq!(resolve_feature("search:id"), Some("search"));
    assert_eq!(resolve_feature("logs:id"), Some("ingestion"));
    // unmapped
    assert_eq!(resolve_feature("unknown_thing:id"), None);
    // no colon
    assert_eq!(resolve_feature("dashboard"), Some("dashboards"));
}

#[test]
fn test_action_methods() {
    assert_eq!(action_methods("read"), vec!["GET"]);
    assert_eq!(action_methods("create"), vec!["POST"]);
    assert!(action_methods("update").contains(&"PUT".to_string()));
    assert!(action_methods("update").contains(&"PATCH".to_string()));
    assert_eq!(action_methods("delete"), vec!["DELETE"]);
    assert!(action_methods("foobar").is_empty());
}

#[test]
fn test_scope_authorizes() {
    // specific action
    assert!(scope_authorizes("dashboards:read", "dashboards", "GET"));
    assert!(!scope_authorizes("dashboards:read", "dashboards", "POST"));
    // whole area (action omitted)
    assert!(scope_authorizes("alerts", "alerts", "GET"));
    assert!(scope_authorizes("alerts", "alerts", "DELETE"));
    // explicit wildcard
    assert!(scope_authorizes("alerts:*", "alerts", "POST"));
    // global wildcard
    assert!(scope_authorizes("*", "dashboards", "POST"));
    assert!(scope_authorizes("*", "iam", "DELETE"));
    // mismatched area
    assert!(!scope_authorizes("dashboards:read", "alerts", "GET"));
    // malformed scope
    assert!(!scope_authorizes("garbage", "dashboards", "GET"));
    // case-insensitive method
    assert!(scope_authorizes("dashboards:read", "dashboards", "get"));
}

#[test]
fn test_any_scope_authorizes() {
    let scopes = vec!["dashboards:read".to_string(), "alerts:*".to_string()];
    assert!(any_scope_authorizes(&scopes, "dashboards", "GET"));
    assert!(!any_scope_authorizes(&scopes, "dashboards", "POST"));
    assert!(any_scope_authorizes(&scopes, "alerts", "DELETE"));
    assert!(!any_scope_authorizes(&scopes, "iam", "GET"));
}

#[test]
fn test_derive_role() {
    assert_eq!(
        derive_role(&["iam:*".into(), "dashboards:read".into()]),
        "admin"
    );
    assert_eq!(derive_role(&["settings:*".into()]), "admin");
    assert_eq!(derive_role(&["*".into()]), "admin");
    assert_eq!(
        derive_role(&["dashboards:read".into(), "alerts:*".into()]),
        "member"
    );
    assert_eq!(derive_role(&[]), "member");
}

#[test]
fn test_feature_permissions() {
    let fp = feature_permissions(&[
        "dashboards:read".into(),
        "alerts:*".into(),
        "bogus:read".into(), // unknown area → dropped
    ]);
    assert_eq!(fp.get("dashboards"), Some(&vec!["read".to_string()]));
    assert_eq!(
        fp.get("alerts"),
        Some(&vec![
            "read".to_string(),
            "create".to_string(),
            "update".to_string(),
            "delete".to_string()
        ])
    );
    assert!(fp.get("bogus").is_none());
}

#[test]
fn test_evaluate_permission_root_bypasses() {
    // root always allowed, even with no scopes / unmapped / cache miss
    assert!(evaluate_permission(true, true, false, "iam:admin", "DELETE", None, false));
    assert!(evaluate_permission(true, true, false, "unknown:id", "GET", None, false));
}

#[test]
fn test_evaluate_permission_disabled_is_allow() {
    assert!(evaluate_permission(false, false, false, "dashboard:x", "POST", None, false));
}

#[test]
fn test_evaluate_permission_public_allowed() {
    assert!(evaluate_permission(false, true, true, "config", "GET", None, false));
}

#[test]
fn test_evaluate_permission_scope_match() {
    let scopes = vec!["dashboards:read".to_string()];
    assert!(evaluate_permission(
        false, true, false, "dashboard:x", "GET", Some(&scopes), false
    ));
    assert!(!evaluate_permission(
        false, true, false, "dashboard:x", "POST", Some(&scopes), false
    ));
}

#[test]
fn test_evaluate_permission_cache_miss_is_deny() {
    // mapped feature but scope cache miss → fail-closed
    assert!(!evaluate_permission(
        false, true, false, "dashboard:x", "GET", None, false
    ));
}

#[test]
fn test_evaluate_permission_unmapped_policy() {
    // unmapped route with deny policy → false
    assert!(!evaluate_permission(
        false, true, false, "unknown:id", "GET", Some(&[]), false
    ));
    // unmapped route with allow policy → true
    assert!(evaluate_permission(
        false, true, false, "unknown:id", "GET", Some(&[]), true
    ));
}

#[test]
fn every_resource_type_has_its_area() {
    for (resource, area) in [
        ("dashboard", "dashboards"),
        ("dfolder", "dashboards"),
        ("alert", "alerts"),
        ("destinations", "alerts"),
        ("destination", "alerts"),
        ("templates", "alerts"),
        ("template", "alerts"),
        ("afolder", "alerts"),
        ("stream", "streams"),
        ("search", "search"),
        ("query", "search"),
        ("pipeline", "pipelines"),
        ("function", "functions"),
        ("logs", "ingestion"),
        ("metrics", "ingestion"),
        ("traces", "ingestion"),
        ("report", "reports"),
        ("user", "iam"),
        ("role", "iam"),
        ("group", "iam"),
        ("organization", "iam"),
        ("org", "iam"),
        ("settings", "settings"),
        ("sysinfo", "settings"),
        ("config", "settings"),
    ] {
        assert_eq!(resolve_feature(resource), Some(area));
    }
    assert_eq!(resolve_feature(""), None);
    assert_eq!(resolve_feature(":dashboard"), None);
}

#[test]
fn every_standard_scope_is_dropped() {
    let raw = "openid profile email address phone offline_access roles groups urn:loggto a";
    assert_eq!(normalize_scopes(raw), vec!["a"]);
}

#[test]
fn scopes_are_split_at_any_white_space() {
    assert_eq!(
        normalize_scopes("a\tb\nc\u{a0}d\u{3000}e\u{2003}f\u{85}g"),
        vec!["a", "b", "c", "d", "e", "f", "g"]
    );
    // a zero width space is not white space
    assert_eq!(normalize_scopes("a\u{200b}b"), vec!["a\u{200b}b"]);
}

#[test]
fn white_space_is_the_documented_set() {
    for c in '\0'..=char::MAX {
        let text = format!("a{c}b");
        let split = normalize_scopes(&text).len() == 2;
        assert_eq!(split, text.split_whitespace().count() == 2, "{c:?}");
    }
}

#[test]
fn normalization_is_idempotent_and_keeps_order() {
    let once = normalize_scopes("b openid a b c a");
    assert_eq!(once, vec!["b", "a", "c"]);
    assert_eq!(normalize_scopes(&once.join(" ")), once);
}

#[test]
fn methods_are_compared_in_unicode_upper_case() {
    // the long s is an S in upper case
    assert!(scope_authorizes("dashboards:create", "dashboards", "po\u{17f}t"));
    assert!(!scope_authorizes_method("dashboards:create", "dashboards", "post"));
    assert!(scope_authorizes_method("dashboards:create", "dashboards", "POST"));
    for method in ["pAtCh", "put", "PUT"] {
        assert!(scope_authorizes("dashboards:update", "dashboards", method));
    }
}

#[test]
fn scopes_with_several_colons_name_no_action() {
    assert!(!scope_authorizes("alerts:read:x", "alerts", "GET"));
    assert!(!scope_authorizes("alerts:", "alerts", "GET"));
    assert!(!scope_authorizes("*:*", "alerts", "GET"));
    assert!(scope_authorizes("alerts", "alerts", "OPTIONS"));
    assert!(!scope_authorizes("alerts:read", "alerts", "OPTIONS"));
}

#[test]
fn more_scopes_permit_more() {
    let fewer = strings(&["alerts:read"]);
    let more = strings(&["iam", "alerts:read", "alerts:read"]);
    assert!(any_scope_authorizes(&fewer, "alerts", "GET"));
    assert!(any_scope_authorizes(&more, "alerts", "GET"));
    assert_eq!(derive_role(&fewer), "member");
    assert_eq!(derive_role(&more), "admin");
}

#[test]
fn roles_follow_management_scopes() {
    for scope in ["iam", "settings", "iam:read", "settings:x", "iam:"] {
        assert_eq!(derive_role(&strings(&[scope])), "admin", "{scope}");
    }
    for scope in ["iams", "setting", "dashboards:iam", "IAM", ""] {
        assert_eq!(derive_role(&strings(&[scope])), "member", "{scope}");
    }
}

#[test]
fn standard_scopes_carry_no_permission() {
    let raw = "openid roles dashboards:read dashboards:read";
    let words: Vec<String> = raw.split(' ').map(|s| s.to_string()).collect();
    for area in ["dashboards", "iam", "settings"] {
        for method in ["GET", "POST"] {
            assert_eq!(
                any_scope_authorizes(&words, area, method),
                any_scope_authorizes(&normalize_scopes(raw), area, method)
            );
        }
    }
}

#[test]
fn permissions_agree_with_authorization() {
    let areas = [
        "dashboards", "alerts", "streams", "search", "pipelines", "functions", "ingestion",
        "reports", "iam", "settings",
    ];
    let held = strings(&["alerts:update", "alerts:read", "iam", "search:*", "reports:bogus", "x"]);
    let shown = feature_permissions(&held);
    for area in areas {
        for (action, method) in
            [("read", "GET"), ("create", "POST"), ("update", "PATCH"), ("delete", "DELETE")]
        {
            let told = shown.get(area).map_or(false, |a| a.contains(&action.to_string()));
            assert_eq!(told, any_scope_authorizes(&held, area, method), "{area} {action}");
        }
    }
    assert_eq!(shown.get("alerts"), Some(&strings(&["update", "read"])));
    assert!(shown.get("reports").is_none());
    // the scope that names no area is not shown
    assert!(feature_permissions(&strings(&["*"])).is_empty());
}

#[test]
fn permissions_merge_without_repetition() {
    let shown = feature_permissions(&strings(&["iam:delete", "iam", "iam:read"]));
    assert_eq!(shown.get("iam"), Some(&strings(&["delete", "read", "create", "update"])));
    assert_eq!(shown.len(), 1);
}

#[test]
fn the_case_of_a_method_does_not_matter() {
    for (method, other) in [("Delete", "dELETE"), ("po\u{17f}T", "PO\u{17f}t"), ("\u{e9}x", "\u{e9}X")] {
        assert!(method.eq_ignore_ascii_case(other));
        for scope in ["alerts:delete", "alerts:create", "alerts"] {
            assert_eq!(
                scope_authorizes(scope, "alerts", method),
                scope_authorizes(scope, "alerts", other)
            );
        }
    }
    for c in '\0'..=char::MAX {
        let text = format!("p{c}T");
        assert_eq!(to_folded_uppercase(&text), text.to_uppercase());
    }
}
