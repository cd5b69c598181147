use logto::scope_store::{
    cache_get, cache_put, kv_scopes_table, load_cache_from_kv, new_cache, scopes_entry,
    store_scopes, KvEntry,
};
use logto::scopes::{evaluate_permission, normalize_scopes};

fn strings(list: &[&str]) -> Vec<String> {
    list.iter().map(|s| s.to_string()).collect()
}

#[test]
fn cache_ignores_the_case_of_emails() {
    let mut cache = new_cache();
    assert!(cache_get(&cache, "ann@example.com").is_none());
    cache_put(&mut cache, "Ann@Example.COM", strings(&["alerts:read"]));
    cache_put(&mut cache, "bob@example.com", strings(&[]));
    assert_eq!(cache_get(&cache, "aNN@example.com"), Some(strings(&["alerts:read"])));
    assert_eq!(cache_get(&cache, "BOB@EXAMPLE.COM"), Some(strings(&[])));
    assert!(cache_get(&cache, "carol@example.com").is_none());
    cache_put(&mut cache, "ann@example.com", strings(&["*"]));
    assert_eq!(cache_get(&cache, "ann@example.com"), Some(strings(&["*"])));
}

#[test]
fn entries_hold_json_under_the_lower_case_email() {
    let entry = scopes_entry("\u{c4}nn@Example.com", &strings(&["a", "b\"c", "\u{1f}\n"]));
    assert_eq!(entry.key, "\u{e4}nn@example.com");
    assert_eq!(
        entry.payload,
        Some(br#"["a","b\"c","\u001f\n"]"#.to_vec())
    );
    assert_eq!(scopes_entry("a", &strings(&[])).payload, Some(b"[]".to_vec()));
    assert_eq!(kv_scopes_table(), "logto_scopes");
}

#[test]
fn scopes_are_cached_once_they_are_written() {
    let mut cache = new_cache();
    assert!(!store_scopes(&mut cache, "ann@example.com", strings(&["a"]), false));
    assert!(cache_get(&cache, "ann@example.com").is_none());
    assert!(store_scopes(&mut cache, "ann@example.com", strings(&["a"]), true));
    assert_eq!(cache_get(&cache, "ann@example.com"), Some(strings(&["a"])));
}

#[test]
fn a_restart_keeps_scopes() {
    let tricky = strings(&["dashboards:read", "\u{1F600}", "\\", "\u{2028}", ""]);
    let entries = vec![
        scopes_entry("Ann@Example.com", &tricky),
        KvEntry { key: "unreadable@example.com".to_string(), payload: None },
        KvEntry { key: "broken@example.com".to_string(), payload: Some(b"[1]".to_vec()) },
        scopes_entry("bob@example.com", &strings(&["iam"])),
    ];
    let mut cache = new_cache();
    load_cache_from_kv(&mut cache, &entries);
    assert_eq!(cache_get(&cache, "ann@example.com"), Some(tricky));
    assert_eq!(cache_get(&cache, "bob@example.com"), Some(strings(&["iam"])));
    assert!(cache_get(&cache, "unreadable@example.com").is_none());
    assert!(cache_get(&cache, "broken@example.com").is_none());
    assert!(cache_get(&cache, "carol@example.com").is_none());
}

#[test]
fn lower_case_is_stable() {
    let mut cache = new_cache();
    for c in '\0'..=char::MAX {
        let email = format!("x{c}");
        let entry = scopes_entry(&email, &strings(&["a"]));
        cache_put(&mut cache, &entry.key, strings(&["a"]));
        assert!(cache_get(&cache, &email).is_some(), "{c:?}");
    }
}

#[test]
fn granted_scopes_decide() {
    let mut cache = new_cache();
    let granted = "openid alerts:read  iam alerts:read";
    store_scopes(&mut cache, "Ann@example.com", normalize_scopes(granted), true);
    let allowed = |email: &str, o2_type: &str, method: &str| {
        let held = cache_get(&cache, email);
        evaluate_permission(false, true, false, o2_type, method, held.as_deref(), true)
    };
    assert!(allowed("ann@example.com", "alert:1", "get"));
    assert!(!allowed("ann@example.com", "alert:1", "post"));
    assert!(allowed("ann@example.com", "user:1", "DELETE"));
    assert!(!allowed("ann@example.com", "dashboard:1", "GET"));
    assert!(!allowed("bob@example.com", "alert:1", "GET"));
}
