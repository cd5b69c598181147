use base64::engine::general_purpose::STANDARD;
use base64::Engine;
use logto::meta::{AuthConfig, AuthTokens, CommonConfig, LogtoConfig, OidcDiscovery};
use logto::pkce::{challenge_for, challenge_from_digest, generate_pkce_pair, generate_state};
use logto::session::{
    build_auth_tokens, build_clear_cookie, build_session_cookie, encode_session_cookie,
    session_cookie_at, CookieSite, SessionCookie, EARLIEST_SECOND, LATEST_SECOND,
};
use logto::urls::{build_authz_url, discovery_url, logout_url, web_app_url};

fn auth(secure: bool, lax: bool, max_age: i64) -> AuthConfig {
    AuthConfig {
        logto: LogtoConfig {
            enabled: true,
            issuer: String::new(),
            client_id: String::new(),
            client_secret: String::new(),
            redirect_uri: String::new(),
            api_indicator: String::new(),
            post_logout_uri: String::new(),
        },
        root_user_email: String::new(),
        cookie_secure_only: secure,
        cookie_same_site_lax: lax,
        cookie_max_age: max_age,
    }
}

fn discovery() -> OidcDiscovery {
    OidcDiscovery {
        issuer: "https://logto.example.com".to_string(),
        authorization_endpoint: "https://logto.example.com/auth".to_string(),
        token_endpoint: "https://logto.example.com/token".to_string(),
        jwks_uri: "https://logto.example.com/jwks".to_string(),
        end_session_endpoint: None,
    }
}

#[test]
fn tokens_are_basic_credentials() {
    let tokens = build_auth_tokens("ann@example.com", "secret");
    assert_eq!(tokens.access_token, "Basic YW5uQGV4YW1wbGUuY29tOnNlY3JldA==");
    assert_eq!(tokens.refresh_token, "");
}

#[test]
fn cookie_value_is_json_in_base64() {
    assert_eq!(
        encode_session_cookie(&build_auth_tokens("a", "b")),
        "eyJhY2Nlc3NfdG9rZW4iOiJCYXNpYyBZVHBpIiwicmVmcmVzaF90b2tlbiI6IiJ9"
    );
    let odd = AuthTokens {
        access_token: "q\"\\\n\u{1}".to_string(),
        refresh_token: "r".to_string(),
    };
    assert_eq!(
        encode_session_cookie(&odd),
        "eyJhY2Nlc3NfdG9rZW4iOiJxXCJcXFxuXHUwMDAxIiwicmVmcmVzaF90b2tlbiI6InIifQ=="
    );
}

#[test]
fn session_cookie_has_its_attributes() {
    let cookie = session_cookie_at(&auth(true, true, 60), "auth_tokens", "v", 0).unwrap();
    assert_eq!(
        cookie.to_header(),
        "auth_tokens=v; HttpOnly; SameSite=Lax; Secure; Path=/; Expires=Thu, 01 Jan 1970 00:01:00 GMT"
    );
    let cookie = session_cookie_at(&auth(false, false, 0), "n", "", 1445412480).unwrap();
    assert_eq!(
        cookie.to_header(),
        "n=; HttpOnly; SameSite=None; Path=/; Expires=Wed, 21 Oct 2015 07:28:00 GMT"
    );
}

#[test]
fn session_ends_within_the_calendar() {
    let last = auth(false, true, LATEST_SECOND);
    let cookie = session_cookie_at(&last, "n", "v", 0).unwrap();
    assert_eq!(
        cookie.to_header(),
        "n=v; HttpOnly; SameSite=Lax; Path=/; Expires=Fri, 31 Dec 9999 23:59:59 GMT"
    );
    assert!(session_cookie_at(&last, "n", "v", 1).is_none());
    let first = auth(false, true, EARLIEST_SECOND);
    let cookie = session_cookie_at(&first, "n", "v", 0).unwrap();
    assert!(cookie.to_header().contains("; Expires="));
    assert!(session_cookie_at(&first, "n", "v", -1).is_none());
    assert!(session_cookie_at(&auth(false, true, i64::MAX), "n", "v", 1).is_none());
    assert!(build_session_cookie(&auth(false, true, i64::MAX), "n", "v").is_none());
}

#[test]
fn session_cookie_ends_in_the_future() {
    let cookie = build_session_cookie(&auth(true, true, 3600), "auth_tokens", "v").unwrap();
    assert_eq!(cookie.name, "auth_tokens");
    assert_eq!(cookie.value, "v");
    assert!(cookie.same_site == Some(CookieSite::Lax));
    assert!(cookie.expires.unwrap() > 1_700_000_000);
}

#[test]
fn clearing_cookie_replaces_the_session_cookie() {
    let cookie = build_clear_cookie(&auth(true, true, 3600), "auth_tokens");
    assert_eq!(cookie.to_header(), "auth_tokens=; HttpOnly; Secure; Path=/; Max-Age=0");
    let cookie = build_clear_cookie(&auth(false, true, 3600), "auth_tokens");
    assert_eq!(cookie.to_header(), "auth_tokens=; HttpOnly; Path=/; Max-Age=0");
}

#[test]
fn header_writes_every_attribute() {
    let cookie = SessionCookie {
        name: "n".to_string(),
        value: "v".to_string(),
        http_only: false,
        secure: false,
        path: "/p".to_string(),
        same_site: None,
        max_age: Some(-1234567890123),
        expires: Some(0),
    };
    assert_eq!(
        cookie.to_header(),
        "n=v; Path=/p; Max-Age=-1234567890123; Expires=Thu, 01 Jan 1970 00:00:00 GMT"
    );
}

#[test]
fn challenge_is_that_of_the_pkce_standard() {
    assert_eq!(
        challenge_for("dBjftJeZ4CVP-mB92K27uhbUJU1p1r_wW1gFWFOEjXk"),
        "E9Melhoa2OwvFrEMTJguCHaoeK1t8URWbuGJSstw-cM"
    );
}

#[test]
fn challenge_needs_a_hexadecimal_digest() {
    assert_eq!(challenge_from_digest("").unwrap(), "");
    assert_eq!(challenge_from_digest("fFeF").unwrap(), "_-8");
    assert!(challenge_from_digest("abc").is_none());
    assert!(challenge_from_digest("0g").is_none());
    assert!(challenge_from_digest("\u{e9}").is_none());
}

#[test]
fn pkce_pair_is_fresh_and_well_formed() {
    let (verifier, challenge) = generate_pkce_pair();
    assert_eq!(verifier.len(), 72);
    assert!(verifier.chars().all(|c| c.is_ascii_hexdigit() || c == '-'));
    assert_eq!(challenge, challenge_for(&verifier));
    assert_eq!(challenge.len(), 43);
    assert_ne!(generate_pkce_pair().0, verifier);
}

#[test]
fn state_is_a_fresh_uuid() {
    let state = generate_state();
    assert_eq!(state.len(), 36);
    for (i, c) in state.chars().enumerate() {
        if i == 8 || i == 13 || i == 18 || i == 23 {
            assert_eq!(c, '-');
        } else {
            assert!(c.is_ascii_digit() || ('a'..='f').contains(&c));
        }
    }
    assert_ne!(generate_state(), state);
}

#[test]
fn authz_url_escapes_its_values() {
    assert_eq!(
        build_authz_url(
            &discovery(),
            "client id",
            "https://o2.example.com/cb?a=b&c",
            "https://api",
            "s\u{e9}#",
            "c-._~",
        ),
        "https://logto.example.com/auth?response_type=code&client_id=client%20id\
         &redirect_uri=https%3A%2F%2Fo2.example.com%2Fcb%3Fa%3Db%26c&state=s%C3%A9%23\
         &scope=openid profile email https%3A%2F%2Fapi&code_challenge=c-._~\
         &code_challenge_method=S256"
    );
}

#[test]
fn discovery_url_has_one_slash() {
    let url = "https://logto.example.com/.well-known/openid-configuration";
    assert_eq!(discovery_url("https://logto.example.com"), url);
    assert_eq!(discovery_url("https://logto.example.com///"), url);
    assert_eq!(discovery_url(""), "/.well-known/openid-configuration");
}

#[test]
fn logout_goes_through_the_provider() {
    let common = CommonConfig { web_url: "https://o2".to_string(), base_uri: "/b".to_string() };
    assert_eq!(
        logout_url(Some("https://logto/end"), "https://o2/x", &common),
        "https://logto/end?post_logout_redirect_uri=https%3A%2F%2Fo2%2Fx"
    );
    assert_eq!(logout_url(None, "https://o2/x", &common), "https://o2/b/login");
    assert_eq!(web_app_url(&common), "https://o2/b/web/");
}

#[test]
fn credentials_are_standard_base64() {
    for (email, credential, raw) in [
        ("", "", "Og=="),
        ("a", "", "YTo="),
        ("a", "b", "YTpi"),
        ("\u{ff}\u{fe}", "\u{bf}?>", "w7/DvjrCvz8+"),
    ] {
        assert_eq!(build_auth_tokens(email, credential).access_token, format!("Basic {raw}"));
    }
}

#[test]
fn session_value_tells_its_contents() {
    let tokens = |access: &str, refresh: &str| AuthTokens {
        access_token: access.to_string(),
        refresh_token: refresh.to_string(),
    };
    let values = [
        encode_session_cookie(&tokens("", "")),
        encode_session_cookie(&tokens("\"", "")),
        encode_session_cookie(&tokens("", "\"")),
        encode_session_cookie(&tokens("a", "b; Path=/,\\")),
        encode_session_cookie(&tokens("a\",\"refresh_token\":\"b", "")),
    ];
    for (i, value) in values.iter().enumerate() {
        assert!(value.bytes().all(|b| b.is_ascii_alphanumeric() || b"+/=".contains(&b)));
        for other in &values[..i] {
            assert_ne!(value, other);
        }
    }
}

#[test]
fn credentials_name_the_user() {
    assert_ne!(
        build_auth_tokens("a", "bc").access_token,
        build_auth_tokens("ab", "c").access_token
    );
    // a colon in the email is not told from the one that ends it
    assert_eq!(
        build_auth_tokens("a:b", "c").access_token,
        build_auth_tokens("a", "b:c").access_token
    );
}

#[test]
fn session_value_reads_back() {
    for (access, refresh) in [("", ""), ("q\"\\\n\u{1}/\u{7f}", "\u{1F600}\u{2028}")] {
        let value = encode_session_cookie(&AuthTokens {
            access_token: access.to_string(),
            refresh_token: refresh.to_string(),
        });
        let bytes = STANDARD.decode(value).unwrap();
        let read: serde_json::Value = serde_json::from_slice(&bytes).unwrap();
        assert_eq!(read.get("access_token").unwrap().as_str(), Some(access));
        assert_eq!(read.get("refresh_token").unwrap().as_str(), Some(refresh));
        assert_eq!(read.as_object().unwrap().len(), 2);
    }
}
