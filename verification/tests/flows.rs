use logto::auth_state::{kv_state_table, pending_session, take_state, TakeState};
use logto::callback::{
    accept_claims, begin_callback, callback_step, is_root_user, normalize_email, session_reply,
    session_reply_at, CallbackAction, CallbackEvent, CallbackState,
};
use logto::discovery::{DiscoveryCache, DiscoverySource};
use logto::login::{
    begin_login, login_step, login_step_with, logout, LoginAction, LoginEvent, LoginState, Secrets,
};
use logto::meta::{
    AuthConfig, AuthSession, CommonConfig, Config, IdTokenClaims, LogtoConfig, OidcDiscovery,
    TokenResponse,
};
use logto::pkce::challenge_for;
use logto::reply::HttpReply;
use logto::session::{build_auth_tokens, encode_session_cookie};
use logto::users::{
    begin_upsert, upsert_external_user, upsert_step_with, ExistingUser, Profile, UpsertAction,
    UpsertEvent, UpsertState, UserRole,
};

fn config() -> Config {
    Config {
        auth: AuthConfig {
            logto: LogtoConfig {
                enabled: true,
                issuer: "https://logto.example.com".to_string(),
                client_id: "client".to_string(),
                client_secret: "hush".to_string(),
                redirect_uri: "https://o2/cb".to_string(),
                api_indicator: "https://api".to_string(),
                post_logout_uri: "https://o2/bye".to_string(),
            },
            root_user_email: " Root@Example.com ".to_string(),
            cookie_secure_only: true,
            cookie_same_site_lax: true,
            cookie_max_age: 60,
        },
        common: CommonConfig { web_url: "https://o2".to_string(), base_uri: "/base".to_string() },
    }
}

fn discovery() -> OidcDiscovery {
    OidcDiscovery {
        issuer: "https://logto.example.com".to_string(),
        authorization_endpoint: "https://logto/auth".to_string(),
        token_endpoint: "https://logto/token".to_string(),
        jwks_uri: "https://logto/jwks".to_string(),
        end_session_endpoint: Some("https://logto/end".to_string()),
    }
}

fn tokens(scope: Option<&str>) -> TokenResponse {
    TokenResponse {
        access_token: "access".to_string(),
        id_token: "id".to_string(),
        refresh_token: None,
        expires_in: Some(3600),
        scope: scope.map(|s| s.to_string()),
    }
}

fn claims(email: &str) -> IdTokenClaims {
    IdTokenClaims {
        sub: "u1".to_string(),
        email: email.to_string(),
        name: Some("Ann Lee".to_string()),
        given_name: None,
        family_name: None,
        aud: "\"client\"".to_string(),
        exp: 4102444800,
        iss: "https://logto.example.com".to_string(),
    }
}

fn is_plain(reply: &HttpReply, status: u16, message: &str) -> bool {
    reply.status == status
        && reply.body == message
        && reply.location.is_none()
        && reply.set_cookie.is_none()
}

fn callback_refusal(step: (CallbackState, CallbackAction)) -> HttpReply {
    assert!(matches!(step.0, CallbackState::Done));
    match step.1 {
        CallbackAction::Respond { reply } => reply,
        _ => panic!(),
    }
}

#[test]
fn login_leads_to_the_provider() {
    let config = config();
    let logto = &config.auth.logto;
    let (state, action) = begin_login(logto);
    match action {
        LoginAction::FetchDiscovery { issuer } => assert_eq!(issuer, logto.issuer),
        _ => panic!(),
    }
    let secrets = Secrets {
        verifier: "verifier".to_string(),
        challenge: "challenge".to_string(),
        state: "st&te".to_string(),
    };
    let (state, action) =
        login_step_with(logto, state, LoginEvent::Discovered(Some(discovery())), secrets);
    match action {
        LoginAction::SaveState { state, verifier } => {
            assert_eq!(state, "st&te");
            assert_eq!(verifier, "verifier");
        }
        _ => panic!(),
    }
    match login_step(logto, state, LoginEvent::Saved(true)) {
        (LoginState::Done, LoginAction::Respond { reply }) => {
            assert_eq!(reply.status, 302);
            assert_eq!(
                reply.location.unwrap(),
                "https://logto/auth?response_type=code&client_id=client\
                 &redirect_uri=https%3A%2F%2Fo2%2Fcb&state=st%26te\
                 &scope=openid profile email https%3A%2F%2Fapi\
                 &code_challenge=challenge&code_challenge_method=S256"
            );
            assert!(reply.set_cookie.is_none());
            assert_eq!(reply.body, "");
        }
        _ => panic!(),
    }
}

#[test]
fn login_draws_fresh_secrets() {
    let config = config();
    let logto = &config.auth.logto;
    let found = LoginEvent::Discovered(Some(discovery()));
    match login_step(logto, LoginState::AwaitDiscovery, found) {
        (
            LoginState::AwaitSave { state, challenge, .. },
            LoginAction::SaveState { state: kept, verifier },
        ) => {
            assert_eq!(state, kept);
            assert_eq!(state.len(), 36);
            assert_eq!(verifier.len(), 72);
            assert_eq!(challenge, challenge_for(&verifier));
        }
        _ => panic!(),
    }
}

#[test]
fn login_refuses() {
    let mut config = config();
    let refused = |step: (LoginState, LoginAction)| match step {
        (LoginState::Done, LoginAction::Respond { reply }) => reply,
        _ => panic!(),
    };
    let saving = || LoginState::AwaitSave {
        discovery: discovery(),
        state: "s".to_string(),
        challenge: "c".to_string(),
    };
    let logto = &config.auth.logto;
    let reply = refused(login_step(logto, LoginState::AwaitDiscovery, LoginEvent::Discovered(None)));
    assert!(is_plain(&reply, 502, "logto discovery failed"));
    let reply = refused(login_step(logto, saving(), LoginEvent::Saved(false)));
    assert!(is_plain(&reply, 500, "state store failed"));
    // answers to what was not asked
    let reply = refused(login_step(logto, saving(), LoginEvent::Discovered(None)));
    assert!(is_plain(&reply, 500, "state store failed"));
    let reply = refused(login_step(logto, LoginState::Done, LoginEvent::Saved(true)));
    assert!(is_plain(&reply, 500, "state store failed"));
    config.auth.logto.enabled = false;
    assert!(is_plain(&refused(begin_login(&config.auth.logto)), 404, "logto disabled"));
}

#[test]
fn callback_issues_a_session() {
    let config = config();
    let (state, action) = begin_callback(Some("code"), Some("state"));
    match action {
        CallbackAction::TakeState { state } => assert_eq!(state, "state"),
        _ => panic!(),
    }
    let session = pending_session("verifier", 7);
    assert_eq!(session.created_at, 7);
    let (state, action) = callback_step(&config, state, CallbackEvent::SessionTaken(Some(session)));
    match action {
        CallbackAction::FetchDiscovery { issuer } => {
            assert_eq!(issuer, "https://logto.example.com")
        }
        _ => panic!(),
    }
    let (state, action) =
        callback_step(&config, state, CallbackEvent::Discovered(Some(discovery())));
    match action {
        CallbackAction::ExchangeCode {
            token_endpoint,
            client_id,
            client_secret,
            redirect_uri,
            code,
            code_verifier,
        } => {
            assert_eq!(token_endpoint, "https://logto/token");
            assert_eq!(client_id, "client");
            assert_eq!(client_secret, "hush");
            assert_eq!(redirect_uri, "https://o2/cb");
            assert_eq!(code, "code");
            assert_eq!(code_verifier, "verifier");
        }
        _ => panic!(),
    }
    let scope = Some("openid alerts:read alerts:read iam");
    let (state, action) =
        callback_step(&config, state, CallbackEvent::Exchanged(Some(tokens(scope))));
    match action {
        CallbackAction::CheckIdToken { id_token, discovery, client_id } => {
            assert_eq!(id_token, "id");
            assert_eq!(discovery.jwks_uri, "https://logto/jwks");
            assert_eq!(discovery.issuer, "https://logto.example.com");
            assert_eq!(client_id, "client");
        }
        _ => panic!(),
    }
    let (state, action) =
        callback_step(&config, state, CallbackEvent::Checked(Some(claims(" Ann@Example.com"))));
    match action {
        CallbackAction::Provision { email, first_name, last_name, is_root } => {
            assert_eq!(email, "ann@example.com");
            assert_eq!(first_name, "Ann Lee");
            assert_eq!(last_name, "");
            assert!(!is_root);
        }
        _ => panic!(),
    }
    let (state, action) =
        callback_step(&config, state, CallbackEvent::Provisioned(Some("secret".to_string())));
    match action {
        CallbackAction::StoreScopes { email, scopes } => {
            assert_eq!(email, "ann@example.com");
            assert_eq!(scopes, vec!["alerts:read", "iam"]);
        }
        _ => panic!(),
    }
    // the session is issued even if the scopes could not be stored
    match callback_step(&config, state, CallbackEvent::ScopesStored(false)) {
        (CallbackState::Done, CallbackAction::IssueSession { location, cookie_value }) => {
            assert_eq!(location, "https://o2/base/web/");
            assert_eq!(
                cookie_value,
                encode_session_cookie(&build_auth_tokens("ann@example.com", "secret"))
            );
        }
        _ => panic!(),
    }
}

#[test]
fn callback_refuses() {
    let config = config();
    let reply = callback_refusal(begin_callback(None, Some("s")));
    assert!(is_plain(&reply, 400, "missing code"));
    let reply = callback_refusal(begin_callback(None, None));
    assert!(is_plain(&reply, 400, "missing code"));
    let reply = callback_refusal(begin_callback(Some("c"), None));
    assert!(is_plain(&reply, 400, "missing state"));
    let text = || "x".to_string();
    for (state, event, status, message) in [
        (
            CallbackState::AwaitSession { code: text() },
            CallbackEvent::SessionTaken(None),
            400,
            "invalid or expired state",
        ),
        (
            CallbackState::AwaitDiscovery { code: text(), code_verifier: text() },
            CallbackEvent::Discovered(None),
            502,
            "logto discovery failed",
        ),
        (
            CallbackState::AwaitTokens { discovery: discovery() },
            CallbackEvent::Exchanged(None),
            502,
            "token exchange failed",
        ),
        (
            CallbackState::AwaitClaims { scope: None },
            CallbackEvent::Checked(None),
            401,
            "invalid id_token",
        ),
        (
            CallbackState::AwaitClaims { scope: None },
            CallbackEvent::Checked(Some(claims(" \t"))),
            400,
            "id_token missing email claim",
        ),
        (
            CallbackState::AwaitUser { email: text(), scope: None },
            CallbackEvent::Provisioned(None),
            500,
            "user provisioning failed",
        ),
        (CallbackState::Done, CallbackEvent::ScopesStored(true), 400, "invalid or expired state"),
    ] {
        let reply = callback_refusal(callback_step(&config, state, event));
        assert!(is_plain(&reply, status, message), "{message}");
    }
}

#[test]
fn a_response_without_scopes_stores_none() {
    let waiting = CallbackState::AwaitUser { email: "a@b".to_string(), scope: None };
    let event = CallbackEvent::Provisioned(Some("c".to_string()));
    match callback_step(&config(), waiting, event).1 {
        CallbackAction::StoreScopes { scopes, .. } => assert!(scopes.is_empty()),
        _ => panic!(),
    }
}

#[test]
fn root_is_the_configured_email() {
    let mut config = config();
    assert_eq!(normalize_email("\u{a0}\u{c4}B@C.de\n"), "\u{e4}b@c.de");
    assert!(is_root_user(&config.auth, "root@example.com"));
    assert!(!is_root_user(&config.auth, "Root@example.com"));
    match accept_claims(&config.auth, None, claims("ROOT@example.com ")).1 {
        CallbackAction::Provision { is_root, .. } => assert!(is_root),
        _ => panic!(),
    }
    config.auth.root_user_email = String::new();
    assert!(!is_root_user(&config.auth, ""));
    assert!(!is_root_user(&config.auth, "root@example.com"));
}

#[test]
fn names_come_from_the_claims() {
    let mut named = claims("a@b");
    named.given_name = Some("Ann".to_string());
    named.family_name = Some("Lee".to_string());
    match accept_claims(&config().auth, None, named).1 {
        CallbackAction::Provision { first_name, last_name, .. } => {
            assert_eq!(first_name, "Ann");
            assert_eq!(last_name, "Lee");
        }
        _ => panic!(),
    }
    let mut unnamed = claims("a@b");
    unnamed.name = None;
    match accept_claims(&config().auth, None, unnamed).1 {
        CallbackAction::Provision { first_name, .. } => assert_eq!(first_name, ""),
        _ => panic!(),
    }
}

#[test]
fn session_reply_sets_the_cookie() {
    let mut config = config();
    let reply = session_reply_at(&config.auth, "https://o2/web/".to_string(), "v", 0).unwrap();
    assert_eq!(reply.status, 302);
    assert_eq!(reply.location.unwrap(), "https://o2/web/");
    assert_eq!(
        reply.set_cookie.unwrap(),
        "auth_tokens=v; HttpOnly; SameSite=Lax; Secure; Path=/; Expires=Thu, 01 Jan 1970 00:01:00 GMT"
    );
    assert_eq!(reply.body, "");
    let reply = session_reply(&config.auth, "l".to_string(), "v").unwrap();
    assert!(reply.set_cookie.unwrap().starts_with("auth_tokens=v; HttpOnly; "));
    config.auth.cookie_max_age = i64::MAX;
    assert!(session_reply(&config.auth, "l".to_string(), "v").is_none());
    assert!(session_reply_at(&config.auth, "l".to_string(), "v", 0).is_none());
}

#[test]
fn logout_clears_the_session() {
    let cleared = "auth_tokens=; HttpOnly; Secure; Path=/; Max-Age=0";
    let reply = logout(&config(), Some(discovery()));
    assert_eq!(reply.status, 302);
    assert_eq!(
        reply.location.unwrap(),
        "https://logto/end?post_logout_redirect_uri=https%3A%2F%2Fo2%2Fbye"
    );
    assert_eq!(reply.set_cookie.unwrap(), cleared);
    let mut endless = discovery();
    endless.end_session_endpoint = None;
    for found in [None, Some(endless)] {
        let reply = logout(&config(), found);
        assert_eq!(reply.location.unwrap(), "https://o2/base/login");
        assert_eq!(reply.set_cookie.unwrap(), cleared);
    }
}

#[test]
fn a_state_serves_once() {
    assert_eq!(kv_state_table(), "logto_auth_state");
    let mut store: Vec<(String, AuthSession)> =
        vec![("s".to_string(), pending_session("verifier", 1))];
    let mut taken = Vec::new();
    for _ in 0..2 {
        match take_state(store.pop().map(|entry| entry.1)) {
            TakeState::DeleteAndUse { session } => taken.push(Some(session.code_verifier)),
            TakeState::Unknown => taken.push(None),
        }
    }
    assert_eq!(taken, vec![Some("verifier".to_string()), None]);
}

#[test]
fn discovery_is_fetched_once() {
    let issuer = "https://logto.example.com/";
    let mut cache = DiscoveryCache::new();
    match cache.fetch_discovery(issuer) {
        DiscoverySource::Fetch { url } => {
            assert_eq!(url, "https://logto.example.com/.well-known/openid-configuration")
        }
        _ => panic!(),
    }
    cache.store(issuer, &discovery());
    match cache.fetch_discovery(issuer) {
        DiscoverySource::Cached { document } => {
            assert_eq!(document.token_endpoint, "https://logto/token");
            assert_eq!(document.end_session_endpoint, Some("https://logto/end".to_string()));
        }
        _ => panic!(),
    }
    assert!(matches!(cache.fetch_discovery("https://other"), DiscoverySource::Fetch { .. }));
}

fn profile(is_root: bool) -> Profile {
    Profile {
        email: "ann@example.com".to_string(),
        first_name: "Ann".to_string(),
        last_name: "Lee".to_string(),
        is_root,
        organization: "default".to_string(),
    }
}

#[test]
fn a_new_user_is_added() {
    for is_root in [true, false] {
        let (state, action) = begin_upsert(profile(is_root));
        match action {
            UpsertAction::Find { email } => assert_eq!(email, "ann@example.com"),
            _ => panic!(),
        }
        let (state, action) = upsert_external_user(state, UpsertEvent::Found(None));
        let (minted, drawn) = match action {
            UpsertAction::Hash { credential, salt } => (credential, salt),
            _ => panic!(),
        };
        assert_eq!(minted.len(), 72);
        assert_eq!(drawn.len(), 36);
        let (state, action) = upsert_external_user(state, UpsertEvent::Hashed("hash".to_string()));
        match action {
            UpsertAction::Add { user } => {
                assert_eq!(user.email, "ann@example.com");
                assert_eq!(user.first_name, "Ann");
                assert_eq!(user.last_name, "Lee");
                assert_eq!(user.password, "hash");
                assert_eq!(user.salt, drawn);
                assert!(user.is_external);
                assert!(user.password_ext.is_none());
                assert_eq!(user.organizations.len(), 1);
                let org = &user.organizations[0];
                assert_eq!(org.name, "default");
                assert_eq!(org.org_name, "default");
                assert_eq!(org.token, "");
                assert!(org.rum_token.is_none());
                assert_eq!(org.role == UserRole::Root, is_root);
            }
            _ => panic!(),
        }
        match upsert_external_user(state, UpsertEvent::Saved(true)) {
            (UpsertState::Done, UpsertAction::Finish { credential }) => {
                assert_eq!(credential, minted)
            }
            _ => panic!(),
        }
    }
}

#[test]
fn a_known_user_is_updated() {
    let existing = ExistingUser {
        first_name: "A".to_string(),
        last_name: "L".to_string(),
        salt: "salt".to_string(),
        password_ext: Some("ext".to_string()),
    };
    let (state, _) = begin_upsert(profile(true));
    let (state, action) =
        upsert_step_with(state, UpsertEvent::Found(Some(existing)), "unused".to_string());
    let minted = match action {
        UpsertAction::Hash { credential, salt } => {
            assert_eq!(salt, "salt");
            credential
        }
        _ => panic!(),
    };
    let (state, action) = upsert_external_user(state, UpsertEvent::Hashed("hash".to_string()));
    match action {
        UpsertAction::Update { email, first_name, last_name, password, password_ext } => {
            assert_eq!(email, "ann@example.com");
            assert_eq!(first_name, "A");
            assert_eq!(last_name, "L");
            assert_eq!(password, "hash");
            assert_eq!(password_ext, Some("ext".to_string()));
        }
        _ => panic!(),
    }
    match upsert_external_user(state, UpsertEvent::Saved(true)).1 {
        UpsertAction::Finish { credential } => assert_eq!(credential, minted),
        _ => panic!(),
    }
}

#[test]
fn provisioning_fails_without_a_saved_user() {
    let saving = UpsertState::Save { credential: "c".to_string() };
    assert!(matches!(
        upsert_external_user(saving, UpsertEvent::Saved(false)).1,
        UpsertAction::Fail
    ));
    let (state, _) = begin_upsert(profile(false));
    assert!(matches!(
        upsert_external_user(state, UpsertEvent::Saved(true)).1,
        UpsertAction::Fail
    ));
    assert!(matches!(
        upsert_external_user(UpsertState::Done, UpsertEvent::Found(None)).1,
        UpsertAction::Fail
    ));
}

#[test]
fn each_sign_in_mints_a_credential() {
    let credential = |step: (UpsertState, UpsertAction)| match step.0 {
        UpsertState::Lookup { credential, .. } => credential,
        _ => panic!(),
    };
    assert_ne!(credential(begin_upsert(profile(false))), credential(begin_upsert(profile(false))));
}
