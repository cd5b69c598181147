//! The end of a sign-in: from the provider's redirect to the session cookie.

use vstd::prelude::*;

use crate::letter_case;
use crate::meta::{AuthConfig, AuthSession, Config, IdTokenClaims, OidcDiscovery, TokenResponse};
#[allow(unused_imports)]
use crate::meta::{AuthSessionView, IdTokenClaimsView, OidcDiscoveryView, TokenResponseView};
use crate::reply;
use crate::reply::HttpReply;
#[allow(unused_imports)]
use crate::reply::HttpReplyView;
use crate::scopes;
use crate::session;
use crate::text;
use crate::urls;

verus! {

/// Where the end of a sign-in stands.
pub enum CallbackState {
    /// The pending sign-in is being taken from the store.
    AwaitSession { code: String },
    /// The discovery document is being fetched.
    AwaitDiscovery { code: String, code_verifier: String },
    /// The code is being exchanged for tokens.
    AwaitTokens { discovery: OidcDiscovery },
    /// The ID token is being checked.
    AwaitClaims { scope: Option<String> },
    /// The user is being provisioned.
    AwaitUser { email: String, scope: Option<String> },
    /// The scopes of the user are being stored.
    AwaitScopes { email: String, credential: String },
    /// There is nothing left to do.
    Done,
}

/// The view of [`CallbackState`].
pub enum CallbackStateView {
    AwaitSession { code: Seq<char> },
    AwaitDiscovery { code: Seq<char>, code_verifier: Seq<char> },
    AwaitTokens { discovery: OidcDiscoveryView },
    AwaitClaims { scope: Option<Seq<char>> },
    AwaitUser { email: Seq<char>, scope: Option<Seq<char>> },
    AwaitScopes { email: Seq<char>, credential: Seq<char> },
    Done,
}

impl View for CallbackState {
    type V = CallbackStateView;

    open spec fn view(&self) -> CallbackStateView {
        match *self {
            CallbackState::AwaitSession { code } => CallbackStateView::AwaitSession { code: code@ },
            CallbackState::AwaitDiscovery { code, code_verifier } =>
                CallbackStateView::AwaitDiscovery {
                code: code@,
                code_verifier: code_verifier@,
            },
            CallbackState::AwaitTokens { discovery } => CallbackStateView::AwaitTokens {
                discovery: discovery@,
            },
            CallbackState::AwaitClaims { scope } => CallbackStateView::AwaitClaims {
                scope: text::opt_text(scope),
            },
            CallbackState::AwaitUser { email, scope } => CallbackStateView::AwaitUser {
                email: email@,
                scope: text::opt_text(scope),
            },
            CallbackState::AwaitScopes { email, credential } => CallbackStateView::AwaitScopes {
                email: email@,
                credential: credential@,
            },
            CallbackState::Done => CallbackStateView::Done,
        }
    }
}

/// What the provider, the key-value store or the database answered.
pub enum CallbackEvent {
    /// The pending sign-in of the `state`, where there is one.
    SessionTaken(Option<AuthSession>),
    /// The discovery document, where it could be fetched.
    Discovered(Option<OidcDiscovery>),
    /// The tokens, where the exchange succeeded.
    Exchanged(Option<TokenResponse>),
    /// The claims of the ID token, where it passed the check.
    Checked(Option<IdTokenClaims>),
    /// The credential of the session, where the user could be provisioned.
    Provisioned(Option<String>),
    /// Whether the scopes were stored.
    ScopesStored(bool),
}

/// The view of [`CallbackEvent`].
pub enum CallbackEventView {
    SessionTaken(Option<AuthSessionView>),
    Discovered(Option<OidcDiscoveryView>),
    Exchanged(Option<TokenResponseView>),
    Checked(Option<IdTokenClaimsView>),
    Provisioned(Option<Seq<char>>),
    ScopesStored(bool),
}

impl View for CallbackEvent {
    type V = CallbackEventView;

    open spec fn view(&self) -> CallbackEventView {
        match *self {
            CallbackEvent::SessionTaken(Some(s)) => CallbackEventView::SessionTaken(Some(s@)),
            CallbackEvent::SessionTaken(None) => CallbackEventView::SessionTaken(None),
            CallbackEvent::Discovered(Some(d)) => CallbackEventView::Discovered(Some(d@)),
            CallbackEvent::Discovered(None) => CallbackEventView::Discovered(None),
            CallbackEvent::Exchanged(Some(t)) => CallbackEventView::Exchanged(Some(t@)),
            CallbackEvent::Exchanged(None) => CallbackEventView::Exchanged(None),
            CallbackEvent::Checked(Some(c)) => CallbackEventView::Checked(Some(c@)),
            CallbackEvent::Checked(None) => CallbackEventView::Checked(None),
            CallbackEvent::Provisioned(c) => CallbackEventView::Provisioned(text::opt_text(c)),
            CallbackEvent::ScopesStored(ok) => CallbackEventView::ScopesStored(ok),
        }
    }
}

/// What to do next at the end of a sign-in.
pub enum CallbackAction {
    /// Take the pending sign-in of a `state` from the store.
    TakeState { state: String },
    /// Fetch the discovery document of an issuer.
    FetchDiscovery { issuer: String },
    /// Exchange a code for tokens.
    ExchangeCode {
        token_endpoint: String,
        client_id: String,
        client_secret: String,
        redirect_uri: String,
        code: String,
        code_verifier: String,
    },
    /// Check an ID token.
    CheckIdToken { id_token: String, discovery: OidcDiscovery, client_id: String },
    /// Provision a user.
    Provision { email: String, first_name: String, last_name: String, is_root: bool },
    /// Store the scopes of a user; the sign-in goes on even if that fails.
    StoreScopes { email: String, scopes: Vec<String> },
    /// Respond with a session cookie of this value (see [`session_reply`]).
    IssueSession { location: String, cookie_value: String },
    /// Respond to the request.
    Respond { reply: HttpReply },
}

/// The view of [`CallbackAction`].
pub enum CallbackActionView {
    TakeState { state: Seq<char> },
    FetchDiscovery { issuer: Seq<char> },
    ExchangeCode {
        token_endpoint: Seq<char>,
        client_id: Seq<char>,
        client_secret: Seq<char>,
        redirect_uri: Seq<char>,
        code: Seq<char>,
        code_verifier: Seq<char>,
    },
    CheckIdToken { id_token: Seq<char>, discovery: OidcDiscoveryView, client_id: Seq<char> },
    Provision { email: Seq<char>, first_name: Seq<char>, last_name: Seq<char>, is_root: bool },
    StoreScopes { email: Seq<char>, scopes: Seq<Seq<char>> },
    IssueSession { location: Seq<char>, cookie_value: Seq<char> },
    Respond { reply: HttpReplyView },
}

impl View for CallbackAction {
    type V = CallbackActionView;

    open spec fn view(&self) -> CallbackActionView {
        match *self {
            CallbackAction::TakeState { state } => CallbackActionView::TakeState { state: state@ },
            CallbackAction::FetchDiscovery { issuer } => CallbackActionView::FetchDiscovery {
                issuer: issuer@,
            },
            CallbackAction::ExchangeCode {
                token_endpoint,
                client_id,
                client_secret,
                redirect_uri,
                code,
                code_verifier,
            } => CallbackActionView::ExchangeCode {
                token_endpoint: token_endpoint@,
                client_id: client_id@,
                client_secret: client_secret@,
                redirect_uri: redirect_uri@,
                code: code@,
                code_verifier: code_verifier@,
            },
            CallbackAction::CheckIdToken { id_token, discovery, client_id } =>
                CallbackActionView::CheckIdToken {
                id_token: id_token@,
                discovery: discovery@,
                client_id: client_id@,
            },
            CallbackAction::Provision { email, first_name, last_name, is_root } =>
                CallbackActionView::Provision {
                email: email@,
                first_name: first_name@,
                last_name: last_name@,
                is_root,
            },
            CallbackAction::StoreScopes { email, scopes } => CallbackActionView::StoreScopes {
                email: email@,
                scopes: text::texts(scopes@),
            },
            CallbackAction::IssueSession { location, cookie_value } =>
                CallbackActionView::IssueSession {
                location: location@,
                cookie_value: cookie_value@,
            },
            CallbackAction::Respond { reply } => CallbackActionView::Respond { reply: reply@ },
        }
    }
}

/// The email of a user as it is kept: trimmed, in lower case.
pub open spec fn normalized_email(raw: Seq<char>) -> Seq<char> {
    letter_case::lowercase(text::trimmed(raw))
}

/// Whether an email, as it is kept, is the configured one of the root user.
pub open spec fn is_root_email(auth: AuthConfig, email: Seq<char>) -> bool {
    auth.root_user_email@.len() > 0 && email == normalized_email(auth.root_user_email@)
}

/// The first name of a user: the given name, else the whole name.
pub open spec fn first_name_of(claims: IdTokenClaimsView) -> Seq<char> {
    match claims.given_name {
        Some(name) => name,
        None => text_or_empty(claims.name),
    }
}

/// A text that may be missing, as a text.
pub open spec fn text_or_empty(value: Option<Seq<char>>) -> Seq<char> {
    match value {
        Some(s) => s,
        None => seq![],
    }
}

/// A response that ends a sign-in.
pub open spec fn callback_ends(reply: HttpReplyView) -> (CallbackStateView, CallbackActionView) {
    (CallbackStateView::Done, CallbackActionView::Respond { reply })
}

/// The first state and action, by the parameters of the request.
pub open spec fn callback_first(code: Option<Seq<char>>, state: Option<Seq<char>>) -> (
    CallbackStateView,
    CallbackActionView,
) {
    match (code, state) {
        (None, _) => callback_ends(reply::plain_reply(400, "missing code"@)),
        (Some(_), None) => callback_ends(reply::plain_reply(400, "missing state"@)),
        (Some(code), Some(state)) => (
            CallbackStateView::AwaitSession { code },
            CallbackActionView::TakeState { state },
        ),
    }
}

/// Whether an event answers what was asked last.
pub open spec fn callback_accepts(state: CallbackStateView, event: CallbackEventView) -> bool {
    match state {
        CallbackStateView::AwaitSession { .. } => event is SessionTaken,
        CallbackStateView::AwaitDiscovery { .. } => event is Discovered,
        CallbackStateView::AwaitTokens { .. } => event is Exchanged,
        CallbackStateView::AwaitClaims { .. } => event is Checked,
        CallbackStateView::AwaitUser { .. } => event is Provisioned,
        CallbackStateView::AwaitScopes { .. } => event is ScopesStored,
        CallbackStateView::Done => false,
    }
}

/// The state and action after the claims of the ID token are known.
pub open spec fn after_claims(
    auth: AuthConfig,
    scope: Option<Seq<char>>,
    claims: IdTokenClaimsView,
) -> (CallbackStateView, CallbackActionView) {
    let email = normalized_email(claims.email);
    if email.len() == 0 {
        callback_ends(reply::plain_reply(400, "id_token missing email claim"@))
    } else {
        (
            CallbackStateView::AwaitUser { email, scope },
            CallbackActionView::Provision {
                email,
                first_name: first_name_of(claims),
                last_name: text_or_empty(claims.family_name),
                is_root: is_root_email(auth, email),
            },
        )
    }
}

/// The next state and action for an answer.
pub open spec fn callback_next(config: Config, state: CallbackStateView, event: CallbackEventView)
    -> (CallbackStateView, CallbackActionView) {
    match (state, event) {
        (CallbackStateView::AwaitSession { code }, CallbackEventView::SessionTaken(taken)) =>
            match taken {
            Some(session) => (
                CallbackStateView::AwaitDiscovery { code, code_verifier: session.code_verifier },
                CallbackActionView::FetchDiscovery { issuer: config.auth.logto.issuer@ },
            ),
            None => callback_ends(reply::plain_reply(400, "invalid or expired state"@)),
        },
        (
            CallbackStateView::AwaitDiscovery { code, code_verifier },
            CallbackEventView::Discovered(discovered),
        ) => match discovered {
            Some(discovery) => (
                CallbackStateView::AwaitTokens { discovery },
                CallbackActionView::ExchangeCode {
                    token_endpoint: discovery.token_endpoint,
                    client_id: config.auth.logto.client_id@,
                    client_secret: config.auth.logto.client_secret@,
                    redirect_uri: config.auth.logto.redirect_uri@,
                    code,
                    code_verifier,
                },
            ),
            None => callback_ends(reply::plain_reply(502, "logto discovery failed"@)),
        },
        (CallbackStateView::AwaitTokens { discovery }, CallbackEventView::Exchanged(exchanged)) =>
            match exchanged {
            Some(tokens) => (
                CallbackStateView::AwaitClaims { scope: tokens.scope },
                CallbackActionView::CheckIdToken {
                    id_token: tokens.id_token,
                    discovery,
                    client_id: config.auth.logto.client_id@,
                },
            ),
            None => callback_ends(reply::plain_reply(502, "token exchange failed"@)),
        },
        (CallbackStateView::AwaitClaims { scope }, CallbackEventView::Checked(checked)) =>
            match checked {
            Some(claims) => after_claims(config.auth, scope, claims),
            None => callback_ends(reply::plain_reply(401, "invalid id_token"@)),
        },
        (CallbackStateView::AwaitUser { email, scope }, CallbackEventView::Provisioned(user)) =>
            match user {
            Some(credential) => (
                CallbackStateView::AwaitScopes { email, credential },
                CallbackActionView::StoreScopes {
                    email,
                    scopes: scopes::normalized(text_or_empty(scope)),
                },
            ),
            None => callback_ends(reply::plain_reply(500, "user provisioning failed"@)),
        },
        (
            CallbackStateView::AwaitScopes { email, credential },
            CallbackEventView::ScopesStored(_),
        ) => (
            CallbackStateView::Done,
            CallbackActionView::IssueSession {
                location: urls::web_location(config.common.web_url@, config.common.base_uri@),
                cookie_value: session::session_value(session::auth_tokens(email, credential)),
            },
        ),
        _ => callback_ends(reply::plain_reply(400, "invalid or expired state"@)),
    }
}

fn respond(status: u16, message: &str) -> (r: (CallbackState, CallbackAction))
    ensures
        (r.0@, r.1@) == callback_ends(reply::plain_reply(status, message@)),
{
    (CallbackState::Done, CallbackAction::Respond { reply: reply::plain(status, message) })
}

/// Begins the end of a sign-in with the parameters of the request.
pub fn begin_callback(code: Option<&str>, state: Option<&str>) -> (r: (
    CallbackState,
    CallbackAction,
))
    ensures
        (r.0@, r.1@) == callback_first(text::opt_str(code), text::opt_str(state)),
{
    let code = match code {
        Some(c) => c,
        None => return respond(400, "missing code"),
    };
    let state = match state {
        Some(s) => s,
        None => return respond(400, "missing state"),
    };
    (
        CallbackState::AwaitSession { code: code.to_string() },
        CallbackAction::TakeState { state: state.to_string() },
    )
}

/// The email of a user as it is kept: trimmed, in lower case.
pub fn normalize_email(raw: &str) -> (r: String)
    ensures
        r@ == normalized_email(raw@),
        r@ == letter_case::lowercase(text::trimmed(raw@)),
        letter_case::is_ascii_text(text::trimmed(raw@)) ==> r@ == letter_case::ascii_lowercase(
            text::trimmed(raw@),
        ),
{
    text::trim(raw).to_lowercase()
}

/// Whether an email, as it is kept, is the configured one of the root user.
pub fn is_root_user(auth: &AuthConfig, email: &str) -> (r: bool)
    ensures
        r == is_root_email(*auth, email@),
        r == (auth.root_user_email@.len() > 0 && email@ == letter_case::lowercase(
            text::trimmed(auth.root_user_email@),
        )),
{
    !auth.root_user_email.as_str().is_empty() && text::same(
        email,
        normalize_email(auth.root_user_email.as_str()).as_str(),
    )
}

fn or_empty(value: Option<String>) -> (r: String)
    ensures
        r@ == text_or_empty(text::opt_text(value)),
{
    match value {
        Some(s) => s,
        None => String::new(),
    }
}

/// The state and action after the claims of the ID token are known: provision the
/// user, or refuse a token without an email.
pub fn accept_claims(auth: &AuthConfig, scope: Option<String>, claims: IdTokenClaims) -> (r: (
    CallbackState,
    CallbackAction,
))
    ensures
        (r.0@, r.1@) == after_claims(*auth, text::opt_text(scope), claims@),
        r.0@ matches CallbackStateView::AwaitUser { email, scope: kept } ==> {
            &&& email == letter_case::lowercase(text::trimmed(claims.email@))
            &&& kept == text::opt_text(scope)
        },
        letter_case::lowercase(text::trimmed(claims.email@)).len() > 0 <==> r.0@ is AwaitUser,
{
    let email = normalize_email(claims.email.as_str());
    if email.as_str().is_empty() {
        return respond(400, "id_token missing email claim");
    }
    let is_root = is_root_user(auth, email.as_str());
    let first_name = match claims.given_name {
        Some(name) => name,
        None => or_empty(claims.name),
    };
    let last_name = or_empty(claims.family_name);
    (
        CallbackState::AwaitUser { email: email.clone(), scope },
        CallbackAction::Provision { email, first_name, last_name, is_root },
    )
}

/// The next state and action at the end of a sign-in. An answer to something that
/// was not asked refuses the request.
pub fn callback_step(config: &Config, state: CallbackState, event: CallbackEvent) -> (r: (
    CallbackState,
    CallbackAction,
))
    ensures
        (r.0@, r.1@) == callback_next(*config, state@, event@),
{
    let logto = &config.auth.logto;
    match (state, event) {
        (CallbackState::AwaitSession { code }, CallbackEvent::SessionTaken(taken)) => match taken {
            Some(session) => (
                CallbackState::AwaitDiscovery { code, code_verifier: session.code_verifier },
                CallbackAction::FetchDiscovery { issuer: logto.issuer.clone() },
            ),
            None => respond(400, "invalid or expired state"),
        },
        (
            CallbackState::AwaitDiscovery { code, code_verifier },
            CallbackEvent::Discovered(discovered),
        ) => match discovered {
            Some(discovery) => {
                let token_endpoint = discovery.token_endpoint.clone();
                (
                    CallbackState::AwaitTokens { discovery },
                    CallbackAction::ExchangeCode {
                        token_endpoint,
                        client_id: logto.client_id.clone(),
                        client_secret: logto.client_secret.clone(),
                        redirect_uri: logto.redirect_uri.clone(),
                        code,
                        code_verifier,
                    },
                )
            },
            None => respond(502, "logto discovery failed"),
        },
        (CallbackState::AwaitTokens { discovery }, CallbackEvent::Exchanged(exchanged)) =>
            match exchanged {
            Some(tokens) => (
                CallbackState::AwaitClaims { scope: tokens.scope },
                CallbackAction::CheckIdToken {
                    id_token: tokens.id_token,
                    discovery,
                    client_id: logto.client_id.clone(),
                },
            ),
            None => respond(502, "token exchange failed"),
        },
        (CallbackState::AwaitClaims { scope }, CallbackEvent::Checked(checked)) => match checked {
            Some(claims) => accept_claims(&config.auth, scope, claims),
            None => respond(401, "invalid id_token"),
        },
        (CallbackState::AwaitUser { email, scope }, CallbackEvent::Provisioned(user)) =>
            match user {
            Some(credential) => {
                let list = scopes::normalize_scopes(or_empty(scope).as_str());
                (
                    CallbackState::AwaitScopes { email: email.clone(), credential },
                    CallbackAction::StoreScopes { email, scopes: list },
                )
            },
            None => respond(500, "user provisioning failed"),
        },
        (CallbackState::AwaitScopes { email, credential }, CallbackEvent::ScopesStored(_)) => {
            let tokens = session::build_auth_tokens(email.as_str(), credential.as_str());
            (
                CallbackState::Done,
                CallbackAction::IssueSession {
                    location: urls::web_app_url(&config.common),
                    cookie_value: session::encode_session_cookie(&tokens),
                },
            )
        },
        _ => respond(400, "invalid or expired state"),
    }
}

/// The response that issues a session cookie which ends `cookie_max_age` seconds
/// after `now`.
pub open spec fn session_issued(
    auth: AuthConfig,
    location: Seq<char>,
    cookie_value: Seq<char>,
    now: int,
) -> HttpReplyView {
    let cookie = session::session_cookie(auth, "auth_tokens"@, cookie_value, now);
    reply::cookie_reply(location, session::cookie_header(cookie, session::expiry_date(cookie)))
}

/// The response that issues a session cookie at a moment given in seconds since
/// 1970. `None` where the end of the session is beyond the calendar.
pub fn session_reply_at(auth: &AuthConfig, location: String, cookie_value: &str, now: i64) -> (r:
    Option<HttpReply>)
    ensures
        match r {
            Some(reply) => session::in_calendar(now + auth.cookie_max_age) && reply@
                == session_issued(*auth, location@, cookie_value@, now as int),
            None => !session::in_calendar(now + auth.cookie_max_age),
        },
{
    match session::session_cookie_at(auth, "auth_tokens", cookie_value, now) {
        Some(cookie) => Some(reply::redirect_with_cookie(location, cookie.to_header())),
        None => None,
    }
}

/// The response that issues a session cookie now. `None` where the end of the
/// session is beyond the calendar.
pub fn session_reply(auth: &AuthConfig, location: String, cookie_value: &str) -> (r: Option<
    HttpReply,
>)
    ensures
        match r {
            Some(reply) => exists|now: int|
                session::in_calendar(now) && session::in_calendar(now + auth.cookie_max_age)
                    && reply@ == #[trigger] session_issued(*auth, location@, cookie_value@, now),
            None => auth.cookie_max_age != 0,
        },
{
    match session::build_session_cookie(auth, "auth_tokens", cookie_value) {
        Some(cookie) => {
            proof {
                let now = choose|now: int|
                    session::in_calendar(now) && session::in_calendar(now + auth.cookie_max_age)
                        && cookie@ == #[trigger] session::session_cookie(
                        *auth,
                        "auth_tokens"@,
                        cookie_value@,
                        now,
                    );
                assert(session_issued(*auth, location@, cookie_value@, now).set_cookie is Some);
            }
            Some(reply::redirect_with_cookie(location, cookie.to_header()))
        },
        None => None,
    }
}

/// How many answers a sign-in still waits for at most.
pub open spec fn steps_left(state: CallbackStateView) -> nat {
    match state {
        CallbackStateView::AwaitSession { .. } => 6,
        CallbackStateView::AwaitDiscovery { .. } => 5,
        CallbackStateView::AwaitTokens { .. } => 4,
        CallbackStateView::AwaitClaims { .. } => 3,
        CallbackStateView::AwaitUser { .. } => 2,
        CallbackStateView::AwaitScopes { .. } => 1,
        CallbackStateView::Done => 0,
    }
}

/// Every answer brings the end of a sign-in nearer, what is asked next is what the
/// next state waits for, and where a sign-in ends there is a response.
pub proof fn law_callback_ends(config: Config, state: CallbackStateView, event: CallbackEventView)
    requires
        callback_accepts(state, event),
    ensures
        ({
            let (next, action) = callback_next(config, state, event);
            &&& steps_left(next) < steps_left(state)
            &&& action is FetchDiscovery <==> next is AwaitDiscovery
            &&& action is ExchangeCode <==> next is AwaitTokens
            &&& action is CheckIdToken <==> next is AwaitClaims
            &&& action is Provision <==> next is AwaitUser
            &&& action is StoreScopes <==> next is AwaitScopes
            &&& action is Respond || action is IssueSession <==> next is Done
        }),
{
}

/// A response other than a session is a refusal, and no session comes from
/// anything but the last state.
pub proof fn law_callback_refuses(config: Config, state: CallbackStateView, event: CallbackEventView)
    ensures
        callback_next(config, state, event).1 matches CallbackActionView::Respond { reply }
            ==> reply::is_refusal(reply),
        callback_next(config, state, event).1 is IssueSession ==> state is AwaitScopes,
{
}

/// The answers to what the end of a sign-in asks for.
pub struct Answers {
    pub taken: Option<AuthSessionView>,
    pub discovered: Option<OidcDiscoveryView>,
    pub exchanged: Option<TokenResponseView>,
    pub checked: Option<IdTokenClaimsView>,
    pub provisioned: Option<Seq<char>>,
    pub stored: bool,
}

/// The answer to what a state waits for.
pub open spec fn answer_for(answers: Answers, state: CallbackStateView) -> CallbackEventView {
    match state {
        CallbackStateView::AwaitSession { .. } => CallbackEventView::SessionTaken(answers.taken),
        CallbackStateView::AwaitDiscovery { .. } => CallbackEventView::Discovered(
            answers.discovered,
        ),
        CallbackStateView::AwaitTokens { .. } => CallbackEventView::Exchanged(answers.exchanged),
        CallbackStateView::AwaitClaims { .. } => CallbackEventView::Checked(answers.checked),
        CallbackStateView::AwaitUser { .. } => CallbackEventView::Provisioned(answers.provisioned),
        _ => CallbackEventView::ScopesStored(answers.stored),
    }
}

/// The last action of a sign-in that goes on from a state.
pub open spec fn last_action(
    config: Config,
    step: (CallbackStateView, CallbackActionView),
    answers: Answers,
) -> CallbackActionView
    decreases steps_left(step.0),
{
    if step.0 is Done {
        step.1
    } else {
        last_action(config, callback_next(config, step.0, answer_for(answers, step.0)), answers)
    }
}

/// The response of a whole end of a sign-in.
pub open spec fn callback_run(
    config: Config,
    code: Option<Seq<char>>,
    state: Option<Seq<char>>,
    answers: Answers,
) -> CallbackActionView {
    last_action(config, callback_first(code, state), answers)
}

/// A request gets a session exactly if it has a code and a `state`, the `state`
/// is pending, the provider is reached, the code is exchanged, the ID token passes
/// the check and names an email, and the user is provisioned. The session is that
/// of the email in the token. Every other request is refused. Whether the scopes
/// could be stored makes no difference.
pub proof fn law_callback_issues_session_or_refuses(
    config: Config,
    code: Option<Seq<char>>,
    state: Option<Seq<char>>,
    answers: Answers,
)
    ensures
        ({
            let end = callback_run(config, code, state, answers);
            let complete = code is Some && state is Some && answers.taken is Some
                && answers.discovered is Some && answers.exchanged is Some && answers.checked
                is Some && normalized_email(answers.checked->0.email).len() > 0
                && answers.provisioned is Some;
            &&& complete ==> end == CallbackActionView::IssueSession {
                location: urls::web_location(config.common.web_url@, config.common.base_uri@),
                cookie_value: session::session_value(
                    session::auth_tokens(
                        normalized_email(answers.checked->0.email),
                        answers.provisioned->0,
                    ),
                ),
            }
            &&& !complete ==> end is Respond && reply::is_refusal(end->reply)
        }),
{
    reveal_with_fuel(last_action, 7);
}

/// A sign-in is that of the root user only if a root user is configured and the
/// email in the token is the configured one, but for white space around it and
/// the case of its letters.
pub proof fn law_root_only_by_configured_email(
    auth: AuthConfig,
    scope: Option<Seq<char>>,
    claims: IdTokenClaimsView,
)
    ensures
        after_claims(auth, scope, claims).1 matches CallbackActionView::Provision {
            email,
            is_root,
            ..
        } ==> {
            &&& email == normalized_email(claims.email)
            &&& is_root <==> auth.root_user_email@.len() > 0 && normalized_email(claims.email)
                == normalized_email(auth.root_user_email@)
        },
{
}

} // verus!
