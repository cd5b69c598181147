//! The start of a sign-in and the sign-out.

use vstd::prelude::*;

use crate::meta::{Config, LogtoConfig, OidcDiscovery};
#[allow(unused_imports)]
use crate::meta::OidcDiscoveryView;
use crate::pkce;
use crate::reply;
use crate::reply::HttpReply;
#[allow(unused_imports)]
use crate::reply::HttpReplyView;
use crate::session;
#[allow(unused_imports)]
use crate::text;
use crate::urls;

verus! {

/// Where the start of a sign-in stands.
pub enum LoginState {
    /// The discovery document is being fetched.
    AwaitDiscovery,
    /// The secrets of the sign-in are being kept.
    AwaitSave { discovery: OidcDiscovery, state: String, challenge: String },
    /// There is nothing left to do.
    Done,
}

/// The view of [`LoginState`].
pub enum LoginStateView {
    AwaitDiscovery,
    AwaitSave { discovery: OidcDiscoveryView, state: Seq<char>, challenge: Seq<char> },
    Done,
}

impl View for LoginState {
    type V = LoginStateView;

    open spec fn view(&self) -> LoginStateView {
        match *self {
            LoginState::AwaitDiscovery => LoginStateView::AwaitDiscovery,
            LoginState::AwaitSave { discovery, state, challenge } => LoginStateView::AwaitSave {
                discovery: discovery@,
                state: state@,
                challenge: challenge@,
            },
            LoginState::Done => LoginStateView::Done,
        }
    }
}

/// What the provider or the key-value store answered.
pub enum LoginEvent {
    /// The discovery document, where it could be fetched.
    Discovered(Option<OidcDiscovery>),
    /// Whether the secrets were kept.
    Saved(bool),
}

/// The view of [`LoginEvent`].
pub enum LoginEventView {
    Discovered(Option<OidcDiscoveryView>),
    Saved(bool),
}

impl View for LoginEvent {
    type V = LoginEventView;

    open spec fn view(&self) -> LoginEventView {
        match *self {
            LoginEvent::Discovered(Some(discovery)) => LoginEventView::Discovered(Some(discovery@)),
            LoginEvent::Discovered(None) => LoginEventView::Discovered(None),
            LoginEvent::Saved(ok) => LoginEventView::Saved(ok),
        }
    }
}

/// What to do next at the start of a sign-in.
pub enum LoginAction {
    /// Fetch the discovery document of an issuer.
    FetchDiscovery { issuer: String },
    /// Keep a code verifier under a `state`.
    SaveState { state: String, verifier: String },
    /// Respond to the request.
    Respond { reply: HttpReply },
}

/// The view of [`LoginAction`].
pub enum LoginActionView {
    FetchDiscovery { issuer: Seq<char> },
    SaveState { state: Seq<char>, verifier: Seq<char> },
    Respond { reply: HttpReplyView },
}

impl View for LoginAction {
    type V = LoginActionView;

    open spec fn view(&self) -> LoginActionView {
        match *self {
            LoginAction::FetchDiscovery { issuer } => LoginActionView::FetchDiscovery {
                issuer: issuer@,
            },
            LoginAction::SaveState { state, verifier } => LoginActionView::SaveState {
                state: state@,
                verifier: verifier@,
            },
            LoginAction::Respond { reply } => LoginActionView::Respond { reply: reply@ },
        }
    }
}

/// The secrets of a sign-in: a code verifier, its challenge and a `state`.
pub struct Secrets {
    pub verifier: String,
    pub challenge: String,
    pub state: String,
}

/// The view of [`Secrets`].
pub struct SecretsView {
    pub verifier: Seq<char>,
    pub challenge: Seq<char>,
    pub state: Seq<char>,
}

impl View for Secrets {
    type V = SecretsView;

    open spec fn view(&self) -> SecretsView {
        SecretsView {
            verifier: self.verifier@,
            challenge: self.challenge@,
            state: self.state@,
        }
    }
}

/// Secrets as a sign-in draws them.
pub open spec fn are_secrets(secrets: SecretsView) -> bool {
    &&& pkce::is_uuid_pair(secrets.verifier)
    &&& pkce::is_code_verifier(secrets.verifier)
    &&& secrets.challenge == pkce::code_challenge(secrets.verifier)
    &&& pkce::is_uuid(secrets.state)
}

/// A response that ends the start of a sign-in.
pub open spec fn login_ends(reply: HttpReplyView) -> (LoginStateView, LoginActionView) {
    (LoginStateView::Done, LoginActionView::Respond { reply })
}

/// The first state and action.
pub open spec fn login_first(logto: LogtoConfig) -> (LoginStateView, LoginActionView) {
    if logto.enabled {
        (
            LoginStateView::AwaitDiscovery,
            LoginActionView::FetchDiscovery { issuer: logto.issuer@ },
        )
    } else {
        login_ends(reply::plain_reply(404, "logto disabled"@))
    }
}

/// Whether an event answers what was asked last.
pub open spec fn login_accepts(state: LoginStateView, event: LoginEventView) -> bool {
    match state {
        LoginStateView::AwaitDiscovery => event is Discovered,
        LoginStateView::AwaitSave { .. } => event is Saved,
        LoginStateView::Done => false,
    }
}

/// The next state and action, given the secrets for the case that the sign-in
/// goes on.
pub open spec fn login_next(
    logto: LogtoConfig,
    state: LoginStateView,
    event: LoginEventView,
    secrets: SecretsView,
) -> (LoginStateView, LoginActionView) {
    match (state, event) {
        (LoginStateView::AwaitDiscovery, LoginEventView::Discovered(Some(discovery))) => (
            LoginStateView::AwaitSave {
                discovery,
                state: secrets.state,
                challenge: secrets.challenge,
            },
            LoginActionView::SaveState { state: secrets.state, verifier: secrets.verifier },
        ),
        (LoginStateView::AwaitDiscovery, _) => login_ends(
            reply::plain_reply(502, "logto discovery failed"@),
        ),
        (LoginStateView::AwaitSave { discovery, state, challenge }, LoginEventView::Saved(true)) =>
            login_ends(
            reply::redirect_reply(
                discovery.authorization_endpoint + urls::authz_query(
                    logto.client_id@,
                    logto.redirect_uri@,
                    logto.api_indicator@,
                    state,
                    challenge,
                ),
            ),
        ),
        _ => login_ends(reply::plain_reply(500, "state store failed"@)),
    }
}

fn respond(reply: HttpReply) -> (r: (LoginState, LoginAction))
    ensures
        (r.0@, r.1@) == login_ends(reply@),
{
    (LoginState::Done, LoginAction::Respond { reply })
}

/// Begins a sign-in: fetch the discovery document, or respond with 404 while the
/// integration is disabled.
pub fn begin_login(logto: &LogtoConfig) -> (r: (LoginState, LoginAction))
    ensures
        (r.0@, r.1@) == login_first(*logto),
{
    if !logto.enabled {
        return respond(reply::plain(404, "logto disabled"));
    }
    (LoginState::AwaitDiscovery, LoginAction::FetchDiscovery { issuer: logto.issuer.clone() })
}

/// The next state and action for an answer, with these secrets where the sign-in
/// goes on.
pub fn login_step_with(logto: &LogtoConfig, state: LoginState, event: LoginEvent, secrets: Secrets)
    -> (r: (LoginState, LoginAction))
    ensures
        (r.0@, r.1@) == login_next(*logto, state@, event@, secrets@),
{
    match (state, event) {
        (LoginState::AwaitDiscovery, LoginEvent::Discovered(Some(discovery))) => {
            let kept = secrets.state.clone();
            (
                LoginState::AwaitSave {
                    discovery,
                    state: secrets.state,
                    challenge: secrets.challenge,
                },
                LoginAction::SaveState { state: kept, verifier: secrets.verifier },
            )
        },
        (LoginState::AwaitDiscovery, _) => respond(reply::plain(502, "logto discovery failed")),
        (LoginState::AwaitSave { discovery, state, challenge }, LoginEvent::Saved(saved)) => {
            if saved {
                respond(
                    reply::redirect(
                        urls::build_authz_url(
                            &discovery,
                            logto.client_id.as_str(),
                            logto.redirect_uri.as_str(),
                            logto.api_indicator.as_str(),
                            state.as_str(),
                            challenge.as_str(),
                        ),
                    ),
                )
            } else {
                respond(reply::plain(500, "state store failed"))
            }
        },
        _ => respond(reply::plain(500, "state store failed")),
    }
}

/// The next state and action at the start of a sign-in, with fresh secrets. An
/// answer to something that was not asked refuses the request.
pub fn login_step(logto: &LogtoConfig, state: LoginState, event: LoginEvent) -> (r: (
    LoginState,
    LoginAction,
))
    ensures
        exists|secrets: SecretsView|
            {
                &&& (r.0@, r.1@) == #[trigger] login_next(*logto, state@, event@, secrets)
                &&& (event@ matches LoginEventView::Discovered(Some(_)) ==> are_secrets(secrets))
            },
{
    let secrets = match &event {
        LoginEvent::Discovered(Some(_)) => {
            let (verifier, challenge) = pkce::generate_pkce_pair();
            Secrets { verifier, challenge, state: pkce::generate_state() }
        },
        _ => Secrets { verifier: String::new(), challenge: String::new(), state: String::new() },
    };
    login_step_with(logto, state, event, secrets)
}

/// The response to a sign-out, by the discovery document where it could be
/// fetched: forget the session cookie, and go through the provider's end-session
/// endpoint where it has one.
pub open spec fn logout_reply(config: Config, end_session: Option<Seq<char>>) -> HttpReplyView {
    reply::cookie_reply(
        urls::logout_location(
            end_session,
            config.auth.logto.post_logout_uri@,
            config.common.web_url@,
            config.common.base_uri@,
        ),
        session::cookie_header(session::clearing_cookie(config.auth, "auth_tokens"@), seq![]),
    )
}

/// The end-session endpoint of a discovery document that may be missing.
pub open spec fn end_session_of(discovery: Option<OidcDiscovery>) -> Option<Seq<char>> {
    match discovery {
        Some(d) => d@.end_session_endpoint,
        None => None,
    }
}

/// The response to a sign-out; `discovery` is `None` where the discovery document
/// could not be fetched.
pub fn logout(config: &Config, discovery: Option<OidcDiscovery>) -> (r: HttpReply)
    ensures
        r@ == logout_reply(*config, end_session_of(discovery)),
{
    let cleared = session::build_clear_cookie(&config.auth, "auth_tokens");
    let endpoint: Option<String> = match discovery {
        Some(d) => d.end_session_endpoint,
        None => None,
    };
    let target = match &endpoint {
        Some(url) => urls::logout_url(
            Some(url.as_str()),
            config.auth.logto.post_logout_uri.as_str(),
            &config.common,
        ),
        None => urls::logout_url(
            None,
            config.auth.logto.post_logout_uri.as_str(),
            &config.common,
        ),
    };
    reply::redirect_with_cookie(target, cleared.to_header())
}

/// The whole start of a sign-in: the response, by the answers of the provider and
/// the key-value store.
pub open spec fn login_run(
    logto: LogtoConfig,
    discovered: Option<OidcDiscoveryView>,
    secrets: SecretsView,
    saved: bool,
) -> LoginActionView {
    let first = login_first(logto);
    if first.0 is Done {
        first.1
    } else {
        let second = login_next(logto, first.0, LoginEventView::Discovered(discovered), secrets);
        if second.0 is Done {
            second.1
        } else {
            login_next(logto, second.0, LoginEventView::Saved(saved), secrets).1
        }
    }
}

/// The user is sent to the provider exactly if the integration is enabled, the
/// discovery document was fetched and the secrets were kept; the URL carries the
/// kept `state` and the challenge of the kept verifier. Every other request is
/// refused.
pub proof fn law_login_redirects_or_refuses(
    logto: LogtoConfig,
    discovered: Option<OidcDiscoveryView>,
    secrets: SecretsView,
    saved: bool,
)
    ensures
        login_run(logto, discovered, secrets, saved) is Respond,
        logto.enabled && saved ==> (discovered matches Some(discovery) ==> login_run(
            logto,
            discovered,
            secrets,
            saved,
        )->reply == reply::redirect_reply(
            discovery.authorization_endpoint + urls::authz_query(
                logto.client_id@,
                logto.redirect_uri@,
                logto.api_indicator@,
                secrets.state,
                secrets.challenge,
            ),
        )),
        !(logto.enabled && discovered is Some && saved) ==> reply::is_refusal(
            login_run(logto, discovered, secrets, saved)->reply,
        ),
{
}

/// A sign-out always answers with a redirect that clears the session cookie.
pub proof fn law_logout_clears_session(config: Config, end_session: Option<Seq<char>>)
    ensures
        logout_reply(config, end_session).status == 302,
        logout_reply(config, end_session).location is Some,
        logout_reply(config, end_session).set_cookie == Some(
            session::cookie_header(session::clearing_cookie(config.auth, "auth_tokens"@), seq![]),
        ),
{
}

/// How many answers the start of a sign-in still waits for.
pub open spec fn login_steps_left(state: LoginStateView) -> nat {
    match state {
        LoginStateView::AwaitDiscovery => 2,
        LoginStateView::AwaitSave { .. } => 1,
        LoginStateView::Done => 0,
    }
}

/// Every answer brings the response nearer, and what is asked next is what the
/// next state waits for.
pub proof fn law_login_ends(
    logto: LogtoConfig,
    state: LoginStateView,
    event: LoginEventView,
    secrets: SecretsView,
)
    requires
        login_accepts(state, event),
    ensures
        ({
            let (next, action) = login_next(logto, state, event, secrets);
            &&& login_steps_left(next) < login_steps_left(state)
            &&& action is SaveState <==> next is AwaitSave
            &&& action is Respond <==> next is Done
        }),
{
}

} // verus!
