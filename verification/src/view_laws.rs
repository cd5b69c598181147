//! What the views tell: every field of a value, under its own name.

use vstd::prelude::*;

#[allow(unused_imports)]
use crate::callback::{CallbackAction, CallbackActionView, CallbackEvent, CallbackEventView, CallbackState, CallbackStateView};
#[allow(unused_imports)]
use crate::id_check::{CheckAction, CheckActionView, CheckState, CheckStateView};
#[allow(unused_imports)]
use crate::login::{LoginAction, LoginActionView, LoginEvent, LoginEventView, LoginState, LoginStateView, Secrets};
#[allow(unused_imports)]
use crate::meta::{AuthSession, AuthTokens, IdTokenClaims, OidcDiscovery, TokenResponse};
#[allow(unused_imports)]
use crate::reply::{HttpReply};
#[allow(unused_imports)]
use crate::session::{SessionCookie};
#[allow(unused_imports)]
use crate::users::{DBUser, ExistingUser, Profile, UpsertAction, UpsertActionView, UpsertEvent, UpsertEventView, UpsertState, UpsertStateView, UserOrg};
#[allow(unused_imports)]
use crate::text;

verus! {

/// The view of a [`OidcDiscovery`] holds each of its fields.
pub proof fn law_oidc_discovery_view(x: OidcDiscovery)
    ensures
        x@.issuer == x.issuer@,
        x@.authorization_endpoint == x.authorization_endpoint@,
        x@.token_endpoint == x.token_endpoint@,
        x@.jwks_uri == x.jwks_uri@,
        x@.end_session_endpoint == text::opt_text(x.end_session_endpoint),
{
}

/// The view of a [`TokenResponse`] holds each of its fields.
pub proof fn law_token_response_view(x: TokenResponse)
    ensures
        x@.access_token == x.access_token@,
        x@.id_token == x.id_token@,
        x@.refresh_token == text::opt_text(x.refresh_token),
        x@.expires_in == x.expires_in,
        x@.scope == text::opt_text(x.scope),
{
}

/// The view of a [`IdTokenClaims`] holds each of its fields.
pub proof fn law_id_token_claims_view(x: IdTokenClaims)
    ensures
        x@.sub == x.sub@,
        x@.email == x.email@,
        x@.name == text::opt_text(x.name),
        x@.given_name == text::opt_text(x.given_name),
        x@.family_name == text::opt_text(x.family_name),
        x@.aud == x.aud@,
        x@.exp == x.exp,
        x@.iss == x.iss@,
{
}

/// The view of a [`AuthSession`] holds each of its fields.
pub proof fn law_auth_session_view(x: AuthSession)
    ensures
        x@.code_verifier == x.code_verifier@,
        x@.created_at == x.created_at,
{
}

/// The view of a [`AuthTokens`] holds each of its fields.
pub proof fn law_auth_tokens_view(x: AuthTokens)
    ensures
        x@.access_token == x.access_token@,
        x@.refresh_token == x.refresh_token@,
{
}

/// The view of a [`Secrets`] holds each of its fields.
pub proof fn law_secrets_view(x: Secrets)
    ensures
        x@.verifier == x.verifier@,
        x@.challenge == x.challenge@,
        x@.state == x.state@,
{
}

/// The view of a [`HttpReply`] holds each of its fields.
pub proof fn law_http_reply_view(x: HttpReply)
    ensures
        x@.status == x.status,
        x@.location == text::opt_text(x.location),
        x@.set_cookie == text::opt_text(x.set_cookie),
        x@.body == x.body@,
{
}

/// The view of a [`UserOrg`] holds each of its fields.
pub proof fn law_user_org_view(x: UserOrg)
    ensures
        x@.name == x.name@,
        x@.org_name == x.org_name@,
        x@.token == x.token@,
        x@.rum_token == text::opt_text(x.rum_token),
        x@.role == x.role,
{
}

/// The view of a [`Profile`] holds each of its fields.
pub proof fn law_profile_view(x: Profile)
    ensures
        x@.email == x.email@,
        x@.first_name == x.first_name@,
        x@.last_name == x.last_name@,
        x@.is_root == x.is_root,
        x@.organization == x.organization@,
{
}

/// The view of a [`ExistingUser`] holds each of its fields.
pub proof fn law_existing_user_view(x: ExistingUser)
    ensures
        x@.first_name == x.first_name@,
        x@.last_name == x.last_name@,
        x@.salt == x.salt@,
        x@.password_ext == text::opt_text(x.password_ext),
{
}

/// The view of a [`SessionCookie`] holds each of its fields.
pub proof fn law_session_cookie_view(x: SessionCookie)
    ensures
        x@.name == x.name@,
        x@.value == x.value@,
        x@.http_only == x.http_only,
        x@.secure == x.secure,
        x@.path == x.path@,
        x@.same_site == x.same_site,
        x@.max_age == x.max_age,
        x@.expires == x.expires,
{
}

/// The view of a [`DBUser`] holds each of its fields, and each membership in place.
pub proof fn law_db_user_view(x: DBUser, i: int)
    ensures
        x@.email == x.email@,
        x@.first_name == x.first_name@,
        x@.last_name == x.last_name@,
        x@.password == x.password@,
        x@.salt == x.salt@,
        x@.organizations.len() == x.organizations@.len(),
        0 <= i < x.organizations@.len() ==> x@.organizations[i] == x.organizations@[i]@,
        x@.is_external == x.is_external,
        x@.password_ext == text::opt_text(x.password_ext),
{
}

/// The view of a [`CallbackState`] is the variant of the same name with its fields.
pub proof fn law_callback_state_view(x: CallbackState)
    ensures
        match x {
            CallbackState::AwaitSession { code } => x@ == (CallbackStateView::AwaitSession {
                code: code@,
            }),
            CallbackState::AwaitDiscovery { code, code_verifier } => x@ == (CallbackStateView::AwaitDiscovery {
                code: code@,
                code_verifier: code_verifier@,
            }),
            CallbackState::AwaitTokens { discovery } => x@ == (CallbackStateView::AwaitTokens {
                discovery: discovery@,
            }),
            CallbackState::AwaitClaims { scope } => x@ == (CallbackStateView::AwaitClaims {
                scope: text::opt_text(scope),
            }),
            CallbackState::AwaitUser { email, scope } => x@ == (CallbackStateView::AwaitUser {
                email: email@,
                scope: text::opt_text(scope),
            }),
            CallbackState::AwaitScopes { email, credential } => x@ == (CallbackStateView::AwaitScopes {
                email: email@,
                credential: credential@,
            }),
            CallbackState::Done => x@ is Done,
        },
{
}

/// The view of a [`CallbackAction`] is the variant of the same name with its fields.
pub proof fn law_callback_action_view(x: CallbackAction)
    ensures
        match x {
            CallbackAction::TakeState { state } => x@ == (CallbackActionView::TakeState {
                state: state@,
            }),
            CallbackAction::FetchDiscovery { issuer } => x@ == (CallbackActionView::FetchDiscovery {
                issuer: issuer@,
            }),
            CallbackAction::ExchangeCode { token_endpoint, client_id, client_secret, redirect_uri, code, code_verifier } => x@ == (CallbackActionView::ExchangeCode {
                token_endpoint: token_endpoint@,
                client_id: client_id@,
                client_secret: client_secret@,
                redirect_uri: redirect_uri@,
                code: code@,
                code_verifier: code_verifier@,
            }),
            CallbackAction::CheckIdToken { id_token, discovery, client_id } => x@ == (CallbackActionView::CheckIdToken {
                id_token: id_token@,
                discovery: discovery@,
                client_id: client_id@,
            }),
            CallbackAction::Provision { email, first_name, last_name, is_root } => x@ == (CallbackActionView::Provision {
                email: email@,
                first_name: first_name@,
                last_name: last_name@,
                is_root: is_root,
            }),
            CallbackAction::StoreScopes { email, scopes } => x@ == (CallbackActionView::StoreScopes {
                email: email@,
                scopes: text::texts(scopes@),
            }),
            CallbackAction::IssueSession { location, cookie_value } => x@ == (CallbackActionView::IssueSession {
                location: location@,
                cookie_value: cookie_value@,
            }),
            CallbackAction::Respond { reply } => x@ == (CallbackActionView::Respond {
                reply: reply@,
            }),
        },
{
}

/// The view of a [`LoginState`] is the variant of the same name with its fields.
pub proof fn law_login_state_view(x: LoginState)
    ensures
        match x {
            LoginState::AwaitDiscovery => x@ is AwaitDiscovery,
            LoginState::AwaitSave { discovery, state, challenge } => x@ == (LoginStateView::AwaitSave {
                discovery: discovery@,
                state: state@,
                challenge: challenge@,
            }),
            LoginState::Done => x@ is Done,
        },
{
}

/// The view of a [`LoginAction`] is the variant of the same name with its fields.
pub proof fn law_login_action_view(x: LoginAction)
    ensures
        match x {
            LoginAction::FetchDiscovery { issuer } => x@ == (LoginActionView::FetchDiscovery {
                issuer: issuer@,
            }),
            LoginAction::SaveState { state, verifier } => x@ == (LoginActionView::SaveState {
                state: state@,
                verifier: verifier@,
            }),
            LoginAction::Respond { reply } => x@ == (LoginActionView::Respond {
                reply: reply@,
            }),
        },
{
}

/// The view of a [`UpsertState`] is the variant of the same name with its fields.
pub proof fn law_upsert_state_view(x: UpsertState)
    ensures
        match x {
            UpsertState::Lookup { profile, credential } => x@ == (UpsertStateView::Lookup {
                profile: profile@,
                credential: credential@,
            }),
            UpsertState::HashKnown { email, credential, existing } => x@ == (UpsertStateView::HashKnown {
                email: email@,
                credential: credential@,
                existing: existing@,
            }),
            UpsertState::HashNew { profile, credential, salt } => x@ == (UpsertStateView::HashNew {
                profile: profile@,
                credential: credential@,
                salt: salt@,
            }),
            UpsertState::Save { credential } => x@ == (UpsertStateView::Save {
                credential: credential@,
            }),
            UpsertState::Done => x@ is Done,
        },
{
}

/// The view of a [`UpsertAction`] is the variant of the same name with its fields.
pub proof fn law_upsert_action_view(x: UpsertAction)
    ensures
        match x {
            UpsertAction::Find { email } => x@ == (UpsertActionView::Find {
                email: email@,
            }),
            UpsertAction::Hash { credential, salt } => x@ == (UpsertActionView::Hash {
                credential: credential@,
                salt: salt@,
            }),
            UpsertAction::Update { email, first_name, last_name, password, password_ext } => x@ == (UpsertActionView::Update {
                email: email@,
                first_name: first_name@,
                last_name: last_name@,
                password: password@,
                password_ext: text::opt_text(password_ext),
            }),
            UpsertAction::Add { user } => x@ == (UpsertActionView::Add {
                user: user@,
            }),
            UpsertAction::Finish { credential } => x@ == (UpsertActionView::Finish {
                credential: credential@,
            }),
            UpsertAction::Fail => x@ is Fail,
        },
{
}

/// The view of a [`CheckState`] is the variant of the same name with its fields.
pub proof fn law_check_state_view(x: CheckState)
    ensures
        match x {
            CheckState::Start { id_token } => x@ == (CheckStateView::Start {
                id_token: id_token@,
            }),
            CheckState::AwaitKeys { id_token } => x@ == (CheckStateView::AwaitKeys {
                id_token: id_token@,
            }),
            CheckState::Done => x@ is Done,
        },
{
}

/// The view of a [`CheckAction`] is the variant of the same name with its fields.
pub proof fn law_check_action_view(x: CheckAction)
    ensures
        match x {
            CheckAction::FetchKeys { jwks_uri } => x@ == (CheckActionView::FetchKeys {
                jwks_uri: jwks_uri@,
            }),
            CheckAction::Accept { claims } => x@ == (CheckActionView::Accept {
                claims: claims@,
            }),
            CheckAction::Refuse { error } => x@ == (CheckActionView::Refuse {
                error: error,
            }),
        },
{
}

/// The view of a [`CallbackEvent`] is the variant of the same name with what it holds.
pub proof fn law_callback_event_view(x: CallbackEvent)
    ensures
        match x {
            CallbackEvent::SessionTaken(Some(y)) => x@ == CallbackEventView::SessionTaken(Some(y@)),
            CallbackEvent::SessionTaken(None) => x@ == CallbackEventView::SessionTaken(None),
            CallbackEvent::Discovered(Some(y)) => x@ == CallbackEventView::Discovered(Some(y@)),
            CallbackEvent::Discovered(None) => x@ == CallbackEventView::Discovered(None),
            CallbackEvent::Exchanged(Some(y)) => x@ == CallbackEventView::Exchanged(Some(y@)),
            CallbackEvent::Exchanged(None) => x@ == CallbackEventView::Exchanged(None),
            CallbackEvent::Checked(Some(y)) => x@ == CallbackEventView::Checked(Some(y@)),
            CallbackEvent::Checked(None) => x@ == CallbackEventView::Checked(None),
            CallbackEvent::Provisioned(y) => x@ == CallbackEventView::Provisioned(text::opt_text(y)),
            CallbackEvent::ScopesStored(y) => x@ == CallbackEventView::ScopesStored(y),
        },
{
}

/// The view of a [`LoginEvent`] is the variant of the same name with what it holds.
pub proof fn law_login_event_view(x: LoginEvent)
    ensures
        match x {
            LoginEvent::Discovered(Some(y)) => x@ == LoginEventView::Discovered(Some(y@)),
            LoginEvent::Discovered(None) => x@ == LoginEventView::Discovered(None),
            LoginEvent::Saved(y) => x@ == LoginEventView::Saved(y),
        },
{
}

/// The view of a [`UpsertEvent`] is the variant of the same name with what it holds.
pub proof fn law_upsert_event_view(x: UpsertEvent)
    ensures
        match x {
            UpsertEvent::Found(Some(y)) => x@ == UpsertEventView::Found(Some(y@)),
            UpsertEvent::Found(None) => x@ == UpsertEventView::Found(None),
            UpsertEvent::Hashed(y) => x@ == UpsertEventView::Hashed(y@),
            UpsertEvent::Saved(y) => x@ == UpsertEventView::Saved(y),
        },
{
}

} // verus!
