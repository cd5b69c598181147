//! What whole runs of the sign-in, the sign-out and the provisioning ask for and
//! answer, in terms of what they are given.

use vstd::prelude::*;
#[allow(unused_imports)]
use vstd::utf8::*;

#[allow(unused_imports)]
use crate::callback;
#[allow(unused_imports)]
use crate::callback::{CallbackActionView, CallbackEventView, CallbackStateView};
#[allow(unused_imports)]
use crate::encoding;
#[allow(unused_imports)]
use crate::id_check;
#[allow(unused_imports)]
use crate::id_check::{CheckActionView, CheckEvent, CheckStateView};
#[allow(unused_imports)]
use crate::json;
#[allow(unused_imports)]
use crate::letter_case;
#[allow(unused_imports)]
use crate::login;
#[allow(unused_imports)]
use crate::login::{LoginActionView, LoginEventView, LoginStateView, SecretsView};
#[allow(unused_imports)]
use crate::meta::{AuthConfig, AuthSessionView, Config, IdTokenClaimsView, LogtoConfig};
#[allow(unused_imports)]
use crate::meta::{OidcDiscovery, OidcDiscoveryView, TokenResponseView};
#[allow(unused_imports)]
use crate::pkce;
#[allow(unused_imports)]
use crate::reply;
#[allow(unused_imports)]
use crate::reply::HttpReplyView;
#[allow(unused_imports)]
use crate::scopes;
#[allow(unused_imports)]
use crate::session;
#[allow(unused_imports)]
use crate::session_laws;
#[allow(unused_imports)]
use crate::text;
#[allow(unused_imports)]
use crate::text_laws;
#[allow(unused_imports)]
use crate::tokens::IdTokenError;
#[allow(unused_imports)]
use crate::urls;
#[allow(unused_imports)]
use crate::users;
#[allow(unused_imports)]
use crate::users::{ExistingUserView, ProfileView, UpsertActionView, UpsertEventView};
#[allow(unused_imports)]
use crate::users::{UpsertStateView, UserRole};

verus! {

/// A complete sign-in takes the `state` of the request, asks the configured issuer,
/// exchanges the code of the request with the kept verifier, checks the ID token of
/// the response for the configured client, provisions the user of the token, stores
/// for the email of the token exactly the normalized `scope` field of the response
/// whatever the claims are, and issues the session of that email and the credential.
pub proof fn law_complete_sign_in(
    config: Config,
    code: Seq<char>,
    state: Seq<char>,
    taken: AuthSessionView,
    discovery: OidcDiscoveryView,
    tokens: TokenResponseView,
    claims: IdTokenClaimsView,
    credential: Seq<char>,
    stored: bool,
)
    requires
        letter_case::lowercase(text::trimmed(claims.email)).len() > 0,
    ensures
        ({
            let email = letter_case::lowercase(text::trimmed(claims.email));
            let logto = config.auth.logto;
            let s0 = callback::callback_first(Some(code), Some(state));
            let s1 = callback::callback_next(
                config,
                s0.0,
                CallbackEventView::SessionTaken(Some(taken)),
            );
            let s2 = callback::callback_next(
                config,
                s1.0,
                CallbackEventView::Discovered(Some(discovery)),
            );
            let s3 = callback::callback_next(
                config,
                s2.0,
                CallbackEventView::Exchanged(Some(tokens)),
            );
            let s4 = callback::callback_next(config, s3.0, CallbackEventView::Checked(Some(claims)));
            let s5 = callback::callback_next(
                config,
                s4.0,
                CallbackEventView::Provisioned(Some(credential)),
            );
            let s6 = callback::callback_next(config, s5.0, CallbackEventView::ScopesStored(stored));
            &&& s0.1 == CallbackActionView::TakeState { state }
            &&& s1.1 == CallbackActionView::FetchDiscovery { issuer: logto.issuer@ }
            &&& s2.1 == CallbackActionView::ExchangeCode {
                token_endpoint: discovery.token_endpoint,
                client_id: logto.client_id@,
                client_secret: logto.client_secret@,
                redirect_uri: logto.redirect_uri@,
                code,
                code_verifier: taken.code_verifier,
            }
            &&& s3.1 == CallbackActionView::CheckIdToken {
                id_token: tokens.id_token,
                discovery,
                client_id: logto.client_id@,
            }
            &&& s4.1 == CallbackActionView::Provision {
                email,
                first_name: match (claims.given_name, claims.name) {
                    (Some(name), _) => name,
                    (None, Some(name)) => name,
                    (None, None) => seq![],
                },
                last_name: match claims.family_name {
                    Some(name) => name,
                    None => seq![],
                },
                is_root: config.auth.root_user_email@.len() > 0 && email == letter_case::lowercase(
                    text::trimmed(config.auth.root_user_email@),
                ),
            }
            &&& s5.1 == CallbackActionView::StoreScopes {
                email,
                scopes: scopes::normalized(
                    match tokens.scope {
                        Some(scope) => scope,
                        None => seq![],
                    },
                ),
            }
            &&& s6.0 is Done
            &&& s6.1 == CallbackActionView::IssueSession {
                location: config.common.web_url@ + config.common.base_uri@ + "/web/"@,
                cookie_value: encoding::base64_standard(
                    encode_utf8(
                        "{\"access_token\":"@ + json::json_string(
                            "Basic "@ + encoding::base64_standard(
                                encode_utf8(email + ":"@ + credential),
                            ),
                        ) + ",\"refresh_token\":"@ + json::json_string(seq![]) + "}"@,
                    ),
                ),
            }
        }),
{
}

/// A sign-in that cannot go on is refused, each time with the status and the message
/// of what was missing, and asks for nothing more.
pub proof fn law_refused_sign_in(
    config: Config,
    code: Option<Seq<char>>,
    state: Option<Seq<char>>,
    taken: AuthSessionView,
    discovery: OidcDiscoveryView,
    tokens: TokenResponseView,
    claims: IdTokenClaimsView,
)
    ensures
        ({
            let refused = |status: u16, message: Seq<char>|
                (
                    CallbackStateView::Done,
                    CallbackActionView::Respond {
                        reply: HttpReplyView {
                            status,
                            location: None,
                            set_cookie: None,
                            body: message,
                        },
                    },
                );
            let s0 = callback::callback_first(code, state);
            let s1 = callback::callback_next(
                config,
                s0.0,
                CallbackEventView::SessionTaken(Some(taken)),
            );
            let s2 = callback::callback_next(
                config,
                s1.0,
                CallbackEventView::Discovered(Some(discovery)),
            );
            let s3 = callback::callback_next(
                config,
                s2.0,
                CallbackEventView::Exchanged(Some(tokens)),
            );
            let s4 = callback::callback_next(config, s3.0, CallbackEventView::Checked(Some(claims)));
            let email = letter_case::lowercase(text::trimmed(claims.email));
            &&& code is None ==> s0 == refused(400, "missing code"@)
            &&& code is Some && state is None ==> s0 == refused(400, "missing state"@)
            &&& code is Some && state is Some ==> {
                &&& callback::callback_next(config, s0.0, CallbackEventView::SessionTaken(None))
                    == refused(400, "invalid or expired state"@)
                &&& callback::callback_next(config, s1.0, CallbackEventView::Discovered(None))
                    == refused(502, "logto discovery failed"@)
                &&& callback::callback_next(config, s2.0, CallbackEventView::Exchanged(None))
                    == refused(502, "token exchange failed"@)
                &&& callback::callback_next(config, s3.0, CallbackEventView::Checked(None))
                    == refused(401, "invalid id_token"@)
                &&& email.len() == 0 ==> s4 == refused(400, "id_token missing email claim"@)
                &&& email.len() > 0 ==> callback::callback_next(
                    config,
                    s4.0,
                    CallbackEventView::Provisioned(None),
                ) == refused(500, "user provisioning failed"@)
            }
        }),
{
}

/// An answer that a sign-in does not wait for refuses the request.
pub proof fn law_answer_out_of_turn(
    config: Config,
    state: CallbackStateView,
    event: CallbackEventView,
)
    requires
        !(state is AwaitSession && event is SessionTaken),
        !(state is AwaitDiscovery && event is Discovered),
        !(state is AwaitTokens && event is Exchanged),
        !(state is AwaitClaims && event is Checked),
        !(state is AwaitUser && event is Provisioned),
        !(state is AwaitScopes && event is ScopesStored),
    ensures
        callback::callback_next(config, state, event) == (
            CallbackStateView::Done,
            CallbackActionView::Respond {
                reply: HttpReplyView {
                    status: 400,
                    location: None,
                    set_cookie: None,
                    body: "invalid or expired state"@,
                },
            },
        ),
{
}

/// An email is kept without the white space around it and in lower case; a user is
/// root exactly if a root email is configured and both are kept alike.
pub proof fn law_kept_emails(
    auth: AuthConfig,
    left: Seq<char>,
    core: Seq<char>,
    right: Seq<char>,
    email: Seq<char>,
)
    requires
        forall|i: int| 0 <= i < left.len() ==> text::is_white(#[trigger] left[i]),
        forall|i: int| 0 <= i < right.len() ==> text::is_white(#[trigger] right[i]),
        core.len() > 0 ==> !text::is_white(core[0]) && !text::is_white(core.last()),
    ensures
        callback::normalized_email(left + core + right) == letter_case::lowercase(core),
        callback::is_root_email(auth, email) <==> auth.root_user_email@.len() > 0 && email
            == letter_case::lowercase(text::trimmed(auth.root_user_email@)),
{
    text_laws::law_trimming_undoes_padding(left, core, right);
}

/// The response that issues a session leads to the web application and sets the
/// session cookie, which ends the configured lifetime after the moment it is set.
pub proof fn law_session_response(
    auth: AuthConfig,
    location: Seq<char>,
    cookie_value: Seq<char>,
    now: int,
)
    requires
        session::in_calendar(now + auth.cookie_max_age),
    ensures
        ({
            let r = callback::session_issued(auth, location, cookie_value, now);
            &&& r.status == 302
            &&& r.location == Some(location)
            &&& r.body.len() == 0
            &&& r.set_cookie == Some(
                "auth_tokens"@ + "="@ + cookie_value + "; HttpOnly"@ + (
                if auth.cookie_same_site_lax {
                    "; SameSite=Lax"@
                } else {
                    "; SameSite=None"@
                }) + (if auth.cookie_secure_only {
                    "; Secure"@
                } else {
                    seq![]
                }) + "; Path="@ + "/"@ + "; Expires="@ + session::cookie_date(
                    now + auth.cookie_max_age,
                ),
            )
        }),
{
    session_laws::law_session_header(
        auth,
        "auth_tokens"@,
        cookie_value,
        now,
        session::cookie_date(now + auth.cookie_max_age),
    );
}

/// A sign-in begins at the configured issuer, keeps the drawn verifier under the drawn
/// `state`, and sends the user to the provider with that `state` and the drawn
/// challenge. Where it cannot go on it is refused with the status and the message of
/// what was missing.
pub proof fn law_whole_login(
    logto: LogtoConfig,
    discovery: OidcDiscoveryView,
    secrets: SecretsView,
    other: SecretsView,
)
    ensures
        ({
            let refused = |status: u16, message: Seq<char>|
                (
                    LoginStateView::Done,
                    LoginActionView::Respond {
                        reply: HttpReplyView {
                            status,
                            location: None,
                            set_cookie: None,
                            body: message,
                        },
                    },
                );
            let s0 = login::login_first(logto);
            let s1 = login::login_next(
                logto,
                s0.0,
                LoginEventView::Discovered(Some(discovery)),
                secrets,
            );
            let s2 = login::login_next(logto, s1.0, LoginEventView::Saved(true), other);
            &&& !logto.enabled ==> s0 == refused(404, "logto disabled"@)
            &&& logto.enabled ==> {
                &&& s0.1 == LoginActionView::FetchDiscovery { issuer: logto.issuer@ }
                &&& s1.1 == LoginActionView::SaveState {
                    state: secrets.state,
                    verifier: secrets.verifier,
                }
                &&& s2.0 is Done
                &&& s2.1 == LoginActionView::Respond {
                    reply: HttpReplyView {
                        status: 302,
                        location: Some(
                            discovery.authorization_endpoint + urls::authz_query(
                                logto.client_id@,
                                logto.redirect_uri@,
                                logto.api_indicator@,
                                secrets.state,
                                secrets.challenge,
                            ),
                        ),
                        set_cookie: None,
                        body: seq![],
                    },
                }
                &&& login::login_next(logto, s0.0, LoginEventView::Discovered(None), secrets)
                    == refused(502, "logto discovery failed"@)
                &&& login::login_next(logto, s1.0, LoginEventView::Saved(false), other) == refused(
                    500,
                    "state store failed"@,
                )
            }
        }),
{
}

/// The secrets that a sign-in draws: a verifier that PKCE accepts, the challenge of the
/// whole of it, and a UUID as the `state`.
pub proof fn law_drawn_secrets(secrets: SecretsView, i: int)
    requires
        login::are_secrets(secrets),
    ensures
        secrets.challenge == encoding::base64_url(
            encoding::hex_bytes(encoding::sha256_hex(encode_utf8(secrets.verifier))),
        ),
        secrets.verifier.len() == 72,
        secrets.state.len() == 36,
        0 <= i < 72 ==> secrets.verifier[i] == '-' || '0' <= secrets.verifier[i] <= '9' || 'a'
            <= secrets.verifier[i] <= 'f',
        0 <= i < 36 ==> secrets.state[i] == '-' || '0' <= secrets.state[i] <= '9' || 'a'
            <= secrets.state[i] <= 'f',
{
    if 0 <= i < 72 {
        pkce::law_uuid_pair(secrets.verifier, i);
    }
    if 0 <= i < 36 {
        assert(secrets.state[i] == '-' || encoding::is_lower_hex_digit(secrets.state[i]));
    }
}

/// A sign-out leads through the provider's endpoint where it has one, else to the
/// sign-in page, and clears the session cookie either way.
pub proof fn law_whole_logout(config: Config, document: OidcDiscovery, endpoint: Seq<char>)
    ensures
        ({
            let cleared = "auth_tokens"@ + "="@ + "; HttpOnly"@ + (
            if config.auth.cookie_secure_only {
                "; Secure"@
            } else {
                seq![]
            }) + "; Path="@ + "/"@ + "; Max-Age="@ + seq!['0'];
            &&& login::logout_reply(config, None) == (HttpReplyView {
                status: 302,
                location: Some(config.common.web_url@ + config.common.base_uri@ + "/login"@),
                set_cookie: Some(cleared),
                body: seq![],
            })
            &&& login::logout_reply(config, Some(endpoint)) == (HttpReplyView {
                status: 302,
                location: Some(
                    endpoint + "?post_logout_redirect_uri="@ + encoding::url_component(
                        config.auth.logto.post_logout_uri@,
                    ),
                ),
                set_cookie: Some(cleared),
                body: seq![],
            })
            &&& login::end_session_of(None) is None
            &&& login::end_session_of(Some(document)) == text::opt_text(
                document.end_session_endpoint,
            )
        }),
{
    session_laws::law_clearing_header(config.auth, "auth_tokens"@, seq![]);
}

/// The provisioning of a user looks the email up, hashes the credential with the salt
/// of the user, saves the hash, and hands the credential out once the user is saved. A
/// known user keeps everything else; a new one is an external member of the
/// organization, and root there exactly if the profile says so.
pub proof fn law_whole_provisioning(
    profile: ProfileView,
    credential: Seq<char>,
    existing: ExistingUserView,
    fresh_salt: Seq<char>,
    other_salt: Seq<char>,
    hash: Seq<char>,
)
    ensures
        ({
            let start = UpsertStateView::Lookup { profile, credential };
            let known = users::upsert_next(start, UpsertEventView::Found(Some(existing)), fresh_salt);
            let fresh = users::upsert_next(start, UpsertEventView::Found(None), fresh_salt);
            let update = users::upsert_next(known.0, UpsertEventView::Hashed(hash), other_salt);
            let add = users::upsert_next(fresh.0, UpsertEventView::Hashed(hash), other_salt);
            &&& known.1 == UpsertActionView::Hash { credential, salt: existing.salt }
            &&& fresh.1 == UpsertActionView::Hash { credential, salt: fresh_salt }
            &&& update.1 == UpsertActionView::Update {
                email: profile.email,
                first_name: existing.first_name,
                last_name: existing.last_name,
                password: hash,
                password_ext: existing.password_ext,
            }
            &&& add.1 is Add
            &&& ({
                let user = add.1->user;
                &&& user.email == profile.email
                &&& user.first_name == profile.first_name
                &&& user.last_name == profile.last_name
                &&& user.password == hash
                &&& user.salt == fresh_salt
                &&& user.is_external
                &&& user.password_ext is None
                &&& user.organizations.len() == 1
                &&& user.organizations[0].name == profile.organization
                &&& user.organizations[0].org_name == profile.organization
                &&& user.organizations[0].token.len() == 0
                &&& user.organizations[0].rum_token is None
                &&& user.organizations[0].role == UserRole::Root <==> profile.is_root
                &&& user.organizations[0].role == UserRole::User <==> !profile.is_root
            })
            &&& forall|saving: UpsertStateView|
                #![trigger users::upsert_next(saving, UpsertEventView::Saved(true), other_salt)]
                saving == update.0 || saving == add.0 ==> users::upsert_next(
                    saving,
                    UpsertEventView::Saved(true),
                    other_salt,
                ) == (UpsertStateView::Done, UpsertActionView::Finish { credential })
                    && users::upsert_next(saving, UpsertEventView::Saved(false), other_salt) == (
                    UpsertStateView::Done,
                    UpsertActionView::Fail,
                )
        }),
{
}

/// An answer that a provisioning does not wait for ends it without a credential.
pub proof fn law_provisioning_out_of_turn(
    state: UpsertStateView,
    event: UpsertEventView,
    fresh_salt: Seq<char>,
)
    requires
        !(state is Lookup && event is Found),
        !(state is HashKnown && event is Hashed),
        !(state is HashNew && event is Hashed),
        !(state is Save && event is Saved),
    ensures
        users::upsert_next(state, event, fresh_salt) == (
            UpsertStateView::Done,
            UpsertActionView::Fail,
        ),
{
}

/// The check of an ID token refuses an unreadable header; fetches the keys from the
/// published address, once, where the cached ones are stale or lack the key; and else
/// ends with the outcome of the check: its claims, or why it was refused.
pub proof fn law_whole_check(
    jwks_uri: Seq<char>,
    id_token: Seq<char>,
    stale: bool,
    claims: Seq<u8>,
    error: IdTokenError,
    other: bool,
)
    ensures
        ({
            let ok = Ok::<Seq<u8>, IdTokenError>(claims);
            let err = Err::<Seq<u8>, IdTokenError>(error);
            let start = CheckStateView::Start { id_token };
            let waiting = CheckStateView::AwaitKeys { id_token };
            let fetch = (waiting, CheckActionView::FetchKeys { jwks_uri });
            let accepted = (CheckStateView::Done, CheckActionView::Accept { claims });
            let refused = (CheckStateView::Done, CheckActionView::Refuse { error });
            &&& id_check::check_next(jwks_uri, start, CheckEvent::Begin, stale, ok) == (if stale {
                fetch
            } else {
                accepted
            })
            &&& id_check::check_next(jwks_uri, start, CheckEvent::Begin, stale, err) == (
            if error == IdTokenError::NoMatchingKey || (stale && error
                != IdTokenError::UnreadableHeader) {
                fetch
            } else {
                refused
            })
            &&& id_check::check_next(jwks_uri, waiting, CheckEvent::KeysFetched(true), stale, ok)
                == accepted
            &&& id_check::check_next(jwks_uri, waiting, CheckEvent::KeysFetched(true), stale, err)
                == refused
            &&& id_check::check_next(jwks_uri, waiting, CheckEvent::KeysFetched(false), stale, ok)
                == (
                CheckStateView::Done,
                CheckActionView::Refuse { error: IdTokenError::KeysNotFetched },
            )
            &&& id_check::check_next(jwks_uri, waiting, CheckEvent::KeysFetched(false), stale, err)
                == (
                CheckStateView::Done,
                CheckActionView::Refuse { error: IdTokenError::KeysNotFetched },
            )
            &&& id_check::check_next(jwks_uri, start, CheckEvent::KeysFetched(other), stale, ok)
                == (
                CheckStateView::Done,
                CheckActionView::Refuse { error: IdTokenError::Invalid },
            )
            &&& id_check::check_next(jwks_uri, waiting, CheckEvent::Begin, stale, ok) == (
                CheckStateView::Done,
                CheckActionView::Refuse { error: IdTokenError::Invalid },
            )
        }),
{
}

/// Responses: a message with its status and no more; a redirect; a redirect with a
/// cookie. A refusal has an error status and neither.
pub proof fn law_replies(status: u16, a: Seq<char>, b: Seq<char>, r: HttpReplyView)
    ensures
        reply::plain_reply(status, a) == (HttpReplyView {
            status,
            location: None,
            set_cookie: None,
            body: a,
        }),
        reply::redirect_reply(a) == (HttpReplyView {
            status: 302,
            location: Some(a),
            set_cookie: None,
            body: seq![],
        }),
        reply::cookie_reply(a, b) == (HttpReplyView {
            status: 302,
            location: Some(a),
            set_cookie: Some(b),
            body: seq![],
        }),
        reply::is_refusal(r) <==> 400 <= r.status <= 599 && r.location is None && r.set_cookie
            is None,
{
}

} // verus!
