//! The check of an ID token, step by step: with the cached keys, or with freshly
//! fetched ones where the cached keys are stale or lack the one that the token
//! names.

use vstd::prelude::*;

use crate::jwks::JwksCache;
#[allow(unused_imports)]
use crate::jwks;
use crate::meta::OidcDiscovery;
use crate::tokens;
use crate::tokens::IdTokenError;

verus! {

/// Where the check of an ID token stands.
pub enum CheckState {
    /// Nothing has been done yet.
    Start { id_token: String },
    /// The key set is being fetched.
    AwaitKeys { id_token: String },
    /// There is nothing left to do.
    Done,
}

/// The view of [`CheckState`].
pub enum CheckStateView {
    Start { id_token: Seq<char> },
    AwaitKeys { id_token: Seq<char> },
    Done,
}

impl View for CheckState {
    type V = CheckStateView;

    open spec fn view(&self) -> CheckStateView {
        match *self {
            CheckState::Start { id_token } => CheckStateView::Start { id_token: id_token@ },
            CheckState::AwaitKeys { id_token } => CheckStateView::AwaitKeys { id_token: id_token@ },
            CheckState::Done => CheckStateView::Done,
        }
    }
}

/// What drives the check of an ID token on.
pub enum CheckEvent {
    /// The check begins.
    Begin,
    /// Whether the key set could be fetched; the cache then holds it.
    KeysFetched(bool),
}

/// What to do next in the check of an ID token.
pub enum CheckAction {
    /// Fetch the key set from this address.
    FetchKeys { jwks_uri: String },
    /// Accept the token with these claims, given as the bytes of a JSON object.
    Accept { claims: Vec<u8> },
    /// Refuse the token.
    Refuse { error: IdTokenError },
}

/// The view of [`CheckAction`].
pub enum CheckActionView {
    FetchKeys { jwks_uri: Seq<char> },
    Accept { claims: Seq<u8> },
    Refuse { error: IdTokenError },
}

impl View for CheckAction {
    type V = CheckActionView;

    open spec fn view(&self) -> CheckActionView {
        match *self {
            CheckAction::FetchKeys { jwks_uri } => CheckActionView::FetchKeys {
                jwks_uri: jwks_uri@,
            },
            CheckAction::Accept { claims } => CheckActionView::Accept { claims: claims@ },
            CheckAction::Refuse { error } => CheckActionView::Refuse { error },
        }
    }
}

/// The token that a state still has to check.
pub open spec fn token_of(state: CheckStateView) -> Option<Seq<char>> {
    match state {
        CheckStateView::Start { id_token } => Some(id_token),
        CheckStateView::AwaitKeys { id_token } => Some(id_token),
        CheckStateView::Done => None,
    }
}

/// The end of a check, by the outcome with the cached keys.
pub open spec fn concluded(outcome: Result<Seq<u8>, IdTokenError>) -> CheckActionView {
    match outcome {
        Ok(claims) => CheckActionView::Accept { claims },
        Err(error) => CheckActionView::Refuse { error },
    }
}

/// The next state and action, by whether the cached keys are stale and the outcome
/// that the check of the token with the cached keys has now.
pub open spec fn check_next(
    jwks_uri: Seq<char>,
    state: CheckStateView,
    event: CheckEvent,
    stale: bool,
    outcome: Result<Seq<u8>, IdTokenError>,
) -> (CheckStateView, CheckActionView) {
    match (state, event) {
        (CheckStateView::Start { id_token }, CheckEvent::Begin) => {
            let unreadable = outcome == Err::<Seq<u8>, IdTokenError>(
                IdTokenError::UnreadableHeader,
            );
            let missing = outcome == Err::<Seq<u8>, IdTokenError>(IdTokenError::NoMatchingKey);
            if !unreadable && (stale || missing) {
                (CheckStateView::AwaitKeys { id_token }, CheckActionView::FetchKeys { jwks_uri })
            } else {
                (CheckStateView::Done, concluded(outcome))
            }
        },
        (CheckStateView::AwaitKeys { .. }, CheckEvent::KeysFetched(true)) => (
            CheckStateView::Done,
            concluded(outcome),
        ),
        (CheckStateView::AwaitKeys { .. }, CheckEvent::KeysFetched(false)) => (
            CheckStateView::Done,
            CheckActionView::Refuse { error: IdTokenError::KeysNotFetched },
        ),
        _ => (CheckStateView::Done, CheckActionView::Refuse { error: IdTokenError::Invalid }),
    }
}

/// Whether the cache cannot be read or has never been filled.
pub open spec fn is_unfilled(cache: Option<&JwksCache>) -> bool {
    match cache {
        Some(cache) => cache.fetched_at is None,
        None => true,
    }
}

fn conclude(outcome: Result<Vec<u8>, IdTokenError>) -> (r: (CheckState, CheckAction))
    ensures
        r.0@ is Done,
        r.1@ == concluded(tokens::outcome_bytes(outcome)),
{
    match outcome {
        Ok(claims) => (CheckState::Done, CheckAction::Accept { claims }),
        Err(error) => (CheckState::Done, CheckAction::Refuse { error }),
    }
}

/// The next state and action, by whether the cached keys are stale and the outcome
/// that the check of the token with the cached keys has now. An event out of turn
/// refuses the token.
pub fn check_step_with(
    jwks_uri: &str,
    state: CheckState,
    event: CheckEvent,
    stale: bool,
    outcome: Result<Vec<u8>, IdTokenError>,
) -> (r: (CheckState, CheckAction))
    ensures
        (r.0@, r.1@) == check_next(jwks_uri@, state@, event, stale, tokens::outcome_bytes(outcome)),
{
    match (state, event) {
        (CheckState::Start { id_token }, CheckEvent::Begin) => {
            let fetch = match &outcome {
                Ok(_) => stale,
                Err(IdTokenError::UnreadableHeader) => false,
                Err(IdTokenError::NoMatchingKey) => true,
                Err(_) => stale,
            };
            if fetch {
                (
                    CheckState::AwaitKeys { id_token },
                    CheckAction::FetchKeys { jwks_uri: jwks_uri.to_string() },
                )
            } else {
                conclude(outcome)
            }
        },
        (CheckState::AwaitKeys { .. }, CheckEvent::KeysFetched(fetched)) => {
            if fetched {
                conclude(outcome)
            } else {
                conclude(Err(IdTokenError::KeysNotFetched))
            }
        },
        _ => conclude(Err(IdTokenError::Invalid)),
    }
}

/// The next state and action in the check of an ID token: refuse it where its
/// header cannot be read, fetch the key set once where the cached one is stale or
/// lacks the key, and accept or refuse it by the cached keys. A cache that cannot
/// be read counts as stale and holds no keys.
pub fn check_step(
    cache: Option<&JwksCache>,
    discovery: &OidcDiscovery,
    client_id: &str,
    state: CheckState,
    event: CheckEvent,
) -> (r: (CheckState, CheckAction))
    ensures
        exists|stale: bool, outcome: Result<Seq<u8>, IdTokenError>|
            {
                &&& (r.0@, r.1@) == #[trigger] check_next(
                    discovery@.jwks_uri,
                    state@,
                    event,
                    stale,
                    outcome,
                )
                &&& is_unfilled(cache) ==> stale
                &&& token_of(state@) matches Some(id_token) ==> tokens::is_outcome(
                    tokens::cached_keys(cache),
                    id_token,
                    discovery@.issuer,
                    client_id@,
                    outcome,
                )
            },
{
    let stale = match cache {
        Some(cache) => cache.is_stale(),
        None => true,
    };
    let issuer = discovery.issuer.as_str();
    let outcome = match &state {
        CheckState::Start { id_token } => tokens::verify_id_token(
            cache,
            id_token.as_str(),
            issuer,
            client_id,
        ),
        CheckState::AwaitKeys { id_token } => tokens::verify_id_token(
            cache,
            id_token.as_str(),
            issuer,
            client_id,
        ),
        CheckState::Done => Err(IdTokenError::Invalid),
    };
    let ghost seen = tokens::outcome_bytes(outcome);
    let r = check_step_with(discovery.jwks_uri.as_str(), state, event, stale, outcome);
    assert((r.0@, r.1@) == check_next(discovery@.jwks_uri, state@, event, stale, seen));
    r
}

/// Whether an event is what a state waits for.
pub open spec fn check_accepts(state: CheckStateView, event: CheckEvent) -> bool {
    match state {
        CheckStateView::Start { .. } => event is Begin,
        CheckStateView::AwaitKeys { .. } => event is KeysFetched,
        CheckStateView::Done => false,
    }
}

/// How many events the check of an ID token still waits for at most.
pub open spec fn check_steps_left(state: CheckStateView) -> nat {
    match state {
        CheckStateView::Start { .. } => 2,
        CheckStateView::AwaitKeys { .. } => 1,
        CheckStateView::Done => 0,
    }
}

/// Every event brings the end of a check nearer, and the key set is fetched at most
/// once: never again after a fetch.
pub proof fn law_check_ends(
    jwks_uri: Seq<char>,
    state: CheckStateView,
    event: CheckEvent,
    stale: bool,
    outcome: Result<Seq<u8>, IdTokenError>,
)
    requires
        check_accepts(state, event),
    ensures
        ({
            let (next, action) = check_next(jwks_uri, state, event, stale, outcome);
            &&& check_steps_left(next) < check_steps_left(state)
            &&& action is FetchKeys <==> next is AwaitKeys
            &&& next is AwaitKeys ==> state is Start && token_of(next) == token_of(state)
            &&& action is Accept || action is Refuse <==> next is Done
        }),
{
}

/// The end of a whole check: `before` is the outcome with the keys that the cache
/// holds, and `after` the one with the keys that were fetched.
pub open spec fn check_run(
    jwks_uri: Seq<char>,
    id_token: Seq<char>,
    stale: bool,
    before: Result<Seq<u8>, IdTokenError>,
    fetched: bool,
    after: Result<Seq<u8>, IdTokenError>,
) -> CheckActionView {
    let start = CheckStateView::Start { id_token };
    let (next, action) = check_next(jwks_uri, start, CheckEvent::Begin, stale, before);
    if next is Done {
        action
    } else {
        check_next(jwks_uri, next, CheckEvent::KeysFetched(fetched), stale, after).1
    }
}

/// A token without a readable header is refused. A fresh cache that has the key of
/// a token serves without a fetch; a stale cache, or one without the key, gives way
/// to the published keys, and where they cannot be fetched the token is refused.
pub proof fn law_check_fetches_on_stale_or_miss(
    jwks_uri: Seq<char>,
    id_token: Seq<char>,
    issuer: Seq<char>,
    client_id: Seq<char>,
    stale: bool,
    cached: Seq<jwks::SigningKeyView>,
    before: Result<Seq<u8>, IdTokenError>,
    fetched: bool,
    after: Result<Seq<u8>, IdTokenError>,
)
    requires
        tokens::is_outcome(cached, id_token, issuer, client_id, before),
    ensures
        check_run(jwks_uri, id_token, stale, before, fetched, after) == (
        match tokens::header_kid(id_token) {
            None => CheckActionView::Refuse { error: IdTokenError::UnreadableHeader },
            Some(kid) => if !stale && jwks::key_for(cached, kid) is Some {
                concluded(before)
            } else if fetched {
                concluded(after)
            } else {
                CheckActionView::Refuse { error: IdTokenError::KeysNotFetched }
            },
        }),
{
}

/// An accepted token was checked with the key that its header names, out of the
/// cached keys or out of the published ones, and its claims are meant for the
/// client and made by the issuer.
pub proof fn law_accepted_token_is_checked(
    jwks_uri: Seq<char>,
    id_token: Seq<char>,
    issuer: Seq<char>,
    client_id: Seq<char>,
    stale: bool,
    cached: Seq<jwks::SigningKeyView>,
    before: Result<Seq<u8>, IdTokenError>,
    fetched: bool,
    published: Seq<jwks::SigningKeyView>,
    after: Result<Seq<u8>, IdTokenError>,
)
    requires
        tokens::is_outcome(cached, id_token, issuer, client_id, before),
        tokens::is_outcome(published, id_token, issuer, client_id, after),
    ensures
        check_run(jwks_uri, id_token, stale, before, fetched, after) matches
            CheckActionView::Accept { claims } ==> {
            &&& tokens::names_audience(claims, client_id)
            &&& tokens::names_issuer(claims, issuer)
            &&& tokens::header_kid(id_token) is Some
            &&& exists|document: Seq<char>, now: int|
                {
                    &&& #[trigger] tokens::is_checked(
                        document,
                        id_token,
                        issuer,
                        client_id,
                        claims,
                        now,
                    )
                    &&& Some(document) == jwks::key_for(
                        if !stale && jwks::key_for(cached, tokens::header_kid(id_token)->0) is Some {
                            cached
                        } else {
                            published
                        },
                        tokens::header_kid(id_token)->0,
                    )
                }
        },
{
    match check_run(jwks_uri, id_token, stale, before, fetched, after) {
        CheckActionView::Accept { claims } => {
            let kid = tokens::header_kid(id_token)->0;
            let keys = if !stale && jwks::key_for(cached, kid) is Some {
                cached
            } else {
                published
            };
            let outcome = Ok::<Seq<u8>, IdTokenError>(claims);
            assert(tokens::is_outcome(keys, id_token, issuer, client_id, outcome));
            let document = jwks::key_for(keys, kid)->0;
            let now = choose|now: int|
                #[trigger] tokens::is_outcome_at(
                    document,
                    id_token,
                    issuer,
                    client_id,
                    outcome,
                    now,
                );
            assert(tokens::is_checked(document, id_token, issuer, client_id, claims, now));
        },
        _ => {},
    }
}

/// A check that is not done has its token, and a cache that was never filled, or cannot
/// be read, counts as such.
pub proof fn law_check_keeps_its_token(id_token: Seq<char>, cache: &JwksCache)
    ensures
        token_of(CheckStateView::Start { id_token }) == Some(id_token),
        token_of(CheckStateView::AwaitKeys { id_token }) == Some(id_token),
        is_unfilled(None),
        is_unfilled(Some(cache)) <==> cache.fetched_at is None,
{
}

} // verus!
