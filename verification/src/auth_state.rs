//! Pending sign-ins: the code verifier of each `state`, kept in the key-value
//! store until the callback consumes it.

use vstd::prelude::*;

use crate::meta::AuthSession;
#[allow(unused_imports)]
use crate::meta::AuthSessionView;

verus! {

/// The table of pending sign-ins.
pub open spec fn state_table() -> Seq<char> {
    "logto_auth_state"@
}

/// The table of pending sign-ins.
pub fn kv_state_table() -> (r: &'static str)
    ensures
        r@ == state_table(),
        r@ == "logto_auth_state"@,
{
    "logto_auth_state"
}

/// The pending sign-in to keep for a code verifier, at a moment given in
/// microseconds since 1970.
pub fn pending_session(verifier: &str, now_micros: i64) -> (r: AuthSession)
    ensures
        r@ == (AuthSessionView { code_verifier: verifier@, created_at: now_micros }),
        r.code_verifier@ == verifier@,
        r.created_at == now_micros,
{
    AuthSession { code_verifier: verifier.to_string(), created_at: now_micros }
}

/// What to do with the pending sign-in of a `state`.
pub enum TakeState {
    /// Delete the entry, then go on with the sign-in whether or not that worked.
    DeleteAndUse { session: AuthSession },
    /// The `state` is unknown: leave the store as it is.
    Unknown,
}

/// The pending sign-in that a decision hands on.
pub open spec fn taken(decision: TakeState) -> Option<AuthSessionView> {
    match decision {
        TakeState::DeleteAndUse { session } => Some(session@),
        TakeState::Unknown => None,
    }
}

/// Decides on a `state` by its entry; `found` is `None` where the store has no
/// readable entry for it.
pub fn take_state(found: Option<AuthSession>) -> (r: TakeState)
    ensures
        taken(r) == match found {
            Some(session) => Some(session@),
            None => None,
        },
        found matches Some(session) ==> r == (TakeState::DeleteAndUse { session }),
        found is None ==> r is Unknown,
{
    match found {
        Some(session) => TakeState::DeleteAndUse { session },
        None => TakeState::Unknown,
    }
}

/// The store after a sign-in was kept under a `state`.
pub open spec fn store_after_save(
    store: Map<Seq<char>, AuthSessionView>,
    state: Seq<char>,
    session: AuthSessionView,
) -> Map<Seq<char>, AuthSessionView> {
    store.insert(state, session)
}

/// What the store holds for a `state`.
pub open spec fn lookup(
    store: Map<Seq<char>, AuthSessionView>,
    state: Seq<char>,
) -> Option<AuthSessionView> {
    if store.contains_key(state) {
        Some(store[state])
    } else {
        None
    }
}

/// The store after a decision on a `state` was carried out.
pub open spec fn store_after_take(
    store: Map<Seq<char>, AuthSessionView>,
    state: Seq<char>,
    decision: TakeState,
) -> Map<Seq<char>, AuthSessionView> {
    match decision {
        TakeState::DeleteAndUse { .. } => store.remove(state),
        TakeState::Unknown => store,
    }
}

/// A `state` serves once: the callback gets back the code verifier that was kept
/// for it, and a second callback with the same `state` gets nothing. Other
/// pending sign-ins are not touched.
pub proof fn law_state_serves_once(
    store: Map<Seq<char>, AuthSessionView>,
    state: Seq<char>,
    session: AuthSessionView,
    first: TakeState,
    second: TakeState,
    other: Seq<char>,
)
    requires
        taken(first) == lookup(store_after_save(store, state, session), state),
        taken(second) == lookup(
            store_after_take(store_after_save(store, state, session), state, first),
            state,
        ),
        other != state,
    ensures
        taken(first) == Some(session),
        taken(second) is None,
        lookup(
            store_after_take(store_after_save(store, state, session), state, first),
            other,
        ) == lookup(store, other),
{
}

/// A `state` that was never kept gets nothing and changes nothing.
pub proof fn law_unknown_state_is_refused(
    store: Map<Seq<char>, AuthSessionView>,
    state: Seq<char>,
    decision: TakeState,
)
    requires
        !store.contains_key(state),
        taken(decision) == lookup(store, state),
    ensures
        taken(decision) is None,
        store_after_take(store, state, decision) == store,
{
}

} // verus!
