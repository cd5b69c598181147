//! The cache of the provider's signing keys (JWKS). Keys rotate, so a fetched
//! key set serves for a limited time.

use std::time::Instant;

use vstd::prelude::*;

use crate::json;
use crate::text;

verus! {

/// How long a fetched key set serves, in nanoseconds: one hour.
pub const TTL_NANOS: u128 = 3_600_000_000_000;

/// `std::time::Instant`, a reading of the monotonic clock.
#[verifier::external_type_specification]
#[verifier::external_body]
pub struct ExInstant(Instant);

/// A key of a key set.
pub struct SigningKey {
    /// The identifier of the key, where it has one.
    pub kid: Option<String>,
    /// The key as JSON text.
    pub document: String,
}

/// The view of [`SigningKey`].
pub struct SigningKeyView {
    pub kid: Option<Seq<char>>,
    pub document: Seq<char>,
}

impl View for SigningKey {
    type V = SigningKeyView;

    open spec fn view(&self) -> SigningKeyView {
        SigningKeyView { kid: text::opt_text(self.kid), document: self.document@ }
    }
}

/// The cached key set, and when it was fetched.
pub struct JwksCache {
    pub keys: Vec<SigningKey>,
    pub fetched_at: Option<Instant>,
}

/// Why a key set could not be read.
#[derive(Clone, Copy, Debug, PartialEq, Eq, Structural)]
pub enum JwksError {
    /// The body of the response is no JSON document.
    NotJson,
}

/// The views of keys.
pub open spec fn key_views(keys: Seq<SigningKey>) -> Seq<SigningKeyView> {
    keys.map_values(|key: SigningKey| key@)
}

/// The key that a JSON document describes.
pub open spec fn key_of(document: Seq<char>) -> SigningKeyView {
    SigningKeyView { kid: json::member_text(document, "kid"@), document }
}

/// The keys that JSON documents describe.
pub open spec fn keys_of(documents: Seq<Seq<char>>) -> Seq<SigningKeyView> {
    documents.map_values(|document: Seq<char>| key_of(document))
}

/// The keys of the array of a key set; none where the key set has no array.
pub open spec fn key_set(items: Option<Seq<Seq<char>>>) -> Seq<SigningKeyView> {
    match items {
        Some(documents) => keys_of(documents),
        None => seq![],
    }
}

/// Whether a key answers to the identifier that a token names. Where the token
/// names none, the only key of the set does.
pub open spec fn answers(kid: Option<Seq<char>>, key: SigningKeyView, set_size: nat) -> bool {
    match kid {
        Some(want) => key.kid == Some(want),
        None => set_size == 1,
    }
}

/// Whether `i` is the first key that answers to an identifier.
pub open spec fn is_first_answer(
    keys: Seq<SigningKeyView>,
    kid: Option<Seq<char>>,
    i: int,
) -> bool {
    &&& 0 <= i < keys.len()
    &&& answers(kid, keys[i], keys.len())
    &&& forall|j: int| 0 <= j < i ==> !answers(kid, #[trigger] keys[j], keys.len())
}

/// Whether some key answers to an identifier.
pub open spec fn has_answer(keys: Seq<SigningKeyView>, kid: Option<Seq<char>>) -> bool {
    exists|i: int| #[trigger] is_first_answer(keys, kid, i)
}

/// The JSON text of the first key that answers to an identifier.
pub open spec fn answering_document(
    keys: Seq<SigningKeyView>,
    kid: Option<Seq<char>>,
) -> Seq<char> {
    keys[choose|i: int| #[trigger] is_first_answer(keys, kid, i)].document
}

/// Whether `jsonwebtoken` makes a decoding key of a JSON document.
pub uninterp spec fn is_usable_key(document: Seq<char>) -> bool;

/// The key to check a token with: the first one that answers to its
/// identifier, where it is usable.
pub open spec fn key_for(keys: Seq<SigningKeyView>, kid: Option<Seq<char>>) -> Option<Seq<char>> {
    if has_answer(keys, kid) && is_usable_key(answering_document(keys, kid)) {
        Some(answering_document(keys, kid))
    } else {
        None
    }
}

/// `serde_json::from_str` reads a `jsonwebtoken::jwk::Jwk`, and
/// `DecodingKey::from_jwk` makes a decoding key of it; whether both succeed
/// depends on the document alone.
#[verifier::external_body]
fn makes_decoding_key(document: &str) -> (r: bool)
    ensures
        r == is_usable_key(document@),
{
    match serde_json::from_str::<jsonwebtoken::jwk::Jwk>(document) {
        Ok(jwk) => jsonwebtoken::DecodingKey::from_jwk(&jwk).is_ok(),
        Err(_) => false,
    }
}

/// `std::time::Instant::now` reads the monotonic clock. Nothing is claimed of
/// the reading.
pub assume_specification[ Instant::now ]() -> (r: Instant)
;

/// `std::time::Instant::elapsed` tells how much time has passed since a
/// reading. Nothing is claimed of how much it is.
#[verifier::external_body]
fn nanos_since(start: &Instant) -> (r: u128) {
    start.elapsed().as_nanos()
}

/// Whether a key set that was fetched `elapsed` nanoseconds ago is past its
/// time.
pub fn is_past_ttl(elapsed: u128) -> (r: bool)
    ensures
        r == (elapsed > 3600 * 1_000_000_000),
{
    elapsed > TTL_NANOS
}

fn first_answer(keys: &Vec<SigningKey>, kid: Option<&str>) -> (r: Option<usize>)
    ensures
        match r {
            Some(i) => is_first_answer(key_views(keys@), text::opt_str(kid), i as int),
            None => !has_answer(key_views(keys@), text::opt_str(kid)),
        },
{
    let ghost views = key_views(keys@);
    let ghost want = text::opt_str(kid);
    let mut i: usize = 0;
    while i < keys.len()
        invariant
            i <= keys.len(),
            views == key_views(keys@),
            want == text::opt_str(kid),
            forall|j: int| 0 <= j < i ==> !answers(want, #[trigger] views[j], views.len()),
        decreases keys.len() - i,
    {
        let matches = match (kid, &keys[i].kid) {
            (Some(want), Some(have)) => text::same(want, have.as_str()),
            (None, _) => keys.len() == 1,
            _ => false,
        };
        assert(views[i as int] == keys@[i as int]@);
        if matches {
            return Some(i);
        }
        i += 1;
    }
    None
}

impl JwksCache {
    /// A cache that holds no keys.
    pub fn new() -> (r: Self)
        ensures
            r.keys@.len() == 0,
            r.fetched_at is None,
    {
        JwksCache { keys: Vec::new(), fetched_at: None }
    }

    /// Whether the cached key set is stale, if `elapsed` nanoseconds have passed since
    /// it was fetched: none has been fetched yet, or it is past its time.
    pub fn is_stale_after(&self, elapsed: u128) -> (r: bool)
        ensures
            r == (self.fetched_at is None || elapsed > 3600 * 1_000_000_000),
    {
        match &self.fetched_at {
            Some(_) => is_past_ttl(elapsed),
            None => true,
        }
    }

    /// Whether no key set has been fetched yet, or the cached one is past its
    /// time.
    ///
    /// How much time has passed rests on the clock; [`JwksCache::is_stale_after`]
    /// states what it means.
    pub fn is_stale(&self) -> (r: bool)
        ensures
            self.fetched_at is None ==> r,
    {
        let elapsed: u128 = match &self.fetched_at {
            Some(start) => nanos_since(start),
            None => 0,
        };
        self.is_stale_after(elapsed)
    }

    /// Replaces the cached keys by those that JSON documents describe, fetched at a
    /// moment that is given as a reading of the clock.
    pub fn store_keys_at(&mut self, items: Option<Vec<String>>, now: Instant)
        ensures
            key_views(final(self).keys@) == key_set(
                match items {
                    Some(documents) => Some(text::texts(documents@)),
                    None => None,
                },
            ),
            final(self).fetched_at == Some(now),
    {
        let mut keys: Vec<SigningKey> = Vec::new();
        match items {
            Some(documents) => {
                let mut i: usize = 0;
                while i < documents.len()
                    invariant
                        i <= documents.len(),
                        keys@.len() == i,
                        forall|j: int|
                            0 <= j < i ==> (#[trigger] keys@[j])@ == key_of(documents@[j]@),
                    decreases documents.len() - i,
                {
                    let document = documents[i].clone();
                    let kid = json::read_member_text(document.as_str(), "kid");
                    keys.push(SigningKey { kid, document });
                    i += 1;
                }
                assert(key_views(keys@) =~= keys_of(text::texts(documents@)));
            },
            None => {
                assert(key_views(keys@) =~= seq![]);
            },
        }
        self.keys = keys;
        self.fetched_at = Some(now);
    }

    /// Replaces the cached key set by the one that the body of a response spells,
    /// fetched at a moment that is given as a reading of the clock. The cache stays
    /// as it is, and the result is `Err`, where the body is no JSON document.
    pub fn refresh_at(&mut self, body: &[u8], now: Instant) -> (r: Result<(), JwksError>)
        ensures
            match json::member_items(body@, "keys"@) {
                Some(items) => {
                    &&& r is Ok
                    &&& key_views(final(self).keys@) == key_set(items)
                    &&& final(self).fetched_at == Some(now)
                },
                None => r == Err::<(), JwksError>(JwksError::NotJson) && *final(self) == *old(self),
            },
    {
        match json::read_member_items(body, "keys") {
            Some(items) => {
                self.store_keys_at(items, now);
                Ok(())
            },
            None => Err(JwksError::NotJson),
        }
    }

    /// Replaces the cached key set by the one that the body of a response spells,
    /// fetched now. The cache stays as it is, and the result is `Err`, where the body
    /// is no JSON document.
    ///
    /// Which moment it is rests on the clock; [`JwksCache::refresh_at`] states that
    /// it is kept.
    pub fn refresh(&mut self, body: &[u8]) -> (r: Result<(), JwksError>)
        ensures
            match json::member_items(body@, "keys"@) {
                Some(items) => {
                    &&& r is Ok
                    &&& key_views(final(self).keys@) == key_set(items)
                    &&& final(self).fetched_at is Some
                },
                None => r == Err::<(), JwksError>(JwksError::NotJson) && *final(self) == *old(self),
            },
    {
        self.refresh_at(body, Instant::now())
    }

    /// The key to check a token with, as JSON text: the first one with the
    /// identifier `kid`, where it is usable. Without an identifier it is the
    /// only key of the set.
    pub fn decoding_key(&self, kid: Option<&str>) -> (r: Option<&str>)
        ensures
            text::opt_str(r) == key_for(key_views(self.keys@), text::opt_str(kid)),
    {
        match first_answer(&self.keys, kid) {
            Some(i) => {
                let document = self.keys[i].document.as_str();
                proof {
                    let views = key_views(self.keys@);
                    law_first_answer_is_unique(views, text::opt_str(kid), i as int);
                    assert(views[i as int] == self.keys@[i as int]@);
                }
                if makes_decoding_key(document) {
                    Some(document)
                } else {
                    None
                }
            },
            None => None,
        }
    }
}

/// At most one key is the first that answers to an identifier, and its document
/// is the one a token is checked with.
pub proof fn law_first_answer_is_unique(
    keys: Seq<SigningKeyView>,
    kid: Option<Seq<char>>,
    i: int,
)
    requires
        is_first_answer(keys, kid, i),
    ensures
        has_answer(keys, kid),
        answering_document(keys, kid) == keys[i].document,
        forall|j: int| #[trigger] is_first_answer(keys, kid, j) ==> j == i,
{
    assert forall|j: int| #[trigger] is_first_answer(keys, kid, j) implies j == i by {
        if j < i {
            assert(answers(kid, keys[j], keys.len()));
        } else if i < j {
            assert(answers(kid, keys[i], keys.len()));
        }
    }
}

/// A token that names no key is checked with the only key of the set, and is
/// refused where the set has none or several.
pub proof fn law_unnamed_key(keys: Seq<SigningKeyView>)
    ensures
        keys.len() != 1 ==> key_for(keys, None) is None,
        keys.len() == 1 ==> key_for(keys, None) == if is_usable_key(keys[0].document) {
            Some(keys[0].document)
        } else {
            None
        },
{
    let kid: Option<Seq<char>> = None;
    if keys.len() == 1 {
        assert(is_first_answer(keys, kid, 0));
        law_first_answer_is_unique(keys, kid, 0);
    } else {
        assert(!has_answer(keys, kid));
    }
}

/// A key with another identifier than the one that a token names never checks
/// the token.
pub proof fn law_named_key(keys: Seq<SigningKeyView>, kid: Seq<char>)
    ensures
        key_for(keys, Some(kid)) is Some ==> exists|i: int|
            0 <= i < keys.len() && (#[trigger] keys[i]).kid == Some(kid) && key_for(keys, Some(kid))
                == Some(keys[i].document),
{
    if key_for(keys, Some(kid)) is Some {
        let i = choose|i: int| #[trigger] is_first_answer(keys, Some(kid), i);
        law_first_answer_is_unique(keys, Some(kid), i);
        assert(keys[i].kid == Some(kid));
    }
}

/// An empty cache has no key for any token.
pub proof fn law_empty_cache_has_no_key(kid: Option<Seq<char>>)
    ensures
        key_for(seq![], kid) is None,
{
    assert(!has_answer(seq![], kid));
}

/// The key for a token that names one is the first with that identifier, and only
/// where it is usable: a later key with the same identifier never serves. Without such
/// a key there is none.
pub proof fn law_first_named_key_serves(keys: Seq<SigningKeyView>, kid: Seq<char>, i: int)
    ensures
        0 <= i < keys.len() && keys[i].kid == Some(kid) && (forall|j: int|
            0 <= j < i ==> (#[trigger] keys[j]).kid != Some(kid)) ==> key_for(keys, Some(kid)) == (
        if is_usable_key(keys[i].document) {
            Some(keys[i].document)
        } else {
            None
        }),
        (forall|j: int| 0 <= j < keys.len() ==> (#[trigger] keys[j]).kid != Some(kid)) ==> key_for(
            keys,
            Some(kid),
        ) is None,
{
    if 0 <= i < keys.len() && keys[i].kid == Some(kid) && (forall|j: int|
        0 <= j < i ==> (#[trigger] keys[j]).kid != Some(kid)) {
        assert(is_first_answer(keys, Some(kid), i));
        law_first_answer_is_unique(keys, Some(kid), i);
    }
    if forall|j: int| 0 <= j < keys.len() ==> (#[trigger] keys[j]).kid != Some(kid) {
        assert(!has_answer(keys, Some(kid)));
    }
}

/// The keys of a key set are its documents, in order, each with the identifier that it
/// holds; a key set without an array has none.
pub proof fn law_keys_of_a_key_set(
    documents: Seq<Seq<char>>,
    i: int,
    key: SigningKey,
    keys: Seq<SigningKey>,
)
    ensures
        key_set(Some(documents)).len() == documents.len(),
        0 <= i < documents.len() ==> key_set(Some(documents))[i].document == documents[i]
            && key_set(Some(documents))[i].kid == json::member_text(documents[i], "kid"@),
        key_set(None).len() == 0,
        key@.document == key.document@,
        key@.kid == text::opt_text(key.kid),
        key_views(keys).len() == keys.len(),
        0 <= i < keys.len() ==> key_views(keys)[i] == keys[i]@,
{
}

} // verus!
