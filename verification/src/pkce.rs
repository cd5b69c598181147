//! The secrets of one sign-in: the PKCE pair and the `state`.

use vstd::prelude::*;
#[allow(unused_imports)]
use vstd::string::*;
#[allow(unused_imports)]
use vstd::utf8::*;

use crate::encoding;

verus! {

/// The hyphenated form of a UUID: groups of 8, 4, 4, 4 and 12 lower case
/// hexadecimal digits with hyphens between them.
pub open spec fn is_uuid(s: Seq<char>) -> bool {
    &&& s.len() == 36
    &&& forall|i: int|
        0 <= i < 36 ==> if i == 8 || i == 13 || i == 18 || i == 23 {
            #[trigger] s[i] == '-'
        } else {
            encoding::is_lower_hex_digit(s[i])
        }
}

/// Two UUIDs, one after the other.
pub open spec fn is_uuid_pair(s: Seq<char>) -> bool {
    &&& s.len() == 72
    &&& is_uuid(s.take(36))
    &&& is_uuid(s.skip(36))
}

/// What PKCE asks of a code verifier: 43 to 128 unreserved characters.
pub open spec fn is_code_verifier(s: Seq<char>) -> bool {
    &&& 43 <= s.len() <= 128
    &&& forall|i: int| 0 <= i < s.len() ==> encoding::is_unreserved(#[trigger] s[i])
}

/// The code challenge of a verifier for the method `S256`: the base64url of its
/// SHA-256 digest, without padding.
pub open spec fn code_challenge(verifier: Seq<char>) -> Seq<char> {
    encoding::base64_url(encoding::hex_bytes(encoding::sha256_hex(encode_utf8(verifier))))
}

/// `uuid::Uuid::new_v4` draws a random UUID, and its `to_string` writes the
/// hyphenated form in lower case. Which UUID it is rests on chance.
#[verifier::external_body]
pub(crate) fn random_uuid() -> (r: String)
    ensures
        is_uuid(r@),
{
    uuid::Uuid::new_v4().to_string()
}

/// A fresh secret of two random UUIDs.
pub(crate) fn random_uuid_pair() -> (r: String)
    ensures
        is_uuid_pair(r@),
{
    let first = random_uuid();
    let second = random_uuid();
    let ghost a = first@;
    let ghost b = second@;
    let r = first.concat(second.as_str());
    proof {
        assert(r@.take(36) =~= a);
        assert(r@.skip(36) =~= b);
    }
    r
}

/// The code challenge that belongs to a SHA-256 digest, given as a hexadecimal
/// text. `None` where it is no such text.
pub fn challenge_from_digest(digest_hex: &str) -> (r: Option<String>)
    ensures
        match r {
            Some(challenge) => encoding::is_hex_text(digest_hex@) && challenge@
                == encoding::base64_url(encoding::hex_bytes(digest_hex@)),
            None => !encoding::is_hex_text(digest_hex@),
        },
{
    match encoding::hex_decode(digest_hex) {
        Some(raw) => Some(encoding::base64_url_encode(raw.as_slice())),
        None => None,
    }
}

/// The code challenge of a verifier.
pub fn challenge_for(verifier: &str) -> (r: String)
    ensures
        r@ == code_challenge(verifier@),
        r@ == encoding::base64_url(
            encoding::hex_bytes(encoding::sha256_hex(encode_utf8(verifier@))),
        ),
        r@.len() == 43,
        forall|i: int| 0 <= i < r@.len() ==> encoding::is_unreserved(#[trigger] r@[i]),
{
    let digest = encoding::sha256_digest(verifier.as_bytes());
    proof {
        assert forall|i: int| 0 <= i < digest@.len() implies encoding::is_hex_digit(
            #[trigger] digest@[i],
        ) by {
            assert(encoding::is_lower_hex_digit(digest@[i]));
        }
        assert(encoding::is_hex_text(digest@));
        let raw = encoding::hex_bytes(digest@);
        encoding::law_base64_length(raw, true, false);
        encoding::law_base64_alphabet(raw, true, false);
    }
    challenge_from_digest(digest.as_str()).unwrap()
}

/// A fresh PKCE pair: a high-entropy code verifier and its code challenge.
pub fn generate_pkce_pair() -> (r: (String, String))
    ensures
        is_uuid_pair(r.0@),
        is_code_verifier(r.0@),
        r.0@.len() == 72,
        r.1@ == code_challenge(r.0@),
        r.1@ == encoding::base64_url(encoding::hex_bytes(encoding::sha256_hex(encode_utf8(r.0@)))),
        r.1@.len() == 43,
        forall|i: int| 0 <= i < r.1@.len() ==> encoding::is_unreserved(#[trigger] r.1@[i]),
{
    let verifier = random_uuid_pair();
    proof {
        law_uuid_pair_is_code_verifier(verifier@);
    }
    let challenge = challenge_for(verifier.as_str());
    (verifier, challenge)
}

/// A fresh opaque `state`, which guards against forged requests.
pub fn generate_state() -> (r: String)
    ensures
        is_uuid(r@),
{
    random_uuid()
}

/// The challenge is that of the whole verifier: it is the unpadded base64url of the
/// bytes that the SHA-256 digest of the verifier spells, so two verifiers have the same
/// challenge exactly if their digests spell the same bytes.
pub proof fn law_challenge_is_of_the_digest(verifier: Seq<char>, other: Seq<char>)
    ensures
        code_challenge(verifier) == encoding::base64_text(
            encoding::hex_bytes(encoding::sha256_hex(encode_utf8(verifier))),
            true,
            false,
        ),
        code_challenge(verifier) == code_challenge(other) <==> encoding::hex_bytes(
            encoding::sha256_hex(encode_utf8(verifier)),
        ) == encoding::hex_bytes(encoding::sha256_hex(encode_utf8(other))),
{
    let a = encoding::hex_bytes(encoding::sha256_hex(encode_utf8(verifier)));
    let b = encoding::hex_bytes(encoding::sha256_hex(encode_utf8(other)));
    if code_challenge(verifier) == code_challenge(other) {
        encoding::law_base64_is_injective(a, b, true, false);
    }
}

/// The bytes that a hexadecimal text spells: one for each two digits.
pub proof fn law_hex_bytes(s: Seq<char>, i: int)
    requires
        encoding::is_hex_text(s),
        0 <= i < s.len() / 2,
    ensures
        encoding::hex_bytes(s).len() == s.len() / 2,
        encoding::hex_bytes(s)[i] as int == 16 * encoding::hex_value(s[2 * i])
            + encoding::hex_value(s[2 * i + 1]),
        0 <= encoding::hex_value(s[2 * i]) < 16,
{
    assert(encoding::is_hex_digit(s[2 * i]));
    assert(encoding::is_hex_digit(s[2 * i + 1]));
}

/// A verifier of two UUIDs: 36 characters each, hexadecimal digits but for a hyphen
/// behind the digits 8, 12, 16 and 20.
pub proof fn law_uuid_pair(s: Seq<char>, i: int)
    requires
        is_uuid_pair(s),
        0 <= i < 72,
    ensures
        s.len() == 72,
        s[i] == '-' <==> seq![8int, 13, 18, 23].contains(i % 36),
        s[i] != '-' ==> '0' <= s[i] <= '9' || 'a' <= s[i] <= 'f',
{
    let k = i % 36;
    let half = if i < 36 {
        s.take(36)
    } else {
        s.skip(36)
    };
    assert(half[k] == s[i]);
    let hyphens = seq![8int, 13, 18, 23];
    assert(hyphens[0] == 8 && hyphens[1] == 13 && hyphens[2] == 18 && hyphens[3] == 23);
    if hyphens.contains(k) {
        let j = choose|j: int| 0 <= j < 4 && hyphens[j] == k;
    }
}

/// Two UUIDs, one after the other, are a code verifier.
pub proof fn law_uuid_pair_is_code_verifier(s: Seq<char>)
    requires
        is_uuid_pair(s),
    ensures
        is_code_verifier(s),
{
    assert forall|i: int| 0 <= i < s.len() implies encoding::is_unreserved(#[trigger] s[i]) by {
        if i < 36 {
            assert(s.take(36)[i] == s[i]);
        } else {
            assert(s.skip(36)[i - 36] == s[i]);
        }
    }
}

/// A UUID stands in a URL component as it is.
pub proof fn law_uuid_needs_no_escape(s: Seq<char>)
    requires
        is_uuid(s),
    ensures
        encoding::url_component(s) == s,
{
    assert forall|i: int| 0 <= i < s.len() implies encoding::is_unreserved(#[trigger] s[i]) by {
        assert(s[i] == '-' || encoding::is_lower_hex_digit(s[i]));
    }
    encoding::law_unreserved_needs_no_escape(s);
}

/// A code verifier has 43 to 128 characters, each a letter, a digit, `-`, `.`, `_` or
/// `~`.
pub proof fn law_code_verifier(s: Seq<char>)
    ensures
        is_code_verifier(s) <==> 43 <= s.len() <= 128 && forall|i: int|
            #![trigger s[i]]
            0 <= i < s.len() ==> '0' <= s[i] <= '9' || 'A' <= s[i] <= 'Z' || 'a' <= s[i] <= 'z'
                || seq!['-', '.', '_', '~'].contains(s[i]),
{
    let marks = seq!['-', '.', '_', '~'];
    assert(marks[0] == '-' && marks[1] == '.' && marks[2] == '_' && marks[3] == '~');
    assert forall|c: char| encoding::is_unreserved(c) <==> '0' <= c <= '9' || 'A' <= c <= 'Z' || 'a'
        <= c <= 'z' || #[trigger] marks.contains(c) by {
        if marks.contains(c) {
            let k = choose|k: int| 0 <= k < 4 && marks[k] == c;
        }
    }
    if is_code_verifier(s) {
        assert forall|i: int| #![trigger s[i]] 0 <= i < s.len() implies '0' <= s[i] <= '9' || 'A'
            <= s[i] <= 'Z' || 'a' <= s[i] <= 'z' || marks.contains(s[i]) by {
            assert(encoding::is_unreserved(s[i]));
        }
    }
    if forall|i: int|
        #![trigger s[i]]
        0 <= i < s.len() ==> '0' <= s[i] <= '9' || 'A' <= s[i] <= 'Z' || 'a' <= s[i] <= 'z'
            || marks.contains(s[i]) {
        assert forall|i: int| 0 <= i < s.len() implies encoding::is_unreserved(#[trigger] s[i]) by {
            assert(marks.contains(s[i]) || !marks.contains(s[i]));
        }
    }
}

} // verus!
