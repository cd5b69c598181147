//! The exchange of an authorization code for tokens, and the check of the ID
//! token.

use serde::de::IgnoredAny;
use vstd::prelude::*;
#[allow(unused_imports)]
use vstd::string::*;

use crate::encoding;
use crate::json;
#[allow(unused_imports)]
use crate::jwks;
use crate::jwks::JwksCache;
use crate::text;

verus! {

/// The tolerance for differences between clocks in the check of an ID token, in
/// seconds.
pub const LEEWAY_SECONDS: u64 = 60;

/// A field of a form.
pub struct FormField {
    pub name: String,
    pub value: String,
}

/// The names and values of fields.
pub open spec fn field_texts(fields: Seq<FormField>) -> Seq<(Seq<char>, Seq<char>)> {
    fields.map_values(|field: FormField| (field.name@, field.value@))
}

/// The form that exchanges an authorization code for tokens.
pub open spec fn token_form(
    client_id: Seq<char>,
    client_secret: Seq<char>,
    redirect_uri: Seq<char>,
    code: Seq<char>,
    code_verifier: Seq<char>,
) -> Seq<(Seq<char>, Seq<char>)> {
    seq![
        ("grant_type"@, "authorization_code"@),
        ("code"@, code),
        ("redirect_uri"@, redirect_uri),
        ("client_id"@, client_id),
        ("client_secret"@, client_secret),
        ("code_verifier"@, code_verifier),
    ]
}

fn field(name: &str, value: &str) -> (r: FormField)
    ensures
        r.name@ == name@,
        r.value@ == value@,
{
    FormField { name: name.to_string(), value: value.to_string() }
}

/// The form that exchanges an authorization code for tokens at the token
/// endpoint.
pub fn token_request_form(
    client_id: &str,
    client_secret: &str,
    redirect_uri: &str,
    code: &str,
    code_verifier: &str,
) -> (r: Vec<FormField>)
    ensures
        field_texts(r@) == token_form(
            client_id@,
            client_secret@,
            redirect_uri@,
            code@,
            code_verifier@,
        ),
        r@.len() == 6,
        r@[0].name@ == "grant_type"@ && r@[0].value@ == "authorization_code"@,
        r@[1].name@ == "code"@ && r@[1].value@ == code@,
        r@[2].name@ == "redirect_uri"@ && r@[2].value@ == redirect_uri@,
        r@[3].name@ == "client_id"@ && r@[3].value@ == client_id@,
        r@[4].name@ == "client_secret"@ && r@[4].value@ == client_secret@,
        r@[5].name@ == "code_verifier"@ && r@[5].value@ == code_verifier@,
{
    let mut form: Vec<FormField> = Vec::new();
    form.push(field("grant_type", "authorization_code"));
    form.push(field("code", code));
    form.push(field("redirect_uri", redirect_uri));
    form.push(field("client_id", client_id));
    form.push(field("client_secret", client_secret));
    form.push(field("code_verifier", code_verifier));
    assert(field_texts(form@) =~= token_form(
        client_id@,
        client_secret@,
        redirect_uri@,
        code@,
        code_verifier@,
    ));
    form
}

/// Whether an HTTP status stands for success.
pub open spec fn is_success(status: u16) -> bool {
    200 <= status <= 299
}

/// Why an exchange failed.
pub open spec fn exchange_failure(status_line: Seq<char>, body: Seq<char>) -> Seq<char> {
    "token endpoint returned "@ + status_line + ": "@ + body
}

/// Whether an HTTP status stands for success.
pub fn is_success_status(status: u16) -> (r: bool)
    ensures
        r == is_success(status),
        r == (200 <= status < 300),
{
    200 <= status && status <= 299
}

/// Why an exchange failed, by the status of the response as it is written in
/// messages, and its body.
pub fn exchange_failure_message(status_line: &str, body: &str) -> (r: String)
    ensures
        r@ == exchange_failure(status_line@, body@),
        r@ == "token endpoint returned "@ + status_line@ + ": "@ + body@,
{
    "token endpoint returned ".to_string().concat(status_line).concat(": ").concat(body)
}

/// What comes of the response of the token endpoint: its body, where the status
/// stands for success, else why the exchange failed.
pub fn exchange_outcome(status: u16, status_line: &str, body: String) -> (r: Result<
    String,
    String,
>)
    ensures
        match r {
            Ok(b) => is_success(status) && b@ == body@,
            Err(message) => !is_success(status) && message@ == exchange_failure(
                status_line@,
                body@,
            ),
        },
        200 <= status < 300 ==> (r matches Ok(b) && b@ == body@),
        !(200 <= status < 300) ==> (r matches Err(message) && message@
            == "token endpoint returned "@ + status_line@ + ": "@ + body@),
{
    if is_success_status(status) {
        Ok(body)
    } else {
        Err(exchange_failure_message(status_line, body.as_str()))
    }
}

/// The identifier of the key in the header of a token, as
/// `jsonwebtoken::decode_header` reads it: `None` where the token has no
/// readable header, and `Some(None)` where the header names no key.
pub uninterp spec fn header_kid(token: Seq<char>) -> Option<Option<Seq<char>>>;

/// Whether `jsonwebtoken::decode` accepts a token where its clock reads `now`: the
/// signature is that of the key under the algorithm, the payload is a JSON document
/// with an expiry that has not passed, and the audience and the issuer, where the
/// token names them in a readable form, are the expected ones.
pub uninterp spec fn is_trusted(
    token: Seq<char>,
    key_document: Seq<char>,
    algorithm: Seq<char>,
    audience: Seq<char>,
    issuer: Seq<char>,
    leeway: int,
    now: int,
) -> bool;

/// Whether bytes are the payload of a token: the base64url form of them stands
/// between the first two dots.
pub open spec fn is_payload(token: Seq<char>, bytes: Seq<u8>) -> bool {
    match text::after(token, '.') {
        Some(rest) => encoding::base64_url(bytes) == text::before(rest, '.'),
        None => false,
    }
}

/// `jsonwebtoken::decode_header` reads the header of a token without checking
/// anything, as a function of the token alone.
#[verifier::external_body]
fn read_header_kid(token: &str) -> (r: Option<Option<String>>)
    ensures
        match r {
            Some(kid) => header_kid(token@) == Some(text::opt_text(kid)),
            None => header_kid(token@) is None,
        },
{
    jsonwebtoken::decode_header(token).ok().map(|header| header.kid)
}

/// `jsonwebtoken::decode` checks a token with a key; its claims are skipped here as
/// `IgnoredAny`. It accepts a token that names no audience or no issuer. It reads
/// the clock once, to check that the token has not expired, give or take the leeway;
/// what it decides is a function of its arguments and of that reading, of which
/// nothing is claimed. It takes the leeway away from the time of the clock, which has
/// to be past the first minute of 1970.
#[verifier::external_body]
fn accepts_token(
    token: &str,
    key_document: &str,
    algorithm: &str,
    audience: &str,
    issuer: &str,
    leeway: u64,
) -> (r: Option<()>)
    requires
        leeway <= LEEWAY_SECONDS,
    ensures
        exists|now: int|
            (r is Some) == #[trigger] is_trusted(
                token@,
                key_document@,
                algorithm@,
                audience@,
                issuer@,
                leeway as int,
                now,
            ),
{
    let jwk: jsonwebtoken::jwk::Jwk = serde_json::from_str(key_document).ok()?;
    let key = jsonwebtoken::DecodingKey::from_jwk(&jwk).ok()?;
    let mut validation = jsonwebtoken::Validation::new(algorithm.parse().ok()?);
    validation.set_audience(&[audience]);
    validation.set_issuer(&[issuer]);
    validation.leeway = leeway;
    jsonwebtoken::decode::<IgnoredAny>(token, &key, &validation).ok()?;
    Some(())
}

/// The payload of a token; `None` where it has none.
pub fn read_payload(token: &str) -> (r: Option<Vec<u8>>)
    ensures
        match r {
            Some(bytes) => is_payload(token@, bytes@),
            None => forall|bytes: Seq<u8>| !#[trigger] is_payload(token@, bytes),
        },
{
    match text::split_at_first(token, '.').1 {
        Some(rest) => encoding::base64_url_decode(text::split_at_first(rest, '.').0),
        None => None,
    }
}

/// A token has one payload at most.
pub proof fn law_payload_is_unique(token: Seq<char>, a: Seq<u8>, b: Seq<u8>)
    requires
        is_payload(token, a),
        is_payload(token, b),
    ensures
        a == b,
{
    encoding::law_base64_is_injective(a, b, true, false);
}

/// Why an ID token was refused.
#[derive(Clone, Copy, Debug, PartialEq, Eq, Structural)]
pub enum IdTokenError {
    /// The header of the token cannot be read.
    UnreadableHeader,
    /// The key set could not be fetched.
    KeysNotFetched,
    /// No cached key answers to the one that the token names.
    NoMatchingKey,
    /// The signature, the audience, the issuer or the time is wrong.
    Invalid,
}

/// Whether claims, given as the bytes of a JSON object, are meant for a client: their
/// audience is the client, or an array that holds it.
pub open spec fn names_audience(claims: Seq<u8>, client_id: Seq<char>) -> bool {
    match json::raw_member(claims, "aud"@) {
        Some(audience) => {
            ||| json::string_text(audience) == Some(client_id)
            ||| match json::array_items(audience) {
                Some(items) => items.contains(json::json_string(client_id)),
                None => false,
            }
        },
        None => false,
    }
}

/// Whether claims, given as the bytes of a JSON object, were made by an issuer.
pub open spec fn names_issuer(claims: Seq<u8>, issuer: Seq<char>) -> bool {
    match json::raw_member(claims, "iss"@) {
        Some(document) => json::string_text(document) == Some(issuer),
        None => false,
    }
}

fn is_text(document: &str, wanted: &str) -> (r: bool)
    ensures
        r == (json::string_text(document@) == Some(wanted@)),
{
    match json::read_text(document) {
        Some(found) => text::same(found.as_str(), wanted),
        None => false,
    }
}

/// Whether claims, given as the bytes of a JSON object, are meant for a client: their
/// audience is the client, or an array that holds it. Of the other members nothing is
/// read.
pub fn is_for_client(claims: &[u8], client_id: &str) -> (r: bool)
    ensures
        r == names_audience(claims@, client_id@),
        r == (match json::raw_member(claims@, "aud"@) {
            Some(audience) => json::string_text(audience) == Some(client_id@) || (
            match json::array_items(audience) {
                Some(items) => items.contains(json::json_string(client_id@)),
                None => false,
            }),
            None => false,
        }),
{
    let audience = match json::read_raw_member(claims, "aud") {
        Some(audience) => audience,
        None => return false,
    };
    if is_text(audience.as_str(), client_id) {
        return true;
    }
    match (json::read_items(audience.as_str()), json::write_string(client_id)) {
        (Some(items), Some(wanted)) => text::contains_text(&items, wanted.as_str()),
        _ => false,
    }
}

/// Whether claims, given as the bytes of a JSON object, were made by an issuer. Of the
/// other members nothing is read.
pub fn is_by_issuer(claims: &[u8], issuer: &str) -> (r: bool)
    ensures
        r == names_issuer(claims@, issuer@),
        r == (match json::raw_member(claims@, "iss"@) {
            Some(document) => json::string_text(document) == Some(issuer@),
            None => false,
        }),
{
    match json::read_raw_member(claims, "iss") {
        Some(document) => is_text(document.as_str(), issuer),
        None => false,
    }
}

/// The keys in the cache; none where the cache cannot be read.
pub open spec fn cached_keys(cache: Option<&JwksCache>) -> Seq<jwks::SigningKeyView> {
    match cache {
        Some(cache) => jwks::key_views(cache.keys@),
        None => seq![],
    }
}

/// Whether an ID token with these claims is right where the clock reads `now`: signed
/// under `RS256` with the key, not expired, meant for this client, and made by the
/// issuer.
pub open spec fn is_checked(
    key_document: Seq<char>,
    id_token: Seq<char>,
    issuer: Seq<char>,
    client_id: Seq<char>,
    claims: Seq<u8>,
    now: int,
) -> bool {
    &&& is_trusted(id_token, key_document, "RS256"@, client_id, issuer, 60, now)
    &&& is_payload(id_token, claims)
    &&& names_audience(claims, client_id)
    &&& names_issuer(claims, issuer)
}

/// The bytes of the claims that an outcome holds.
pub open spec fn outcome_bytes(r: Result<Vec<u8>, IdTokenError>) -> Result<Seq<u8>, IdTokenError> {
    match r {
        Ok(claims) => Ok(claims@),
        Err(error) => Err(error),
    }
}

/// Whether the check of an ID token with these keys can have an outcome: the header
/// and the keys decide, and with a key the claims and the reading of the clock. A
/// token that is right at that reading is accepted, and no other.
pub open spec fn is_outcome(
    keys: Seq<jwks::SigningKeyView>,
    id_token: Seq<char>,
    issuer: Seq<char>,
    client_id: Seq<char>,
    outcome: Result<Seq<u8>, IdTokenError>,
) -> bool {
    match header_kid(id_token) {
        None => outcome == Err::<Seq<u8>, IdTokenError>(IdTokenError::UnreadableHeader),
        Some(kid) => match jwks::key_for(keys, kid) {
            None => outcome == Err::<Seq<u8>, IdTokenError>(IdTokenError::NoMatchingKey),
            Some(document) => is_key_outcome(document, id_token, issuer, client_id, outcome),
        },
    }
}

/// Whether the check of an ID token with a key can have an outcome, at some reading of
/// the clock.
pub open spec fn is_key_outcome(
    key_document: Seq<char>,
    id_token: Seq<char>,
    issuer: Seq<char>,
    client_id: Seq<char>,
    outcome: Result<Seq<u8>, IdTokenError>,
) -> bool {
    exists|now: int|
        #[trigger] is_outcome_at(key_document, id_token, issuer, client_id, outcome, now)
}

/// Whether the check of an ID token with a key has an outcome where the clock reads
/// `now`.
pub open spec fn is_outcome_at(
    key_document: Seq<char>,
    id_token: Seq<char>,
    issuer: Seq<char>,
    client_id: Seq<char>,
    outcome: Result<Seq<u8>, IdTokenError>,
    now: int,
) -> bool {
    match outcome {
        Ok(claims) => is_checked(key_document, id_token, issuer, client_id, claims, now),
        Err(error) => error == IdTokenError::Invalid && forall|claims: Seq<u8>|
            #![trigger is_payload(id_token, claims)]
            !is_checked(key_document, id_token, issuer, client_id, claims, now),
    }
}

/// The outcome of the check of an ID token, by whether there was a key to check it
/// with, and the claims where the token passed the check of its signature and its
/// time.
pub fn check_outcome(
    has_key: bool,
    decoded: Option<Vec<u8>>,
    issuer: &str,
    client_id: &str,
) -> (r: Result<Vec<u8>, IdTokenError>)
    ensures
        outcome_bytes(r) == (match decoded {
            _ if !has_key => Err(IdTokenError::NoMatchingKey),
            Some(claims) if names_audience(claims@, client_id@) && names_issuer(claims@, issuer@)
                => Ok(claims@),
            _ => Err(IdTokenError::Invalid),
        }),
{
    if !has_key {
        return Err(IdTokenError::NoMatchingKey);
    }
    match decoded {
        Some(claims) => {
            if is_for_client(claims.as_slice(), client_id) && is_by_issuer(
                claims.as_slice(),
                issuer,
            ) {
                Ok(claims)
            } else {
                Err(IdTokenError::Invalid)
            }
        },
        None => Err(IdTokenError::Invalid),
    }
}

/// The claims of an ID token as the bytes of a JSON object, once it is checked: its
/// signature under `RS256` with the cached key that its header names, its audience,
/// its issuer, and that it has not expired, with a tolerance of 60 seconds.
///
/// Whether the token has expired rests on the clock; [`check_outcome`] states what
/// follows from each outcome.
pub fn verify_id_token(
    cache: Option<&JwksCache>,
    id_token: &str,
    issuer: &str,
    client_id: &str,
) -> (r: Result<Vec<u8>, IdTokenError>)
    ensures
        is_outcome(cached_keys(cache), id_token@, issuer@, client_id@, outcome_bytes(r)),
        r matches Ok(claims) ==> {
            &&& is_payload(id_token@, claims@)
            &&& names_audience(claims@, client_id@)
            &&& names_issuer(claims@, issuer@)
        },
{
    let kid = match read_header_kid(id_token) {
        Some(kid) => kid,
        None => return Err(IdTokenError::UnreadableHeader),
    };
    let wanted: Option<&str> = match &kid {
        Some(kid) => Some(kid.as_str()),
        None => None,
    };
    proof {
        jwks::law_empty_cache_has_no_key(text::opt_str(wanted));
    }
    let document = match cache {
        Some(cache) => cache.decoding_key(wanted),
        None => None,
    };
    match document {
        Some(document) => {
            let accepted = accepts_token(
                id_token,
                document,
                "RS256",
                client_id,
                issuer,
                LEEWAY_SECONDS,
            );
            let decoded = match accepted {
                Some(_) => read_payload(id_token),
                None => None,
            };
            let ghost payload = decoded;
            let r = check_outcome(true, decoded, issuer, client_id);
            proof {
                let now = choose|now: int|
                    (accepted is Some) == #[trigger] is_trusted(
                        id_token@,
                        document@,
                        "RS256"@,
                        client_id@,
                        issuer@,
                        60,
                        now,
                    );
                assert forall|claims: Seq<u8>| #[trigger] is_payload(id_token@, claims)
                    && accepted is Some implies payload is Some && payload->0@ == claims by {
                    law_payload_is_unique(id_token@, payload->0@, claims);
                }
                assert(jwks::key_for(cached_keys(cache), text::opt_str(wanted)) == Some(document@));
                assert(header_kid(id_token@) == Some(text::opt_str(wanted)));
                assert(is_outcome_at(
                    document@,
                    id_token@,
                    issuer@,
                    client_id@,
                    outcome_bytes(r),
                    now,
                ));
                assert(is_key_outcome(
                    document@,
                    id_token@,
                    issuer@,
                    client_id@,
                    outcome_bytes(r),
                ));
                assert(is_outcome(
                    cached_keys(cache),
                    id_token@,
                    issuer@,
                    client_id@,
                    outcome_bytes(r),
                ));
            }
            r
        },
        None => check_outcome(false, None, issuer, client_id),
    }
}

/// A token that is right is accepted with its payload: where the header names a
/// usable cached key, the signature and the time pass at every reading of the clock,
/// and the payload names the client and the issuer, no check refuses the token.
pub proof fn law_right_token_is_accepted(
    keys: Seq<jwks::SigningKeyView>,
    id_token: Seq<char>,
    kid: Option<Seq<char>>,
    key_document: Seq<char>,
    issuer: Seq<char>,
    client_id: Seq<char>,
    claims: Seq<u8>,
    outcome: Result<Seq<u8>, IdTokenError>,
)
    requires
        is_outcome(keys, id_token, issuer, client_id, outcome),
        header_kid(id_token) == Some(kid),
        jwks::key_for(keys, kid) == Some(key_document),
        forall|now: int|
            #[trigger] is_trusted(id_token, key_document, "RS256"@, client_id, issuer, 60, now),
        is_payload(id_token, claims),
        names_audience(claims, client_id),
        names_issuer(claims, issuer),
    ensures
        outcome == Ok::<Seq<u8>, IdTokenError>(claims),
{
    match outcome {
        Ok(found) => {
            law_payload_is_unique(id_token, found, claims);
        },
        Err(_) => {},
    }
}

/// A token whose signature or time passes at no reading of the clock is never
/// accepted, and neither is one whose payload names another client or issuer.
pub proof fn law_wrong_token_is_refused(
    keys: Seq<jwks::SigningKeyView>,
    id_token: Seq<char>,
    kid: Option<Seq<char>>,
    key_document: Seq<char>,
    issuer: Seq<char>,
    client_id: Seq<char>,
    outcome: Result<Seq<u8>, IdTokenError>,
)
    requires
        is_outcome(keys, id_token, issuer, client_id, outcome),
        header_kid(id_token) == Some(kid),
        jwks::key_for(keys, kid) == Some(key_document),
        (forall|now: int|
            !#[trigger] is_trusted(id_token, key_document, "RS256"@, client_id, issuer, 60, now))
            || (forall|claims: Seq<u8>|
            #[trigger] is_payload(id_token, claims) ==> !names_audience(claims, client_id)
                || !names_issuer(claims, issuer)),
    ensures
        outcome == Err::<Seq<u8>, IdTokenError>(IdTokenError::Invalid),
{
}

/// A token without a readable header is refused for that, and one whose key is not
/// among the keys for that; with its key a token is accepted or invalid.
pub proof fn law_refusals_tell_why(
    keys: Seq<jwks::SigningKeyView>,
    id_token: Seq<char>,
    issuer: Seq<char>,
    client_id: Seq<char>,
    outcome: Result<Seq<u8>, IdTokenError>,
)
    requires
        is_outcome(keys, id_token, issuer, client_id, outcome),
    ensures
        header_kid(id_token) is None <==> outcome == Err::<Seq<u8>, IdTokenError>(
            IdTokenError::UnreadableHeader,
        ),
        header_kid(id_token) is Some && jwks::key_for(keys, header_kid(id_token)->0) is None
            <==> outcome == Err::<Seq<u8>, IdTokenError>(IdTokenError::NoMatchingKey),
        outcome != Err::<Seq<u8>, IdTokenError>(IdTokenError::KeysNotFetched),
{
}

/// The payload of a token is what its middle part spells: three parts with dots
/// between them, the first without a dot.
pub proof fn law_payload_is_the_middle_part(
    header: Seq<char>,
    bytes: Seq<u8>,
    signature: Seq<char>,
    other: Seq<u8>,
)
    requires
        !header.contains('.'),
    ensures
        ({
            let token = header + seq!['.'] + encoding::base64_url(bytes) + seq!['.'] + signature;
            is_payload(token, other) <==> other == bytes
        }),
{
    let middle = encoding::base64_url(bytes);
    let token = header + seq!['.'] + middle + seq!['.'] + signature;
    let rest = middle + seq!['.'] + signature;
    assert(token =~= header + seq!['.'] + rest);
    assert(text::is_first_index(token, '.', header.len() as int)) by {
        assert forall|j: int| 0 <= j < header.len() implies token[j] != '.' by {
            assert(header.contains(header[j]));
        }
    }
    text::lemma_split_at_first(token, '.', header.len() as int);
    assert(token.skip(header.len() as int + 1) =~= rest);
    encoding::law_base64_alphabet(bytes, true, false);
    assert(text::is_first_index(rest, '.', middle.len() as int)) by {
        assert forall|j: int| 0 <= j < middle.len() implies rest[j] != '.' by {
            assert(encoding::is_base64_char(middle[j], true, false));
        }
    }
    text::lemma_split_at_first(rest, '.', middle.len() as int);
    assert(rest.take(middle.len() as int) =~= middle);
    if is_payload(token, other) {
        encoding::law_base64_is_injective(other, bytes, true, false);
    }
}

/// Claims are meant for a client exactly if their audience is a string that is the
/// client, or an array of which one item is that string.
pub proof fn law_audience(claims: Seq<u8>, audience: Seq<char>, client_id: Seq<char>)
    ensures
        json::raw_member(claims, "aud"@) is None ==> !names_audience(claims, client_id),
        json::raw_member(claims, "aud"@) == Some(audience) ==> (names_audience(claims, client_id)
            <==> json::string_text(audience) == Some(client_id) || exists|i: int|
            0 <= i < json::array_items(audience)->0.len() && json::array_items(audience) is Some
                && #[trigger] json::array_items(audience)->0[i] == seq!['"'] + json::json_chars(
                client_id,
            ) + seq!['"']),
        json::raw_member(claims, "iss"@) is None ==> !names_issuer(claims, client_id),
        json::raw_member(claims, "iss"@) == Some(audience) ==> (names_issuer(claims, client_id)
            <==> json::string_text(audience) == Some(client_id)),
{
}

/// The keys that a check has are those of the cache, all of them; a cache that cannot
/// be read has none. An outcome is told as it is.
pub proof fn law_check_has_all_cached_keys(
    cache: &JwksCache,
    claims: Vec<u8>,
    error: IdTokenError,
)
    ensures
        cached_keys(Some(cache)) == jwks::key_views(cache.keys@),
        cached_keys(None).len() == 0,
        outcome_bytes(Ok(claims)) == Ok::<Seq<u8>, IdTokenError>(claims@),
        outcome_bytes(Err(error)) == Err::<Seq<u8>, IdTokenError>(error),
{
}

} // verus!
