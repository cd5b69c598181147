//! What holds of the contents of every session cookie.

use vstd::prelude::*;
#[allow(unused_imports)]
use vstd::string::*;
#[allow(unused_imports)]
use vstd::utf8::*;

#[allow(unused_imports)]
use crate::encoding;
#[allow(unused_imports)]
use crate::json;
#[allow(unused_imports)]
use crate::meta::{AuthConfig, AuthTokensView};
#[allow(unused_imports)]
use crate::session;
#[allow(unused_imports)]
use crate::session::{CookieSite, SessionCookieView};

verus! {

/// The characters that the value of a cookie may hold: visible ASCII without
/// quotation marks, commas, semicolons and backslashes.
pub open spec fn is_cookie_char(c: char) -> bool {
    &&& '!' <= c <= '~'
    &&& c != '"'
    &&& c != ','
    &&& c != ';'
    &&& c != '\\'
}

/// Whatever the tokens hold, the value of the session cookie is one that a cookie
/// can carry: it cannot end the value early or add an attribute.
pub proof fn law_session_value_is_a_cookie_value(tokens: AuthTokensView)
    ensures
        forall|i: int|
            0 <= i < session::session_value(tokens).len() ==> is_cookie_char(
                #[trigger] session::session_value(tokens)[i],
            ),
{
    let value = session::session_value(tokens);
    encoding::law_base64_alphabet(encode_utf8(session::tokens_json(tokens)), false, true);
    assert forall|i: int| 0 <= i < value.len() implies is_cookie_char(#[trigger] value[i]) by {
        assert(encoding::is_base64_char(value[i], false, true));
    }
}

/// What stands after a prefix, where the text has it.
pub open spec fn after_prefix(s: Seq<char>, prefix: Seq<char>) -> Option<Seq<char>> {
    if prefix.is_prefix_of(s) {
        Some(s.skip(prefix.len() as int))
    } else {
        None
    }
}

/// The member of a JSON object at the start of a text, and what stands after it:
/// what stands before the value, which is a string, is given as `head`.
pub open spec fn read_member(s: Seq<char>, head: Seq<char>) -> Option<(Seq<char>, Seq<char>)> {
    match after_prefix(s, head) {
        Some(rest) => json::read_string(rest),
        None => None,
    }
}

/// The tokens that a JSON object spells, whose members stand in the order in which
/// they are written, without white space. `None` where the text is no such object.
pub open spec fn read_tokens(s: Seq<char>) -> Option<AuthTokensView> {
    match read_member(s, "{\"access_token\":"@) {
        Some((access_token, rest)) => match read_member(rest, ",\"refresh_token\":"@) {
            Some((refresh_token, end)) => if end == "}"@ {
                Some(AuthTokensView { access_token, refresh_token })
            } else {
                None
            },
            None => None,
        },
        None => None,
    }
}

/// The tokens that the value of a session cookie holds: a JSON object in UTF-8, in
/// base64. `None` where it holds none.
pub open spec fn read_session(value: Seq<char>) -> Option<AuthTokensView> {
    match encoding::base64_bytes(value) {
        Some(bytes) => if valid_utf8(bytes) {
            read_tokens(decode_utf8(bytes))
        } else {
            None
        },
        None => None,
    }
}

/// The value of a session cookie gives its contents back: decoded and read, it is
/// the tokens that it was made of.
pub proof fn law_session_value_reads_back(tokens: AuthTokensView)
    ensures
        read_session(session::session_value(tokens)) == Some(tokens),
{
    let x = session::tokens_json(tokens);
    encoding::law_base64_reads_back(encode_utf8(x));
    encode_utf8_valid_utf8(x);
    encode_utf8_decode_utf8(x);
    let head = "{\"access_token\":"@;
    let mid = ",\"refresh_token\":"@;
    let end = "}"@;
    let last = json::json_string(tokens.refresh_token) + end;
    assert(x =~= head + (json::json_string(tokens.access_token) + (mid + last)));
    lemma_after_prefix(head, json::json_string(tokens.access_token) + (mid + last));
    json::law_json_string_reads_back(tokens.access_token, mid + last);
    lemma_after_prefix(mid, last);
    json::law_json_string_reads_back(tokens.refresh_token, end);
}

/// The value of a session cookie tells its contents: different tokens have
/// different values.
pub proof fn law_session_value_is_injective(a: AuthTokensView, b: AuthTokensView)
    requires
        session::session_value(a) == session::session_value(b),
    ensures
        a == b,
{
    law_session_value_reads_back(a);
    law_session_value_reads_back(b);
}

/// The access token of a session tells the user and the credential, for emails
/// without a colon, as HTTP basic authentication asks.
pub proof fn law_credentials_name_the_user(
    email: Seq<char>,
    credential: Seq<char>,
    other_email: Seq<char>,
    other_credential: Seq<char>,
)
    requires
        !email.contains(':'),
        !other_email.contains(':'),
        session::basic_credentials(email, credential) == session::basic_credentials(
            other_email,
            other_credential,
        ),
    ensures
        email == other_email,
        credential == other_credential,
{
    reveal_strlit(":");
    let x = email + ":"@ + credential;
    let y = other_email + ":"@ + other_credential;
    lemma_same_prefix(
        "Basic "@,
        encoding::base64_standard(encode_utf8(x)),
        encoding::base64_standard(encode_utf8(y)),
    );
    encoding::law_base64_is_injective(encode_utf8(x), encode_utf8(y), false, true);
    encode_utf8_decode_utf8(x);
    encode_utf8_decode_utf8(y);
    if email.len() < other_email.len() {
        assert(y[email.len() as int] == x[email.len() as int]);
        assert(other_email[email.len() as int] == ':');
    } else if other_email.len() < email.len() {
        assert(x[other_email.len() as int] == y[other_email.len() as int]);
        assert(email[other_email.len() as int] == ':');
    }
    assert(email =~= x.take(email.len() as int));
    assert(other_email =~= y.take(other_email.len() as int));
    assert(credential =~= x.skip(email.len() as int + 1));
    assert(other_credential =~= y.skip(other_email.len() as int + 1));
}

/// The header of a session cookie, attribute by attribute.
pub proof fn law_session_header(
    auth: AuthConfig,
    name: Seq<char>,
    value: Seq<char>,
    now: int,
    date: Seq<char>,
)
    ensures
        session::cookie_header(session::session_cookie(auth, name, value, now), date) == name
            + "="@ + value + "; HttpOnly"@ + (if auth.cookie_same_site_lax {
            "; SameSite=Lax"@
        } else {
            "; SameSite=None"@
        }) + (if auth.cookie_secure_only {
            "; Secure"@
        } else {
            seq![]
        }) + "; Path="@ + "/"@ + "; Expires="@ + date,
{
    let c = session::session_cookie(auth, name, value, now);
    assert(session::cookie_header(c, date) =~= name + "="@ + value + "; HttpOnly"@ + (
    if auth.cookie_same_site_lax {
        "; SameSite=Lax"@
    } else {
        "; SameSite=None"@
    }) + (if auth.cookie_secure_only {
        "; Secure"@
    } else {
        seq![]
    }) + "; Path="@ + "/"@ + "; Expires="@ + date);
}

/// The header of a clearing cookie, attribute by attribute.
pub proof fn law_clearing_header(auth: AuthConfig, name: Seq<char>, date: Seq<char>)
    ensures
        session::cookie_header(session::clearing_cookie(auth, name), date) == name + "="@
            + "; HttpOnly"@ + (if auth.cookie_secure_only {
            "; Secure"@
        } else {
            seq![]
        }) + "; Path="@ + "/"@ + "; Max-Age="@ + seq!['0'],
{
    let c = session::clearing_cookie(auth, name);
    assert(session::decimal(0) =~= seq!['0']);
    assert(session::cookie_header(c, date) =~= name + "="@ + "; HttpOnly"@ + (
    if auth.cookie_secure_only {
        "; Secure"@
    } else {
        seq![]
    }) + "; Path="@ + "/"@ + "; Max-Age="@ + seq!['0']);
}

/// The contents of a session: the access token is the email and the credential, with a
/// colon between them, in base64 behind `Basic `, and there is no refresh token. The
/// value of the cookie is the base64 of the JSON object of both.
pub proof fn law_session_contents(
    email: Seq<char>,
    credential: Seq<char>,
    tokens: AuthTokensView,
)
    ensures
        encoding::base64_bytes(session::auth_tokens(email, credential).access_token.skip(6))
            == Some(encode_utf8(email + seq![':'] + credential)),
        session::auth_tokens(email, credential).access_token.take(6) == seq![
            'B',
            'a',
            's',
            'i',
            'c',
            ' ',
        ],
        session::auth_tokens(email, credential).refresh_token.len() == 0,
        encoding::base64_bytes(session::session_value(tokens)) == Some(
            encode_utf8(
                "{\"access_token\":"@ + json::json_string(tokens.access_token)
                    + ",\"refresh_token\":"@ + json::json_string(tokens.refresh_token) + "}"@,
            ),
        ),
{
    reveal_strlit("Basic ");
    reveal_strlit(":");
    assert(":"@ =~= seq![':']);
    let raw = encoding::base64_standard(encode_utf8(email + seq![':'] + credential));
    assert(session::auth_tokens(email, credential).access_token.skip(6) =~= raw);
    encoding::law_base64_reads_back(encode_utf8(email + seq![':'] + credential));
    encoding::law_base64_reads_back(
        encode_utf8(
            "{\"access_token\":"@ + json::json_string(tokens.access_token)
                + ",\"refresh_token\":"@ + json::json_string(tokens.refresh_token) + "}"@,
        ),
    );
}

/// The header of any cookie: its name and value, then each attribute that it has,
/// behind those before it.
pub proof fn law_header_of_any_cookie(c: SessionCookieView, date: Seq<char>, other: Seq<char>)
    ensures
        ({
            let lasting = SessionCookieView { expires: None, ..c };
            let bare = SessionCookieView { expires: None, max_age: None, ..c };
            &&& c.expires is Some ==> session::cookie_header(c, date) == session::cookie_header(
                lasting,
                other,
            ) + "; Expires="@ + date
            &&& c.expires is None ==> session::cookie_header(c, date) == session::cookie_header(
                c,
                other,
            )
            &&& c.max_age is Some ==> session::cookie_header(lasting, date)
                == session::cookie_header(bare, date) + "; Max-Age="@ + session::decimal(
                c.max_age->0 as int,
            )
            &&& session::cookie_header(bare, date) == c.name + "="@ + c.value + (if c.http_only {
                "; HttpOnly"@
            } else {
                seq![]
            }) + (if c.same_site == Some(CookieSite::Lax) {
                "; SameSite=Lax"@
            } else if c.same_site == Some(CookieSite::CrossSite) {
                "; SameSite=None"@
            } else {
                seq![]
            }) + (if c.secure {
                "; Secure"@
            } else {
                seq![]
            }) + "; Path="@ + c.path
            &&& session::expiry_date(c) == (match c.expires {
                Some(seconds) => session::cookie_date(seconds as int),
                None => seq![],
            })
        }),
{
    let lasting = SessionCookieView { expires: None, ..c };
    let bare = SessionCookieView { expires: None, max_age: None, ..c };
    let head = c.name + "="@ + c.value + (if c.http_only {
        "; HttpOnly"@
    } else {
        seq![]
    }) + (if c.same_site == Some(CookieSite::Lax) {
        "; SameSite=Lax"@
    } else if c.same_site == Some(CookieSite::CrossSite) {
        "; SameSite=None"@
    } else {
        seq![]
    }) + (if c.secure {
        "; Secure"@
    } else {
        seq![]
    }) + "; Path="@ + c.path;
    assert(session::cookie_header(bare, date) =~= head);
    assert(session::cookie_header(bare, other) =~= head);
    if c.max_age is Some {
        let age = "; Max-Age="@ + session::decimal(c.max_age->0 as int);
        assert(session::cookie_header(lasting, date) =~= head + age);
        assert(session::cookie_header(lasting, other) =~= head + age);
        assert(session::cookie_header(lasting, date) =~= head + "; Max-Age="@ + session::decimal(
            c.max_age->0 as int,
        ));
    } else {
        assert(lasting == bare);
    }
    if c.expires is Some {
        assert(session::cookie_header(c, date) =~= session::cookie_header(lasting, other)
            + "; Expires="@ + date);
    }
}

proof fn lemma_after_prefix(prefix: Seq<char>, rest: Seq<char>)
    ensures
        after_prefix(prefix + rest, prefix) == Some(rest),
{
    assert((prefix + rest).skip(prefix.len() as int) =~= rest);
    assert(prefix =~= (prefix + rest).take(prefix.len() as int));
}

proof fn lemma_same_prefix(prefix: Seq<char>, a: Seq<char>, b: Seq<char>)
    requires
        prefix + a == prefix + b,
    ensures
        a == b,
{
    assert(a =~= (prefix + a).skip(prefix.len() as int));
    assert(b =~= (prefix + b).skip(prefix.len() as int));
}

} // verus!
