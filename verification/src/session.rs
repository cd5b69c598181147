//! The session cookie: its contents, its attributes and its header.

use axum_extra::extract::cookie::{Cookie, SameSite};
use time::{Duration, OffsetDateTime};
use vstd::prelude::*;
#[allow(unused_imports)]
use vstd::string::*;
#[allow(unused_imports)]
use vstd::utf8::*;

use crate::encoding;
use crate::json;
use crate::meta::{AuthConfig, AuthTokens};
#[allow(unused_imports)]
use crate::meta::AuthTokensView;

verus! {

/// The earliest moment that the calendar of `time` reaches, in seconds since
/// 1970: the start of the year -9999.
pub const EARLIEST_SECOND: i64 = -377705116800;

/// The latest moment that the calendar of `time` reaches, in seconds since
/// 1970: the last second of the year 9999.
pub const LATEST_SECOND: i64 = 253402300799;

/// When a browser sends a cookie along with a request from another site.
#[derive(Clone, Copy, PartialEq, Eq, Structural)]
pub enum CookieSite {
    /// Only when the user follows a link (`SameSite=Lax`).
    Lax,
    /// Always (`SameSite=None`).
    CrossSite,
}

/// A cookie that the server sets.
pub struct SessionCookie {
    pub name: String,
    pub value: String,
    pub http_only: bool,
    pub secure: bool,
    pub path: String,
    pub same_site: Option<CookieSite>,
    /// The lifetime in seconds.
    pub max_age: Option<i64>,
    /// The end of the lifetime, in seconds since 1970.
    pub expires: Option<i64>,
}

/// The view of [`SessionCookie`].
pub struct SessionCookieView {
    pub name: Seq<char>,
    pub value: Seq<char>,
    pub http_only: bool,
    pub secure: bool,
    pub path: Seq<char>,
    pub same_site: Option<CookieSite>,
    pub max_age: Option<i64>,
    pub expires: Option<i64>,
}

impl View for SessionCookie {
    type V = SessionCookieView;

    open spec fn view(&self) -> SessionCookieView {
        SessionCookieView {
            name: self.name@,
            value: self.value@,
            http_only: self.http_only,
            secure: self.secure,
            path: self.path@,
            same_site: self.same_site,
            max_age: self.max_age,
            expires: self.expires,
        }
    }
}

/// Whether the calendar reaches a moment.
pub open spec fn in_calendar(seconds: int) -> bool {
    EARLIEST_SECOND <= seconds <= LATEST_SECOND
}

/// The decimal digits of a natural number.
pub open spec fn digits(n: nat) -> Seq<char>
    decreases n,
{
    if n < 10 {
        seq![('0' as int + n) as char]
    } else {
        digits(n / 10).push(('0' as int + n % 10) as char)
    }
}

/// The decimal form of an integer.
pub open spec fn decimal(n: int) -> Seq<char> {
    if n < 0 {
        seq!['-'] + digits((-n) as nat)
    } else {
        digits(n as nat)
    }
}

/// The date that `cookie` writes for a moment, given in seconds since 1970.
pub uninterp spec fn cookie_date(seconds: int) -> Seq<char>;

/// A cookie as the value of the header `Set-Cookie`, given the date of the end
/// of its lifetime.
pub open spec fn cookie_header(c: SessionCookieView, date: Seq<char>) -> Seq<char> {
    c.name + "="@ + c.value + (if c.http_only {
        "; HttpOnly"@
    } else {
        seq![]
    }) + (match c.same_site {
        Some(CookieSite::Lax) => "; SameSite=Lax"@,
        Some(CookieSite::CrossSite) => "; SameSite=None"@,
        None => seq![],
    }) + (if c.secure {
        "; Secure"@
    } else {
        seq![]
    }) + "; Path="@ + c.path + (match c.max_age {
        Some(seconds) => "; Max-Age="@ + decimal(seconds as int),
        None => seq![],
    }) + (match c.expires {
        Some(_) => "; Expires="@ + date,
        None => seq![],
    })
}

/// The date of the end of a lifetime; empty where the cookie has none.
pub open spec fn expiry_date(c: SessionCookieView) -> Seq<char> {
    match c.expires {
        Some(seconds) => cookie_date(seconds as int),
        None => seq![],
    }
}

/// The session cookie that ends `cookie_max_age` seconds after `now`.
pub open spec fn session_cookie(
    auth: AuthConfig,
    name: Seq<char>,
    value: Seq<char>,
    now: int,
) -> SessionCookieView {
    SessionCookieView {
        name,
        value,
        http_only: true,
        secure: auth.cookie_secure_only,
        path: "/"@,
        same_site: Some(
            if auth.cookie_same_site_lax {
                CookieSite::Lax
            } else {
                CookieSite::CrossSite
            },
        ),
        max_age: None,
        expires: Some((now + auth.cookie_max_age) as i64),
    }
}

/// The cookie that makes a browser forget the session cookie.
pub open spec fn clearing_cookie(auth: AuthConfig, name: Seq<char>) -> SessionCookieView {
    SessionCookieView {
        name,
        value: seq![],
        http_only: true,
        secure: auth.cookie_secure_only,
        path: "/"@,
        same_site: None,
        max_age: Some(0),
        expires: None,
    }
}

/// The access token of a session: HTTP basic credentials.
pub open spec fn basic_credentials(email: Seq<char>, credential: Seq<char>) -> Seq<char> {
    "Basic "@ + encoding::base64_standard(encode_utf8(email + ":"@ + credential))
}

/// The contents of the session cookie of a user.
pub open spec fn auth_tokens(email: Seq<char>, credential: Seq<char>) -> AuthTokensView {
    AuthTokensView { access_token: basic_credentials(email, credential), refresh_token: seq![] }
}

/// The contents of a session cookie as a JSON object.
pub open spec fn tokens_json(tokens: AuthTokensView) -> Seq<char> {
    "{\"access_token\":"@ + json::json_string(tokens.access_token) + ",\"refresh_token\":"@
        + json::json_string(tokens.refresh_token) + "}"@
}

/// The value of the session cookie.
pub open spec fn session_value(tokens: AuthTokensView) -> Seq<char> {
    encoding::base64_standard(encode_utf8(tokens_json(tokens)))
}

/// `time::OffsetDateTime::now_utc` reads the clock, and `unix_timestamp` counts
/// whole seconds since 1970; the moment is one of the calendar. Which one it is
/// rests on the clock.
#[verifier::external_body]
fn utc_now() -> (r: i64)
    ensures
        in_calendar(r as int),
{
    OffsetDateTime::now_utc().unix_timestamp()
}

/// A `Cookie` with these attributes, as `to_string` writes it: the name and the
/// value with `=` between them, then the attributes in the order of
/// `cookie_header`, with the end of the lifetime as a date that depends on the
/// moment alone.
#[verifier::external_body]
fn write_cookie(cookie: &SessionCookie) -> (r: String)
    requires
        cookie@.expires matches Some(seconds) ==> in_calendar(seconds as int),
    ensures
        r@ == cookie_header(
            cookie@,
            match cookie@.expires {
                Some(seconds) => cookie_date(seconds as int),
                None => seq![],
            },
        ),
{
    let mut c = Cookie::new(cookie.name.as_str(), cookie.value.as_str());
    c.set_http_only(cookie.http_only);
    c.set_secure(cookie.secure);
    c.set_path(cookie.path.as_str());
    c.set_same_site(cookie.same_site.map(|site| match site {
        CookieSite::Lax => SameSite::Lax,
        CookieSite::CrossSite => SameSite::None,
    }));
    c.set_max_age(cookie.max_age.map(Duration::seconds));
    c.set_expires(cookie.expires.and_then(|t| OffsetDateTime::from_unix_timestamp(t).ok()));
    c.to_string()
}

/// The contents of the session cookie of a user: `Basic base64(email:credential)`
/// and no refresh token.
pub fn build_auth_tokens(email: &str, credential: &str) -> (r: AuthTokens)
    ensures
        r@ == auth_tokens(email@, credential@),
        r.access_token@ == "Basic "@ + encoding::base64_standard(
            encode_utf8(email@ + ":"@ + credential@),
        ),
        r.refresh_token@.len() == 0,
{
    let pair = email.to_string().concat(":").concat(credential);
    let raw = encoding::base64_encode(pair.as_str().as_bytes());
    AuthTokens { access_token: "Basic ".to_string().concat(raw.as_str()), refresh_token: String::new() }
}

/// The value of the session cookie: its contents as JSON, in base64.
pub fn encode_session_cookie(tokens: &AuthTokens) -> (r: String)
    ensures
        r@ == session_value(tokens@),
        r@ == encoding::base64_standard(
            encode_utf8(
                "{\"access_token\":"@ + json::json_string(tokens.access_token@)
                    + ",\"refresh_token\":"@ + json::json_string(tokens.refresh_token@) + "}"@,
            ),
        ),
{
    let document = match (
        json::write_string(tokens.access_token.as_str()),
        json::write_string(tokens.refresh_token.as_str()),
    ) {
        (Some(access), Some(refresh)) => "{\"access_token\":".to_string().concat(
            access.as_str(),
        ).concat(",\"refresh_token\":").concat(refresh.as_str()).concat("}"),
        _ => String::new(),
    };
    encoding::base64_encode(document.as_str().as_bytes())
}

/// The session cookie that ends `cookie_max_age` seconds after `now`. `None`
/// where that moment is beyond the calendar.
pub fn session_cookie_at(auth: &AuthConfig, name: &str, value: &str, now: i64) -> (r: Option<
    SessionCookie,
>)
    ensures
        match r {
            Some(c) => in_calendar(now + auth.cookie_max_age) && c@ == session_cookie(
                *auth,
                name@,
                value@,
                now as int,
            ),
            None => !in_calendar(now + auth.cookie_max_age),
        },
        r matches Some(c) ==> {
            &&& c.name@ == name@
            &&& c.value@ == value@
            &&& c.http_only
            &&& c.secure == auth.cookie_secure_only
            &&& c.path@ == "/"@
            &&& c.same_site == Some(
                if auth.cookie_same_site_lax {
                    CookieSite::Lax
                } else {
                    CookieSite::CrossSite
                },
            )
            &&& c.max_age is None
            &&& c.expires is Some
            &&& c.expires->0 - now == auth.cookie_max_age
        },
        r is None ==> now + auth.cookie_max_age < -377705116800 || now + auth.cookie_max_age
            > 253402300799,
{
    let expires: i64 = match now.checked_add(auth.cookie_max_age) {
        Some(t) => t,
        None => return None,
    };
    if expires < EARLIEST_SECOND || expires > LATEST_SECOND {
        return None;
    }
    let same_site = if auth.cookie_same_site_lax {
        CookieSite::Lax
    } else {
        CookieSite::CrossSite
    };
    Some(
        SessionCookie {
            name: name.to_string(),
            value: value.to_string(),
            http_only: true,
            secure: auth.cookie_secure_only,
            path: "/".to_string(),
            same_site: Some(same_site),
            max_age: None,
            expires: Some(expires),
        },
    )
}

/// The session cookie of a user who signs in now. `None` where its end is
/// beyond the calendar.
pub fn build_session_cookie(auth: &AuthConfig, name: &str, value: &str) -> (r: Option<
    SessionCookie,
>)
    ensures
        match r {
            Some(c) => exists|now: int|
                in_calendar(now) && in_calendar(now + auth.cookie_max_age) && c@
                    == #[trigger] session_cookie(*auth, name@, value@, now),
            None => auth.cookie_max_age != 0,
        },
        r matches Some(c) ==> {
            &&& c.name@ == name@
            &&& c.value@ == value@
            &&& c.http_only
            &&& c.secure == auth.cookie_secure_only
            &&& c.path@ == "/"@
            &&& c.same_site == Some(
                if auth.cookie_same_site_lax {
                    CookieSite::Lax
                } else {
                    CookieSite::CrossSite
                },
            )
            &&& c.max_age is None
            &&& c.expires is Some
            &&& in_calendar(c.expires->0 - auth.cookie_max_age)
        },
{
    let now: i64 = utc_now();
    session_cookie_at(auth, name, value, now)
}

/// The cookie that makes a browser forget the session cookie.
pub fn build_clear_cookie(auth: &AuthConfig, name: &str) -> (r: SessionCookie)
    ensures
        r@ == clearing_cookie(*auth, name@),
        r.name@ == name@,
        r.value@.len() == 0,
        r.http_only,
        r.secure == auth.cookie_secure_only,
        r.path@ == "/"@,
        r.same_site is None,
        r.max_age == Some(0i64),
        r.expires is None,
{
    SessionCookie {
        name: name.to_string(),
        value: String::new(),
        http_only: true,
        secure: auth.cookie_secure_only,
        path: "/".to_string(),
        same_site: None,
        max_age: Some(0),
        expires: None,
    }
}

impl SessionCookie {
    /// The cookie as the value of the header `Set-Cookie`.
    pub fn to_header(&self) -> (r: String)
        requires
            self@.expires matches Some(seconds) ==> in_calendar(seconds as int),
        ensures
            r@ == cookie_header(self@, expiry_date(self@)),
    {
        write_cookie(self)
    }
}

/// A session cookie ends exactly its configured lifetime after the moment it is set,
/// so with a positive lifetime it ends later; two cookies set at different moments end
/// as far apart. It carries the protection that the settings ask for.
pub proof fn law_session_cookie_lives_as_configured(
    auth: AuthConfig,
    name: Seq<char>,
    value: Seq<char>,
    now: int,
    later: int,
)
    requires
        in_calendar(now + auth.cookie_max_age),
        in_calendar(later + auth.cookie_max_age),
    ensures
        ({
            let c = session_cookie(auth, name, value, now);
            let d = session_cookie(auth, name, value, later);
            &&& c.expires is Some && c.expires->0 - now == auth.cookie_max_age
            &&& auth.cookie_max_age > 0 ==> c.expires->0 > now
            &&& d.expires is Some && d.expires->0 - c.expires->0 == later - now
            &&& c.name == name && c.value == value && c.path == "/"@ && c.http_only
            &&& c.secure == auth.cookie_secure_only
            &&& c.same_site == Some(CookieSite::Lax) <==> auth.cookie_same_site_lax
            &&& c.same_site == Some(CookieSite::CrossSite) <==> !auth.cookie_same_site_lax
            &&& c.max_age is None
        }),
{
}

/// The calendar reaches from the start of the year -9999 to the end of the year 9999.
pub proof fn law_calendar(seconds: int)
    ensures
        in_calendar(seconds) <==> -377705116800 <= seconds <= 253402300799,
{
}

/// The clearing cookie has the name, the path and the protection of the session
/// cookie, so that it takes its place, and it ends at once with no value.
pub proof fn law_clearing_cookie_replaces_session(
    auth: AuthConfig,
    name: Seq<char>,
    value: Seq<char>,
    now: int,
)
    ensures
        clearing_cookie(auth, name).name == session_cookie(auth, name, value, now).name,
        clearing_cookie(auth, name).path == session_cookie(auth, name, value, now).path,
        clearing_cookie(auth, name).secure == session_cookie(auth, name, value, now).secure,
        clearing_cookie(auth, name).http_only && session_cookie(auth, name, value, now).http_only,
        clearing_cookie(auth, name).max_age == Some(0i64),
        clearing_cookie(auth, name).value.len() == 0,
{
}

} // verus!
