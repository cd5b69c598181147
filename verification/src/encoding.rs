//! Encodings of bytes and texts, each computed by an outside crate.

use base64::Engine;
use vstd::prelude::*;
#[allow(unused_imports)]
use vstd::utf8::*;

verus! {

/// The characters that a URL component carries as they are.
pub open spec fn is_unreserved(c: char) -> bool {
    ||| '0' <= c <= '9'
    ||| 'A' <= c <= 'Z'
    ||| 'a' <= c <= 'z'
    ||| c == '-'
    ||| c == '.'
    ||| c == '_'
    ||| c == '~'
}

/// The upper case hexadecimal digit of a number below 16.
pub open spec fn upper_hex_digit(d: int) -> char {
    if d < 10 {
        ('0' as int + d) as char
    } else {
        ('A' as int + d - 10) as char
    }
}

/// The lower case hexadecimal digit of a number below 16.
pub open spec fn lower_hex_digit(d: int) -> char {
    if d < 10 {
        ('0' as int + d) as char
    } else {
        ('a' as int + d - 10) as char
    }
}

/// A byte in a URL component: itself where it is the code of an unreserved
/// character, else `%` and two hexadecimal digits.
pub open spec fn percent_byte(b: u8) -> Seq<char> {
    if is_unreserved(b as char) {
        seq![b as char]
    } else {
        seq!['%', upper_hex_digit(b as int / 16), upper_hex_digit(b as int % 16)]
    }
}

/// The bytes of a URL component, one after the other.
pub open spec fn percent_bytes(bytes: Seq<u8>) -> Seq<char>
    decreases bytes.len(),
{
    if bytes.len() == 0 {
        seq![]
    } else {
        percent_byte(bytes[0]) + percent_bytes(bytes.skip(1))
    }
}

/// A text as a URL component: its UTF-8 bytes, percent-encoded.
pub open spec fn url_component(s: Seq<char>) -> Seq<char> {
    percent_bytes(encode_utf8(s))
}

/// The value of a hexadecimal digit of either case.
pub open spec fn hex_value(c: char) -> int {
    if '0' <= c <= '9' {
        c as int - '0' as int
    } else if 'a' <= c <= 'f' {
        c as int - 'a' as int + 10
    } else {
        c as int - 'A' as int + 10
    }
}

/// Hexadecimal digits of either case.
pub open spec fn is_hex_digit(c: char) -> bool {
    ||| '0' <= c <= '9'
    ||| 'a' <= c <= 'f'
    ||| 'A' <= c <= 'F'
}

/// Lower case hexadecimal digits.
pub open spec fn is_lower_hex_digit(c: char) -> bool {
    ||| '0' <= c <= '9'
    ||| 'a' <= c <= 'f'
}

/// An even number of hexadecimal digits.
pub open spec fn is_hex_text(s: Seq<char>) -> bool {
    &&& s.len() % 2 == 0
    &&& forall|i: int| 0 <= i < s.len() ==> is_hex_digit(#[trigger] s[i])
}

/// The bytes that a hexadecimal text spells, two digits for each.
pub open spec fn hex_bytes(s: Seq<char>) -> Seq<u8> {
    Seq::new(
        s.len() / 2,
        |i: int| (16 * hex_value(s[2 * i]) + hex_value(s[2 * i + 1])) as u8,
    )
}

/// The SHA-256 digest of bytes as a hexadecimal text: what `sha256::digest`
/// returns.
pub uninterp spec fn sha256_hex(bytes: Seq<u8>) -> Seq<char>;

/// The base64 digit of a number below 64. The URL-safe alphabet has `-` and `_`
/// where the standard one has `+` and `/`.
pub open spec fn base64_digit(d: int, url_safe: bool) -> char {
    if d < 26 {
        ('A' as int + d) as char
    } else if d < 52 {
        ('a' as int + d - 26) as char
    } else if d < 62 {
        ('0' as int + d - 52) as char
    } else if d == 62 {
        if url_safe {
            '-'
        } else {
            '+'
        }
    } else if url_safe {
        '_'
    } else {
        '/'
    }
}

/// The four base64 digits of three bytes, six bits each.
pub open spec fn base64_quad(x: u8, y: u8, z: u8, url_safe: bool) -> Seq<char> {
    seq![
        base64_digit(x as int / 4, url_safe),
        base64_digit(x as int % 4 * 16 + y as int / 16, url_safe),
        base64_digit(y as int % 16 * 4 + z as int / 64, url_safe),
        base64_digit(z as int % 64, url_safe),
    ]
}

/// The base64 of bytes: four digits for each three bytes. One or two bytes at the
/// end give two or three digits, filled up to four with `=` where padding is
/// asked for.
pub open spec fn base64_text(bytes: Seq<u8>, url_safe: bool, padded: bool) -> Seq<char>
    decreases bytes.len(),
{
    if bytes.len() == 0 {
        seq![]
    } else if bytes.len() == 1 {
        base64_quad(bytes[0], 0, 0, url_safe).take(2) + if padded {
            seq!['=', '=']
        } else {
            seq![]
        }
    } else if bytes.len() == 2 {
        base64_quad(bytes[0], bytes[1], 0, url_safe).take(3) + if padded {
            seq!['=']
        } else {
            seq![]
        }
    } else {
        base64_quad(bytes[0], bytes[1], bytes[2], url_safe) + base64_text(
            bytes.skip(3),
            url_safe,
            padded,
        )
    }
}

/// The characters of base64 texts.
pub open spec fn is_base64_char(c: char, url_safe: bool, padded: bool) -> bool {
    ||| '0' <= c <= '9'
    ||| 'A' <= c <= 'Z'
    ||| 'a' <= c <= 'z'
    ||| c == base64_digit(62, url_safe)
    ||| c == base64_digit(63, url_safe)
    ||| padded && c == '='
}

/// The URL-safe base64 of bytes, without padding.
pub open spec fn base64_url(bytes: Seq<u8>) -> Seq<char> {
    base64_text(bytes, true, false)
}

/// The base64 of bytes, with padding.
pub open spec fn base64_standard(bytes: Seq<u8>) -> Seq<char> {
    base64_text(bytes, false, true)
}

/// The number below 64 that a base64 digit of the standard alphabet stands for; -1
/// for every other character.
pub open spec fn base64_value(c: char) -> int {
    if 'A' <= c <= 'Z' {
        c as int - 'A' as int
    } else if 'a' <= c <= 'z' {
        c as int - 'a' as int + 26
    } else if '0' <= c <= '9' {
        c as int - '0' as int + 52
    } else if c == '+' {
        62
    } else if c == '/' {
        63
    } else {
        -1
    }
}

/// The bytes that a padded base64 text of the standard alphabet spells. `None`
/// where it is no such text.
pub open spec fn base64_bytes(s: Seq<char>) -> Option<Seq<u8>>
    decreases s.len(),
{
    if s.len() == 0 {
        Some(seq![])
    } else if s.len() < 4 {
        None
    } else {
        let (a, b, c, d) = (
            base64_value(s[0]),
            base64_value(s[1]),
            base64_value(s[2]),
            base64_value(s[3]),
        );
        let x = (a * 4 + b / 16) as u8;
        let y = (b % 16 * 16 + c / 4) as u8;
        let z = (c % 4 * 64 + d) as u8;
        if a < 0 || b < 0 {
            None
        } else if s.len() == 4 && s[2] == '=' && s[3] == '=' {
            if b % 16 == 0 {
                Some(seq![x])
            } else {
                None
            }
        } else if c < 0 {
            None
        } else if s.len() == 4 && s[3] == '=' {
            if c % 4 == 0 {
                Some(seq![x, y])
            } else {
                None
            }
        } else if d < 0 {
            None
        } else {
            match base64_bytes(s.skip(4)) {
                Some(rest) => Some(seq![x, y, z] + rest),
                None => None,
            }
        }
    }
}

/// `urlencoding::encode` replaces every byte of the UTF-8 form of a text except
/// ASCII letters, digits, `-`, `_`, `.` and `~` by `%` and its two upper case
/// hexadecimal digits.
#[verifier::external_body]
pub(crate) fn url_encode(s: &str) -> (r: String)
    ensures
        r@ == url_component(s@),
{
    urlencoding::encode(s).into_owned()
}

/// `sha256::digest` returns the digest as 64 lower case hexadecimal digits, a
/// function of the bytes alone.
#[verifier::external_body]
pub(crate) fn sha256_digest(bytes: &[u8]) -> (r: String)
    ensures
        r@ == sha256_hex(bytes@),
        r@.len() == 64,
        forall|i: int| 0 <= i < r@.len() ==> is_lower_hex_digit(#[trigger] r@[i]),
{
    sha256::digest(bytes)
}

/// `hex::decode` turns each pair of hexadecimal digits, of either case, into a
/// byte; it fails on an odd number of bytes and on anything but such digits.
#[verifier::external_body]
pub(crate) fn hex_decode(s: &str) -> (r: Option<Vec<u8>>)
    ensures
        match r {
            Some(bytes) => is_hex_text(s@) && bytes@ == hex_bytes(s@),
            None => !is_hex_text(s@),
        },
{
    hex::decode(s).ok()
}

/// The engine `URL_SAFE_NO_PAD` of `base64` encodes bytes with the URL-safe
/// alphabet, without padding.
#[verifier::external_body]
pub(crate) fn base64_url_encode(bytes: &[u8]) -> (r: String)
    ensures
        r@ == base64_url(bytes@),
{
    base64::engine::general_purpose::URL_SAFE_NO_PAD.encode(bytes)
}

/// The engine `URL_SAFE_NO_PAD` of `base64` decodes exactly the texts that it
/// encodes bytes as: it takes no padding and no bits that are left over.
#[verifier::external_body]
pub(crate) fn base64_url_decode(s: &str) -> (r: Option<Vec<u8>>)
    ensures
        match r {
            Some(bytes) => base64_url(bytes@) == s@,
            None => forall|bytes: Seq<u8>| #[trigger] base64_url(bytes) != s@,
        },
{
    base64::engine::general_purpose::URL_SAFE_NO_PAD.decode(s).ok()
}

/// The engine `STANDARD` of `base64` encodes bytes with the standard alphabet,
/// with padding.
#[verifier::external_body]
pub(crate) fn base64_encode(bytes: &[u8]) -> (r: String)
    ensures
        r@ == base64_standard(bytes@),
{
    base64::engine::general_purpose::STANDARD.encode(bytes)
}

/// A percent-encoded text holds nothing but unreserved characters and `%`: no
/// `&`, `=`, `#` or `?` of a value can change the query around it.
pub proof fn law_url_component_is_safe(s: Seq<char>)
    ensures
        forall|i: int|
            0 <= i < url_component(s).len() ==> is_unreserved(#[trigger] url_component(s)[i])
                || url_component(s)[i] == '%',
{
    lemma_percent_bytes_safe(encode_utf8(s));
}

/// Different texts are different URL components.
pub proof fn law_url_component_is_injective(s: Seq<char>, t: Seq<char>)
    requires
        url_component(s) == url_component(t),
    ensures
        s == t,
{
    lemma_percent_bytes_injective(encode_utf8(s), encode_utf8(t));
    encode_utf8_decode_utf8(s);
    encode_utf8_decode_utf8(t);
}

/// A text of unreserved characters is a URL component as it is.
pub proof fn law_unreserved_needs_no_escape(s: Seq<char>)
    requires
        forall|i: int| 0 <= i < s.len() ==> is_unreserved(#[trigger] s[i]),
    ensures
        url_component(s) == s,
{
    assert forall|i: int| 0 <= i < s.len() implies 0 <= #[trigger] s[i] as int <= 0x7f by {
        assert(is_unreserved(s[i]));
    }
    assert(is_ascii_chars(s));
    is_ascii_chars_encode_utf8(s);
    let bytes = encode_utf8(s);
    assert forall|i: int| 0 <= i < bytes.len() implies is_unreserved(#[trigger] bytes[i] as char)
        && bytes[i] as char == s[i] by {
        assert(is_unreserved(s[i]));
        assert(bytes[i] == s[i] as u8);
    }
    lemma_percent_bytes_plain(bytes);
    assert(percent_bytes(bytes) =~= s);
}

/// Base64 texts hold letters, digits, the two other digits of their alphabet and
/// the padding character, and nothing else.
pub proof fn law_base64_alphabet(bytes: Seq<u8>, url_safe: bool, padded: bool)
    ensures
        forall|i: int|
            0 <= i < base64_text(bytes, url_safe, padded).len() ==> is_base64_char(
                #[trigger] base64_text(bytes, url_safe, padded)[i],
                url_safe,
                padded,
            ),
    decreases bytes.len(),
{
    if bytes.len() > 0 {
        let (x, y, z) = leading_bytes(bytes);
        lemma_base64_quad_digits(x, y, z, url_safe);
        let quad = base64_quad(x, y, z, url_safe);
        let all = base64_text(bytes, url_safe, padded);
        if bytes.len() >= 3 {
            law_base64_alphabet(bytes.skip(3), url_safe, padded);
        }
        assert forall|i: int| 0 <= i < all.len() implies is_base64_char(
            #[trigger] all[i],
            url_safe,
            padded,
        ) by {
            if i <= bytes.len() && i < 4 {
                assert(all[i] == quad[i]);
            } else if bytes.len() >= 3 {
                assert(all[i] == base64_text(bytes.skip(3), url_safe, padded)[i - 4]);
            }
        }
    }
}

/// Without padding, the base64 of `n` bytes has the least number of digits, of six
/// bits each, that holds them; with padding, it has four for each three bytes
/// begun.
pub proof fn law_base64_length(bytes: Seq<u8>, url_safe: bool, padded: bool)
    ensures
        base64_text(bytes, url_safe, padded).len() == if padded {
            (bytes.len() + 2) / 3 * 4
        } else {
            (bytes.len() * 8 + 5) / 6
        },
    decreases bytes.len(),
{
    if bytes.len() >= 3 {
        law_base64_length(bytes.skip(3), url_safe, padded);
    }
}

/// Base64 loses nothing: different bytes have different texts.
pub proof fn law_base64_is_injective(a: Seq<u8>, b: Seq<u8>, url_safe: bool, padded: bool)
    requires
        base64_text(a, url_safe, padded) == base64_text(b, url_safe, padded),
    ensures
        a == b,
    decreases a.len(),
{
    let x = base64_text(a, url_safe, padded);
    law_base64_length(a, url_safe, padded);
    law_base64_length(b, url_safe, padded);
    if a.len() == 0 {
        assert(a =~= b);
    } else {
        assert(b.len() > 0);
        let (a0, a1, a2) = leading_bytes(a);
        let (b0, b1, b2) = leading_bytes(b);
        let p = base64_quad(a0, a1, a2, url_safe);
        let q = base64_quad(b0, b1, b2, url_safe);
        lemma_base64_quad_digits(a0, a1, a2, url_safe);
        lemma_base64_quad_digits(b0, b1, b2, url_safe);
        assert(p[0] == x[0] && p[1] == x[1] && q[0] == x[0] && q[1] == x[1]);
        assert(a.len() >= 2 <==> b.len() >= 2) by {
            assert(a.len() >= 2 ==> x[2] == p[2]);
            assert(b.len() >= 2 ==> x[2] == q[2]);
        }
        assert(a.len() >= 3 <==> b.len() >= 3) by {
            assert(a.len() >= 3 ==> x[3] == p[3]);
            assert(b.len() >= 3 ==> x[3] == q[3]);
        }
        assert(a.len() >= 2 ==> x[2] == p[2] && x[2] == q[2]);
        assert(a.len() >= 3 ==> x[3] == p[3] && x[3] == q[3]);
        assert(p =~= q);
        lemma_base64_quad_injective(a0, a1, a2, b0, b1, b2, url_safe);
        if a.len() >= 3 {
            assert(base64_text(a.skip(3), url_safe, padded) =~= x.skip(4));
            assert(base64_text(b.skip(3), url_safe, padded) =~= x.skip(4));
            law_base64_is_injective(a.skip(3), b.skip(3), url_safe, padded);
            assert(a =~= seq![a0, a1, a2] + a.skip(3));
            assert(b =~= seq![b0, b1, b2] + b.skip(3));
        } else {
            assert(a =~= b);
        }
    }
}

/// A padded base64 text of the standard alphabet spells the bytes that it was made
/// of.
pub proof fn law_base64_reads_back(bytes: Seq<u8>)
    ensures
        base64_bytes(base64_standard(bytes)) == Some(bytes),
    decreases bytes.len(),
{
    let s = base64_standard(bytes);
    if bytes.len() > 0 {
        let (x, y, z) = leading_bytes(bytes);
        lemma_base64_value(x as int / 4);
        lemma_base64_value(x as int % 4 * 16 + y as int / 16);
        lemma_base64_value(y as int % 16 * 4 + z as int / 64);
        lemma_base64_value(z as int % 64);
        let quad = base64_quad(x, y, z, false);
        assert(s.len() >= 4);
        assert(s[0] == quad[0] && s[1] == quad[1]);
        if bytes.len() == 1 {
            assert(s[2] == '=' && s[3] == '=');
            assert(base64_bytes(s) == Some(seq![x]));
            assert(bytes =~= seq![x]);
        } else if bytes.len() == 2 {
            assert(s[2] == quad[2] && s[3] == '=');
            assert(base64_bytes(s) == Some(seq![x, y]));
            assert(bytes =~= seq![x, y]);
        } else {
            assert(s[2] == quad[2] && s[3] == quad[3]);
            assert(s.skip(4) =~= base64_standard(bytes.skip(3)));
            law_base64_reads_back(bytes.skip(3));
            assert(base64_bytes(s) == Some(seq![x, y, z] + bytes.skip(3)));
            assert(bytes =~= seq![x, y, z] + bytes.skip(3));
        }
    }
}

proof fn lemma_base64_value(d: int)
    requires
        0 <= d < 64,
    ensures
        base64_value(base64_digit(d, false)) == d,
        base64_digit(d, false) != '=',
{
    lemma_base64_digit(d, false);
}

/// The first three bytes, with zeros for those that are missing.
spec fn leading_bytes(s: Seq<u8>) -> (u8, u8, u8) {
    (
        s[0],
        if s.len() >= 2 {
            s[1]
        } else {
            0
        },
        if s.len() >= 3 {
            s[2]
        } else {
            0
        },
    )
}

proof fn lemma_base64_digit(d: int, url_safe: bool)
    requires
        0 <= d < 64,
    ensures
        is_base64_char(base64_digit(d, url_safe), url_safe, false),
        base64_digit(d, url_safe) != '=',
        d < 26 ==> base64_digit(d, url_safe) as int == 'A' as int + d,
        26 <= d < 52 ==> base64_digit(d, url_safe) as int == 'a' as int + d - 26,
        52 <= d < 62 ==> base64_digit(d, url_safe) as int == '0' as int + d - 52,
{
}

proof fn lemma_base64_digit_injective(d: int, e: int, url_safe: bool)
    requires
        0 <= d < 64,
        0 <= e < 64,
        base64_digit(d, url_safe) == base64_digit(e, url_safe),
    ensures
        d == e,
{
    lemma_base64_digit(d, url_safe);
    lemma_base64_digit(e, url_safe);
}

proof fn lemma_base64_quad_digits(x: u8, y: u8, z: u8, url_safe: bool)
    ensures
        forall|i: int|
            0 <= i < 4 ==> is_base64_char(
                #[trigger] base64_quad(x, y, z, url_safe)[i],
                url_safe,
                false,
            ) && base64_quad(x, y, z, url_safe)[i] != '=',
{
    lemma_base64_digit(x as int / 4, url_safe);
    lemma_base64_digit(x as int % 4 * 16 + y as int / 16, url_safe);
    lemma_base64_digit(y as int % 16 * 4 + z as int / 64, url_safe);
    lemma_base64_digit(z as int % 64, url_safe);
}

proof fn lemma_base64_quad_injective(x: u8, y: u8, z: u8, u: u8, v: u8, w: u8, url_safe: bool)
    requires
        base64_quad(x, y, z, url_safe) == base64_quad(u, v, w, url_safe),
    ensures
        x == u,
        y == v,
        z == w,
{
    let p = base64_quad(x, y, z, url_safe);
    let q = base64_quad(u, v, w, url_safe);
    assert(p[0] == q[0] && p[1] == q[1] && p[2] == q[2] && p[3] == q[3]);
    lemma_base64_digit_injective(x as int / 4, u as int / 4, url_safe);
    lemma_base64_digit_injective(
        x as int % 4 * 16 + y as int / 16,
        u as int % 4 * 16 + v as int / 16,
        url_safe,
    );
    lemma_base64_digit_injective(
        y as int % 16 * 4 + z as int / 64,
        v as int % 16 * 4 + w as int / 64,
        url_safe,
    );
    lemma_base64_digit_injective(z as int % 64, w as int % 64, url_safe);
}

proof fn lemma_percent_bytes_plain(bytes: Seq<u8>)
    requires
        forall|i: int| 0 <= i < bytes.len() ==> is_unreserved(#[trigger] bytes[i] as char),
    ensures
        percent_bytes(bytes) == bytes.map_values(|b: u8| b as char),
    decreases bytes.len(),
{
    if bytes.len() > 0 {
        assert forall|i: int| 0 <= i < bytes.skip(1).len() implies is_unreserved(
            #[trigger] bytes.skip(1)[i] as char,
        ) by {
            assert(bytes.skip(1)[i] == bytes[i + 1]);
        }
        lemma_percent_bytes_plain(bytes.skip(1));
        assert(is_unreserved(bytes[0] as char));
        assert(seq![bytes[0] as char] + bytes.skip(1).map_values(|b: u8| b as char)
            =~= bytes.map_values(|b: u8| b as char));
    } else {
        assert(bytes.map_values(|b: u8| b as char) =~= seq![]);
    }
}

proof fn lemma_upper_hex_digit(d: int)
    requires
        0 <= d < 16,
    ensures
        is_unreserved(upper_hex_digit(d)),
        upper_hex_digit(d) as int == if d < 10 {
            '0' as int + d
        } else {
            'A' as int + d - 10
        },
{
}

proof fn lemma_percent_bytes_safe(bytes: Seq<u8>)
    ensures
        forall|i: int|
            0 <= i < percent_bytes(bytes).len() ==> is_unreserved(#[trigger] percent_bytes(bytes)[i])
                || percent_bytes(bytes)[i] == '%',
    decreases bytes.len(),
{
    if bytes.len() > 0 {
        lemma_percent_bytes_safe(bytes.skip(1));
        lemma_upper_hex_digit(bytes[0] as int / 16);
        lemma_upper_hex_digit(bytes[0] as int % 16);
        let head = percent_byte(bytes[0]);
        let tail = percent_bytes(bytes.skip(1));
        assert forall|i: int| 0 <= i < (head + tail).len() implies is_unreserved(
            #[trigger] (head + tail)[i],
        ) || (head + tail)[i] == '%' by {
            if i >= head.len() {
                assert((head + tail)[i] == tail[i - head.len()]);
            }
        }
    }
}

proof fn lemma_percent_bytes_injective(a: Seq<u8>, b: Seq<u8>)
    requires
        percent_bytes(a) == percent_bytes(b),
    ensures
        a == b,
    decreases a.len(),
{
    let x = percent_bytes(a);
    if a.len() == 0 {
        if b.len() > 0 {
            assert(percent_byte(b[0]).len() > 0);
        }
        assert(a =~= b);
    } else {
        assert(percent_byte(a[0]).len() > 0);
        assert(b.len() > 0);
        lemma_upper_hex_digit(a[0] as int / 16);
        lemma_upper_hex_digit(a[0] as int % 16);
        lemma_upper_hex_digit(b[0] as int / 16);
        lemma_upper_hex_digit(b[0] as int % 16);
        let p = percent_byte(a[0]);
        let q = percent_byte(b[0]);
        assert(x[0] == p[0]);
        assert(x[0] == q[0]);
        if !is_unreserved(a[0] as char) {
            assert(x[1] == p[1] && x[2] == p[2]);
            assert(x[1] == q[1] && x[2] == q[2]);
        }
        assert(a[0] == b[0]);
        assert(percent_bytes(a.skip(1)) =~= x.skip(p.len() as int));
        assert(percent_bytes(b.skip(1)) =~= x.skip(p.len() as int));
        lemma_percent_bytes_injective(a.skip(1), b.skip(1));
        assert(a =~= seq![a[0]] + a.skip(1));
        assert(b =~= seq![b[0]] + b.skip(1));
    }
}

} // verus!
