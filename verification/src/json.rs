//! JSON texts, written and read by `serde_json`.

use std::collections::HashMap;

use serde_json::value::RawValue;
use serde_json::Value;
use vstd::prelude::*;
#[allow(unused_imports)]
use vstd::utf8::*;

#[allow(unused_imports)]
use crate::encoding;
use crate::text;

verus! {

/// A character inside a JSON string.
pub open spec fn json_char(c: char) -> Seq<char> {
    if c == '"' {
        seq!['\\', '"']
    } else if c == '\\' {
        seq!['\\', '\\']
    } else if c == '\u{8}' {
        seq!['\\', 'b']
    } else if c == '\u{9}' {
        seq!['\\', 't']
    } else if c == '\u{a}' {
        seq!['\\', 'n']
    } else if c == '\u{c}' {
        seq!['\\', 'f']
    } else if c == '\u{d}' {
        seq!['\\', 'r']
    } else if 0 <= c as int <= 0x1f {
        seq![
            '\\',
            'u',
            '0',
            '0',
            encoding::lower_hex_digit(c as int / 16),
            encoding::lower_hex_digit(c as int % 16),
        ]
    } else {
        seq![c]
    }
}

/// The characters inside a JSON string, one after the other.
pub open spec fn json_chars(s: Seq<char>) -> Seq<char>
    decreases s.len(),
{
    if s.len() == 0 {
        seq![]
    } else {
        json_char(s[0]) + json_chars(s.skip(1))
    }
}

/// A text as a JSON string.
pub open spec fn json_string(s: Seq<char>) -> Seq<char> {
    seq!['"'] + json_chars(s) + seq!['"']
}

/// The items of a JSON array of strings, with commas between them.
pub open spec fn json_strings(list: Seq<Seq<char>>) -> Seq<char>
    decreases list.len(),
{
    if list.len() == 0 {
        seq![]
    } else if list.len() == 1 {
        json_string(list[0])
    } else {
        json_string(list[0]) + seq![','] + json_strings(list.skip(1))
    }
}

/// A list of texts as a JSON array.
pub open spec fn json_array(list: Seq<Seq<char>>) -> Seq<char> {
    seq!['['] + json_strings(list) + seq![']']
}

/// The list of texts that bytes spell in JSON, where they spell one: what
/// `serde_json::from_slice` returns for a list of strings.
pub uninterp spec fn parsed_list(bytes: Seq<u8>) -> Option<Seq<Seq<char>>>;

/// The JSON texts of the items of the array that stands under `key` in the
/// document that bytes spell, as `serde_json` reads it: `None` where the bytes
/// spell no JSON document, and `Some(None)` where the document is no object, or
/// has no array there.
pub uninterp spec fn member_items(bytes: Seq<u8>, key: Seq<char>) -> Option<Option<Seq<Seq<char>>>>;

/// The text of the string that stands under `key` in a JSON document, as
/// `serde_json` reads it: `None` where there is no such string.
pub uninterp spec fn member_text(document: Seq<char>, key: Seq<char>) -> Option<Seq<char>>;

/// The JSON text of the value that stands under `key` in the object that bytes
/// spell, as `serde_json` finds it without reading the other values: `None` where
/// the bytes spell no object, or it has no such member. Where a key stands twice,
/// the last value counts. Bytes that are no UTF-8 count as replacement characters.
pub uninterp spec fn raw_member(bytes: Seq<u8>, key: Seq<char>) -> Option<Seq<char>>;

/// The text of the string that a JSON document is, as `serde_json` reads it: `None`
/// where it is no string.
pub uninterp spec fn string_text(document: Seq<char>) -> Option<Seq<char>>;

/// The JSON texts of the items of the array that a JSON document is, as `serde_json`
/// reads and writes them: `None` where it is no array.
pub uninterp spec fn array_items(document: Seq<char>) -> Option<Seq<Seq<char>>>;

/// `serde_json::to_string` writes a string between quotation marks, with
/// quotation marks, backslashes and control characters escaped. It does not
/// fail on a string.
#[verifier::external_body]
pub(crate) fn write_string(s: &str) -> (r: Option<String>)
    ensures
        text::opt_text(r) == Some(json_string(s@)),
{
    serde_json::to_string(s).ok()
}

/// `serde_json::to_vec` writes a list of strings as a JSON array without white
/// space, in UTF-8. It does not fail on such a list, and
/// `serde_json::from_slice` reads the list back from the bytes.
#[verifier::external_body]
pub(crate) fn write_list(list: &Vec<String>) -> (r: Option<Vec<u8>>)
    ensures
        match r {
            Some(bytes) => {
                &&& bytes@ == encode_utf8(json_array(text::texts(list@)))
                &&& parsed_list(bytes@) == Some(text::texts(list@))
            },
            None => false,
        },
{
    serde_json::to_vec(list).ok()
}

/// `serde_json::from_slice` reads a list of strings as a function of the bytes
/// alone.
#[verifier::external_body]
pub(crate) fn read_list(bytes: &[u8]) -> (r: Option<Vec<String>>)
    ensures
        match r {
            Some(list) => parsed_list(bytes@) == Some(text::texts(list@)),
            None => parsed_list(bytes@) is None,
        },
{
    serde_json::from_slice(bytes).ok()
}

/// `serde_json::from_slice` reads a document, `Value::get` and
/// `Value::as_array` find the array under `key`, and `Value::to_string` writes
/// each of its items; all as a function of the bytes and the key alone.
#[verifier::external_body]
pub(crate) fn read_member_items(bytes: &[u8], key: &str) -> (r: Option<Option<Vec<String>>>)
    ensures
        match r {
            Some(Some(items)) => member_items(bytes@, key@) == Some(Some(text::texts(items@))),
            Some(None) => member_items(bytes@, key@) == Some(None::<Seq<Seq<char>>>),
            None => member_items(bytes@, key@) is None,
        },
{
    let value: Value = serde_json::from_slice(bytes).ok()?;
    let items = value.get(key).and_then(|member| member.as_array());
    Some(items.map(|items| items.iter().map(|item| item.to_string()).collect()))
}

/// `serde_json::from_str` reads a document, and `Value::get` and
/// `Value::as_str` find the string under `key`, as a function of the document
/// and the key alone.
#[verifier::external_body]
pub(crate) fn read_member_text(document: &str, key: &str) -> (r: Option<String>)
    ensures
        text::opt_text(r) == member_text(document@, key@),
{
    let value: Value = serde_json::from_str(document).ok()?;
    value.get(key).and_then(|member| member.as_str()).map(|s| s.to_string())
}

/// `serde_json::from_str` reads an object as a map from keys to `RawValue`, which
/// keeps the text of a value without reading it, as a function of the bytes and the
/// key alone.
#[verifier::external_body]
pub(crate) fn read_raw_member(bytes: &[u8], key: &str) -> (r: Option<String>)
    ensures
        text::opt_text(r) == raw_member(bytes@, key@),
{
    let document = String::from_utf8_lossy(bytes);
    let members: HashMap<String, &RawValue> = serde_json::from_str(&document).ok()?;
    members.get(key).map(|value| value.get().to_string())
}

/// `serde_json::from_str` reads a string, as a function of the document alone.
#[verifier::external_body]
pub(crate) fn read_text(document: &str) -> (r: Option<String>)
    ensures
        text::opt_text(r) == string_text(document@),
{
    serde_json::from_str(document).ok()
}

/// `serde_json::from_str` reads an array of values, and `Value::to_string` writes
/// each of them, as a function of the document alone.
#[verifier::external_body]
pub(crate) fn read_items(document: &str) -> (r: Option<Vec<String>>)
    ensures
        match r {
            Some(items) => array_items(document@) == Some(text::texts(items@)),
            None => array_items(document@) is None,
        },
{
    let items: Vec<Value> = serde_json::from_str(document).ok()?;
    Some(items.iter().map(|item| item.to_string()).collect())
}

/// The code point that four hexadecimal digits spell.
pub open spec fn hex_code(s: Seq<char>) -> int {
    4096 * encoding::hex_value(s[0]) + 256 * encoding::hex_value(s[1]) + 16 * encoding::hex_value(
        s[2],
    ) + encoding::hex_value(s[3])
}

/// The character that the start of the inside of a JSON string spells, and how many
/// characters spell it. `None` at a control character and at an escape that spells
/// no character by itself.
pub open spec fn read_char(s: Seq<char>) -> Option<(char, int)> {
    if s.len() == 0 || s[0] as int <= 0x1f {
        None
    } else if s[0] != '\\' {
        Some((s[0], 1))
    } else if s.len() == 1 {
        None
    } else if s[1] == '"' || s[1] == '\\' || s[1] == '/' {
        Some((s[1], 2))
    } else if s[1] == 'b' {
        Some(('\u{8}', 2))
    } else if s[1] == 't' {
        Some(('\u{9}', 2))
    } else if s[1] == 'n' {
        Some(('\u{a}', 2))
    } else if s[1] == 'f' {
        Some(('\u{c}', 2))
    } else if s[1] == 'r' {
        Some(('\u{d}', 2))
    } else if s[1] == 'u' && s.len() >= 6 && encoding::is_hex_text(s.subrange(2, 6)) {
        let code = hex_code(s.subrange(2, 6));
        if 0xd800 <= code <= 0xdfff {
            None
        } else {
            Some((code as char, 6))
        }
    } else {
        None
    }
}

/// The text that the inside of a JSON string spells, up to the quotation mark that
/// ends it, and what stands after that mark. `None` where it is no JSON string.
pub open spec fn read_chars(s: Seq<char>) -> Option<(Seq<char>, Seq<char>)>
    decreases s.len(),
{
    if s.len() > 0 && s[0] == '"' {
        Some((seq![], s.skip(1)))
    } else {
        match read_char(s) {
            Some((c, n)) => match read_chars(s.skip(n)) {
                Some((rest, after)) => Some((seq![c] + rest, after)),
                None => None,
            },
            None => None,
        }
    }
}

/// The text that the JSON string at the start of `s` spells, and what stands after
/// it. `None` where no JSON string stands there. Escapes of surrogates are not read.
pub open spec fn read_string(s: Seq<char>) -> Option<(Seq<char>, Seq<char>)> {
    if s.len() > 0 && s[0] == '"' {
        read_chars(s.skip(1))
    } else {
        None
    }
}

/// A JSON string spells the text that it was made of, whatever stands after it.
pub proof fn law_json_string_reads_back(s: Seq<char>, after: Seq<char>)
    ensures
        read_string(json_string(s) + after) == Some((s, after)),
{
    let x = json_string(s) + after;
    assert(x.skip(1) =~= json_chars(s) + seq!['"'] + after);
    lemma_json_chars_read_back(s, after);
}

proof fn lemma_json_chars_read_back(s: Seq<char>, after: Seq<char>)
    ensures
        read_chars(json_chars(s) + seq!['"'] + after) == Some((s, after)),
    decreases s.len(),
{
    let x = json_chars(s) + seq!['"'] + after;
    if s.len() == 0 {
        assert(x.skip(1) =~= after);
        assert(s =~= seq![]);
    } else {
        let rest = json_chars(s.skip(1)) + seq!['"'] + after;
        let p = json_char(s[0]);
        assert(x =~= p + rest);
        lemma_json_char_reads_back(s[0], rest);
        assert(x.skip(p.len() as int) =~= rest);
        lemma_json_chars_read_back(s.skip(1), after);
        assert(s =~= seq![s[0]] + s.skip(1));
        assert(x[0] == p[0]);
    }
}

proof fn lemma_json_char_reads_back(c: char, after: Seq<char>)
    ensures
        read_char(json_char(c) + after) == Some((c, json_char(c).len() as int)),
        json_char(c)[0] != '"',
{
    let p = json_char(c);
    let x = p + after;
    assert(x[0] == p[0]);
    assert(p.len() > 1 ==> x[1] == p[1]);
    if p.len() == 6 {
        let hex = x.subrange(2, 6);
        assert(hex =~= p.subrange(2, 6));
        lemma_lower_hex_digit(c as int / 16);
        lemma_lower_hex_digit(c as int % 16);
        assert(hex[0] == '0' && hex[1] == '0');
        assert(hex[2] == encoding::lower_hex_digit(c as int / 16));
        assert(hex[3] == encoding::lower_hex_digit(c as int % 16));
        assert(encoding::is_hex_text(hex));
        assert(hex_code(hex) == c as int);
    }
}

proof fn lemma_lower_hex_digit(d: int)
    requires
        0 <= d < 16,
    ensures
        encoding::is_hex_digit(encoding::lower_hex_digit(d)),
        encoding::hex_value(encoding::lower_hex_digit(d)) == d,
{
    assert(d < 10 ==> encoding::lower_hex_digit(d) as int == '0' as int + d);
    assert(d >= 10 ==> encoding::lower_hex_digit(d) as int == 'a' as int + d - 10);
}

} // verus!
