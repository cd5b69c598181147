//! Upper and lower case, as the standard library maps them.

use vstd::prelude::*;

verus! {

/// The Unicode uppercase of a text: what `str::to_uppercase` returns.
pub uninterp spec fn uppercase(s: Seq<char>) -> Seq<char>;

/// The Unicode lowercase of a text: what `str::to_lowercase` returns.
pub uninterp spec fn lowercase(s: Seq<char>) -> Seq<char>;

/// The uppercase of an ASCII character.
pub open spec fn ascii_upper(c: char) -> char {
    if 'a' <= c <= 'z' {
        (c as u32 - 32) as char
    } else {
        c
    }
}

/// The lowercase of an ASCII character.
pub open spec fn ascii_lower(c: char) -> char {
    if 'A' <= c <= 'Z' {
        (c as u32 + 32) as char
    } else {
        c
    }
}

/// Whether every character is ASCII.
pub open spec fn is_ascii_text(s: Seq<char>) -> bool {
    forall|i: int| 0 <= i < s.len() ==> s[i] as u32 <= 0x7f
}

/// A text with each ASCII letter in upper case.
pub open spec fn ascii_uppercase(s: Seq<char>) -> Seq<char> {
    s.map_values(|c: char| ascii_upper(c))
}

/// A text with each ASCII letter in lower case.
pub open spec fn ascii_lowercase(s: Seq<char>) -> Seq<char> {
    s.map_values(|c: char| ascii_lower(c))
}

/// A text in upper case, whatever the case of its ASCII letters.
pub open spec fn folded_uppercase(s: Seq<char>) -> Seq<char> {
    uppercase(ascii_uppercase(s))
}

/// The standard library's `str::to_ascii_uppercase` turns each of `a` to `z` into its
/// capital and keeps every other character.
pub assume_specification[ str::to_ascii_uppercase ](s: &str) -> (r: String)
    ensures
        r@ == ascii_uppercase(s@),
;

/// The standard library's `str::to_uppercase` depends on its text alone. In an
/// ASCII text it turns each of `a` to `z` into its capital and keeps the rest.
pub assume_specification[ str::to_uppercase ](s: &str) -> (r: String)
    ensures
        r@ == uppercase(s@),
        is_ascii_text(s@) ==> r@ == ascii_uppercase(s@),
;

/// The standard library's `str::to_lowercase` depends on its text alone. In an
/// ASCII text it turns each of `A` to `Z` into its small letter and keeps the
/// rest.
pub assume_specification[ str::to_lowercase ](s: &str) -> (r: String)
    ensures
        r@ == lowercase(s@),
        is_ascii_text(s@) ==> r@ == ascii_lowercase(s@),
;

/// A text in upper case, whatever the case of its ASCII letters.
pub fn to_folded_uppercase(s: &str) -> (r: String)
    ensures
        r@ == folded_uppercase(s@),
        r@ == uppercase(ascii_uppercase(s@)),
        is_ascii_text(s@) ==> r@ == ascii_uppercase(s@),
{
    let folded = s.to_ascii_uppercase();
    proof {
        if is_ascii_text(s@) {
            assert(is_ascii_text(folded@));
            assert(ascii_uppercase(folded@) =~= folded@);
        }
    }
    folded.as_str().to_uppercase()
}

/// Texts that differ only in the case of ASCII letters are the same in upper case.
pub proof fn law_folded_uppercase_ignores_ascii_case(s: Seq<char>, t: Seq<char>)
    requires
        ascii_lowercase(s) == ascii_lowercase(t),
    ensures
        ascii_uppercase(s) == ascii_uppercase(t),
        folded_uppercase(s) == folded_uppercase(t),
{
    let x = ascii_lowercase(s);
    let y = ascii_lowercase(t);
    assert(x.len() == s.len() && y.len() == t.len());
    assert forall|i: int| 0 <= i < s.len() implies ascii_upper(s[i]) == ascii_upper(t[i]) by {
        assert(x[i] == ascii_lower(s[i]));
        assert(y[i] == ascii_lower(t[i]));
    }
    assert(ascii_uppercase(s) =~= ascii_uppercase(t));
}

/// Lower case is stable: the lower case of an ASCII text is an ASCII text that is
/// its own lower case.
pub proof fn law_ascii_lowercase_is_stable(s: Seq<char>)
    requires
        is_ascii_text(s),
    ensures
        is_ascii_text(ascii_lowercase(s)),
        ascii_lowercase(ascii_lowercase(s)) == ascii_lowercase(s),
{
    assert(ascii_lowercase(ascii_lowercase(s)) =~= ascii_lowercase(s));
}

/// The case of ASCII letters, character by character: a capital stands 32 places before
/// its small letter, and every other character is kept.
pub proof fn law_ascii_case(s: Seq<char>, i: int)
    requires
        0 <= i < s.len(),
    ensures
        ascii_uppercase(s).len() == s.len(),
        ascii_lowercase(s).len() == s.len(),
        'a' <= s[i] <= 'z' ==> ascii_uppercase(s)[i] as int == s[i] as int - 32
            && ascii_lowercase(s)[i] == s[i],
        'A' <= s[i] <= 'Z' ==> ascii_lowercase(s)[i] as int == s[i] as int + 32
            && ascii_uppercase(s)[i] == s[i],
        !('a' <= s[i] <= 'z') && !('A' <= s[i] <= 'Z') ==> ascii_uppercase(s)[i] == s[i]
            && ascii_lowercase(s)[i] == s[i],
        is_ascii_text(s) ==> s[i] as u32 <= 127,
        !is_ascii_text(s) ==> exists|j: int| 0 <= j < s.len() && #[trigger] s[j] as u32 > 127,
        folded_uppercase(s) == uppercase(ascii_uppercase(s)),
{
    if !is_ascii_text(s) {
        let j = choose|j: int| 0 <= j < s.len() && !(s[j] as u32 <= 0x7f);
        assert(s[j] as u32 > 127);
    }
}

} // verus!
