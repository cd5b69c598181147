//! What holds of splitting and trimming texts.

use vstd::prelude::*;

#[allow(unused_imports)]
use crate::scopes;
#[allow(unused_imports)]
use crate::text;

verus! {

/// Splitting undoes joining: a text without the separator, the separator and any text
/// split into the two again.
pub proof fn law_split_undoes_join(a: Seq<char>, c: char, b: Seq<char>)
    requires
        !a.contains(c),
    ensures
        text::before(a + seq![c] + b, c) == a,
        text::after(a + seq![c] + b, c) == Some(b),
{
    let s = a + seq![c] + b;
    let i = a.len() as int;
    assert(text::is_first_index(s, c, i)) by {
        assert forall|j: int| 0 <= j < i implies s[j] != c by {
            assert(a.contains(a[j]));
        }
    }
    text::lemma_split_at_first(s, c, i);
    assert(s.take(i) =~= a);
    assert(s.skip(i + 1) =~= b);
}

/// A text without the separator stays whole.
pub proof fn law_no_split_without_separator(s: Seq<char>, c: char)
    requires
        !s.contains(c),
    ensures
        text::before(s, c) == s,
        text::after(s, c) is None,
{
    text::lemma_no_split(s, c);
}

/// Trimming takes away the white space around a text and nothing else.
pub proof fn law_trimming_undoes_padding(left: Seq<char>, core: Seq<char>, right: Seq<char>)
    requires
        forall|i: int| 0 <= i < left.len() ==> text::is_white(#[trigger] left[i]),
        forall|i: int| 0 <= i < right.len() ==> text::is_white(#[trigger] right[i]),
        core.len() > 0 ==> !text::is_white(core[0]) && !text::is_white(core.last()),
    ensures
        text::trimmed(left + core + right) == core,
{
    let s = left + core + right;
    if core.len() > 0 {
        lemma_trim_start(left, core + right);
        assert(s =~= left + (core + right));
        assert((core + right)[0] == core[0]);
        lemma_trim_end(core, right);
    } else {
        assert(s =~= left + right + Seq::<char>::empty());
        assert forall|i: int| 0 <= i < (left + right).len() implies text::is_white(
            #[trigger] (left + right)[i],
        ) by {
            if i >= left.len() {
                assert((left + right)[i] == right[i - left.len()]);
            }
        }
        lemma_trim_start(left + right, seq![]);
        assert(text::trimmed(s) =~= core);
    }
}

proof fn lemma_trim_start(left: Seq<char>, rest: Seq<char>)
    requires
        forall|i: int| 0 <= i < left.len() ==> text::is_white(#[trigger] left[i]),
    ensures
        text::trim_start(left + rest) == text::trim_start(rest),
    decreases left.len(),
{
    if left.len() > 0 {
        assert((left + rest)[0] == left[0]);
        assert((left + rest).skip(1) =~= left.skip(1) + rest);
        lemma_trim_start(left.skip(1), rest);
    } else {
        assert(left + rest =~= rest);
    }
}

proof fn lemma_trim_end(core: Seq<char>, right: Seq<char>)
    requires
        forall|i: int| 0 <= i < right.len() ==> text::is_white(#[trigger] right[i]),
        core.len() > 0,
        !text::is_white(core.last()),
    ensures
        text::trim_end(core + right) == core,
    decreases right.len(),
{
    if right.len() > 0 {
        assert((core + right).last() == right.last());
        assert((core + right).drop_last() =~= core + right.drop_last());
        lemma_trim_end(core, right.drop_last());
    } else {
        assert(core + right =~= core);
    }
}

/// Trimming a character off the end takes away its copies there and nothing else.
pub proof fn law_trim_end_undoes_repetition(core: Seq<char>, c: char, n: nat)
    requires
        core.len() > 0 ==> core.last() != c,
    ensures
        text::trim_end_char(core + Seq::new(n, |i: int| c), c) == core,
    decreases n,
{
    let s = core + Seq::new(n, |i: int| c);
    if n > 0 {
        assert(s.last() == c);
        assert(s.drop_last() =~= core + Seq::new((n - 1) as nat, |i: int| c));
        law_trim_end_undoes_repetition(core, c, (n - 1) as nat);
    } else {
        assert(s =~= core);
    }
}

/// Splitting at white space: nothing has no words, a run without white space is one
/// word, and white space parts the words before it from those after it.
pub proof fn law_words_of_parts(a: Seq<char>, c: char, b: Seq<char>)
    ensures
        text::words(seq![]) == Seq::<Seq<char>>::empty(),
        a.len() > 0 && (forall|i: int| 0 <= i < a.len() ==> !text::is_white(#[trigger] a[i]))
            ==> text::words(a) == seq![a],
        text::is_white(c) ==> text::words(a + seq![c] + b) == text::words(a) + text::words(b),
    decreases a.len(),
{
    if a.len() > 0 && (forall|i: int| 0 <= i < a.len() ==> !text::is_white(#[trigger] a[i])) {
        text::lemma_word_len(a, a.len() as int);
        assert(a.take(a.len() as int) =~= a);
        assert(text::words(a.skip(a.len() as int)) =~= seq![]);
        assert(text::words(a) =~= seq![a]);
    }
    let s = a + seq![c] + b;
    if text::is_white(c) {
        if a.len() == 0 {
            assert(s.skip(1) =~= b);
            assert(text::words(a) + text::words(b) =~= text::words(b));
        } else if text::is_white(a[0]) {
            assert(s[0] == a[0]);
            assert(s.skip(1) =~= a.skip(1) + seq![c] + b);
            law_words_of_parts(a.skip(1), c, b);
        } else {
            let n = text::word_len(a) as int;
            text::lemma_word_len_bound(a);
            lemma_word_prefix(a);
            assert(s[0] == a[0]);
            assert forall|j: int| 0 <= j < n implies !text::is_white(s[j]) by {
                assert(s[j] == a[j]);
            }
            assert(text::is_white(s[n])) by {
                if n < a.len() {
                    assert(s[n] == a[n]);
                }
            }
            text::lemma_word_len(s, n);
            assert(s.take(n) =~= a.take(n));
            assert(s.skip(n) =~= a.skip(n) + seq![c] + b);
            law_words_of_parts(a.skip(n), c, b);
            assert(text::words(s) =~= text::words(a) + text::words(b));
        }
    }
}

proof fn lemma_word_prefix(s: Seq<char>)
    ensures
        text::word_len(s) <= s.len(),
        forall|i: int| 0 <= i < text::word_len(s) ==> !text::is_white(#[trigger] s[i]),
        text::word_len(s) < s.len() ==> text::is_white(s[text::word_len(s) as int]),
    decreases s.len(),
{
    if s.len() > 0 && !text::is_white(s[0]) {
        lemma_word_prefix(s.skip(1));
        assert forall|i: int| 0 <= i < text::word_len(s) implies !text::is_white(
            #[trigger] s[i],
        ) by {
            if i > 0 {
                assert(s[i] == s.skip(1)[i - 1]);
            }
        }
    }
}

/// The texts of strings are those of each string, in place.
pub proof fn law_texts_are_those_of_the_strings(
    list: Seq<String>,
    i: int,
    s: String,
    t: &str,
    slice: &[String],
    map: Map<Seq<char>, Vec<String>>,
    key: Seq<char>,
)
    ensures
        text::texts(list).len() == list.len(),
        0 <= i < list.len() ==> text::texts(list)[i] == list[i]@,
        text::opt_text(Some(s)) == Some(s@),
        text::opt_text(None) is None,
        text::opt_str(Some(t)) == Some(t@),
        text::opt_str(None) is None,
        scopes::slice_texts(Some(slice)) == Some(text::texts(slice@)),
        scopes::slice_texts(None) is None,
        scopes::list_texts(map).contains_key(key) <==> map.contains_key(key),
        map.contains_key(key) ==> scopes::list_texts(map)[key] == text::texts(map[key]@),
{
}

/// The first index of a character is where it stands and nowhere before.
pub proof fn law_first_index(s: Seq<char>, c: char, i: int)
    ensures
        text::is_first_index(s, c, i) <==> 0 <= i < s.len() && s[i] == c && !s.take(i).contains(c),
{
    if text::is_first_index(s, c, i) && s.take(i).contains(c) {
        let j = choose|j: int| 0 <= j < i && s.take(i)[j] == c;
        assert(s[j] == c);
    }
    if 0 <= i < s.len() && !s.take(i).contains(c) {
        assert forall|j: int| 0 <= j < i implies s[j] != c by {
            assert(s.take(i)[j] == s[j]);
            assert(s.take(i).contains(s.take(i)[j]));
        }
    }
}

} // verus!
