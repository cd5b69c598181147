//! Laws of the scope logic.

use vstd::prelude::*;

#[allow(unused_imports)]
use crate::letter_case;
#[allow(unused_imports)]
use crate::scopes;
#[allow(unused_imports)]
use crate::text;

verus! {

/// Whether `p` is the index of the first `x` of a list.
pub open spec fn first_at(list: Seq<Seq<char>>, x: Seq<char>, p: int) -> bool {
    &&& 0 <= p < list.len()
    &&& list[p] == x
    &&& forall|q: int| 0 <= q < p ==> list[q] != x
}

/// A run of characters without white space.
pub open spec fn is_word(w: Seq<char>) -> bool {
    &&& w.len() > 0
    &&& forall|i: int| 0 <= i < w.len() ==> !text::is_white(#[trigger] w[i])
}

/// Texts with a space between them.
pub open spec fn spaced(list: Seq<Seq<char>>) -> Seq<char>
    decreases list.len(),
{
    if list.len() == 0 {
        seq![]
    } else if list.len() == 1 {
        list[0]
    } else {
        list[0] + seq![' '] + spaced(list.skip(1))
    }
}

proof fn lemma_kept(list: Seq<Seq<char>>)
    ensures
        forall|i: int|
            0 <= i < scopes::kept(list).len() ==> !scopes::is_standard_scope(
                #[trigger] scopes::kept(list)[i],
            ) && list.contains(scopes::kept(list)[i]),
        scopes::kept(list).no_duplicates(),
        forall|p: int|
            0 <= p < list.len() && !scopes::is_standard_scope(#[trigger] list[p])
                ==> scopes::kept(list).contains(list[p]),
    decreases list.len(),
{
    if list.len() > 0 {
        let earlier = list.drop_last();
        let k = scopes::kept(earlier);
        let r = scopes::kept(list);
        lemma_kept(earlier);
        assert forall|i: int| 0 <= i < r.len() implies !scopes::is_standard_scope(#[trigger] r[i])
            && list.contains(r[i]) by {
            if i < k.len() {
                assert(r[i] == k[i]);
                let p = choose|p: int| 0 <= p < earlier.len() && earlier[p] == k[i];
                assert(list[p] == r[i]);
            } else {
                assert(list[list.len() - 1] == r[i]);
            }
        }
        assert forall|p: int|
            0 <= p < list.len() && !scopes::is_standard_scope(#[trigger] list[p]) implies r.contains(
            list[p],
        ) by {
            if p < earlier.len() {
                assert(earlier[p] == list[p]);
                let i = choose|i: int| 0 <= i < k.len() && k[i] == list[p];
                assert(r[i] == list[p]);
            } else if !k.contains(list[p]) {
                assert(r[k.len() as int] == list[p]);
            }
        }
        if r.len() > k.len() {
            assert(r == k.push(list.last()));
            assert forall|i: int, j: int| 0 <= i < r.len() && 0 <= j < r.len() && i != j implies r[i]
                != r[j] by {
                if i < k.len() && j < k.len() {
                    assert(k[i] != k[j]);
                } else if i < k.len() {
                    assert(k.contains(k[i]));
                } else {
                    assert(k.contains(k[j]));
                }
            }
        }
    }
}

proof fn lemma_kept_order(list: Seq<Seq<char>>, i: int, j: int, p: int, q: int)
    requires
        0 <= i < j < scopes::kept(list).len(),
        first_at(list, scopes::kept(list)[i], p),
        first_at(list, scopes::kept(list)[j], q),
    ensures
        p < q,
    decreases list.len(),
{
    let earlier = list.drop_last();
    let k = scopes::kept(earlier);
    let r = scopes::kept(list);
    lemma_kept(earlier);
    assert(r[i] == k[i]);
    assert(earlier.contains(k[i]));
    let x = choose|x: int| 0 <= x < earlier.len() && earlier[x] == k[i];
    assert(list[x] == r[i]);
    assert(p < earlier.len());
    assert(first_at(earlier, k[i], p));
    if j < k.len() {
        assert(r[j] == k[j]);
        assert(earlier.contains(k[j]));
        let y = choose|y: int| 0 <= y < earlier.len() && earlier[y] == k[j];
        assert(list[y] == r[j]);
        assert(first_at(earlier, k[j], q));
        lemma_kept_order(earlier, i, j, p, q);
    } else {
        assert(r[j] == list.last());
        if q < earlier.len() {
            assert(earlier[q] == list.last());
            assert(k.contains(earlier[q]));
        }
    }
}

/// Normalization keeps what is granted and nothing else: a scope is in the result
/// exactly if it is a word of the field and not an OIDC standard scope; no scope
/// is there twice; and the scopes stand in the order in which they first occur.
pub proof fn law_normalized_scopes(raw: Seq<char>, scope: Seq<char>)
    ensures
        scopes::normalized(raw).contains(scope) <==> text::words(raw).contains(scope)
            && !scopes::is_standard_scope(scope),
        scopes::normalized(raw).no_duplicates(),
        forall|i: int, j: int, p: int, q: int|
            0 <= i < j < scopes::normalized(raw).len() && #[trigger] first_at(
                text::words(raw),
                scopes::normalized(raw)[i],
                p,
            ) && #[trigger] first_at(text::words(raw), scopes::normalized(raw)[j], q) ==> p < q,
{
    let list = text::words(raw);
    let r = scopes::normalized(raw);
    lemma_kept(list);
    if list.contains(scope) && !scopes::is_standard_scope(scope) {
        let p = choose|p: int| 0 <= p < list.len() && list[p] == scope;
        assert(r.contains(list[p]));
    }
    if r.contains(scope) {
        let i = choose|i: int| 0 <= i < r.len() && r[i] == scope;
        assert(list.contains(r[i]));
    }
    assert forall|i: int, j: int, p: int, q: int|
        0 <= i < j < r.len() && #[trigger] first_at(list, r[i], p) && #[trigger] first_at(
            list,
            r[j],
            q,
        ) implies p < q by {
        lemma_kept_order(list, i, j, p, q);
    }
}

/// What splitting at white space gives holds no white space and nothing empty.
pub proof fn law_words_hold_no_white_space(s: Seq<char>)
    ensures
        forall|i: int| 0 <= i < text::words(s).len() ==> is_word(#[trigger] text::words(s)[i]),
    decreases s.len(),
{
    if s.len() > 0 {
        if text::is_white(s[0]) {
            law_words_hold_no_white_space(s.skip(1));
            assert(text::words(s) == text::words(s.skip(1)));
        } else {
            let n = text::word_len(s) as int;
            text::lemma_word_len_bound(s);
            lemma_word_prefix(s);
            law_words_hold_no_white_space(s.skip(n));
            let w = s.take(n);
            assert(is_word(w)) by {
                assert forall|i: int| 0 <= i < w.len() implies !text::is_white(#[trigger] w[i]) by {
                    assert(w[i] == s[i]);
                }
            }
            assert forall|i: int| 0 <= i < text::words(s).len() implies is_word(
                #[trigger] text::words(s)[i],
            ) by {
                assert(text::words(s) == seq![w] + text::words(s.skip(n)));
                if i > 0 {
                    assert(text::words(s)[i] == text::words(s.skip(n))[i - 1]);
                }
            }
        }
    }
}

proof fn lemma_word_prefix(s: Seq<char>)
    ensures
        text::word_len(s) <= s.len(),
        forall|i: int| 0 <= i < text::word_len(s) ==> !text::is_white(#[trigger] s[i]),
    decreases s.len(),
{
    if s.len() > 0 && !text::is_white(s[0]) {
        lemma_word_prefix(s.skip(1));
        assert forall|i: int| 0 <= i < text::word_len(s) implies !text::is_white(
            #[trigger] s[i],
        ) by {
            if i > 0 {
                assert(s[i] == s.skip(1)[i - 1]);
            }
        }
    }
}

/// Words with a space between them split into the same words.
pub proof fn law_words_of_spaced(list: Seq<Seq<char>>)
    requires
        forall|i: int| 0 <= i < list.len() ==> is_word(#[trigger] list[i]),
    ensures
        text::words(spaced(list)) == list,
    decreases list.len(),
{
    if list.len() == 0 {
        assert(text::words(spaced(list)) =~= list);
    } else {
        let s = spaced(list);
        let w = list[0];
        let n = w.len() as int;
        assert(is_word(w));
        assert forall|i: int| 0 <= i < n implies !text::is_white(s[i]) by {
            assert(s[i] == w[i]);
        }
        if list.len() > 1 {
            assert(s[n] == ' ');
        }
        text::lemma_word_len(s, n);
        assert(s.take(n) =~= w);
        assert(!text::is_white(s[0]));
        assert(text::words(s) == seq![w] + text::words(s.skip(n)));
        if list.len() == 1 {
            assert(s.skip(n).len() == 0);
            assert(text::words(s.skip(n)) =~= seq![]);
            assert(text::words(s) =~= list);
        } else {
            let rest = list.skip(1);
            assert forall|i: int| 0 <= i < rest.len() implies is_word(#[trigger] rest[i]) by {
                assert(rest[i] == list[i + 1]);
            }
            law_words_of_spaced(rest);
            assert(s.skip(n)[0] == ' ');
            assert(s.skip(n).skip(1) =~= spaced(rest));
            assert(text::words(s.skip(n)) == rest);
            assert(seq![w] + rest =~= list);
        }
    }
}

proof fn lemma_kept_fixed(list: Seq<Seq<char>>)
    requires
        list.no_duplicates(),
        forall|i: int| 0 <= i < list.len() ==> !scopes::is_standard_scope(#[trigger] list[i]),
    ensures
        scopes::kept(list) == list,
    decreases list.len(),
{
    if list.len() > 0 {
        let earlier = list.drop_last();
        assert forall|i: int| 0 <= i < earlier.len() implies !scopes::is_standard_scope(
            #[trigger] earlier[i],
        ) by {
            assert(earlier[i] == list[i]);
        }
        lemma_kept_fixed(earlier);
        assert(!earlier.contains(list.last())) by {
            if earlier.contains(list.last()) {
                let i = choose|i: int| 0 <= i < earlier.len() && earlier[i] == list.last();
                assert(list[i] == list[list.len() - 1]);
            }
        }
        assert(!scopes::is_standard_scope(list[list.len() - 1]));
        assert(earlier.push(list.last()) =~= list);
    } else {
        assert(scopes::kept(list) =~= list);
    }
}

/// Normalizing normalized scopes, written with spaces between them, changes
/// nothing.
pub proof fn law_normalization_is_idempotent(raw: Seq<char>)
    ensures
        scopes::normalized(spaced(scopes::normalized(raw))) == scopes::normalized(raw),
{
    let r = scopes::normalized(raw);
    lemma_kept(text::words(raw));
    law_words_hold_no_white_space(raw);
    assert forall|i: int| 0 <= i < r.len() implies is_word(#[trigger] r[i]) by {
        let list = text::words(raw);
        assert(list.contains(r[i]));
        let p = choose|p: int| 0 <= p < list.len() && list[p] == r[i];
        assert(is_word(list[p]));
    }
    law_words_of_spaced(r);
    lemma_kept_fixed(r);
}

/// The feature areas are what the registry maps some type of resource to.
pub proof fn law_areas_are_registered(area: Seq<char>)
    ensures
        scopes::is_area(area) <==> exists|resource: Seq<char>|
            #[trigger] scopes::feature_of(resource) == Some(area),
{
    reveal_resource_literals();
    if scopes::is_area(area) {
        assert(scopes::feature_of("dashboard"@) == Some("dashboards"@));
        assert(scopes::feature_of("alert"@) == Some("alerts"@));
        assert(scopes::feature_of("stream"@) == Some("streams"@));
        assert(scopes::feature_of("search"@) == Some("search"@));
        assert(scopes::feature_of("pipeline"@) == Some("pipelines"@));
        assert(scopes::feature_of("function"@) == Some("functions"@));
        assert(scopes::feature_of("logs"@) == Some("ingestion"@));
        assert(scopes::feature_of("report"@) == Some("reports"@));
        assert(scopes::feature_of("user"@) == Some("iam"@));
        assert(scopes::feature_of("settings"@) == Some("settings"@));
    }
}

proof fn reveal_resource_literals()
    ensures
        scopes::feature_of("dashboard"@) == Some("dashboards"@),
        scopes::feature_of("alert"@) == Some("alerts"@),
        scopes::feature_of("stream"@) == Some("streams"@),
        scopes::feature_of("search"@) == Some("search"@),
        scopes::feature_of("pipeline"@) == Some("pipelines"@),
        scopes::feature_of("function"@) == Some("functions"@),
        scopes::feature_of("logs"@) == Some("ingestion"@),
        scopes::feature_of("report"@) == Some("reports"@),
        scopes::feature_of("user"@) == Some("iam"@),
        scopes::feature_of("settings"@) == Some("settings"@),
{
    reveal_strlit("dashboard");
    reveal_strlit("dfolder");
    reveal_strlit("alert");
    reveal_strlit("destinations");
    reveal_strlit("destination");
    reveal_strlit("templates");
    reveal_strlit("template");
    reveal_strlit("afolder");
    reveal_strlit("stream");
    reveal_strlit("search");
    reveal_strlit("query");
    reveal_strlit("pipeline");
    reveal_strlit("function");
    reveal_strlit("logs");
    reveal_strlit("metrics");
    reveal_strlit("traces");
    reveal_strlit("report");
    reveal_strlit("user");
    reveal_strlit("role");
    reveal_strlit("group");
    reveal_strlit("organization");
    reveal_strlit("org");
    reveal_strlit("settings");
    reveal_strlit("sysinfo");
    reveal_strlit("config");
    assert("dashboard"@[0] == 'd');
    assert("alert"@[0] == 'a');
    assert("afolder"@[1] == 'f');
    assert("stream"@[0] == 's' && "stream"@[1] == 't');
    assert("search"@[0] == 's' && "search"@[1] == 'e');
    assert("pipeline"@[0] == 'p');
    assert("function"@[0] == 'f');
    assert("logs"@[0] == 'l');
    assert("report"@[0] == 'r');
    assert("user"@[0] == 'u');
    assert("settings"@[0] == 's' && "settings"@[1] == 'e' && "settings"@[2] == 't');
    assert("search"@[2] == 'a');
    assert("stream"@.len() == 6);
    assert("dfolder"@[0] == 'd');
    assert("destinations"@[0] == 'd');
    assert("destination"@[0] == 'd');
    assert("templates"@[0] == 't');
    assert("template"@[0] == 't');
    assert("query"@[0] == 'q');
    assert("metrics"@[0] == 'm');
    assert("traces"@[0] == 't');
    assert("role"@[0] == 'r' && "role"@[1] == 'o');
    assert("report"@[1] == 'e');
    assert("group"@[0] == 'g');
    assert("organization"@[0] == 'o');
    assert("org"@[0] == 'o');
}

} // verus!
