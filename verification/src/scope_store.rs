//! The scopes of each user: a cache that every request reads, backed by the
//! key-value store.

use vstd::hash_map::StringHashMap;
use vstd::prelude::*;
#[allow(unused_imports)]
use vstd::utf8::*;

use crate::json;
#[allow(unused_imports)]
use crate::letter_case;
use crate::scopes;
use crate::text;

verus! {

/// The cached scopes of the users, by email in lower case.
pub struct ScopeCache {
    pub entries: StringHashMap<Vec<String>>,
}

impl View for ScopeCache {
    type V = Map<Seq<char>, Seq<Seq<char>>>;

    open spec fn view(&self) -> Map<Seq<char>, Seq<Seq<char>>> {
        scopes::list_texts(self.entries@)
    }
}

/// The scopes that a cache holds for an email.
pub open spec fn cached_scopes(
    cache: Map<Seq<char>, Seq<Seq<char>>>,
    email: Seq<char>,
) -> Option<Seq<Seq<char>>> {
    if cache.contains_key(letter_case::lowercase(email)) {
        Some(cache[letter_case::lowercase(email)])
    } else {
        None
    }
}

/// The cache after the scopes of an email were put into it.
pub open spec fn with_scopes(
    cache: Map<Seq<char>, Seq<Seq<char>>>,
    email: Seq<char>,
    list: Seq<Seq<char>>,
) -> Map<Seq<char>, Seq<Seq<char>>> {
    cache.insert(letter_case::lowercase(email), list)
}

/// An entry of the key-value store: its key, and its payload where it could be
/// read.
pub struct KvEntry {
    pub key: String,
    pub payload: Option<Vec<u8>>,
}

/// The view of [`KvEntry`].
pub struct KvEntryView {
    pub key: Seq<char>,
    pub payload: Option<Seq<u8>>,
}

impl View for KvEntry {
    type V = KvEntryView;

    open spec fn view(&self) -> KvEntryView {
        KvEntryView {
            key: self.key@,
            payload: match self.payload {
                Some(bytes) => Some(bytes@),
                None => None,
            },
        }
    }
}

/// The views of entries.
pub open spec fn entry_views(entries: Seq<KvEntry>) -> Seq<KvEntryView> {
    entries.map_values(|entry: KvEntry| entry@)
}

/// The scopes that an entry of the store holds, where it is readable.
pub open spec fn entry_scopes(entry: KvEntryView) -> Option<Seq<Seq<char>>> {
    match entry.payload {
        Some(bytes) => json::parsed_list(bytes),
        None => None,
    }
}

/// The cache after an entry of the store was loaded: unreadable entries are
/// skipped.
pub open spec fn after_entry(
    cache: Map<Seq<char>, Seq<Seq<char>>>,
    entry: KvEntryView,
) -> Map<Seq<char>, Seq<Seq<char>>> {
    match entry_scopes(entry) {
        Some(list) => with_scopes(cache, entry.key, list),
        None => cache,
    }
}

/// The cache after entries of the store were loaded one after the other.
pub open spec fn after_entries(
    cache: Map<Seq<char>, Seq<Seq<char>>>,
    entries: Seq<KvEntryView>,
) -> Map<Seq<char>, Seq<Seq<char>>>
    decreases entries.len(),
{
    if entries.len() == 0 {
        cache
    } else {
        after_entry(after_entries(cache, entries.drop_last()), entries.last())
    }
}

/// The table of the scopes of users.
pub fn kv_scopes_table() -> (r: &'static str)
    ensures
        r@ == "logto_scopes"@,
{
    "logto_scopes"
}

/// An empty cache.
pub fn new_cache() -> (r: ScopeCache)
    ensures
        r@ == Map::<Seq<char>, Seq<Seq<char>>>::empty(),
{
    let cache = ScopeCache { entries: StringHashMap::new() };
    assert(cache@ =~= Map::empty());
    cache
}

/// The scopes of a user. `None` where the cache knows none, in which case the
/// caller denies the request.
pub fn cache_get(cache: &ScopeCache, email: &str) -> (r: Option<Vec<String>>)
    ensures
        match r {
            Some(list) => cached_scopes(cache@, email@) == Some(text::texts(list@)),
            None => cached_scopes(cache@, email@) is None,
        },
        r is Some <==> cache@.contains_key(letter_case::lowercase(email@)),
        r matches Some(list) ==> text::texts(list@) == cache@[letter_case::lowercase(email@)],
        letter_case::is_ascii_text(email@) ==> (r is Some <==> cache@.contains_key(
            letter_case::ascii_lowercase(email@),
        )),
        letter_case::is_ascii_text(email@) ==> (r matches Some(list) ==> text::texts(list@)
            == cache@[letter_case::ascii_lowercase(email@)]),
{
    match cache.entries.get(email.to_lowercase().as_str()) {
        Some(list) => Some(scopes::copy_texts(list)),
        None => None,
    }
}

/// Puts the scopes of a user into the cache, in place of those it held.
pub fn cache_put(cache: &mut ScopeCache, email: &str, list: Vec<String>)
    ensures
        final(cache)@ == with_scopes(old(cache)@, email@, text::texts(list@)),
        final(cache)@ == old(cache)@.insert(letter_case::lowercase(email@), text::texts(list@)),
        letter_case::is_ascii_text(email@) ==> final(cache)@ == old(cache)@.insert(
            letter_case::ascii_lowercase(email@),
            text::texts(list@),
        ),
{
    let ghost before = cache.entries@;
    let key = email.to_lowercase();
    let ghost k = key@;
    cache.entries.insert(key, list);
    assert(scopes::list_texts(before.insert(k, list)) =~= scopes::list_texts(before).insert(
        k,
        text::texts(list@),
    ));
}

/// The entry of the key-value store that keeps the scopes of a user.
pub fn scopes_entry(email: &str, list: &Vec<String>) -> (r: KvEntry)
    ensures
        r@.key == letter_case::lowercase(email@),
        letter_case::is_ascii_text(email@) ==> r@.key == letter_case::ascii_lowercase(email@),
        r@.payload == Some(encode_utf8(json::json_array(text::texts(list@)))),
        entry_scopes(r@) == Some(text::texts(list@)),
        r.key@ == letter_case::lowercase(email@),
        r.payload matches Some(bytes) && json::parsed_list(bytes@) == Some(text::texts(list@)),
{
    let payload = json::write_list(list);
    KvEntry { key: email.to_lowercase(), payload }
}

/// Ends the storing of the scopes of a user: puts them into the cache where the
/// key-value store took their entry, and leaves the cache as it is where it did
/// not. The result tells whether they were stored.
pub fn store_scopes(cache: &mut ScopeCache, email: &str, list: Vec<String>, written: bool) -> (r:
    bool)
    ensures
        r == written,
        final(cache)@ == if written {
            with_scopes(old(cache)@, email@, text::texts(list@))
        } else {
            old(cache)@
        },
        written ==> final(cache)@ == old(cache)@.insert(
            letter_case::lowercase(email@),
            text::texts(list@),
        ),
        !written ==> final(cache)@ == old(cache)@,
{
    if written {
        cache_put(cache, email, list);
    }
    written
}

/// Loads entries of the key-value store into the cache, in order. Entries that
/// could not be read, or that hold no list of strings, are skipped.
pub fn load_cache_from_kv(cache: &mut ScopeCache, entries: &Vec<KvEntry>)
    ensures
        final(cache)@ == after_entries(old(cache)@, entry_views(entries@)),
{
    let ghost start = cache@;
    let ghost all = entry_views(entries@);
    let mut i: usize = 0;
    assert(all.take(0) =~= seq![]);
    while i < entries.len()
        invariant
            i <= entries.len(),
            all == entry_views(entries@),
            cache@ == after_entries(start, all.take(i as int)),
        decreases entries.len() - i,
    {
        let entry = &entries[i];
        proof {
            assert(all[i as int] == entry@);
            assert(all.take(i + 1).drop_last() =~= all.take(i as int));
            assert(all.take(i + 1).last() == entry@);
        }
        match &entry.payload {
            Some(bytes) => match json::read_list(bytes.as_slice()) {
                Some(list) => cache_put(cache, entry.key.as_str(), list),
                None => {},
            },
            None => {},
        }
        i += 1;
    }
    assert(all.take(i as int) =~= all);
}

/// Scopes that were put into the cache are found again, whatever the case of the
/// letters of the email, and those of other users stay as they were.
pub proof fn law_cache_finds_what_was_put(
    cache: Map<Seq<char>, Seq<Seq<char>>>,
    email: Seq<char>,
    list: Seq<Seq<char>>,
    asked: Seq<char>,
)
    ensures
        letter_case::lowercase(asked) == letter_case::lowercase(email) ==> cached_scopes(
            with_scopes(cache, email, list),
            asked,
        ) == Some(list),
        letter_case::lowercase(asked) != letter_case::lowercase(email) ==> cached_scopes(
            with_scopes(cache, email, list),
            asked,
        ) == cached_scopes(cache, asked),
{
}

/// A restart does not take a user's scopes away. `entry` is the one that was kept
/// for the user; after the store was loaded into an empty cache, in any order, the
/// user has the scopes of the entry again.
///
/// The store holds the entry under the lower case of the email, and loading puts
/// that key into lower case once more, so the law asks that this changes nothing,
/// as it is for every email in ASCII (see
/// [`letter_case::law_ascii_lowercase_is_stable`]). Of the other entries of the
/// table it asks that they are other users' entries.
pub proof fn law_restart_keeps_scopes(
    entries: Seq<KvEntryView>,
    i: int,
    email: Seq<char>,
    list: Seq<Seq<char>>,
)
    requires
        0 <= i < entries.len(),
        entries[i].key == letter_case::lowercase(email),
        entry_scopes(entries[i]) == Some(list),
        letter_case::lowercase(entries[i].key) == entries[i].key,
        forall|j: int|
            0 <= j < entries.len() && j != i ==> letter_case::lowercase(
                #[trigger] entries[j].key,
            ) != entries[i].key,
    ensures
        cached_scopes(after_entries(Map::empty(), entries), email) == Some(list),
    decreases entries.len(),
{
    lemma_load_keeps_entry(Map::empty(), entries, i, list);
}

proof fn lemma_load_keeps_entry(
    cache: Map<Seq<char>, Seq<Seq<char>>>,
    entries: Seq<KvEntryView>,
    i: int,
    list: Seq<Seq<char>>,
)
    requires
        0 <= i < entries.len(),
        entry_scopes(entries[i]) == Some(list),
        letter_case::lowercase(entries[i].key) == entries[i].key,
        forall|j: int|
            0 <= j < entries.len() && j != i ==> letter_case::lowercase(
                #[trigger] entries[j].key,
            ) != entries[i].key,
    ensures
        after_entries(cache, entries).contains_key(entries[i].key),
        after_entries(cache, entries)[entries[i].key] == list,
    decreases entries.len(),
{
    let last = entries.len() - 1;
    if i < last {
        let earlier = entries.drop_last();
        assert(earlier[i] == entries[i]);
        assert forall|j: int| 0 <= j < earlier.len() && j != i implies letter_case::lowercase(
            #[trigger] earlier[j].key,
        ) != earlier[i].key by {
            assert(earlier[j] == entries[j]);
        }
        lemma_load_keeps_entry(cache, earlier, i, list);
        assert(letter_case::lowercase(entries[last].key) != entries[i].key);
    }
}

/// A user without an entry in the store has no scopes after a restart, so that
/// requests on mapped features are denied.
pub proof fn law_restart_grants_nothing(entries: Seq<KvEntryView>, email: Seq<char>)
    requires
        forall|j: int|
            0 <= j < entries.len() ==> letter_case::lowercase(#[trigger] entries[j].key)
                != letter_case::lowercase(email),
    ensures
        cached_scopes(after_entries(Map::empty(), entries), email) is None,
    decreases entries.len(),
{
    if entries.len() > 0 {
        let earlier = entries.drop_last();
        assert forall|j: int| 0 <= j < earlier.len() implies letter_case::lowercase(
            #[trigger] earlier[j].key,
        ) != letter_case::lowercase(email) by {
            assert(earlier[j] == entries[j]);
        }
        law_restart_grants_nothing(earlier, email);
        assert(letter_case::lowercase(entries[entries.len() - 1].key) != letter_case::lowercase(
            email,
        ));
    }
}

/// After entries were loaded, a user has the scopes of the last readable entry for the
/// email, and where there is none, those that the cache held before.
pub proof fn law_last_readable_entry_counts(
    cache: Map<Seq<char>, Seq<Seq<char>>>,
    entries: Seq<KvEntryView>,
    i: int,
    email: Seq<char>,
    list: Seq<Seq<char>>,
)
    ensures
        0 <= i < entries.len() && letter_case::lowercase(entries[i].key) == letter_case::lowercase(
            email,
        ) && entries[i].payload is Some && json::parsed_list(entries[i].payload->0) == Some(list)
            && (forall|j: int|
            #![trigger entries[j]]
            i < j < entries.len() ==> letter_case::lowercase(entries[j].key)
                != letter_case::lowercase(email) || entries[j].payload is None || json::parsed_list(
                entries[j].payload->0,
            ) is None) ==> after_entries(cache, entries).contains_key(letter_case::lowercase(email))
            && after_entries(cache, entries)[letter_case::lowercase(email)] == list,
        (forall|j: int|
            #![trigger entries[j]]
            0 <= j < entries.len() ==> letter_case::lowercase(entries[j].key)
                != letter_case::lowercase(email) || entries[j].payload is None || json::parsed_list(
                entries[j].payload->0,
            ) is None) ==> after_entries(cache, entries).contains_key(letter_case::lowercase(email))
            == cache.contains_key(letter_case::lowercase(email)) && (cache.contains_key(
            letter_case::lowercase(email),
        ) ==> after_entries(cache, entries)[letter_case::lowercase(email)]
            == cache[letter_case::lowercase(email)]),
    decreases entries.len(),
{
    if entries.len() > 0 {
        let earlier = entries.drop_last();
        let last = entries.len() - 1;
        assert(forall|j: int| 0 <= j < last ==> #[trigger] earlier[j] == entries[j]);
        assert(entries.last() == entries[last]);
        law_last_readable_entry_counts(cache, earlier, i, email, list);
    }
}

/// Entries are taken as they are, and the cache holds the scopes of each key.
pub proof fn law_entries_and_cache(entries: Seq<KvEntry>, i: int, cache: ScopeCache)
    ensures
        entry_views(entries).len() == entries.len(),
        0 <= i < entries.len() ==> entry_views(entries)[i].key == entries[i].key@ && (
        entries[i].payload matches Some(bytes) ==> entry_views(entries)[i].payload == Some(bytes@))
            && (entries[i].payload is None ==> entry_views(entries)[i].payload is None),
        cache@ == scopes::list_texts(cache.entries@),
{
}

} // verus!
