//! The cache of what is known of peers: name, description and picture, kept
//! by public key. It belongs to no identity and outlives sign-out.

use vstd::prelude::*;

verus! {

/// What is cached of one peer.
#[derive(Debug, PartialEq, Eq)]
pub struct ProfileCache {
    /// The full metadata as it was published; loaded only for editing.
    pub metadata_json: Option<String>,
    pub name: Option<String>,
    pub about: Option<String>,
    pub picture_url: Option<String>,
    /// When the event that the metadata came from was created.
    pub event_created_at: i64,
    /// When the metadata was last looked for; limits how often it is fetched.
    pub last_checked_at: i64,
}

/// View of a [`ProfileCache`].
pub struct ProfileCacheView {
    pub metadata_json: Option<Seq<char>>,
    pub name: Option<Seq<char>>,
    pub about: Option<Seq<char>>,
    pub picture_url: Option<Seq<char>>,
    pub event_created_at: i64,
    pub last_checked_at: i64,
}

impl DeepView for ProfileCache {
    type V = ProfileCacheView;

    open spec fn deep_view(&self) -> ProfileCacheView {
        ProfileCacheView {
            metadata_json: self.metadata_json.deep_view(),
            name: self.name.deep_view(),
            about: self.about.deep_view(),
            picture_url: self.picture_url.deep_view(),
            event_created_at: self.event_created_at,
            last_checked_at: self.last_checked_at,
        }
    }
}

impl View for ProfileCache {
    type V = ProfileCacheView;

    open spec fn view(&self) -> ProfileCacheView {
        self.deep_view()
    }
}

impl Clone for ProfileCache {
    fn clone(&self) -> (r: Self)
        ensures
            r == *self,
    {
        ProfileCache {
            metadata_json: self.metadata_json.clone(),
            name: self.name.clone(),
            about: self.about.clone(),
            picture_url: self.picture_url.clone(),
            event_created_at: self.event_created_at,
            last_checked_at: self.last_checked_at,
        }
    }
}

/// One row of the stored cache, as it is read at start.
#[derive(Debug, PartialEq, Eq)]
pub struct ProfileRow {
    pub pubkey: String,
    pub name: Option<String>,
    pub about: Option<String>,
    pub picture_url: Option<String>,
    pub event_created_at: i64,
}

/// View of a [`ProfileRow`].
pub struct ProfileRowView {
    pub pubkey: Seq<char>,
    pub name: Option<Seq<char>>,
    pub about: Option<Seq<char>>,
    pub picture_url: Option<Seq<char>>,
    pub event_created_at: i64,
}

impl DeepView for ProfileRow {
    type V = ProfileRowView;

    open spec fn deep_view(&self) -> ProfileRowView {
        ProfileRowView {
            pubkey: self.pubkey@,
            name: self.name.deep_view(),
            about: self.about.deep_view(),
            picture_url: self.picture_url.deep_view(),
            event_created_at: self.event_created_at,
        }
    }
}

impl View for ProfileRow {
    type V = ProfileRowView;

    open spec fn view(&self) -> ProfileRowView {
        self.deep_view()
    }
}

/// The entry that a stored row is loaded as: without the full metadata, and
/// as never looked for, so that it is looked for once after start.
pub open spec fn warmed(row: ProfileRowView) -> ProfileCacheView {
    ProfileCacheView {
        metadata_json: None,
        name: row.name,
        about: row.about,
        picture_url: row.picture_url,
        event_created_at: row.event_created_at,
        last_checked_at: 0,
    }
}

/// The cache that the stored rows are loaded as: each row under its public
/// key, a later row for the same key over an earlier one.
pub open spec fn profiles_of(rows: Seq<ProfileRowView>) -> Map<Seq<char>, ProfileCacheView>
    decreases rows.len(),
{
    if rows.len() == 0 {
        Map::empty()
    } else {
        profiles_of(rows.drop_last()).insert(rows.last().pubkey, warmed(rows.last()))
    }
}

struct ProfileEntry {
    pubkey: String,
    cache: ProfileCache,
}

spec fn has_key(entries: Seq<ProfileEntry>, key: Seq<char>) -> bool {
    exists|i: int| 0 <= i < entries.len() && (#[trigger] entries[i]).pubkey@ == key
}

spec fn key_index(entries: Seq<ProfileEntry>, key: Seq<char>) -> int {
    choose|i: int| 0 <= i < entries.len() && (#[trigger] entries[i]).pubkey@ == key
}

spec fn keys_distinct(entries: Seq<ProfileEntry>) -> bool {
    forall|i: int, j: int|
        0 <= i < j < entries.len() ==> (#[trigger] entries[i]).pubkey@ != (#[trigger] entries[j]).pubkey@
}

spec fn entries_map(entries: Seq<ProfileEntry>) -> Map<Seq<char>, ProfileCacheView> {
    Map::new(|k: Seq<char>| has_key(entries, k), |k: Seq<char>| entries[key_index(entries, k)].cache@)
}

proof fn lemma_key_index_is(entries: Seq<ProfileEntry>, key: Seq<char>, i: int)
    requires
        keys_distinct(entries),
        0 <= i < entries.len(),
        entries[i].pubkey@ == key,
    ensures
        has_key(entries, key),
        key_index(entries, key) == i,
{
    let k = key_index(entries, key);
    assert(0 <= k < entries.len() && entries[k].pubkey@ == key);
    if k < i {
        assert(entries[k].pubkey@ != entries[i].pubkey@);
    } else if i < k {
        assert(entries[i].pubkey@ != entries[k].pubkey@);
    }
}

/// The cache in memory: at most one entry for each public key.
pub struct ProfileMap {
    entries: Vec<ProfileEntry>,
}

impl View for ProfileMap {
    type V = Map<Seq<char>, ProfileCacheView>;

    closed spec fn view(&self) -> Map<Seq<char>, ProfileCacheView> {
        entries_map(self.entries@)
    }
}

impl ProfileMap {
    #[verifier::type_invariant]
    spec fn distinct(self) -> bool {
        keys_distinct(self.entries@)
    }

    /// The empty cache.
    pub fn new() -> (m: Self)
        ensures
            m@ == Map::<Seq<char>, ProfileCacheView>::empty(),
    {
        let m = ProfileMap { entries: Vec::new() };
        assert(m@ =~= Map::empty());
        m
    }

    fn find(&self, pubkey: &String) -> (r: Option<usize>)
        ensures
            r is Some <==> has_key(self.entries@, pubkey@),
            r matches Some(i) ==> i < self.entries.len() && i == key_index(self.entries@, pubkey@),
    {
        proof {
            use_type_invariant(self);
        }
        let mut i: usize = 0;
        while i < self.entries.len()
            invariant
                i <= self.entries.len(),
                keys_distinct(self.entries@),
                forall|j: int| 0 <= j < i ==> (#[trigger] self.entries@[j]).pubkey@ != pubkey@,
            decreases self.entries.len() - i,
        {
            if self.entries[i].pubkey == *pubkey {
                proof {
                    lemma_key_index_is(self.entries@, pubkey@, i as int);
                }
                return Some(i);
            }
            i += 1;
        }
        None
    }

    /// How many peers are cached.
    pub fn len(&self) -> (n: usize)
        ensures
            n == self@.dom().len(),
            self@.dom().finite(),
    {
        proof {
            use_type_invariant(self);
            lemma_dom_len(self.entries@);
        }
        self.entries.len()
    }

    /// What is cached of a peer.
    pub fn get(&self, pubkey: &String) -> (r: Option<ProfileCache>)
        ensures
            r.deep_view() == if self@.contains_key(pubkey@) {
                Some(self@[pubkey@])
            } else {
                None
            },
    {
        match self.find(pubkey) {
            Some(i) => Some(self.entries[i].cache.clone()),
            None => None,
        }
    }

    /// Writes the entry of a peer, over the one that is there if any.
    pub fn insert(&mut self, pubkey: String, cache: ProfileCache)
        ensures
            final(self)@ == old(self)@.insert(pubkey@, cache@),
    {
        proof {
            use_type_invariant(&*self);
        }
        let ghost before = self.entries@;
        let ghost key = pubkey@;
        let ghost value = cache@;
        match self.find(&pubkey) {
            Some(i) => {
                let mut entries = Vec::new();
                std::mem::swap(&mut entries, &mut self.entries);
                entries[i].cache = cache;
                let ghost after = entries@;
                proof {
                    assert(after.len() == before.len());
                    assert forall|j: int| 0 <= j < after.len() implies (#[trigger] after[j]).pubkey@
                        == before[j].pubkey@ by {}
                    assert(keys_distinct(after)) by {
                        assert forall|a: int, b: int| 0 <= a < b < after.len() implies (
                        #[trigger] after[a]).pubkey@ != (#[trigger] after[b]).pubkey@ by {
                            assert(before[a].pubkey@ != before[b].pubkey@);
                        }
                    }
                    lemma_key_index_is(after, key, i as int);
                    assert forall|k: Seq<char>| has_key(after, k) == has_key(before, k) by {
                        if has_key(before, k) {
                            let j = key_index(before, k);
                            assert(after[j].pubkey@ == k);
                        }
                        if has_key(after, k) {
                            let j = key_index(after, k);
                            assert(before[j].pubkey@ == k);
                        }
                    }
                    assert forall|k: Seq<char>| has_key(after, k) && k != key implies entries_map(
                        after,
                    )[k] == entries_map(before)[k] by {
                        let j = key_index(before, k);
                        assert(after[j].pubkey@ == k);
                        lemma_key_index_is(after, k, j);
                    }
                    assert(entries_map(after) =~= entries_map(before).insert(key, value));
                }
                self.entries = entries;
            },
            None => {
                let mut entries = Vec::new();
                std::mem::swap(&mut entries, &mut self.entries);
                entries.push(ProfileEntry { pubkey, cache });
                let ghost after = entries@;
                proof {
                    assert(keys_distinct(after)) by {
                        assert forall|a: int, b: int| 0 <= a < b < after.len() implies (
                        #[trigger] after[a]).pubkey@ != (#[trigger] after[b]).pubkey@ by {
                            if b < before.len() {
                                assert(before[a].pubkey@ != before[b].pubkey@);
                            } else {
                                assert(after[a] == before[a]);
                            }
                        }
                    }
                    lemma_key_index_is(after, key, before.len() as int);
                    assert forall|k: Seq<char>| has_key(after, k) == (k == key || has_key(
                        before,
                        k,
                    )) by {
                        if has_key(before, k) {
                            let j = key_index(before, k);
                            assert(after[j].pubkey@ == k);
                        }
                        if has_key(after, k) {
                            let j = key_index(after, k);
                            if j < before.len() {
                                assert(before[j].pubkey@ == k);
                            }
                        }
                    }
                    assert forall|k: Seq<char>| has_key(before, k) implies entries_map(after)[k]
                        == entries_map(before)[k] by {
                        let j = key_index(before, k);
                        assert(after[j].pubkey@ == k);
                        lemma_key_index_is(after, k, j);
                    }
                    assert(entries_map(after) =~= entries_map(before).insert(key, value));
                }
                self.entries = entries;
            },
        }
    }

    /// Forgets every peer.
    pub fn clear(&mut self)
        ensures
            final(self)@ == Map::<Seq<char>, ProfileCacheView>::empty(),
    {
        self.entries = Vec::new();
        assert(self@ =~= Map::empty());
    }
}

proof fn lemma_dom_len(entries: Seq<ProfileEntry>)
    requires
        keys_distinct(entries),
    ensures
        entries_map(entries).dom().finite(),
        entries_map(entries).dom().len() == entries.len(),
    decreases entries.len(),
{
    if entries.len() == 0 {
        assert(entries_map(entries).dom() =~= Set::empty());
    } else {
        let prefix = entries.drop_last();
        let last = entries.last();
        assert(keys_distinct(prefix)) by {
            assert forall|a: int, b: int| 0 <= a < b < prefix.len() implies (
            #[trigger] prefix[a]).pubkey@ != (#[trigger] prefix[b]).pubkey@ by {
                assert(entries[a].pubkey@ != entries[b].pubkey@);
            }
        }
        lemma_dom_len(prefix);
        assert(!has_key(prefix, last.pubkey@)) by {
            if has_key(prefix, last.pubkey@) {
                let j = key_index(prefix, last.pubkey@);
                assert(entries[j].pubkey@ != entries[entries.len() - 1].pubkey@);
            }
        }
        assert(entries_map(entries).dom() =~= entries_map(prefix).dom().insert(last.pubkey@)) by {
            assert forall|k: Seq<char>| has_key(entries, k) == (k == last.pubkey@ || has_key(
                prefix,
                k,
            )) by {
                if has_key(prefix, k) {
                    let j = key_index(prefix, k);
                    assert(entries[j].pubkey@ == k);
                }
                if has_key(entries, k) {
                    let j = key_index(entries, k);
                    if j < prefix.len() {
                        assert(prefix[j].pubkey@ == k);
                    }
                }
                if k == last.pubkey@ {
                    assert(entries[entries.len() - 1].pubkey@ == k);
                }
            }
        }
    }
}

/// Loads the cache from its stored rows: see [`profiles_of`]. Every entry
/// comes without the full metadata and as never looked for.
pub fn load_profiles(rows: Vec<ProfileRow>) -> (m: ProfileMap)
    ensures
        m@ == profiles_of(rows.deep_view()),
{
    let mut map = ProfileMap::new();
    let mut i: usize = 0;
    proof {
        assert(rows.deep_view().subrange(0, 0) =~= Seq::empty());
    }
    while i < rows.len()
        invariant
            i <= rows.len(),
            map@ == profiles_of(rows.deep_view().subrange(0, i as int)),
        decreases rows.len() - i,
    {
        let row = &rows[i];
        proof {
            let upto = rows.deep_view().subrange(0, i + 1);
            assert(upto.drop_last() =~= rows.deep_view().subrange(0, i as int));
            assert(upto.last() == row@);
        }
        map.insert(
            row.pubkey.clone(),
            ProfileCache {
                metadata_json: None,
                name: row.name.clone(),
                about: row.about.clone(),
                picture_url: row.picture_url.clone(),
                event_created_at: row.event_created_at,
                last_checked_at: 0,
            },
        );
        i += 1;
    }
    assert(rows.deep_view().subrange(0, rows.len() as int) =~= rows.deep_view());
    map
}

} // verus!
