//! Client and provider configuration: an optional API key, an optional base
//! URL, and a map of extra string settings.

use vstd::prelude::*;

verus! {

/// The map that a list of entries with distinct keys denotes.
pub open spec fn entries_map(s: Seq<(String, String)>) -> Map<Seq<char>, Seq<char>>
    decreases s.len(),
{
    if s.len() == 0 {
        Map::empty()
    } else {
        entries_map(s.drop_last()).insert(s.last().0@, s.last().1@)
    }
}

/// No two entries share a key.
pub open spec fn keys_distinct(s: Seq<(String, String)>) -> bool {
    forall|i: int, j: int| 0 <= i < j < s.len() ==> s[i].0@ != s[j].0@
}

/// A key is in the map exactly when some entry carries it, and it maps to
/// that entry's value.
proof fn lemma_entries_map(s: Seq<(String, String)>)
    requires
        keys_distinct(s),
    ensures
        forall|k: Seq<char>|
            entries_map(s).dom().contains(k) <==> exists|i: int|
                0 <= i < s.len() && #[trigger] s[i].0@ == k,
        forall|i: int| 0 <= i < s.len() ==> entries_map(s)[#[trigger] s[i].0@] == s[i].1@,
    decreases s.len(),
{
    if s.len() > 0 {
        let t = s.drop_last();
        lemma_entries_map(t);
        assert forall|k: Seq<char>|
            entries_map(s).dom().contains(k) <==> exists|i: int|
                0 <= i < s.len() && #[trigger] s[i].0@ == k by {
            if entries_map(t).dom().contains(k) {
                let i = choose|i: int| 0 <= i < t.len() && #[trigger] t[i].0@ == k;
                assert(s[i].0@ == k);
            }
            if exists|i: int| 0 <= i < s.len() && #[trigger] s[i].0@ == k {
                let i = choose|i: int| 0 <= i < s.len() && #[trigger] s[i].0@ == k;
                if i < s.len() - 1 {
                    assert(t[i].0@ == k);
                }
            }
        }
        assert forall|i: int| 0 <= i < s.len() implies entries_map(s)[#[trigger] s[i].0@]
            == s[i].1@ by {
            if i < s.len() - 1 {
                assert(t[i] == s[i]);
            }
        }
    }
}

/// Replacing the value of an entry whose key is `k` inserts `k` into the map.
proof fn lemma_entries_update(s: Seq<(String, String)>, i: int, e: (String, String))
    requires
        keys_distinct(s),
        0 <= i < s.len(),
        s[i].0@ == e.0@,
    ensures
        entries_map(s.update(i, e)) == entries_map(s).insert(e.0@, e.1@),
        keys_distinct(s.update(i, e)),
    decreases s.len(),
{
    let u = s.update(i, e);
    if i == s.len() - 1 {
        assert(u.drop_last() =~= s.drop_last());
        assert(entries_map(u) =~= entries_map(s).insert(e.0@, e.1@));
    } else {
        let t = s.drop_last();
        lemma_entries_update(t, i, e);
        assert(u.drop_last() =~= t.update(i, e));
        assert(s.last().0@ != e.0@);
        assert(entries_map(u) =~= entries_map(s).insert(e.0@, e.1@));
    }
}

/// Two lists whose entries have the same texts denote the same map.
proof fn lemma_entries_same(a: Seq<(String, String)>, b: Seq<(String, String)>)
    requires
        a.len() == b.len(),
        forall|j: int| 0 <= j < a.len() ==> #[trigger] a[j].0@ == b[j].0@ && a[j].1@ == b[j].1@,
    ensures
        entries_map(a) == entries_map(b),
        keys_distinct(a) == keys_distinct(b),
    decreases a.len(),
{
    if a.len() > 0 {
        lemma_entries_same(a.drop_last(), b.drop_last());
        assert(a.last().0@ == b.last().0@);
    }
    assert(keys_distinct(a) == keys_distinct(b)) by {
        if keys_distinct(b) {
            assert forall|i: int, j: int| 0 <= i < j < a.len() implies a[i].0@ != a[j].0@ by {
                assert(a[i].0@ == b[i].0@ && a[j].0@ == b[j].0@);
            }
        }
        if keys_distinct(a) {
            assert forall|i: int, j: int| 0 <= i < j < b.len() implies b[i].0@ != b[j].0@ by {
                assert(a[i].0@ == b[i].0@ && a[j].0@ == b[j].0@);
            }
        }
    }
}

impl Clone for Extras {
    fn clone(&self) -> (r: Self)
        ensures
            r.settings() == self.settings(),
    {
        self.copy()
    }
}

/// Extra configuration values: string keys, each present at most once.
#[derive(Debug)]
pub struct Extras {
    entries: Vec<(String, String)>,
}

impl Extras {
    #[verifier::type_invariant]
    spec fn distinct(self) -> bool {
        keys_distinct(self.entries@)
    }

    /// The settings as a map from key to value.
    pub closed spec fn settings(self) -> Map<Seq<char>, Seq<char>> {
        entries_map(self.entries@)
    }

    /// A copy holding the same settings.
    pub fn copy(&self) -> (r: Self)
        ensures
            r.settings() == self.settings(),
    {
        proof {
            use_type_invariant(self);
        }
        let mut entries: Vec<(String, String)> = Vec::new();
        let mut i: usize = 0;
        while i < self.entries.len()
            invariant
                i <= self.entries@.len(),
                entries@.len() == i,
                forall|j: int|
                    0 <= j < i ==> #[trigger] entries@[j].0@ == self.entries@[j].0@
                        && entries@[j].1@ == self.entries@[j].1@,
            decreases self.entries.len() - i,
        {
            entries.push((self.entries[i].0.clone(), self.entries[i].1.clone()));
            i = i + 1;
        }
        proof {
            lemma_entries_same(entries@, self.entries@);
        }
        Extras { entries }
    }

    /// No settings.
    pub fn new() -> (r: Self)
        ensures
            r.settings() == Map::<Seq<char>, Seq<char>>::empty(),
    {
        Extras { entries: Vec::new() }
    }

    /// The number of settings.
    pub fn len(&self) -> (n: usize)
        ensures
            self.settings().dom().finite(),
            n == self.settings().len(),
    {
        proof {
            use_type_invariant(self);
            lemma_entries_len(self.entries@);
        }
        self.entries.len()
    }

    /// The value stored under `key`.
    pub fn get(&self, key: &str) -> (r: Option<&String>)
        ensures
            r matches Some(v) ==> self.settings().dom().contains(key@) && self.settings()[key@] == v@,
            r is None ==> !self.settings().dom().contains(key@),
    {
        proof {
            use_type_invariant(self);
            lemma_entries_map(self.entries@);
        }
        let key_s = String::from_str(key);
        let mut i: usize = 0;
        while i < self.entries.len()
            invariant
                i <= self.entries@.len(),
                key_s@ == key@,
                keys_distinct(self.entries@),
                forall|j: int| 0 <= j < i ==> #[trigger] self.entries@[j].0@ != key@,
            decreases self.entries.len() - i,
        {
            if self.entries[i].0 == key_s {
                proof {
                    lemma_entries_map(self.entries@);
                }
                return Some(&self.entries[i].1);
            }
            i = i + 1;
        }
        proof {
            lemma_entries_map(self.entries@);
            if entries_map(self.entries@).dom().contains(key@) {
                let j = choose|j: int| 0 <= j < self.entries@.len() && #[trigger] self.entries@[j].0@ == key@;
                assert(self.entries@[j].0@ != key@);
            }
        }
        None
    }

    /// Set `key` to `value`, replacing any earlier value.
    pub fn insert(&mut self, key: String, value: String)
        ensures
            final(self).settings() == old(self).settings().insert(key@, value@),
            final(self).settings().dom().finite(),
            final(self).settings().len() == count_after_insert(old(self).settings(), key@),
    {
        proof {
            use_type_invariant(&*self);
            lemma_settings_finite(*self);
        }
        let ghost before = self.entries@;
        let mut i: usize = 0;
        while i < self.entries.len()
            invariant
                i <= self.entries@.len(),
                self.entries@ == before,
                old(self).entries@ == before,
                keys_distinct(before),
                entries_map(before).dom().finite(),
                forall|j: int| 0 <= j < i ==> #[trigger] before[j].0@ != key@,
            decreases self.entries.len() - i,
        {
            if self.entries[i].0 == key {
                proof {
                    lemma_entries_update(before, i as int, (key, value));
                }
                let mut entries: Vec<(String, String)> = Vec::new();
                std::mem::swap(&mut entries, &mut self.entries);
                entries.set(i, (key, value));
                self.entries = entries;
                return;
            }
            i = i + 1;
        }
        let mut entries: Vec<(String, String)> = Vec::new();
        std::mem::swap(&mut entries, &mut self.entries);
        entries.push((key, value));
        proof {
            assert(entries@.drop_last() =~= before);
            lemma_entries_map(before);
            assert forall|a: int, b: int| 0 <= a < b < entries@.len() implies entries@[a].0@
                != entries@[b].0@ by {
                if b == before.len() {
                    assert(before[a].0@ != key@);
                }
            }
        }
        self.entries = entries;
    }
}

/// A list of entries with distinct keys has as many entries as its map has keys.
proof fn lemma_entries_len(s: Seq<(String, String)>)
    requires
        keys_distinct(s),
    ensures
        entries_map(s).dom().finite(),
        entries_map(s).len() == s.len(),
    decreases s.len(),
{
    if s.len() > 0 {
        let t = s.drop_last();
        lemma_entries_len(t);
        lemma_entries_map(t);
        assert(!entries_map(t).dom().contains(s.last().0@)) by {
            if entries_map(t).dom().contains(s.last().0@) {
                let i = choose|i: int| 0 <= i < t.len() && #[trigger] t[i].0@ == s.last().0@;
                assert(s[i].0@ == s.last().0@);
            }
        }
    }
}

/// The map of any list of entries has finitely many keys.
proof fn lemma_entries_finite(s: Seq<(String, String)>)
    ensures
        entries_map(s).dom().finite(),
    decreases s.len(),
{
    if s.len() > 0 {
        lemma_entries_finite(s.drop_last());
    }
}

/// Every set of extra settings has finitely many keys.
pub proof fn lemma_settings_finite(e: Extras)
    ensures
        e.settings().dom().finite(),
{
    lemma_entries_finite(e.entries@);
}

/// The count of settings after `key` is set: one more unless the key was there.
pub open spec fn count_after_insert(m: Map<Seq<char>, Seq<char>>, key: Seq<char>) -> nat {
    if m.dom().contains(key) {
        m.len()
    } else {
        m.len() + 1
    }
}

/// Configuration for creating an Otari client.
#[derive(Debug, Clone)]
pub struct Config {
    /// The API key (if not set, the environment is consulted).
    pub api_key: Option<String>,
    /// The API base URL (for custom endpoints/proxies).
    pub api_base: Option<String>,
    /// Additional configuration.
    pub extra: Extras,
}

impl Config {
    /// A configuration with nothing set.
    pub fn empty() -> (r: Self)
        ensures
            r.api_key is None,
            r.api_base is None,
            r.extra.settings() == Map::<Seq<char>, Seq<char>>::empty(),
    {
        Config { api_key: None, api_base: None, extra: Extras::new() }
    }

    /// A configuration with an API key and nothing else.
    pub fn new(api_key: &str) -> (r: Self)
        ensures
            r.api_key matches Some(k) && k@ == api_key@,
            r.api_base is None,
            r.extra.settings() == Map::<Seq<char>, Seq<char>>::empty(),
    {
        Config { api_key: Some(String::from_str(api_key)), api_base: None, extra: Extras::new() }
    }

    /// Set the API base URL.
    pub fn with_api_base(self, api_base: &str) -> (r: Self)
        ensures
            r.api_key == self.api_key,
            r.api_base matches Some(b) && b@ == api_base@,
            r.extra == self.extra,
    {
        Config { api_base: Some(String::from_str(api_base)), ..self }
    }

    /// Add an extra configuration value, replacing any earlier value for the key.
    pub fn with_extra(self, key: &str, value: &str) -> (r: Self)
        ensures
            r.api_key == self.api_key,
            r.api_base == self.api_base,
            r.extra.settings() == self.extra.settings().insert(key@, value@),
            r.extra.settings().len() == count_after_insert(self.extra.settings(), key@),
    {
        let mut r = self;
        r.extra.insert(String::from_str(key), String::from_str(value));
        r
    }
}

impl Default for Config {
    fn default() -> (r: Self)
        ensures
            r.api_key is None,
            r.api_base is None,
            r.extra.settings() == Map::<Seq<char>, Seq<char>>::empty(),
    {
        Config::empty()
    }
}

/// Configuration for creating a provider.
#[derive(Debug, Clone)]
pub struct ProviderConfig {
    /// The API key (if not set, the environment is consulted).
    pub api_key: Option<String>,
    /// The API base URL (for custom endpoints/proxies).
    pub api_base: Option<String>,
    /// Additional configuration (provider-specific).
    pub extra: Extras,
}

impl ProviderConfig {
    /// A provider configuration with nothing set.
    pub fn empty() -> (r: Self)
        ensures
            r.api_key is None,
            r.api_base is None,
            r.extra.settings() == Map::<Seq<char>, Seq<char>>::empty(),
    {
        ProviderConfig { api_key: None, api_base: None, extra: Extras::new() }
    }

    /// A provider configuration with an API key and nothing else.
    pub fn new(api_key: &str) -> (r: Self)
        ensures
            r.api_key matches Some(k) && k@ == api_key@,
            r.api_base is None,
            r.extra.settings() == Map::<Seq<char>, Seq<char>>::empty(),
    {
        ProviderConfig {
            api_key: Some(String::from_str(api_key)),
            api_base: None,
            extra: Extras::new(),
        }
    }

    /// Set the API base URL.
    pub fn with_api_base(self, api_base: &str) -> (r: Self)
        ensures
            r.api_key == self.api_key,
            r.api_base matches Some(b) && b@ == api_base@,
            r.extra == self.extra,
    {
        ProviderConfig { api_base: Some(String::from_str(api_base)), ..self }
    }

    /// Add an extra configuration value, replacing any earlier value for the key.
    pub fn with_extra(self, key: &str, value: &str) -> (r: Self)
        ensures
            r.api_key == self.api_key,
            r.api_base == self.api_base,
            r.extra.settings() == self.extra.settings().insert(key@, value@),
            r.extra.settings().len() == count_after_insert(self.extra.settings(), key@),
    {
        let mut r = self;
        r.extra.insert(String::from_str(key), String::from_str(value));
        r
    }
}

impl Default for ProviderConfig {
    fn default() -> (r: Self)
        ensures
            r.api_key is None,
            r.api_base is None,
            r.extra.settings() == Map::<Seq<char>, Seq<char>>::empty(),
    {
        ProviderConfig::empty()
    }
}

/// A value stored with `with_extra` is what a lookup of its key gives back,
/// every other key keeps the value it had, and the count of settings grows by
/// one unless the key was already set.
pub proof fn law_extra_read_after_write(c: Config, key: Seq<char>, value: Seq<char>, other: Seq<char>)
    requires
        other != key,
    ensures
        ({
            let after = c.extra.settings().insert(key, value);
            &&& after.dom().contains(key)
            &&& after[key] == value
            &&& after.dom().contains(other) == c.extra.settings().dom().contains(other)
            &&& c.extra.settings().dom().contains(other) ==> after[other] == c.extra.settings()[other]
            &&& after.len() == count_after_insert(c.extra.settings(), key)
        }),
{
    lemma_settings_finite(c.extra);
}

} // verus!
