//! The response cache: a mapping from a request signature
//! (`"<operation>:<argument>"`) to the response body text.
use base64::Engine;
use vstd::prelude::*;

verus! {

/// The view of a list of stored pairs as plain text pairs.
pub open spec fn pair_views(s: Seq<(String, String)>) -> Seq<(Seq<char>, Seq<char>)> {
    s.map_values(|p: (String, String)| (p.0@, p.1@))
}

/// The mapping that a list of pairs denotes, each later pair overriding an
/// earlier pair with the same key.
pub open spec fn map_of(s: Seq<(Seq<char>, Seq<char>)>) -> Map<Seq<char>, Seq<char>>
    decreases s.len(),
{
    if s.len() == 0 {
        Map::empty()
    } else {
        map_of(s.drop_last()).insert(s.last().0, s.last().1)
    }
}

/// What a cache holds for `key`, if anything.
pub open spec fn cached(c: Map<Seq<char>, Seq<char>>, key: Seq<char>) -> Option<Seq<char>> {
    if c.contains_key(key) {
        Some(c[key])
    } else {
        None
    }
}

/// Pairs at or after `i` do not mention `k`: `k` fares in the whole list as
/// in its first `i` pairs.
proof fn lemma_map_of_prefix(s: Seq<(Seq<char>, Seq<char>)>, i: int, k: Seq<char>)
    requires
        0 <= i <= s.len(),
        forall|j: int| i <= j < s.len() ==> s[j].0 != k,
    ensures
        cached(map_of(s), k) == cached(map_of(s.take(i)), k),
    decreases s.len() - i,
{
    if i < s.len() {
        lemma_map_of_prefix(s, i + 1, k);
        assert(s.take(i + 1).drop_last() =~= s.take(i));
    } else {
        assert(s.take(i) =~= s);
    }
}

/// No two pairs share a key.
pub open spec fn unique_keys(s: Seq<(Seq<char>, Seq<char>)>) -> bool {
    forall|i: int, j: int| 0 <= i < s.len() && 0 <= j < s.len() && s[i].0 == s[j].0 ==> i == j
}

/// In a list without repeated keys, a key maps to a value exactly when the
/// list holds that pair.
proof fn lemma_unique_lookup(s: Seq<(Seq<char>, Seq<char>)>, k: Seq<char>, v: Seq<char>)
    requires
        unique_keys(s),
    ensures
        (cached(map_of(s), k) == Some(v)) <==> s.contains((k, v)),
    decreases s.len(),
{
    if s.len() > 0 {
        let init = s.drop_last();
        assert(unique_keys(init));
        lemma_unique_lookup(init, k, v);
        if s.last().0 == k {
            if s.contains((k, v)) {
                let j = choose|j: int| 0 <= j < s.len() && s[j] == (k, v);
                assert(s[j].0 == s[s.len() - 1].0);
            }
        } else {
            if s.contains((k, v)) {
                let j = choose|j: int| 0 <= j < s.len() && s[j] == (k, v);
                assert(j < s.len() - 1);
                assert(init[j] == (k, v));
            }
            if init.contains((k, v)) {
                let j = choose|j: int| 0 <= j < init.len() && init[j] == (k, v);
                assert(s[j] == (k, v));
            }
        }
    }
}

/// Saving a cache as a JSON object and loading it back may list its pairs in
/// another order. Two listings without repeated keys that hold the same
/// pairs denote the same cache, whatever their order.
pub proof fn lemma_listing_order_free(a: Seq<(Seq<char>, Seq<char>)>, b: Seq<(Seq<char>, Seq<char>)>)
    requires
        unique_keys(a),
        unique_keys(b),
        forall|p: (Seq<char>, Seq<char>)| a.contains(p) <==> b.contains(p),
    ensures
        map_of(a) == map_of(b),
{
    assert forall|k: Seq<char>| #[trigger] cached(map_of(a), k) == cached(map_of(b), k) by {
        if map_of(a).contains_key(k) {
            lemma_unique_lookup(a, k, map_of(a)[k]);
            lemma_unique_lookup(b, k, map_of(a)[k]);
        }
        if map_of(b).contains_key(k) {
            lemma_unique_lookup(a, k, map_of(b)[k]);
            lemma_unique_lookup(b, k, map_of(b)[k]);
        }
    }
    assert forall|k: Seq<char>| map_of(a).contains_key(k) <==> map_of(b).contains_key(k) by {
        assert(cached(map_of(a), k) == cached(map_of(b), k));
    }
    assert forall|k: Seq<char>| map_of(a).contains_key(k) implies map_of(a)[k] == map_of(b)[k] by {
        assert(cached(map_of(a), k) == cached(map_of(b), k));
    }
    assert(map_of(a) =~= map_of(b));
}

/// A response cache. Keys are unique in its view; a later write wins.
pub struct WebCache {
    entries: Vec<(String, String)>,
}

impl View for WebCache {
    type V = Map<Seq<char>, Seq<char>>;

    closed spec fn view(&self) -> Map<Seq<char>, Seq<char>> {
        map_of(pair_views(self.entries@))
    }
}

impl WebCache {
    /// The empty cache.
    pub fn new() -> (r: WebCache)
        ensures
            r@ == Map::<Seq<char>, Seq<char>>::empty(),
    {
        WebCache { entries: Vec::new() }
    }

    /// The stored response for `key`, if there is one.
    pub fn get(&self, key: &String) -> (r: Option<String>)
        ensures
            r matches Some(v) ==> cached(self@, key@) == Some(v@),
            r is None ==> cached(self@, key@) is None,
    {
        let ghost s = pair_views(self.entries@);
        let mut i: usize = self.entries.len();
        while i > 0
            invariant
                i <= self.entries.len(),
                s == pair_views(self.entries@),
                forall|j: int| i <= j < s.len() ==> s[j].0 != key@,
            decreases i,
        {
            let e = &self.entries[i - 1];
            if e.0 == *key {
                proof {
                    lemma_map_of_prefix(s, i as int, key@);
                    assert(s.take(i as int).drop_last() =~= s.take(i - 1));
                }
                return Some(e.1.clone());
            }
            i = i - 1;
        }
        proof {
            lemma_map_of_prefix(s, 0, key@);
        }
        None
    }

    /// Stores `value` under `key`, replacing what was there.
    pub fn insert(&mut self, key: String, value: String)
        ensures
            final(self)@ == old(self)@.insert(key@, value@),
    {
        self.entries.push((key, value));
        proof {
            assert(pair_views(final(self).entries@).drop_last() =~= pair_views(old(self).entries@));
        }
    }

    /// The stored pairs, in the order they were written.
    pub fn to_entries(&self) -> (r: Vec<(String, String)>)
        ensures
            map_of(pair_views(r@)) == self@,
    {
        let mut r: Vec<(String, String)> = Vec::new();
        let mut i: usize = 0;
        while i < self.entries.len()
            invariant
                i <= self.entries.len(),
                r@ == self.entries@.take(i as int),
            decreases self.entries.len() - i,
        {
            let e = &self.entries[i];
            r.push((e.0.clone(), e.1.clone()));
            proof {
                assert(r@ =~= self.entries@.take(i + 1));
            }
            i = i + 1;
        }
        proof {
            assert(self.entries@.take(i as int) =~= self.entries@);
        }
        r
    }

    /// The cache that holds what the pairs denote, a later pair winning over
    /// an earlier one with the same key.
    pub fn from_entries(entries: Vec<(String, String)>) -> (r: WebCache)
        ensures
            r@ == map_of(pair_views(entries@)),
    {
        WebCache { entries }
    }
}

} // verus!
