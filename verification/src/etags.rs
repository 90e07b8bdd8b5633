//! The ETag cache: a map of URLs to ETag validator strings, held as a
//! vector of pairs with pairwise distinct keys.

use vstd::prelude::*;
use vstd::map::*;

use crate::strutil::str_eq;

verus! {

/// The map held by a sequence of key/value pairs; a later pair overrides
/// an earlier one with the same key.
pub open spec fn kv_map(s: Seq<(String, String)>) -> Map<Seq<char>, Seq<char>>
    decreases s.len(),
{
    if s.len() == 0 {
        Map::empty()
    } else {
        kv_map(s.drop_last()).insert(s.last().0@, s.last().1@)
    }
}

/// No two pairs of the sequence share a key.
pub open spec fn unique_keys(s: Seq<(String, String)>) -> bool {
    forall|i: int, j: int|
        0 <= i < j < s.len() ==> (#[trigger] s[i]).0@ != (#[trigger] s[j]).0@
}

/// A key is in the map iff some pair of the sequence holds it.
proof fn lemma_kv_contains(s: Seq<(String, String)>, k: Seq<char>)
    ensures
        kv_map(s).contains_key(k) <==> exists|i: int| 0 <= i < s.len() && (#[trigger] s[i]).0@
            == k,
    decreases s.len(),
{
    if s.len() == 0 {
    } else {
        lemma_kv_contains(s.drop_last(), k);
        if s.last().0@ == k {
            assert(s[s.len() - 1].0@ == k);
        } else {
            if exists|i: int| 0 <= i < s.len() && (#[trigger] s[i]).0@ == k {
                let i = choose|i: int| 0 <= i < s.len() && (#[trigger] s[i]).0@ == k;
                assert(i < s.len() - 1);
                assert(s.drop_last()[i].0@ == k);
            }
            if kv_map(s).contains_key(k) {
                let i = choose|i: int|
                    0 <= i < s.drop_last().len() && (#[trigger] s.drop_last()[i]).0@ == k;
                assert(s[i].0@ == k);
            }
        }
    }
}

/// With distinct keys, the pair at any index gives the map's value at
/// its key.
proof fn lemma_kv_value(s: Seq<(String, String)>, i: int)
    requires
        unique_keys(s),
        0 <= i < s.len(),
    ensures
        kv_map(s).contains_key(s[i].0@),
        kv_map(s)[s[i].0@] == s[i].1@,
    decreases s.len(),
{
    if i == s.len() - 1 {
    } else {
        assert(s.drop_last()[i] == s[i]);
        lemma_kv_value(s.drop_last(), i);
        assert(s.last().0@ != s[i].0@);
    }
}

/// Removing the pair at an index removes exactly its key from the map.
proof fn lemma_kv_remove(s: Seq<(String, String)>, i: int)
    requires
        unique_keys(s),
        0 <= i < s.len(),
    ensures
        unique_keys(s.remove(i)),
        kv_map(s.remove(i)) == kv_map(s).remove(s[i].0@),
    decreases s.len(),
{
    let k = s[i].0@;
    assert forall|a: int, b: int| 0 <= a < b < s.remove(i).len() implies (#[trigger] s.remove(
        i,
    )[a]).0@ != (#[trigger] s.remove(i)[b]).0@ by {
        let a0 = if a < i {
            a
        } else {
            a + 1
        };
        let b0 = if b < i {
            b
        } else {
            b + 1
        };
        assert(s.remove(i)[a] == s[a0]);
        assert(s.remove(i)[b] == s[b0]);
    }
    if i == s.len() - 1 {
        assert(s.remove(i) =~= s.drop_last());
        lemma_kv_contains(s.drop_last(), k);
        if kv_map(s.drop_last()).contains_key(k) {
            let j = choose|j: int|
                0 <= j < s.drop_last().len() && (#[trigger] s.drop_last()[j]).0@ == k;
            assert(s[j].0@ == k);
            assert(false);
        }
        assert(kv_map(s.remove(i)) =~= kv_map(s).remove(k));
    } else {
        assert(s.remove(i).drop_last() =~= s.drop_last().remove(i));
        assert(s.remove(i).last() == s.last());
        lemma_kv_remove(s.drop_last(), i);
        assert(s.drop_last()[i] == s[i]);
        assert(s.last().0@ != k);
        assert(kv_map(s.remove(i)) =~= kv_map(s).remove(k));
    }
}

/// Law (this run's observations win): an ETag recorded in the new
/// generation survives the merge that is persisted at the end of the
/// run, also where the old generation held another value for the same
/// URL; and entries of the old generation for URLs not seen this run
/// survive as well.
pub proof fn lemma_merge_prefers_new(
    old_gen: Map<Seq<char>, Seq<char>>,
    new_gen: Map<Seq<char>, Seq<char>>,
    url: Seq<char>,
)
    ensures
        new_gen.contains_key(url) ==> old_gen.union_prefer_right(new_gen).contains_key(url)
            && old_gen.union_prefer_right(new_gen)[url] == new_gen[url],
        !new_gen.contains_key(url) && old_gen.contains_key(url) ==> old_gen.union_prefer_right(
            new_gen,
        ).contains_key(url) && old_gen.union_prefer_right(new_gen)[url] == old_gen[url],
{
}

/// Map of URLs to ETags.
pub struct ETags {
    etags: Vec<(String, String)>,
}

impl View for ETags {
    type V = Map<Seq<char>, Seq<char>>;

    closed spec fn view(&self) -> Map<Seq<char>, Seq<char>> {
        kv_map(self.etags@)
    }
}

impl ETags {
    /// The keys of the stored pairs are pairwise distinct.
    pub closed spec fn wf(&self) -> bool {
        unique_keys(self.etags@)
    }

    /// Creates an empty map.
    pub fn new() -> (r: Self)
        ensures
            r.wf(),
            r@ == Map::<Seq<char>, Seq<char>>::empty(),
    {
        ETags { etags: Vec::new() }
    }

    /// Builds a map from loaded pairs; a later pair overrides an earlier
    /// one with the same key.
    pub fn from_pairs(pairs: Vec<(String, String)>) -> (r: Self)
        ensures
            r.wf(),
            r@ == kv_map(pairs@),
    {
        let mut r = ETags::new();
        let mut i: usize = 0;
        while i < pairs.len()
            invariant
                i <= pairs@.len(),
                r.wf(),
                r@ == kv_map(pairs@.subrange(0, i as int)),
            decreases pairs@.len() - i,
        {
            proof {
                assert(pairs@.subrange(0, i + 1).drop_last() =~= pairs@.subrange(0, i as int));
                assert(pairs@.subrange(0, i + 1).last() == pairs@[i as int]);
            }
            r.add(pairs[i].0.clone(), pairs[i].1.clone());
            i += 1;
        }
        proof {
            assert(pairs@.subrange(0, pairs@.len() as int) =~= pairs@);
        }
        r
    }

    /// The stored pairs, for persisting the map.
    pub fn pairs(&self) -> (r: &Vec<(String, String)>)
        ensures
            kv_map(r@) == self@,
            unique_keys(r@) == self.wf(),
    {
        &self.etags
    }

    /// The index of the pair holding the key, if any.
    fn index_of(&self, key: &str) -> (r: Option<usize>)
        ensures
            match r {
                Some(i) => i < self.etags@.len() && self.etags@[i as int].0@ == key@,
                None => forall|j: int|
                    0 <= j < self.etags@.len() ==> (#[trigger] self.etags@[j]).0@ != key@,
            },
{
        let mut i: usize = 0;
        while i < self.etags.len()
            invariant
                i <= self.etags@.len(),
                forall|j: int| 0 <= j < i ==> (#[trigger] self.etags@[j]).0@ != key@,
            decreases self.etags@.len() - i,
        {
            if str_eq(self.etags[i].0.as_str(), key) {
                return Some(i);
            }
            i += 1;
        }
        None
    }

    /// Looks for a URL in the mapping and returns the ETag if present.
    pub fn find(&self, key: &str) -> (r: Option<&String>)
        requires
            self.wf(),
        ensures
            match r {
                Some(v) => self@.contains_key(key@) && v@ == self@[key@],
                None => !self@.contains_key(key@),
            },
    {
        match self.index_of(key) {
            Some(i) => {
                proof {
                    lemma_kv_value(self.etags@, i as int);
                }
                Some(&self.etags[i].1)
            },
            None => {
                proof {
                    lemma_kv_contains(self.etags@, key@);
                }
                None
            },
        }
    }

    /// Adds a URL to ETag mapping, replacing any earlier entry for the
    /// same URL.
    pub fn add(&mut self, url: String, etag: String)
        requires
            old(self).wf(),
        ensures
            final(self).wf(),
            final(self)@ == old(self)@.insert(url@, etag@),
    {
        let ghost s0 = self.etags@;
        match self.index_of(url.as_str()) {
            Some(i) => {
                proof {
                    lemma_kv_remove(s0, i as int);
                }
                self.etags.remove(i);
            },
            None => {
                proof {
                    lemma_kv_contains(s0, url@);
                }
            },
        }
        let ghost s1 = self.etags@;
        proof {
            lemma_kv_contains(s1, url@);
            assert(!kv_map(s1).contains_key(url@));
        }
        self.etags.push((url, etag));
        proof {
            assert(self.etags@.drop_last() =~= s1);
            assert forall|a: int, b: int| 0 <= a < b < self.etags@.len() implies (
            #[trigger] self.etags@[a]).0@ != (#[trigger] self.etags@[b]).0@ by {
                if b < self.etags@.len() - 1 {
                    assert(self.etags@[a] == s1[a] && self.etags@[b] == s1[b]);
                } else {
                    assert(self.etags@[a] == s1[a]);
                }
            }
            assert(kv_map(self.etags@) =~= kv_map(s0).insert(self.etags@.last().0@,
                self.etags@.last().1@));
        }
    }

    /// Extends the map with another map; entries already present keep
    /// their value.
    pub fn extend(&mut self, other: &ETags)
        requires
            old(self).wf(),
            other.wf(),
        ensures
            final(self).wf(),
            final(self)@ == other@.union_prefer_right(old(self)@),
    {
        let ghost m0 = kv_map(old(self).etags@);
        let mut i: usize = 0;
        while i < other.etags.len()
            invariant
                i <= other.etags@.len(),
                self.wf(),
                other.wf(),
                self@ == kv_map(other.etags@.subrange(0, i as int)).union_prefer_right(m0),
            decreases other.etags@.len() - i,
        {
            let ghost sub = other.etags@.subrange(0, i as int);
            proof {
                assert(other.etags@.subrange(0, i + 1).drop_last() =~= sub);
                assert(other.etags@.subrange(0, i + 1).last() == other.etags@[i as int]);
                lemma_kv_contains(sub, other.etags@[i as int].0@);
            }
            let key = other.etags[i].0.as_str();
            match self.index_of(key) {
                Some(j) => {
                    proof {
                        lemma_kv_value(self.etags@, j as int);
                        // the key is already held, by the old generation
                        // if it was there, else by an earlier pair
                        assert(kv_map(other.etags@.subrange(0, i + 1)).union_prefer_right(m0)
                            =~= self@);
                    }
                },
                None => {
                    proof {
                        lemma_kv_contains(self.etags@, other.etags@[i as int].0@);
                    }
                    self.add(other.etags[i].0.clone(), other.etags[i].1.clone());
                    proof {
                        assert(kv_map(other.etags@.subrange(0, i + 1)).union_prefer_right(m0)
                            =~= self@);
                    }
                },
            }
            i += 1;
        }
        proof {
            assert(other.etags@.subrange(0, other.etags@.len() as int) =~= other.etags@);
        }
    }

    /// Returns true if the collection is empty.
    pub fn is_empty(&self) -> (r: bool)
        ensures
            r <==> (self@ =~= Map::<Seq<char>, Seq<char>>::empty()),
    {
        if self.etags.len() == 0 {
            true
        } else {
            proof {
                assert(kv_map(self.etags@).contains_key(self.etags@.last().0@));
            }
            false
        }
    }
}

} // verus!
