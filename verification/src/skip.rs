//! The skip list: path prefixes that exclude a download.

use vstd::prelude::*;

use crate::strutil::str_starts_with;

verus! {

/// True iff some entry of the list is a prefix of `rel_path`.
pub open spec fn skip_matches(entries: Seq<Seq<char>>, rel_path: Seq<char>) -> bool {
    exists|i: int| 0 <= i < entries.len() && (#[trigger] entries[i]).is_prefix_of(rel_path)
}

/// Holds a list of partial file paths to skip downloading.
pub struct SkipList {
    list: Vec<String>,
}

impl SkipList {
    /// The entries of the list as character sequences.
    pub closed spec fn view(&self) -> Seq<Seq<char>> {
        self.list@.map_values(|s: String| s@)
    }

    /// True iff some entry of the list is a prefix of `rel_path`.
    pub open spec fn matches(&self, rel_path: Seq<char>) -> bool {
        skip_matches(self@, rel_path)
    }

    /// Creates a new empty list.
    pub fn new() -> (r: Self)
        ensures
            r@ == Seq::<Seq<char>>::empty(),
    {
        let r = Self { list: Vec::new() };
        proof {
            assert(r@ =~= Seq::<Seq<char>>::empty());
        }
        r
    }

    /// Creates a list from the entries read out of a skip list file.
    pub fn from_entries(entries: Vec<String>) -> (r: Self)
        ensures
            r@.len() == entries@.len(),
            forall|i: int| 0 <= i < entries@.len() ==> r@[i] == entries@[i]@,
    {
        Self { list: entries }
    }

    /// Returns true if the relative file path starts with an entry of the
    /// skip list.
    pub fn find(&self, rel_path: &str) -> (r: bool)
        ensures
            r == self.matches(rel_path@),
    {
        let mut i: usize = 0;
        while i < self.list.len()
            invariant
                i <= self.list@.len(),
                self@.len() == self.list@.len(),
                forall|j: int| 0 <= j < i ==> !(#[trigger] self@[j]).is_prefix_of(rel_path@),
            decreases self.list@.len() - i,
        {
            if str_starts_with(rel_path, self.list[i].as_str()) {
                assert(self@[i as int].is_prefix_of(rel_path@));
                return true;
            }
            i += 1;
        }
        false
    }
}

} // verus!
