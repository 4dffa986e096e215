//! The set of folders that the gallery already holds.

use vstd::prelude::*;

verus! {

/// The paths of a sequence of strings, as a set.
pub open spec fn path_set(paths: Seq<String>) -> Set<Seq<char>> {
    path_seq(paths).to_set()
}

/// The paths of a sequence of strings, in order.
pub open spec fn path_seq(paths: Seq<String>) -> Seq<Seq<char>> {
    paths.map_values(|p: String| p@)
}

/// A set of directory paths. Two paths are the same when their characters are.
///
/// The set only grows: there is no way to take a path out.
#[derive(Debug)]
pub struct KnownFolderSet {
    paths: Vec<String>,
}

impl View for KnownFolderSet {
    type V = Set<Seq<char>>;

    closed spec fn view(&self) -> Set<Seq<char>> {
        path_set(self.paths@)
    }
}

impl KnownFolderSet {
    #[verifier::type_invariant]
    spec fn distinct(self) -> bool {
        path_seq(self.paths@).no_duplicates()
    }

    /// The empty set.
    pub fn new() -> (known: KnownFolderSet)
        ensures
            known@ == Set::<Seq<char>>::empty(),
    {
        let known = KnownFolderSet { paths: Vec::new() };
        assert(path_seq(known.paths@) =~= Seq::empty());
        assert(known@ =~= Set::empty());
        known
    }

    /// Whether `path` is in the set.
    pub fn contains(&self, path: &String) -> (found: bool)
        ensures
            found == self@.contains(path@),
    {
        let n: usize = self.paths.len();
        let mut i: usize = 0;
        while i < n
            invariant
                n == self.paths.len(),
                i <= n,
                forall|j: int| 0 <= j < i ==> path_seq(self.paths@)[j] != path@,
            decreases n - i,
        {
            if self.paths[i] == *path {
                assert(path_seq(self.paths@)[i as int] == path@);
                return true;
            }
            i += 1;
        }
        false
    }

    /// Puts `path` into the set. Returns whether it was new.
    pub fn insert(&mut self, path: String) -> (added: bool)
        ensures
            final(self)@ == old(self)@.insert(path@),
            added == !old(self)@.contains(path@),
    {
        proof {
            use_type_invariant(&*self);
        }
        if self.contains(&path) {
            assert(self@.insert(path@) =~= self@);
            false
        } else {
            let ghost before = self.paths@;
            let mut taken = KnownFolderSet { paths: Vec::new() };
            core::mem::swap(self, &mut taken);
            let mut paths: Vec<String> = taken.paths;
            paths.push(path);
            proof {
                assert(path_seq(paths@) =~= path_seq(before).push(path@));
                path_seq(before).lemma_push_to_set_commute(path@);
            }
            *self = KnownFolderSet { paths };
            true
        }
    }

    /// The number of paths in the set.
    pub fn len(&self) -> (n: usize)
        ensures
            n == self@.len(),
            self@.finite(),
    {
        proof {
            use_type_invariant(self);
            path_seq(self.paths@).unique_seq_to_set();
        }
        self.paths.len()
    }

    /// Whether the set holds no path.
    pub fn is_empty(&self) -> (b: bool)
        ensures
            b == (self@ == Set::<Seq<char>>::empty()),
    {
        proof {
            if self.paths@.len() > 0 {
                assert(path_seq(self.paths@)[0] == self.paths@[0]@);
                assert(self@.contains(self.paths@[0]@));
            } else {
                assert(self@ =~= Set::empty());
            }
        }
        self.paths.len() == 0
    }

    /// The paths of the set, each once, in the order in which they came in.
    pub fn paths(&self) -> (paths: &Vec<String>)
        ensures
            path_set(paths@) == self@,
            path_seq(paths@).no_duplicates(),
    {
        proof {
            use_type_invariant(self);
        }
        &self.paths
    }
}

impl Clone for KnownFolderSet {
    fn clone(&self) -> (copy: KnownFolderSet)
        ensures
            copy@ == self@,
    {
        proof {
            use_type_invariant(self);
        }
        let paths = self.paths.clone();
        assert(paths@ =~= self.paths@);
        KnownFolderSet { paths }
    }
}

} // verus!
