//! The local index: for each path that went completely through synchronisation,
//! the record the remote service gave for it. A path in the index is never
//! processed again; a path that is not in it is due.

use vstd::prelude::*;
use crate::schema::FileResponse;

verus! {

/// One remembered path.
#[derive(Clone, Debug)]
pub struct IndexEntry {
    pub path: String,
    pub record: FileResponse,
}

/// The paths already synchronised, each with its record; each path at most once.
pub struct LocalIndex {
    entries: Vec<IndexEntry>,
    contents: Ghost<Map<Seq<char>, FileResponse>>,
}

impl View for LocalIndex {
    type V = Map<Seq<char>, FileResponse>;

    closed spec fn view(&self) -> Map<Seq<char>, FileResponse> {
        self.contents@
    }
}

impl LocalIndex {
    /// The paths held, in the order in which they were first put.
    pub closed spec fn keys(&self) -> Seq<Seq<char>> {
        self.entries@.map_values(|e: IndexEntry| e.path@)
    }

    pub closed spec fn wf(&self) -> bool {
        &&& self.keys().no_duplicates()
        &&& self.contents@.dom() == self.keys().to_set()
        &&& forall|i: int|
            0 <= i < self.entries@.len() ==> #[trigger] self.contents@[self.entries@[i].path@]
                == self.entries@[i].record
    }

    /// An empty index.
    pub fn new() -> (r: LocalIndex)
        ensures
            r.wf(),
            r@ == Map::<Seq<char>, FileResponse>::empty(),
            r@.dom().finite(),
    {
        let r = LocalIndex { entries: Vec::new(), contents: Ghost(Map::empty()) };
        assert(r.keys().to_set() =~= Set::empty());
        r
    }

    /// Position of `path` among the entries.
    fn position(&self, path: &String) -> (r: Option<usize>)
        requires
            self.wf(),
        ensures
            r matches Some(i) ==> i < self.entries@.len() && self.entries@[i as int].path@
                == path@,
            r is None ==> !self@.contains_key(path@),
    {
        let mut i: usize = 0;
        while i < self.entries.len()
            invariant
                self.wf(),
                i <= self.entries@.len(),
                forall|j: int| 0 <= j < i ==> self.entries@[j].path@ != path@,
            decreases self.entries@.len() - i,
        {
            if self.entries[i].path == *path {
                return Some(i);
            }
            i = i + 1;
        }
        proof {
            if self@.contains_key(path@) {
                assert(self.keys().to_set().contains(path@));
                let j = choose|j: int| 0 <= j < self.keys().len() && self.keys()[j] == path@;
                assert(self.entries@[j].path@ == path@);
            }
        }
        None
    }

    /// Whether `path` was already synchronised.
    pub fn has(&self, path: &String) -> (r: bool)
        requires
            self.wf(),
        ensures
            r == self@.contains_key(path@),
    {
        let p = self.position(path);
        proof {
            if let Some(i) = p {
                assert(self.keys()[i as int] == path@);
                assert(self.keys().to_set().contains(path@));
            }
        }
        p.is_some()
    }

    /// The record remembered for `path`.
    pub fn get(&self, path: &String) -> (r: Option<&FileResponse>)
        requires
            self.wf(),
        ensures
            r matches Some(rec) ==> self@.contains_key(path@) && *rec == self@[path@],
            r is None ==> !self@.contains_key(path@),
    {
        match self.position(path) {
            Some(i) => {
                assert(self.keys()[i as int] == path@);
                Some(&self.entries[i].record)
            },
            None => None,
        }
    }

    /// Remembers `record` for `path`, in place of what was there.
    pub fn put(&mut self, path: String, record: FileResponse)
        requires
            old(self).wf(),
        ensures
            final(self).wf(),
            final(self)@ == old(self)@.insert(path@, record),
            final(self)@.dom().finite(),
    {
        let ghost old_keys = self.keys();
        let ghost key = path@;
        match self.position(&path) {
            Some(i) => {
                let ghost rec = record;
                self.entries.set(i, IndexEntry { path, record });
                self.contents = Ghost(self.contents@.insert(key, rec));
                assert(self.keys() =~= old_keys);
                assert(old_keys[i as int] == key);
                assert(old_keys.to_set().contains(key));
                assert forall|j: int| 0 <= j < self.entries@.len() implies #[trigger] self.contents@[
                    self.entries@[j].path@] == self.entries@[j].record by {
                    if j != i {
                        assert(old_keys[j] != old_keys[i as int]);
                    }
                }
                assert(self.contents@.dom() =~= self.keys().to_set());
            },
            None => {
                let ghost rec = record;
                self.entries.push(IndexEntry { path, record });
                self.contents = Ghost(self.contents@.insert(key, rec));
                assert(self.keys() =~= old_keys.push(key));
                assert(!old_keys.contains(key)) by {
                    if old_keys.contains(key) {
                        let j = choose|j: int| 0 <= j < old_keys.len() && old_keys[j] == key;
                        assert(old_keys.to_set().contains(key));
                    }
                }
                assert forall|j: int| 0 <= j < self.entries@.len() implies #[trigger] self.contents@[
                    self.entries@[j].path@] == self.entries@[j].record by {
                    if j < old_keys.len() {
                        assert(old_keys[j] != key) by {
                            assert(old_keys.contains(old_keys[j]));
                        }
                    }
                }
                assert(self.contents@.dom() =~= self.keys().to_set()) by {
                    assert forall|k| self.contents@.dom().contains(k) <==> self.keys().to_set().contains(k) by {
                        if k != key && self.keys().to_set().contains(k) {
                            let j = choose|j: int| 0 <= j < self.keys().len() && self.keys()[j] == k;
                            assert(old_keys[j] == k);
                        }
                        if self.contents@.dom().contains(k) && k != key {
                            assert(old_keys.to_set().contains(k));
                            let j = choose|j: int| 0 <= j < old_keys.len() && old_keys[j] == k;
                            assert(self.keys()[j] == k);
                        }
                        if k == key {
                            assert(self.keys()[old_keys.len() as int] == key);
                        }
                    }
                }
            },
        }
    }

    /// The index holds finitely many paths.
    pub proof fn lemma_finite(&self)
        requires
            self.wf(),
        ensures
            self@.dom().finite(),
    {
    }

    /// How many paths are remembered.
    pub fn len(&self) -> (r: usize)
        requires
            self.wf(),
        ensures
            r == self@.dom().len(),
    {
        proof {
            self.keys().unique_seq_to_set();
        }
        self.entries.len()
    }
}

} // verus!
