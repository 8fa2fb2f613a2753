//! The metadata cache of a volume session: the entry last seen for each path.

use crate::filesystem_entry::{EntryView, FilesystemEntry};
use vstd::prelude::*;

verus! {

/// Cache of entries, one for each path.
pub struct Cache {
    entry_cache: Vec<(String, FilesystemEntry)>,
}

/// Whether some entry of `slots` is stored for the path `path`.
pub open spec fn holds(slots: Seq<(String, FilesystemEntry)>, path: Seq<char>) -> bool {
    exists|i: int| 0 <= i < slots.len() && (#[trigger] slots[i]).0@ == path
}

/// The place of the entry that is stored for the path `path`.
pub open spec fn place(slots: Seq<(String, FilesystemEntry)>, path: Seq<char>) -> int {
    choose|i: int| 0 <= i < slots.len() && (#[trigger] slots[i]).0@ == path
}

/// No path occurs twice.
pub open spec fn distinct(slots: Seq<(String, FilesystemEntry)>) -> bool {
    forall|i: int, j: int|
        0 <= i < slots.len() && 0 <= j < slots.len() && (#[trigger] slots[i]).0@ == (
        #[trigger] slots[j]).0@ ==> i == j
}

/// The map from each path to its entry.
pub open spec fn by_path(slots: Seq<(String, FilesystemEntry)>) -> Map<Seq<char>, EntryView> {
    Map::new(|path: Seq<char>| holds(slots, path), |path: Seq<char>| slots[place(slots, path)].1@)
}

impl View for Cache {
    type V = Map<Seq<char>, EntryView>;

    closed spec fn view(&self) -> Map<Seq<char>, EntryView> {
        by_path(self.entry_cache@)
    }
}

impl Cache {
    /// No path has two entries.
    pub closed spec fn wf(&self) -> bool {
        distinct(self.entry_cache@)
    }

    /// A cache without entries.
    pub fn new() -> (c: Cache)
        ensures
            c.wf(),
            c@ == Map::<Seq<char>, EntryView>::empty(),
    {
        let c = Cache { entry_cache: Vec::new() };
        assert(c@ =~= Map::<Seq<char>, EntryView>::empty());
        c
    }

    fn find(&self, path: &String) -> (r: Option<usize>)
        ensures
            match r {
                Some(i) => i < self.entry_cache@.len() && self.entry_cache@[i as int].0@ == path@,
                None => !holds(self.entry_cache@, path@),
            },
    {
        let mut i: usize = 0;
        while i < self.entry_cache.len()
            invariant
                i <= self.entry_cache@.len(),
                forall|j: int| 0 <= j < i ==> (#[trigger] self.entry_cache@[j]).0@ != path@,
            decreases self.entry_cache@.len() - i,
        {
            if self.entry_cache[i].0 == *path {
                return Some(i);
            }
            i = i + 1;
        }
        None
    }

    /// Stores `e` as the entry of the path `path`, in place of an earlier one.
    pub fn insert(&mut self, path: &str, e: &FilesystemEntry)
        requires
            old(self).wf(),
        ensures
            final(self).wf(),
            final(self)@ == old(self)@.insert(path@, e@),
    {
        let ghost before = self.entry_cache@;
        let key = path.to_owned();
        match self.find(&key) {
            Some(i) => {
                self.entry_cache.set(i, (key, e.clone()));
                let ghost after = self.entry_cache@;
                assert(distinct(after));
                assert forall|p: Seq<char>| holds(after, p) == holds(before, p) by {
                    if holds(before, p) {
                        let k = place(before, p);
                        assert(after[k].0@ == p);
                    }
                    if holds(after, p) {
                        let k = place(after, p);
                        assert(before[k].0@ == p);
                    }
                }
                assert(by_path(after) =~= by_path(before).insert(path@, e@)) by {
                    assert(holds(before, path@)) by {
                        assert(before[i as int].0@ == path@);
                    }
                    assert forall|p: Seq<char>| holds(after, p) implies by_path(after)[p]
                        == by_path(before).insert(path@, e@)[p] by {
                        let k = place(after, p);
                        assert(before[k].0@ == p);
                        assert(place(before, p) == k);
                    }
                }
            },
            None => {
                self.entry_cache.push((key, e.clone()));
                let ghost after = self.entry_cache@;
                assert(distinct(after));
                assert forall|p: Seq<char>|
                    holds(after, p) == (holds(before, p) || p == path@) by {
                    if holds(before, p) {
                        let k = place(before, p);
                        assert(after[k].0@ == p);
                    }
                    if p == path@ {
                        assert(after[before.len() as int].0@ == p);
                    }
                    if holds(after, p) {
                        let k = place(after, p);
                        if k < before.len() {
                            assert(before[k].0@ == p);
                        }
                    }
                }
                assert(by_path(after) =~= by_path(before).insert(path@, e@)) by {
                    assert forall|p: Seq<char>| holds(after, p) implies by_path(after)[p]
                        == by_path(before).insert(path@, e@)[p] by {
                        let k = place(after, p);
                        if k < before.len() {
                            assert(before[k].0@ == p);
                            assert(place(before, p) == k);
                        } else {
                            assert(after[before.len() as int].0@ == path@);
                        }
                    }
                }
            },
        }
    }

    /// Stores `e` as the entry of its own path, in place of an earlier one.
    pub fn add_entry(&mut self, e: &FilesystemEntry)
        requires
            old(self).wf(),
        ensures
            final(self).wf(),
            final(self)@ == old(self)@.insert(e@.path, e@),
    {
        self.insert(e.path.as_str(), e)
    }

    /// The entry stored for `path`, if there is one.
    pub fn get_entry(&self, path: &str) -> (r: Option<&FilesystemEntry>)
        requires
            self.wf(),
        ensures
            match r {
                Some(e) => self@.contains_key(path@) && self@[path@] == e@,
                None => !self@.contains_key(path@),
            },
    {
        let key = path.to_owned();
        match self.find(&key) {
            Some(i) => {
                assert(holds(self.entry_cache@, path@));
                assert(place(self.entry_cache@, path@) == i);
                Some(&self.entry_cache[i].1)
            },
            None => None,
        }
    }
}

} // verus!
