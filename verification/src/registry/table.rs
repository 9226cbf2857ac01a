//! The watched entries, keyed by their ids.
use vstd::prelude::*;
use crate::registry::types::{WatchedEntry, WatchedEntryView};

verus! {

/// No two entries of `s` have the same id.
pub open spec fn ids_unique(s: Seq<WatchedEntry>) -> bool {
    forall|i: int, j: int| 0 <= i < j < s.len() ==> s[i].id != s[j].id
}

/// Whether some entry of `s` has the id `id`.
pub open spec fn has_id(s: Seq<WatchedEntry>, id: u64) -> bool {
    exists|i: int| 0 <= i < s.len() && s[i].id == id
}

/// The map from ids to entries that a sequence of entries stands for.
pub open spec fn entries_to_map(s: Seq<WatchedEntry>) -> Map<u64, WatchedEntryView> {
    Map::new(
        |id: u64| has_id(s, id),
        |id: u64| s[choose|i: int| 0 <= i < s.len() && s[i].id == id]@,
    )
}

/// With unique ids, the entry at index `i` is what the map holds for its id.
pub proof fn lemma_entries_to_map_at(s: Seq<WatchedEntry>, i: int)
    requires
        ids_unique(s),
        0 <= i < s.len(),
    ensures
        entries_to_map(s).contains_key(s[i].id),
        entries_to_map(s)[s[i].id] == s[i]@,
{
    let id = s[i].id;
    assert(has_id(s, id));
    let j = choose|j: int| 0 <= j < s.len() && s[j].id == id;
    if j < i {
        assert(s[j].id != s[i].id);
    } else if i < j {
        assert(s[i].id != s[j].id);
    }
}

/// The watched entries, kept as a vector in which no id occurs twice.
pub struct EntryTable {
    entries: Vec<WatchedEntry>,
}

impl View for EntryTable {
    type V = Map<u64, WatchedEntryView>;

    closed spec fn view(&self) -> Map<u64, WatchedEntryView> {
        entries_to_map(self.entries@)
    }
}

impl EntryTable {
    /// No id occurs twice.
    pub closed spec fn wf(&self) -> bool {
        ids_unique(self.entries@)
    }

    /// The table with no entry.
    pub fn new() -> (t: EntryTable)
        ensures
            t.wf(),
            t@ == Map::<u64, WatchedEntryView>::empty(),
    {
        let t = EntryTable { entries: Vec::new() };
        assert(t@ =~= Map::<u64, WatchedEntryView>::empty());
        t
    }

    /// Where the entry with id `id` stands, if it is there.
    fn position(&self, id: u64) -> (r: Option<usize>)
        ensures
            match r {
                Some(i) => i < self.entries@.len() && self.entries@[i as int].id == id,
                None => !has_id(self.entries@, id),
            },
    {
        let n = self.entries.len();
        let mut i: usize = 0;
        while i < n
            invariant
                n == self.entries@.len(),
                i <= n,
                forall|j: int| 0 <= j < i ==> self.entries@[j].id != id,
            decreases n - i,
        {
            if self.entries[i].id == id {
                return Some(i);
            }
            i = i + 1;
        }
        None
    }

    /// The entry with id `id`, if any.
    pub fn get(&self, id: u64) -> (r: Option<&WatchedEntry>)
        requires
            self.wf(),
        ensures
            r is Some <==> self@.contains_key(id),
            r matches Some(e) ==> e@ == self@[id],
    {
        match self.position(id) {
            Some(i) => {
                proof {
                    lemma_entries_to_map_at(self.entries@, i as int);
                }
                Some(&self.entries[i])
            },
            None => None,
        }
    }

    /// Holds `e` under its id, in place of what that id held before, if anything.
    pub fn insert(&mut self, e: WatchedEntry)
        requires
            old(self).wf(),
        ensures
            final(self).wf(),
            final(self)@ == old(self)@.insert(e.id, e@),
    {
        let ghost old_s = self.entries@;
        let ghost id = e.id;
        let ghost ev = e@;
        match self.position(e.id) {
            Some(i) => {
                self.entries.set(i, e);
                proof {
                    let s = self.entries@;
                    assert(ids_unique(s)) by {
                        assert forall|a: int, b: int| 0 <= a < b < s.len() implies s[a].id
                            != s[b].id by {
                            assert(old_s[a].id != old_s[b].id);
                        }
                    }
                    assert forall|k: u64| #[trigger]
                        entries_to_map(s).contains_key(k) == entries_to_map(old_s).insert(
                            id,
                            ev,
                        ).contains_key(k) && (entries_to_map(s).contains_key(k)
                            ==> entries_to_map(s)[k] == entries_to_map(old_s).insert(id, ev)[k]) by {
                        if k == id {
                            lemma_entries_to_map_at(s, i as int);
                        } else if has_id(old_s, k) {
                            let j = choose|j: int| 0 <= j < old_s.len() && old_s[j].id == k;
                            lemma_entries_to_map_at(old_s, j);
                            lemma_entries_to_map_at(s, j);
                        } else if has_id(s, k) {
                            let j = choose|j: int| 0 <= j < s.len() && s[j].id == k;
                            assert(old_s[j].id == k);
                        }
                    }
                    assert(entries_to_map(s) =~= entries_to_map(old_s).insert(id, ev));
                }
            },
            None => {
                self.entries.push(e);
                proof {
                    let s = self.entries@;
                    assert(ids_unique(s)) by {
                        assert forall|a: int, b: int| 0 <= a < b < s.len() implies s[a].id
                            != s[b].id by {
                            if b < old_s.len() {
                                assert(old_s[a].id != old_s[b].id);
                            }
                        }
                    }
                    assert forall|k: u64| #[trigger]
                        entries_to_map(s).contains_key(k) == entries_to_map(old_s).insert(
                            id,
                            ev,
                        ).contains_key(k) && (entries_to_map(s).contains_key(k)
                            ==> entries_to_map(s)[k] == entries_to_map(old_s).insert(id, ev)[k]) by {
                        if k == id {
                            lemma_entries_to_map_at(s, old_s.len() as int);
                        } else if has_id(old_s, k) {
                            let j = choose|j: int| 0 <= j < old_s.len() && old_s[j].id == k;
                            lemma_entries_to_map_at(old_s, j);
                            lemma_entries_to_map_at(s, j);
                        } else if has_id(s, k) {
                            let j = choose|j: int| 0 <= j < s.len() && s[j].id == k;
                            assert(old_s[j].id == k);
                        }
                    }
                    assert(entries_to_map(s) =~= entries_to_map(old_s).insert(id, ev));
                }
            },
        }
    }

    /// Drops the entry with id `id`, if there is one.
    pub fn remove(&mut self, id: u64)
        requires
            old(self).wf(),
        ensures
            final(self).wf(),
            final(self)@ == old(self)@.remove(id),
    {
        let ghost old_s = self.entries@;
        match self.position(id) {
            Some(i) => {
                self.entries.remove(i);
                proof {
                    let s = self.entries@;
                    let p = i as int;
                    assert(s =~= old_s.remove(p));
                    assert forall|a: int| 0 <= a < s.len() implies #[trigger] s[a] == old_s[if a
                        < p {
                        a
                    } else {
                        a + 1
                    }] by {}
                    assert(ids_unique(s)) by {
                        assert forall|a: int, b: int| 0 <= a < b < s.len() implies s[a].id
                            != s[b].id by {
                            let oa = if a < p {
                                a
                            } else {
                                a + 1
                            };
                            let ob = if b < p {
                                b
                            } else {
                                b + 1
                            };
                            assert(s[a] == old_s[oa]);
                            assert(s[b] == old_s[ob]);
                            assert(old_s[oa].id != old_s[ob].id);
                        }
                    }
                    assert forall|k: u64| #[trigger]
                        entries_to_map(s).contains_key(k) == entries_to_map(old_s).remove(
                            id,
                        ).contains_key(k) && (entries_to_map(s).contains_key(k)
                            ==> entries_to_map(s)[k] == entries_to_map(old_s).remove(id)[k]) by {
                        if has_id(s, k) {
                            let j = choose|j: int| 0 <= j < s.len() && s[j].id == k;
                            let oj = if j < p {
                                j
                            } else {
                                j + 1
                            };
                            assert(s[j] == old_s[oj]);
                            if k == id {
                                assert(old_s[oj].id == old_s[p].id);
                                if oj < p {
                                    assert(old_s[oj].id != old_s[p].id);
                                } else {
                                    assert(old_s[p].id != old_s[oj].id);
                                }
                            }
                            lemma_entries_to_map_at(s, j);
                            lemma_entries_to_map_at(old_s, oj);
                        } else if k != id && has_id(old_s, k) {
                            let j = choose|j: int| 0 <= j < old_s.len() && old_s[j].id == k;
                            assert(j != p);
                            let sj = if j < p {
                                j
                            } else {
                                j - 1
                            };
                            assert(s[sj] == old_s[j]);
                            assert(has_id(s, k));
                        }
                    }
                    assert(entries_to_map(s) =~= entries_to_map(old_s).remove(id));
                }
            },
            None => {
                proof {
                    assert(entries_to_map(old_s) =~= entries_to_map(old_s).remove(id));
                }
            },
        }
    }
}

} // verus!
