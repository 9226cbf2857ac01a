//! What the watch-list registry has stored, as plain values, and the laws
//! that every entry point keeps.
use vstd::prelude::*;
use crate::registry::types::{OrgConfigView, WatchedEntryView};

verus! {

/// What the registry has stored, as plain values: the entry-id counter,
/// once seeded; the config of each registered org; the watched entries by
/// id; and the list of entry ids of each org that has added entries.
pub struct RegistryState {
    pub next_entry_id: Option<u64>,
    pub orgs: Map<Seq<u8>, OrgConfigView>,
    pub entries: Map<u64, WatchedEntryView>,
    pub org_entry_ids: Map<Seq<u8>, Seq<u64>>,
}

/// Every element of `s` is below the one after it.
pub open spec fn strictly_increasing(s: Seq<u64>) -> bool {
    forall|i: int, j: int| 0 <= i < j < s.len() ==> s[i] < s[j]
}

impl RegistryState {
    /// The config of `org`, if it is registered.
    pub open spec fn org(self, org: Seq<u8>) -> Option<OrgConfigView> {
        if self.orgs.contains_key(org) {
            Some(self.orgs[org])
        } else {
            None
        }
    }

    /// The watched entry with id `id`, if there is one.
    pub open spec fn entry(self, id: u64) -> Option<WatchedEntryView> {
        if self.entries.contains_key(id) {
            Some(self.entries[id])
        } else {
            None
        }
    }

    /// The entry-id counter: the last id handed out, 0 before any.
    pub open spec fn counter(self) -> u64 {
        match self.next_entry_id {
            Some(c) => c,
            None => 0,
        }
    }

    /// The ids of the entries that `org` added, in the order it added them.
    pub open spec fn ids_of(self, org: Seq<u8>) -> Seq<u64> {
        if self.org_entry_ids.contains_key(org) {
            self.org_entry_ids[org]
        } else {
            Seq::empty()
        }
    }

    /// The entries of `org`, in the order it added them.
    pub open spec fn entries_of(self, org: Seq<u8>) -> Seq<WatchedEntryView> {
        self.ids_of(org).map_values(|id: u64| self.entries[id])
    }

    /// The invariant that every entry point keeps: each entry is stored
    /// under its own id, which the counter has handed out, and belongs to
    /// a registered org whose list holds that id; each org's list holds
    /// only ids of its own entries, in strictly increasing order.
    pub open spec fn consistent(self) -> bool {
        &&& forall|id: u64| #[trigger]
            self.entries.contains_key(id) ==> {
                let e = self.entries[id];
                &&& e.id == id
                &&& 1 <= id <= self.counter()
                &&& self.orgs.contains_key(e.org)
                &&& self.ids_of(e.org).contains(id)
            }
        &&& forall|o: Seq<u8>, i: int|
            0 <= i < self.ids_of(o).len() ==> self.entries.contains_key(#[trigger] self.ids_of(o)[i])
                && self.entries[self.ids_of(o)[i]].org == o
        &&& forall|o: Seq<u8>| #[trigger] strictly_increasing(self.ids_of(o))
    }

    /// The state after seeding the entry-id counter.
    pub open spec fn after_init(self) -> RegistryState {
        RegistryState { next_entry_id: Some(0), ..self }
    }

    /// The state with `cfg` stored as the config of `org`: after it
    /// registers, or is deactivated.
    pub open spec fn with_org(self, org: Seq<u8>, cfg: OrgConfigView) -> RegistryState {
        RegistryState { orgs: self.orgs.insert(org, cfg), ..self }
    }

    /// The state after adding the entry `e`: stored under its id, appended
    /// to its org's list, and its id recorded as the counter's value.
    pub open spec fn after_add(self, e: WatchedEntryView) -> RegistryState {
        RegistryState {
            next_entry_id: Some(e.id),
            entries: self.entries.insert(e.id, e),
            org_entry_ids: self.org_entry_ids.insert(e.org, self.ids_of(e.org).push(e.id)),
            ..self
        }
    }

    /// The state after `org` removes its entry `id`: dropped from storage
    /// and from the org's list.
    pub open spec fn after_remove(self, org: Seq<u8>, id: u64) -> RegistryState {
        RegistryState {
            entries: self.entries.remove(id),
            org_entry_ids: self.org_entry_ids.insert(org, self.ids_of(org).remove_value(id)),
            ..self
        }
    }

    /// The state after replacing the stored entry with `e`.
    pub open spec fn after_update(self, e: WatchedEntryView) -> RegistryState {
        RegistryState { entries: self.entries.insert(e.id, e), ..self }
    }
}

/// What `s.remove_value(x)` holds, when `x` occurs in `s`: the elements of
/// `s` but the first `x`, in order.
pub proof fn lemma_remove_value_shape(s: Seq<u64>, x: u64) -> (p: int)
    requires
        s.contains(x),
    ensures
        0 <= p < s.len(),
        s[p] == x,
        s.remove_value(x).len() == s.len() - 1,
        forall|i: int| 0 <= i < p ==> #[trigger] s.remove_value(x)[i] == s[i],
        forall|i: int| p <= i < s.len() - 1 ==> #[trigger] s.remove_value(x)[i] == s[i + 1],
{
    s.index_of_first_ensures(x);
    let p = s.index_of_first(x)->Some_0;
    s.remove_ensures(p);
    p
}

/// Removing a value keeps a list strictly increasing, and keeps every
/// other value in it.
pub proof fn lemma_remove_value_increasing(s: Seq<u64>, x: u64)
    requires
        strictly_increasing(s),
    ensures
        strictly_increasing(s.remove_value(x)),
        forall|y: u64| y != x ==> (s.remove_value(x).contains(y) <==> s.contains(y)),
        forall|y: u64| s.remove_value(x).contains(y) ==> s.contains(y),
        !s.remove_value(x).contains(x),
{
    if s.contains(x) {
        let r = s.remove_value(x);
        let p = lemma_remove_value_shape(s, x);
        assert forall|i: int, j: int| 0 <= i < j < r.len() implies r[i] < r[j] by {
            let oi = if i < p {
                i
            } else {
                i + 1
            };
            let oj = if j < p {
                j
            } else {
                j + 1
            };
            assert(r[i] == s[oi]);
            assert(r[j] == s[oj]);
        }
        assert forall|y: u64| r.contains(y) implies s.contains(y) by {
            let i = choose|i: int| 0 <= i < r.len() && r[i] == y;
            if i < p {
                assert(s[i] == y);
            } else {
                assert(s[i + 1] == y);
            }
        }
        assert forall|y: u64| y != x && s.contains(y) implies r.contains(y) by {
            let i = choose|i: int| 0 <= i < s.len() && s[i] == y;
            if i < p {
                assert(r[i] == y);
            } else if i > p {
                assert(r[i - 1] == y);
            }
        }
        if r.contains(x) {
            let i = choose|i: int| 0 <= i < r.len() && r[i] == x;
            if i < p {
                assert(s[i] == s[p]);
            } else {
                assert(s[i + 1] == s[p]);
            }
        }
    } else {
        s.index_of_first_ensures(x);
    }
}

/// Law: seeding the counter keeps the registry consistent.
pub proof fn lemma_init_keeps_consistent(s: RegistryState)
    requires
        s.consistent(),
        s.next_entry_id is None,
    ensures
        s.after_init().consistent(),
{
    let t = s.after_init();
    assert forall|o: Seq<u8>| #[trigger] t.ids_of(o) == s.ids_of(o) by {}
}

/// Law: storing an org config, when an org registers or is deactivated,
/// keeps the registry consistent.
pub proof fn lemma_store_org_keeps_consistent(s: RegistryState, org: Seq<u8>, cfg: OrgConfigView)
    requires
        s.consistent(),
    ensures
        s.with_org(org, cfg).consistent(),
{
    let t = s.with_org(org, cfg);
    assert forall|o: Seq<u8>| #[trigger] t.ids_of(o) == s.ids_of(o) by {}
}

/// Law: adding an entry of a registered org, under the id after the
/// counter, keeps the registry consistent.
pub proof fn lemma_add_keeps_consistent(s: RegistryState, e: WatchedEntryView)
    requires
        s.consistent(),
        s.orgs.contains_key(e.org),
        e.id == s.counter() + 1,
    ensures
        s.after_add(e).consistent(),
{
    let t = s.after_add(e);
    let n = e.id;
    assert(t.ids_of(e.org) == s.ids_of(e.org).push(n));
    assert forall|o: Seq<u8>| o != e.org implies #[trigger] t.ids_of(o) == s.ids_of(o) by {}
    assert forall|o: Seq<u8>, i: int| 0 <= i < s.ids_of(o).len() implies #[trigger] s.ids_of(o)[i]
        < n by {
        let id = s.ids_of(o)[i];
        assert(s.entries.contains_key(id));
    }
    assert forall|id: u64| #[trigger] t.entries.contains_key(id) implies ({
        let x = t.entries[id];
        &&& x.id == id
        &&& 1 <= id <= t.counter()
        &&& t.orgs.contains_key(x.org)
        &&& t.ids_of(x.org).contains(id)
    }) by {
        if id == n {
            assert(t.ids_of(e.org)[s.ids_of(e.org).len() as int] == n);
        } else {
            let x = s.entries[id];
            assert(s.ids_of(x.org).contains(id));
            let k = choose|k: int| 0 <= k < s.ids_of(x.org).len() && s.ids_of(x.org)[k] == id;
            assert(t.ids_of(x.org)[k] == id);
        }
    }
    assert forall|o: Seq<u8>, i: int| 0 <= i < t.ids_of(o).len() implies t.entries.contains_key(
        #[trigger] t.ids_of(o)[i],
    ) && t.entries[t.ids_of(o)[i]].org == o by {
        if o == e.org && i == s.ids_of(o).len() {
        } else {
            assert(t.ids_of(o)[i] == s.ids_of(o)[i]);
            assert(s.ids_of(o)[i] < n);
        }
    }
    assert forall|o: Seq<u8>| #[trigger] strictly_increasing(t.ids_of(o)) by {
        assert(strictly_increasing(s.ids_of(o)));
        if o == e.org {
            assert forall|i: int, j: int| 0 <= i < j < t.ids_of(o).len() implies t.ids_of(o)[i]
                < t.ids_of(o)[j] by {
                assert(s.ids_of(o)[i] < n);
            }
        }
    }
}

/// Law: removing an entry of the org that owns it keeps the registry
/// consistent.
pub proof fn lemma_remove_keeps_consistent(s: RegistryState, org: Seq<u8>, id: u64)
    requires
        s.consistent(),
        s.entries.contains_key(id),
        s.entries[id].org == org,
    ensures
        s.after_remove(org, id).consistent(),
{
    let t = s.after_remove(org, id);
    assert(strictly_increasing(s.ids_of(org)));
    lemma_remove_value_increasing(s.ids_of(org), id);
    assert(t.ids_of(org) == s.ids_of(org).remove_value(id));
    assert forall|o: Seq<u8>| o != org implies #[trigger] t.ids_of(o) == s.ids_of(o) by {}
    assert forall|x: u64| #[trigger] t.entries.contains_key(x) implies ({
        let y = t.entries[x];
        &&& y.id == x
        &&& 1 <= x <= t.counter()
        &&& t.orgs.contains_key(y.org)
        &&& t.ids_of(y.org).contains(x)
    }) by {
        let y = s.entries[x];
        assert(s.ids_of(y.org).contains(x));
    }
    assert forall|o: Seq<u8>, i: int| 0 <= i < t.ids_of(o).len() implies t.entries.contains_key(
        #[trigger] t.ids_of(o)[i],
    ) && t.entries[t.ids_of(o)[i]].org == o by {
        let x = t.ids_of(o)[i];
        assert(t.ids_of(o).contains(x));
        if o == org {
            assert(s.ids_of(o).contains(x));
            assert(x != id);
        }
        let k = choose|k: int| 0 <= k < s.ids_of(o).len() && s.ids_of(o)[k] == x;
        assert(s.entries.contains_key(s.ids_of(o)[k]));
    }
    assert forall|o: Seq<u8>| #[trigger] strictly_increasing(t.ids_of(o)) by {
        assert(strictly_increasing(s.ids_of(o)));
    }
}

/// Law: replacing a stored entry by one with the same id and org keeps
/// the registry consistent.
pub proof fn lemma_update_keeps_consistent(s: RegistryState, e: WatchedEntryView)
    requires
        s.consistent(),
        s.entries.contains_key(e.id),
        s.entries[e.id].org == e.org,
    ensures
        s.after_update(e).consistent(),
{
    let t = s.after_update(e);
    assert forall|o: Seq<u8>| #[trigger] t.ids_of(o) == s.ids_of(o) by {}
    assert forall|o: Seq<u8>, i: int| 0 <= i < t.ids_of(o).len() implies t.entries.contains_key(
        #[trigger] t.ids_of(o)[i],
    ) && t.entries[t.ids_of(o)[i]].org == o by {
        assert(s.entries.contains_key(s.ids_of(o)[i]));
    }
}

} // verus!
