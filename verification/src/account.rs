//! Stellar addresses as plain values, and a map keyed by them.
//!
//! A Stellar address (an account `G...` or a contract `C...`) is identified
//! by its strkey text. The contracts only ever compare addresses for
//! equality, so an address is held here as the bytes of its strkey.
use vstd::prelude::*;

verus! {

/// A Stellar address (account or contract), held as the bytes of its strkey.
pub struct AccountId {
    pub bytes: Vec<u8>,
}

impl View for AccountId {
    type V = Seq<u8>;

    open spec fn view(&self) -> Seq<u8> {
        self.bytes@
    }
}

impl AccountId {
    /// Wraps the strkey bytes of an address.
    pub fn new(bytes: Vec<u8>) -> (r: AccountId)
        ensures
            r@ == bytes@,
    {
        AccountId { bytes }
    }

    /// Whether two addresses are the same address.
    pub fn same_as(&self, other: &AccountId) -> (r: bool)
        ensures
            r == (self@ == other@),
    {
        let n = self.bytes.len();
        if n != other.bytes.len() {
            return false;
        }
        let mut i: usize = 0;
        while i < n
            invariant
                n == self.bytes@.len(),
                n == other.bytes@.len(),
                i <= n,
                forall|j: int| 0 <= j < i ==> self.bytes@[j] == other.bytes@[j],
            decreases n - i,
        {
            if self.bytes[i] != other.bytes[i] {
                return false;
            }
            i = i + 1;
        }
        assert(self.bytes@ =~= other.bytes@);
        true
    }

    /// A copy of this address.
    pub fn duplicate(&self) -> (r: AccountId)
        ensures
            r@ == self@,
    {
        AccountId { bytes: copy_bytes(&self.bytes) }
    }
}

/// A copy of a byte string.
pub fn copy_bytes(v: &Vec<u8>) -> (r: Vec<u8>)
    ensures
        r@ == v@,
{
    let mut bytes: Vec<u8> = Vec::new();
    let n = v.len();
    let mut i: usize = 0;
    while i < n
        invariant
            n == v@.len(),
            i <= n,
            bytes@ == v@.subrange(0, i as int),
        decreases n - i,
    {
        bytes.push(v[i]);
        i = i + 1;
        assert(bytes@ =~= v@.subrange(0, i as int));
    }
    assert(bytes@ =~= v@);
    bytes
}

/// Whether no two pairs of `s` have the same address.
pub open spec fn keys_unique<V>(s: Seq<(AccountId, V)>) -> bool {
    forall|i: int, j: int| 0 <= i < j < s.len() ==> s[i].0@ != s[j].0@
}

/// Whether some pair of `s` has the address `k`.
pub open spec fn has_key<V>(s: Seq<(AccountId, V)>, k: Seq<u8>) -> bool {
    exists|i: int| 0 <= i < s.len() && s[i].0@ == k
}

/// The map that a sequence of (address, value) pairs stands for.
pub open spec fn pairs_to_map<V: View>(s: Seq<(AccountId, V)>) -> Map<Seq<u8>, V::V> {
    Map::new(
        |k: Seq<u8>| has_key(s, k),
        |k: Seq<u8>| s[choose|i: int| 0 <= i < s.len() && s[i].0@ == k].1@,
    )
}

/// With unique keys, the pair at index `i` is what the map holds for its key.
pub proof fn lemma_pairs_to_map_at<V: View>(s: Seq<(AccountId, V)>, i: int)
    requires
        keys_unique(s),
        0 <= i < s.len(),
    ensures
        pairs_to_map(s).contains_key(s[i].0@),
        pairs_to_map(s)[s[i].0@] == s[i].1@,
{
    let k = s[i].0@;
    assert(has_key(s, k));
    let j = choose|j: int| 0 <= j < s.len() && s[j].0@ == k;
    if j < i {
        assert(s[j].0@ != s[i].0@);
    } else if i < j {
        assert(s[i].0@ != s[j].0@);
    }
}

/// A map from addresses to values, kept as a vector of pairs in which no
/// address occurs twice.
pub struct AccountMap<V> {
    pairs: Vec<(AccountId, V)>,
}

impl<V: View> View for AccountMap<V> {
    type V = Map<Seq<u8>, V::V>;

    closed spec fn view(&self) -> Map<Seq<u8>, V::V> {
        pairs_to_map(self.pairs@)
    }
}

impl<V> AccountMap<V> {
    /// No address occurs twice among the pairs.
    pub closed spec fn wf(&self) -> bool {
        keys_unique(self.pairs@)
    }
}

impl<V: View> AccountMap<V> {
    /// The map with no address in it.
    pub fn new() -> (m: AccountMap<V>)
        ensures
            m.wf(),
            m@ == Map::<Seq<u8>, V::V>::empty(),
    {
        let m = AccountMap { pairs: Vec::new() };
        assert(m@ =~= Map::<Seq<u8>, V::V>::empty());
        m
    }

    /// Where `k` stands among the pairs, if it is there.
    fn position(&self, k: &AccountId) -> (r: Option<usize>)
        ensures
            match r {
                Some(i) => i < self.pairs@.len() && self.pairs@[i as int].0@ == k@,
                None => !has_key(self.pairs@, k@),
            },
    {
        let n = self.pairs.len();
        let mut i: usize = 0;
        while i < n
            invariant
                n == self.pairs@.len(),
                i <= n,
                forall|j: int| 0 <= j < i ==> self.pairs@[j].0@ != k@,
            decreases n - i,
        {
            if self.pairs[i].0.same_as(k) {
                return Some(i);
            }
            i = i + 1;
        }
        None
    }

    /// The value held for `k`, if any.
    pub fn get(&self, k: &AccountId) -> (r: Option<&V>)
        requires
            self.wf(),
        ensures
            r is Some <==> self@.contains_key(k@),
            r matches Some(v) ==> v@ == self@[k@],
    {
        match self.position(k) {
            Some(i) => {
                proof {
                    lemma_pairs_to_map_at(self.pairs@, i as int);
                }
                Some(&self.pairs[i].1)
            },
            None => None,
        }
    }

    /// Whether `k` has a value.
    pub fn contains(&self, k: &AccountId) -> (r: bool)
        requires
            self.wf(),
        ensures
            r == self@.contains_key(k@),
    {
        self.get(k).is_some()
    }

    /// Holds `v` for `k`, in place of what `k` held before, if anything.
    pub fn insert(&mut self, k: AccountId, v: V)
        requires
            old(self).wf(),
        ensures
            final(self).wf(),
            final(self)@ == old(self)@.insert(k@, v@),
    {
        let ghost old_pairs = self.pairs@;
        let ghost kv = k@;
        let ghost vv = v@;
        match self.position(&k) {
            Some(i) => {
                self.pairs.set(i, (k, v));
                proof {
                    let s = self.pairs@;
                    assert(s == old_pairs.update(i as int, s[i as int]));
                    assert(keys_unique(s)) by {
                        assert forall|a: int, b: int| 0 <= a < b < s.len() implies s[a].0@
                            != s[b].0@ by {
                            assert(old_pairs[a].0@ != old_pairs[b].0@);
                        }
                    }
                    assert forall|key: Seq<u8>| #[trigger]
                        pairs_to_map(s).contains_key(key) == pairs_to_map(
                            old_pairs,
                        ).insert(kv, vv).contains_key(key) && (pairs_to_map(s).contains_key(key)
                            ==> pairs_to_map(s)[key] == pairs_to_map(old_pairs).insert(
                            kv,
                            vv,
                        )[key]) by {
                        if key == kv {
                            lemma_pairs_to_map_at(s, i as int);
                        } else if has_key(old_pairs, key) {
                            let j = choose|j: int| 0 <= j < old_pairs.len() && old_pairs[j].0@ == key;
                            lemma_pairs_to_map_at(old_pairs, j);
                            lemma_pairs_to_map_at(s, j);
                        } else {
                            if has_key(s, key) {
                                let j = choose|j: int| 0 <= j < s.len() && s[j].0@ == key;
                                assert(old_pairs[j].0@ == key);
                            }
                        }
                    }
                    assert(pairs_to_map(s) =~= pairs_to_map(old_pairs).insert(kv, vv));
                }
            },
            None => {
                self.pairs.push((k, v));
                proof {
                    let s = self.pairs@;
                    assert(s == old_pairs.push(s[s.len() - 1]));
                    assert(keys_unique(s)) by {
                        assert forall|a: int, b: int| 0 <= a < b < s.len() implies s[a].0@
                            != s[b].0@ by {
                            if b < old_pairs.len() {
                                assert(old_pairs[a].0@ != old_pairs[b].0@);
                            } else {
                                assert(old_pairs[a].0@ != kv);
                            }
                        }
                    }
                    assert forall|key: Seq<u8>| #[trigger]
                        pairs_to_map(s).contains_key(key) == pairs_to_map(
                            old_pairs,
                        ).insert(kv, vv).contains_key(key) && (pairs_to_map(s).contains_key(key)
                            ==> pairs_to_map(s)[key] == pairs_to_map(old_pairs).insert(
                            kv,
                            vv,
                        )[key]) by {
                        if key == kv {
                            lemma_pairs_to_map_at(s, old_pairs.len() as int);
                        } else if has_key(old_pairs, key) {
                            let j = choose|j: int| 0 <= j < old_pairs.len() && old_pairs[j].0@ == key;
                            lemma_pairs_to_map_at(old_pairs, j);
                            lemma_pairs_to_map_at(s, j);
                        } else {
                            if has_key(s, key) {
                                let j = choose|j: int| 0 <= j < s.len() && s[j].0@ == key;
                                assert(old_pairs[j].0@ == key);
                            }
                        }
                    }
                    assert(pairs_to_map(s) =~= pairs_to_map(old_pairs).insert(kv, vv));
                }
            },
        }
    }
}

} // verus!
