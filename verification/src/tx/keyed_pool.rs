//! A pool of pending items, each under a key: at most one item per key,
//! kept in the order in which the keys came.

use crate::hashed::Hashed;
use crate::msg::tx::WasmId;
use vstd::prelude::*;

verus! {

/// Keys that can be compared by their view.
pub trait PoolKey: View + Sized {
    fn key_eq(&self, other: &Self) -> (r: bool)
        ensures
            r == (self@ == other@);
}

impl PoolKey for Hashed {
    fn key_eq(&self, other: &Self) -> (r: bool) {
        self.same_as(other)
    }
}

impl PoolKey for WasmId {
    fn key_eq(&self, other: &Self) -> (r: bool) {
        self.wasm_hash.same_as(&other.wasm_hash) && self.proto == other.proto
    }
}

impl PoolKey for String {
    fn key_eq(&self, other: &Self) -> (r: bool) {
        *self == *other
    }
}

/// Items under keys; no key occurs twice.
pub struct KeyedPool<K, V> {
    items: Vec<(K, V)>,
}

/// No key occurs twice.
pub open spec fn distinct_keys<KV, V>(e: Seq<(KV, V)>) -> bool {
    forall|i: int, j: int| 0 <= i < j < e.len() ==> #[trigger] e[i].0 != #[trigger] e[j].0
}

/// Some entry has this key.
pub open spec fn has_key<KV, V>(e: Seq<(KV, V)>, k: KV) -> bool {
    exists|i: int| 0 <= i < e.len() && (#[trigger] e[i]).0 == k
}

/// The entries after `v` is put under `k`: an entry with the key is
/// replaced in place, else the entry is added at the end.
pub open spec fn put<KV, V>(e: Seq<(KV, V)>, k: KV, v: V) -> Seq<(KV, V)> {
    if has_key(e, k) {
        e.update(choose|i: int| 0 <= i < e.len() && (#[trigger] e[i]).0 == k, (k, v))
    } else {
        e.push((k, v))
    }
}

/// The entries without the one under `k`, if any; the order is kept.
pub open spec fn without<KV, V>(e: Seq<(KV, V)>, k: KV) -> Seq<(KV, V)> {
    e.filter(|x: (KV, V)| x.0 != k)
}

/// The entries without those under any of the keys `ks`.
pub open spec fn without_all<KV, V>(e: Seq<(KV, V)>, ks: Seq<KV>) -> Seq<(KV, V)> {
    e.filter(|x: (KV, V)| !ks.contains(x.0))
}

proof fn lemma_filter_distinct<KV, V>(e: Seq<(KV, V)>, p: spec_fn((KV, V)) -> bool, i: int, j: int)
    requires
        distinct_keys(e),
        0 <= i < j < e.filter(p).len(),
    ensures
        e.filter(p)[i].0 != e.filter(p)[j].0,
    decreases e.len(),
{
    reveal_with_fuel(Seq::filter, 1);
    let f = e.filter(p);
    let rest = e.drop_last();
    assert(distinct_keys(rest));
    if p(e.last()) && j == f.len() - 1 {
        rest.lemma_filter_contains_rev(p, f[i]);
        let k = choose|k: int| 0 <= k < rest.len() && rest[k] == f[i];
        assert(e[k] == f[i]);
        assert(e[k].0 != e[e.len() - 1].0);
    } else {
        lemma_filter_distinct(rest, p, i, j);
    }
}

impl<K: PoolKey, V> KeyedPool<K, V> {
    /// The entries, keys by their view, in order.
    pub closed spec fn entries(&self) -> Seq<(K::V, V)> {
        self.items@.map_values(|e: (K, V)| (e.0@, e.1))
    }

    pub open spec fn wf(&self) -> bool {
        distinct_keys(self.entries())
    }

    /// An empty pool with room for `capacity` items.
    pub fn with_capacity(capacity: usize) -> (p: Self)
        ensures
            p.wf(),
            p.entries() == Seq::<(K::V, V)>::empty(),
    {
        let p = KeyedPool { items: Vec::with_capacity(capacity) };
        assert(p.entries() =~= Seq::<(K::V, V)>::empty());
        p
    }

    /// The number of items.
    pub fn len(&self) -> (n: usize)
        ensures
            n == self.entries().len(),
    {
        self.items.len()
    }

    /// The `i`-th entry.
    pub fn entry(&self, i: usize) -> (r: (&K, &V))
        requires
            i < self.entries().len(),
        ensures
            r.0@ == self.entries()[i as int].0,
            *r.1 == self.entries()[i as int].1,
    {
        let e = &self.items[i];
        (&e.0, &e.1)
    }

    fn find(&self, key: &K) -> (r: Option<usize>)
        ensures
            match r {
                Some(i) => i < self.entries().len() && self.entries()[i as int].0 == key@,
                None => !has_key(self.entries(), key@),
            },
    {
        let mut i: usize = 0;
        while i < self.items.len()
            invariant
                i <= self.items@.len(),
                forall|j: int| 0 <= j < i ==> (#[trigger] self.entries()[j]).0 != key@,
            decreases self.items@.len() - i,
        {
            assert(self.entries()[i as int].0 == self.items@[i as int].0@);
            if self.items[i].0.key_eq(key) {
                return Some(i);
            }
            i = i + 1;
        }
        None
    }

    /// Whether an item is under `key`.
    pub fn contains_key(&self, key: &K) -> (r: bool)
        ensures
            r == has_key(self.entries(), key@),
    {
        self.find(key).is_some()
    }

    /// The item under `key`.
    pub fn get(&self, key: &K) -> (r: Option<&V>)
        requires
            self.wf(),
        ensures
            match r {
                Some(v) => exists|i: int|
                    0 <= i < self.entries().len() && #[trigger] self.entries()[i] == (key@, *v),
                None => !has_key(self.entries(), key@),
            },
    {
        match self.find(key) {
            Some(i) => Some(&self.items[i].1),
            None => None,
        }
    }

    /// Puts `value` under `key`, in place of the item under it, if any.
    pub fn insert(&mut self, key: K, value: V)
        requires
            old(self).wf(),
        ensures
            final(self).wf(),
            final(self).entries() == put(old(self).entries(), key@, value),
    {
        let ghost e0 = self.entries();
        let ghost kv = key@;
        match self.find(&key) {
            Some(i) => {
                self.items.set(i, (key, value));
                proof {
                    let c = choose|j: int| 0 <= j < e0.len() && (#[trigger] e0[j]).0 == kv;
                    if c < i {
                        assert(e0[c].0 != e0[i as int].0);
                    } else if c > i {
                        assert(e0[i as int].0 != e0[c].0);
                    }
                    assert(self.entries() =~= e0.update(i as int, (kv, value)));
                    assert(forall|x: int| 0 <= x < e0.len() ==> (#[trigger] self.entries()[x]).0 == e0[x].0);
                }
            },
            None => {
                self.items.push((key, value));
                assert(self.entries() =~= e0.push((kv, value)));
            },
        }
    }

    /// Removes the item under `key`, if any.
    pub fn remove(&mut self, key: &K)
        requires
            old(self).wf(),
        ensures
            final(self).wf(),
            final(self).entries() == without(old(self).entries(), key@),
    {
        let ghost e0 = self.entries();
        match self.find(key) {
            Some(i) => {
                self.items.remove(i);
                proof {
                    let p = |x: (K::V, V)| x.0 != key@;
                    lemma_filter_drop_one(e0, p, i as int);
                    assert(self.entries() =~= e0.remove(i as int));
                }
            },
            None => {
                proof {
                    let p = |x: (K::V, V)| x.0 != key@;
                    lemma_filter_all(e0, p);
                }
            },
        }
    }

    /// Removes the items under each of `keys`.
    pub fn remove_all(&mut self, keys: &[K])
        requires
            old(self).wf(),
        ensures
            final(self).wf(),
            final(self).entries() == without_all(
                old(self).entries(),
                keys@.map_values(|k: K| k@),
            ),
    {
        let ghost e0 = self.entries();
        let ghost ks = keys@.map_values(|k: K| k@);
        proof {
            assert(ks.take(0) =~= Seq::<K::V>::empty());
            lemma_filter_all(e0, |x: (K::V, V)| !ks.take(0).contains(x.0));
        }
        let mut i: usize = 0;
        while i < keys.len()
            invariant
                i <= keys@.len(),
                ks == keys@.map_values(|k: K| k@),
                self.wf(),
                self.entries() == without_all(e0, ks.take(i as int)),
            decreases keys@.len() - i,
        {
            let ghost before = self.entries();
            self.remove(&keys[i]);
            proof {
                lemma_without_step(e0, ks, i as int);
            }
            i = i + 1;
        }
        assert(ks.take(keys@.len() as int) =~= ks);
    }
}

/// Removing a set of keys leaves none of them in the pool, and keeps every
/// entry under another key.
pub proof fn law_removed_keys_are_gone<KV, V>(e: Seq<(KV, V)>, ks: Seq<KV>)
    ensures
        forall|k: KV| ks.contains(k) ==> !has_key(#[trigger] without_all(e, ks), k),
        forall|i: int|
            0 <= i < e.len() && !ks.contains((#[trigger] e[i]).0) ==> without_all(e, ks).contains(
                e[i],
            ),
{
    let p = |x: (KV, V)| !ks.contains(x.0);
    assert forall|k: KV| ks.contains(k) implies !has_key(#[trigger] without_all(e, ks), k) by {
        let f = e.filter(p);
        if has_key(f, k) {
            let i = choose|i: int| 0 <= i < f.len() && (#[trigger] f[i]).0 == k;
            e.lemma_filter_pred(p, i);
        }
    }
    assert forall|i: int|
        0 <= i < e.len() && !ks.contains((#[trigger] e[i]).0) implies without_all(e, ks).contains(
        e[i],
    ) by {
        e.lemma_filter_contains(p, i);
    }
}

/// After an item is put under a key, the key is in the pool and the item
/// is under it.
pub proof fn law_put_then_get<KV, V>(e: Seq<(KV, V)>, k: KV, v: V)
    ensures
        has_key(put(e, k, v), k),
        exists|i: int| 0 <= i < put(e, k, v).len() && #[trigger] put(e, k, v)[i] == (k, v),
{
    let p = put(e, k, v);
    if has_key(e, k) {
        let i = choose|i: int| 0 <= i < e.len() && (#[trigger] e[i]).0 == k;
        assert(p[i] == (k, v));
    } else {
        assert(p[e.len() as int] == (k, v));
    }
}

proof fn lemma_filter_all<A>(e: Seq<A>, p: spec_fn(A) -> bool)
    requires
        forall|i: int| 0 <= i < e.len() ==> p(#[trigger] e[i]),
    ensures
        e.filter(p) == e,
    decreases e.len(),
{
    reveal_with_fuel(Seq::filter, 1);
    if e.len() > 0 {
        lemma_filter_all(e.drop_last(), p);
        assert(e.drop_last().push(e.last()) =~= e);
    }
}

proof fn lemma_filter_drop_one<KV, V>(e: Seq<(KV, V)>, p: spec_fn((KV, V)) -> bool, i: int)
    requires
        0 <= i < e.len(),
        !p(e[i]),
        forall|j: int| 0 <= j < e.len() && j != i ==> p(#[trigger] e[j]),
    ensures
        e.filter(p) == e.remove(i),
    decreases e.len(),
{
    reveal_with_fuel(Seq::filter, 1);
    if i == e.len() - 1 {
        lemma_filter_all(e.drop_last(), p);
        assert(e.remove(i) =~= e.drop_last());
    } else {
        lemma_filter_drop_one(e.drop_last(), p, i);
        assert(e.remove(i) =~= e.drop_last().remove(i).push(e.last()));
    }
}

proof fn lemma_filter_filter<A>(
    e: Seq<A>,
    p1: spec_fn(A) -> bool,
    p2: spec_fn(A) -> bool,
    q: spec_fn(A) -> bool,
)
    requires
        forall|x: A| #[trigger] q(x) == (p1(x) && p2(x)),
    ensures
        e.filter(p1).filter(p2) == e.filter(q),
    decreases e.len(),
{
    reveal_with_fuel(Seq::filter, 1);
    if e.len() > 0 {
        lemma_filter_filter(e.drop_last(), p1, p2, q);
        let f = e.drop_last().filter(p1);
        if p1(e.last()) {
            assert(f.push(e.last()).drop_last() =~= f);
        }
    }
}

proof fn lemma_without_step<KV, V>(e: Seq<(KV, V)>, ks: Seq<KV>, i: int)
    requires
        0 <= i < ks.len(),
    ensures
        without(without_all(e, ks.take(i)), ks[i]) == without_all(e, ks.take(i + 1)),
{
    let k0 = ks.take(i);
    let k1 = ks.take(i + 1);
    assert(k1 =~= k0.push(ks[i]));
    assert forall|x: KV| k1.contains(x) <==> (k0.contains(x) || x == ks[i]) by {
        if x == ks[i] {
            assert(k1[i] == x);
        }
        if k0.contains(x) {
            let j = choose|j: int| 0 <= j < k0.len() && k0[j] == x;
            assert(k1[j] == x);
        }
        if k1.contains(x) && x != ks[i] {
            let j = choose|j: int| 0 <= j < k1.len() && k1[j] == x;
            assert(k0[j] == x);
        }
    }
    let p1 = |x: (KV, V)| !k0.contains(x.0);
    let p2 = |x: (KV, V)| x.0 != ks[i];
    let q = |x: (KV, V)| !k1.contains(x.0);
    lemma_filter_filter(e, p1, p2, q);
}

} // verus!
