use crate::msg::act::Act;
use crate::msg::tx::TxId;
use crate::tx::keyed_pool::{has_key, put, without_all, KeyedPool};
use vstd::prelude::*;

verus! {

/// The acts waiting to go into a block, under their ids.
pub struct ActPool {
    map: KeyedPool<TxId, Act>,
}

impl ActPool {
    /// The acts under their ids, in the order in which they came.
    pub closed spec fn entries(&self) -> Seq<(Seq<u8>, Act)> {
        self.map.entries()
    }

    pub closed spec fn wf(&self) -> bool {
        self.map.wf()
    }

    /// An empty pool with room for `capacity` acts.
    pub fn with_capacity(capacity: usize) -> (p: Self)
        ensures
            p.wf(),
            p.entries() == Seq::<(Seq<u8>, Act)>::empty(),
    {
        ActPool { map: KeyedPool::with_capacity(capacity) }
    }

    /// Whether an act is under `act_id`.
    pub fn contains_act(&self, act_id: &TxId) -> (r: bool)
        ensures
            r == has_key(self.entries(), act_id@),
    {
        self.map.contains_key(act_id)
    }

    /// The ids and copies of the first `count` acts (all of them, if there
    /// are fewer).
    pub fn get_acts(&self, count: usize) -> (r: (Vec<TxId>, Vec<Act>))
        ensures
            r.0@.len() == r.1@.len(),
            r.0@.len() == if count < self.entries().len() {
                count as int
            } else {
                self.entries().len() as int
            },
            forall|i: int|
                0 <= i < r.0@.len() ==> (#[trigger] r.0@[i])@ == self.entries()[i].0 && r.1@[i]@
                    == self.entries()[i].1@,
    {
        let mut act_ids: Vec<TxId> = Vec::new();
        let mut acts: Vec<Act> = Vec::new();
        let n = self.map.len();
        let mut i: usize = 0;
        while i < count && i < n
            invariant
                n == self.entries().len(),
                i <= n,
                i <= count,
                act_ids@.len() == i,
                acts@.len() == i,
                forall|j: int|
                    0 <= j < i ==> (#[trigger] act_ids@[j])@ == self.entries()[j].0 && acts@[j]@
                        == self.entries()[j].1@,
            decreases n - i,
        {
            let (id, act) = self.map.entry(i);
            act_ids.push(*id);
            acts.push(act.clone());
            i = i + 1;
        }
        (act_ids, acts)
    }

    /// Puts an act under its id, in place of the act under it, if any.
    pub fn insert_act(&mut self, act_id: TxId, act: Act)
        requires
            old(self).wf(),
        ensures
            final(self).wf(),
            final(self).entries() == put(old(self).entries(), act_id@, act),
    {
        self.map.insert(act_id, act)
    }

    /// Removes the acts under each of the ids.
    pub fn remove_acts(&mut self, act_ids: &[TxId])
        requires
            old(self).wf(),
        ensures
            final(self).wf(),
            final(self).entries() == without_all(
                old(self).entries(),
                act_ids@.map_values(|k: TxId| k@),
            ),
    {
        self.map.remove_all(act_ids)
    }
}

} // verus!
