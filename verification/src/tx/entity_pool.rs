use crate::msg::tx::{ReqId, UpdateEntityTx};
use crate::tx::keyed_pool::KeyedPool;
use vstd::prelude::*;

verus! {

/// The entity updates waiting to go into a block, under their request ids.
pub struct EntityPool {
    map: KeyedPool<ReqId, UpdateEntityTx>,
}

impl EntityPool {
    /// The updates under their request ids.
    pub closed spec fn entries(&self) -> Seq<(Seq<char>, UpdateEntityTx)> {
        self.map.entries()
    }

    /// An empty pool with room for `capacity` updates.
    pub fn with_capacity(capacity: usize) -> (p: Self)
        ensures
            p.entries() == Seq::<(Seq<char>, UpdateEntityTx)>::empty(),
    {
        EntityPool { map: KeyedPool::with_capacity(capacity) }
    }
}

} // verus!
