use crate::msg::tx::{ActTx, TxId};
use crate::tx::keyed_pool::KeyedPool;
use vstd::prelude::*;

verus! {

/// The ids and copies of the first `count` act transactions of the pool
/// (all of them, if there are fewer), in pool order.
pub fn get_act_txs_from_pool(pool: &KeyedPool<TxId, ActTx>, count: usize) -> (r: (
    Vec<TxId>,
    Vec<ActTx>,
))
    ensures
        r.0@.len() == r.1@.len(),
        r.0@.len() == if count < pool.entries().len() {
            count as int
        } else {
            pool.entries().len() as int
        },
        forall|i: int|
            0 <= i < r.0@.len() ==> (#[trigger] r.0@[i])@ == pool.entries()[i].0 && r.1@[i]@
                == pool.entries()[i].1@,
{
    let mut tx_ids: Vec<TxId> = Vec::new();
    let mut txs: Vec<ActTx> = Vec::new();
    let n = pool.len();
    let mut i: usize = 0;
    while i < count && i < n
        invariant
            n == pool.entries().len(),
            i <= n,
            i <= count,
            tx_ids@.len() == i,
            txs@.len() == i,
            forall|j: int|
                0 <= j < i ==> (#[trigger] tx_ids@[j])@ == pool.entries()[j].0 && txs@[j]@
                    == pool.entries()[j].1@,
        decreases n - i,
    {
        let (id, tx) = pool.entry(i);
        tx_ids.push(*id);
        txs.push(tx.clone());
        i = i + 1;
    }
    (tx_ids, txs)
}

} // verus!
