use crate::msg::tx::{TxId, WasmTx};
use crate::tx::keyed_pool::KeyedPool;
use vstd::prelude::*;

verus! {

/// The ids and copies of all wasm transactions of the pool, in pool order.
pub fn get_wasm_txs_from_pool(pool: &KeyedPool<TxId, WasmTx>) -> (r: (Vec<TxId>, Vec<WasmTx>))
    ensures
        r.0@.len() == pool.entries().len(),
        r.1@.len() == pool.entries().len(),
        forall|i: int|
            0 <= i < r.0@.len() ==> (#[trigger] r.0@[i])@ == pool.entries()[i].0 && r.1@[i]@
                == pool.entries()[i].1@,
{
    let mut tx_ids: Vec<TxId> = Vec::new();
    let mut txs: Vec<WasmTx> = Vec::new();
    let n = pool.len();
    let mut i: usize = 0;
    while i < n
        invariant
            n == pool.entries().len(),
            i <= n,
            tx_ids@.len() == i,
            txs@.len() == i,
            forall|j: int|
                0 <= j < i ==> (#[trigger] tx_ids@[j])@ == pool.entries()[j].0 && txs@[j]@
                    == pool.entries()[j].1@,
        decreases n - i,
    {
        let (id, tx) = pool.entry(i);
        tx_ids.push(*id);
        txs.push(tx.clone());
        i = i + 1;
    }
    (tx_ids, txs)
}

} // verus!
