use crate::crypto::sha256_spec;
use crate::msg::act::UploadWasm;
use crate::msg::tx::{act_tx_hash_input, wasm_binary_hash, ActTx, TxId, WasmId, WasmInfo, WasmTx};
use crate::tx::keyed_pool::{has_key, without_all, KeyedPool};
use vstd::prelude::*;

verus! {

/// Why a transaction was not put into the pool.
#[derive(Debug, Clone, PartialEq, Eq)]
pub enum PutTxError {
    /// A transaction with the same id is already in the pool.
    InPool,
    /// The chain refused it (it already holds the transaction, or could not
    /// be read); the reason is given.
    Rejected(String),
}

/// The transactions waiting to go into a block: act transactions under
/// their ids, wasm transactions under their wasm ids.
pub struct TxPool {
    act_txs: KeyedPool<TxId, ActTx>,
    wasm_txs: KeyedPool<WasmId, WasmInfo>,
}

impl TxPool {
    /// The act transactions under their ids, in the order in which they came.
    pub closed spec fn act_entries(&self) -> Seq<(Seq<u8>, ActTx)> {
        self.act_txs.entries()
    }

    /// The wasm transactions under their wasm ids.
    pub closed spec fn wasm_entries(&self) -> Seq<((Seq<char>, Seq<u8>), WasmInfo)> {
        self.wasm_txs.entries()
    }

    pub closed spec fn wf(&self) -> bool {
        self.act_txs.wf() && self.wasm_txs.wf()
    }

    /// An empty pool, with room for `act_capacity` act transactions and
    /// `wasm_capacity` wasm transactions.
    pub fn new(act_capacity: usize, wasm_capacity: usize) -> (p: Self)
        ensures
            p.wf(),
            p.act_entries() == Seq::<(Seq<u8>, ActTx)>::empty(),
            p.wasm_entries() == Seq::<((Seq<char>, Seq<u8>), WasmInfo)>::empty(),
    {
        TxPool {
            act_txs: KeyedPool::with_capacity(act_capacity),
            wasm_txs: KeyedPool::with_capacity(wasm_capacity),
        }
    }

    /// The pool of act transactions.
    pub fn act_txs(&self) -> (r: &KeyedPool<TxId, ActTx>)
        ensures
            r.entries() == self.act_entries(),
            self.wf() ==> r.wf(),
    {
        &self.act_txs
    }

    /// The pool of wasm transactions.
    pub fn wasm_txs(&self) -> (r: &KeyedPool<WasmId, WasmInfo>)
        ensures
            r.entries() == self.wasm_entries(),
    {
        &self.wasm_txs
    }

    /// Puts an act transaction into the pool under its id, which it
    /// returns. It is refused if a transaction with the same id is in the
    /// pool, else if `chain_check`, the chain's answer to whether it already
    /// holds the transaction, is an error.
    pub fn put_act_tx_to_pool(&mut self, act_tx: ActTx, chain_check: Result<(), String>) -> (r:
        Result<TxId, PutTxError>)
        requires
            old(self).wf(),
        ensures
            final(self).wf(),
            final(self).wasm_entries() == old(self).wasm_entries(),
            ({
                let id = sha256_spec(act_tx_hash_input(act_tx));
                if has_key(old(self).act_entries(), id) {
                    &&& r == Err::<TxId, PutTxError>(PutTxError::InPool)
                    &&& final(self).act_entries() == old(self).act_entries()
                } else if chain_check is Err {
                    &&& r == Err::<TxId, PutTxError>(PutTxError::Rejected(chain_check->Err_0))
                    &&& final(self).act_entries() == old(self).act_entries()
                } else {
                    &&& r matches Ok(h) && h@ == id
                    &&& final(self).act_entries() == old(self).act_entries().push((id, act_tx))
                }
            }),
    {
        let act_tx_id = act_tx.calc_hash();
        if self.act_txs.contains_key(&act_tx_id) {
            return Err(PutTxError::InPool);
        }
        match chain_check {
            Err(reason) => Err(PutTxError::Rejected(reason)),
            Ok(()) => {
                self.act_txs.insert(act_tx_id, act_tx);
                Ok(act_tx_id)
            },
        }
    }

    /// Puts a wasm transaction into the pool. It is refused if a
    /// transaction with the same wasm id is in the pool, else if
    /// `chain_check` is an error.
    pub fn put_wasm_tx_to_pool(
        &mut self,
        key: WasmId,
        info: WasmInfo,
        chain_check: Result<(), String>,
    ) -> (r: Result<(), PutTxError>)
        requires
            old(self).wf(),
        ensures
            final(self).wf(),
            final(self).act_entries() == old(self).act_entries(),
            if has_key(old(self).wasm_entries(), key@) {
                &&& r == Err::<(), PutTxError>(PutTxError::InPool)
                &&& final(self).wasm_entries() == old(self).wasm_entries()
            } else if chain_check is Err {
                &&& r == Err::<(), PutTxError>(PutTxError::Rejected(chain_check->Err_0))
                &&& final(self).wasm_entries() == old(self).wasm_entries()
            } else {
                &&& r is Ok
                &&& final(self).wasm_entries() == old(self).wasm_entries().push((key@, info))
            },
    {
        if self.wasm_txs.contains_key(&key) {
            return Err(PutTxError::InPool);
        }
        match chain_check {
            Err(reason) => Err(PutTxError::Rejected(reason)),
            Ok(()) => {
                self.wasm_txs.insert(key, info);
                Ok(())
            },
        }
    }

    /// Removes the act transactions under each of the ids.
    pub fn remove_act_txs(&mut self, tx_ids: &[TxId])
        requires
            old(self).wf(),
        ensures
            final(self).wf(),
            final(self).wasm_entries() == old(self).wasm_entries(),
            final(self).act_entries() == without_all(
                old(self).act_entries(),
                tx_ids@.map_values(|k: TxId| k@),
            ),
    {
        remove_txs_from_pool(&mut self.act_txs, tx_ids)
    }
}

/// A transaction that went into the pool is refused the second time: its
/// id is then in the pool.
pub proof fn law_no_tx_pooled_twice(
    e: Seq<(Seq<u8>, ActTx)>,
    act_tx: ActTx,
)
    ensures
        has_key(e.push((sha256_spec(act_tx_hash_input(act_tx)), act_tx)), sha256_spec(act_tx_hash_input(act_tx))),
{
    let e1 = e.push((sha256_spec(act_tx_hash_input(act_tx)), act_tx));
    assert(e1[e.len() as int].0 == sha256_spec(act_tx_hash_input(act_tx)));
}

/// Removes from a pool the transactions under each of the ids.
pub fn remove_txs_from_pool<TTx>(pool: &mut KeyedPool<TxId, TTx>, tx_ids: &[TxId])
    requires
        old(pool).wf(),
    ensures
        final(pool).wf(),
        final(pool).entries() == without_all(old(pool).entries(), tx_ids@.map_values(|k: TxId| k@)),
{
    pool.remove_all(tx_ids)
}

/// The wasm transaction that an upload asks for: the uploaded binary,
/// known by its hash, takes effect for the protocol after the interval.
pub fn upload_wasm_tx(upload: &UploadWasm) -> (tx: WasmTx)
    ensures
        tx.wasm_id.proto == upload.proto,
        tx.wasm_id.wasm_hash@ == sha256_spec(upload.wasm_binary@),
        tx.wasm_info.block_interval == upload.block_interval,
{
    let wasm_hash = wasm_binary_hash(upload.wasm_binary.as_slice());
    WasmTx {
        wasm_id: WasmId { proto: upload.proto.clone(), wasm_hash },
        wasm_info: WasmInfo { block_interval: upload.block_interval },
    }
}

} // verus!
