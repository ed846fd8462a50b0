use crate::msg::tx::ActTx;
use vstd::prelude::*;

verus! {

/// A batch of transactions, handed over whole, each new batch with room
/// for `CAPACITY` transactions.
pub struct TxPool<const CAPACITY: usize> {
    vec: Vec<ActTx>,
}

impl<const CAPACITY: usize> TxPool<CAPACITY> {
    /// The transactions of the current batch.
    pub closed spec fn txs(&self) -> Seq<ActTx> {
        self.vec@
    }

    /// A pool with an empty batch.
    pub fn new() -> (p: Self)
        ensures
            p.txs() == Seq::<ActTx>::empty(),
    {
        Self { vec: Self::new_tx_vec() }
    }

    /// Adds a transaction to the current batch.
    pub fn push(&mut self, tx: ActTx)
        ensures
            final(self).txs() == old(self).txs().push(tx),
    {
        self.vec.push(tx)
    }

    /// Hands over the current batch and starts an empty one.
    pub fn take_tx_vec(&mut self) -> (batch: Vec<ActTx>)
        ensures
            batch@ == old(self).txs(),
            final(self).txs() == Seq::<ActTx>::empty(),
    {
        let mut batch = Self::new_tx_vec();
        std::mem::swap(&mut batch, &mut self.vec);
        batch
    }

    fn new_tx_vec() -> (v: Vec<ActTx>)
        ensures
            v@ == Seq::<ActTx>::empty(),
    {
        Vec::with_capacity(CAPACITY)
    }
}

} // verus!
