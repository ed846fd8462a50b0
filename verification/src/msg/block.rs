use crate::hashed::Hashed;
use crate::msg::tx::{ActTx, UpdateEntityTx, WasmTx};
use vstd::prelude::*;

verus! {

pub type BlockHeight = u64;
pub type BlockTimestamp = u64;
pub type BlockHash = Hashed;

/// A block: its timestamp and the transactions it holds.
#[derive(Debug, Clone, PartialEq, Eq)]
pub struct Block {
    pub timestamp: BlockTimestamp,
    pub act_txs: Vec<ActTx>,
    pub ue_txs: Vec<UpdateEntityTx>,
    pub wasm_txs: Vec<WasmTx>,
}

} // verus!
