use crate::hashed::Hashed;
use crate::msg::block::BlockHeight;
use crate::msg::tx::{ActTx, EntityId, Model, Proto, ReqId, WasmId};
use vstd::prelude::*;

verus! {

pub type Timestamp = u64;

/// What the proxy learns of a committed block.
#[derive(Debug, Clone, PartialEq, Eq)]
pub struct BlockEvent {
    pub height: BlockHeight,
    pub timestamp: Timestamp,
    pub act_events: Vec<ActEvent>,
    pub ue_events: Vec<UpdateEntityEvent>,
    pub upgrade_wasm_ids: Vec<WasmId>,
}

/// An act transaction of a block, its number in the block and the random
/// value drawn for it.
#[derive(Debug, Clone, PartialEq, Eq)]
pub struct ActEvent {
    pub act_tx: ActTx,
    pub act_number: u64,
    pub random: Hashed,
}

/// An update-entity transaction of a block, reduced to the ids it touches.
#[derive(Debug, Clone, PartialEq, Eq)]
pub struct UpdateEntityEvent {
    pub proto: Proto,
    pub model: Model,
    pub req_id: ReqId,
    pub entity_ids: Vec<EntityId>,
}

} // verus!
