use crate::crypto::{sha256, sha256_spec};
use crate::hashed::Hashed;
use crate::msg::block::{BlockHash, BlockHeight};
use crate::msg::event::{ActEvent, BlockEvent, Timestamp, UpdateEntityEvent};
use crate::msg::tx::{ActTx, EntityId, UpdateEntityTx, WasmId, WasmTx};
use vstd::prelude::*;

verus! {

/// The eight bytes of `n`, most significant first.
pub open spec fn u64_be_bytes(n: u64) -> Seq<u8> {
    seq![
        (n >> 56u64) as u8,
        (n >> 48u64) as u8,
        (n >> 40u64) as u8,
        (n >> 32u64) as u8,
        (n >> 24u64) as u8,
        (n >> 16u64) as u8,
        (n >> 8u64) as u8,
        n as u8,
    ]
}

/// The random value of the act numbered `act_number` in the block
/// `block_hash`: SHA-256 of the block hash followed by the number in
/// big-endian bytes.
pub open spec fn act_random_spec(block_hash: Seq<u8>, act_number: u64) -> Seq<u8> {
    sha256_spec(block_hash + u64_be_bytes(act_number))
}

/// The eight bytes of `n`, most significant first.
pub fn u64_to_be_bytes(n: u64) -> (b: [u8; 8])
    ensures
        b@ == u64_be_bytes(n),
{
    let b = [
        (n >> 56u64) as u8,
        (n >> 48u64) as u8,
        (n >> 40u64) as u8,
        (n >> 32u64) as u8,
        (n >> 24u64) as u8,
        (n >> 16u64) as u8,
        (n >> 8u64) as u8,
        n as u8,
    ];
    assert(b@ =~= u64_be_bytes(n));
    b
}

/// The random value drawn for the act numbered `act_number` of a block.
pub fn calc_act_random(block_hash: &BlockHash, act_number: u64) -> (r: Hashed)
    ensures
        r@ == act_random_spec(block_hash@, act_number),
{
    let mut buf: Vec<u8> = Vec::new();
    buf.extend_from_slice(block_hash.as_bytes());
    let be = u64_to_be_bytes(act_number);
    buf.extend_from_slice(be.as_slice());
    assert(buf@ =~= block_hash@ + u64_be_bytes(act_number));
    Hashed::new(sha256(buf.as_slice()))
}

/// The ids of some entities, in order.
pub open spec fn entity_ids_of(tx: UpdateEntityTx) -> Seq<Seq<char>> {
    tx.entities@.map_values(|e: crate::msg::tx::Entity| e.id@)
}

/// `ev` is the event of the update transaction `tx`.
pub open spec fn is_ue_event_of(ev: UpdateEntityEvent, tx: UpdateEntityTx) -> bool {
    &&& ev.proto == tx.proto
    &&& ev.model == tx.model
    &&& ev.req_id == tx.req_id
    &&& ev.entity_ids@.map_values(|id: EntityId| id@) == entity_ids_of(tx)
}

/// `ev` is the event of the `i`-th act transaction of the block.
pub open spec fn is_act_event_of(
    ev: ActEvent,
    tx: ActTx,
    i: int,
    block_hash: Seq<u8>,
) -> bool {
    &&& ev.act_tx == tx
    &&& ev.act_number == i + 1
    &&& ev.random@ == act_random_spec(block_hash, (i + 1) as u64)
}

fn ue_event(tx: UpdateEntityTx) -> (ev: UpdateEntityEvent)
    ensures
        is_ue_event_of(ev, tx),
{
    let UpdateEntityTx { proto, model, req_id, entities } = tx;
    let ghost ents = entities@;
    let mut entity_ids: Vec<EntityId> = Vec::new();
    for entity in it: entities
        invariant
            it.seq() == ents,
            entity_ids@.len() == it.index(),
            forall|j: int|
                0 <= j < it.index() ==> #[trigger] entity_ids@[j]@ == ents[j].id@,
    {
        entity_ids.push(entity.id);
    }
    let ev = UpdateEntityEvent { proto, model, req_id, entity_ids };
    assert(ev.entity_ids@.map_values(|id: EntityId| id@) =~= entity_ids_of(tx));
    ev
}

/// Builds the event that tells the proxy what a committed block holds.
/// Act transactions are numbered from 1 in block order, and each gets the
/// random value of its number; update transactions are reduced to the ids
/// of their entities; wasm transactions to their wasm ids.
pub fn block_event(
    height: BlockHeight,
    block_hash: BlockHash,
    timestamp: Timestamp,
    total_act_txs: u64,
    act_txs: Vec<ActTx>,
    ue_txs: Vec<UpdateEntityTx>,
    upgrade_wasm_txs: Vec<WasmTx>,
) -> (ev: BlockEvent)
    ensures
        ev.height == height,
        ev.timestamp == timestamp,
        ev.act_events@.len() == act_txs@.len(),
        forall|i: int|
            0 <= i < act_txs@.len() ==> is_act_event_of(
                #[trigger] ev.act_events@[i],
                act_txs@[i],
                i,
                block_hash@,
            ),
        ev.ue_events@.len() == ue_txs@.len(),
        forall|i: int|
            0 <= i < ue_txs@.len() ==> is_ue_event_of(#[trigger] ev.ue_events@[i], ue_txs@[i]),
        ev.upgrade_wasm_ids@ == upgrade_wasm_txs@.map_values(|w: WasmTx| w.wasm_id),
{
    let ghost acts = act_txs@;
    assert(acts.len() == act_txs.len());
    let mut act_number: u64 = 0;
    let mut act_events: Vec<ActEvent> = Vec::new();
    for act_tx in it: act_txs
        invariant
            it.seq() == acts,
            act_events@.len() == it.index(),
            act_number == it.index(),
            it.index() <= acts.len(),
            acts.len() <= usize::MAX,
            forall|j: int|
                0 <= j < it.index() ==> is_act_event_of(
                    #[trigger] act_events@[j],
                    acts[j],
                    j,
                    block_hash@,
                ),
    {
        act_number = act_number + 1;
        let random = calc_act_random(&block_hash, act_number);
        act_events.push(ActEvent { act_tx, act_number, random });
    }

    let ghost ues = ue_txs@;
    let mut ue_events: Vec<UpdateEntityEvent> = Vec::new();
    for ue_tx in it: ue_txs
        invariant
            it.seq() == ues,
            ue_events@.len() == it.index(),
            forall|j: int| 0 <= j < it.index() ==> is_ue_event_of(#[trigger] ue_events@[j], ues[j]),
    {
        ue_events.push(ue_event(ue_tx));
    }

    let ghost wasms = upgrade_wasm_txs@;
    let mut upgrade_wasm_ids: Vec<WasmId> = Vec::new();
    for wasm_tx in it: upgrade_wasm_txs
        invariant
            it.seq() == wasms,
            upgrade_wasm_ids@ == wasms.take(it.index() as int).map_values(|w: WasmTx| w.wasm_id),
    {
        upgrade_wasm_ids.push(wasm_tx.wasm_id);
        proof {
            assert(wasms.take(it.index() + 1) =~= wasms.take(it.index() as int).push(wasms[it.index() as int]));
        }
    }
    assert(wasms.take(wasms.len() as int) =~= wasms);
    BlockEvent { height, timestamp, act_events, ue_events, upgrade_wasm_ids }
}

} // verus!
