//! What the meta-data service records of each block.

use crate::crypto::sha256_spec;
use crate::msg::block::{Block, BlockHeight};
use crate::msg::tx::{ue_tx_hash_input, EntityHash, EntityId, Model, Proto, TxId, UpdateEntityTx};
use vstd::prelude::*;

verus! {

/// An entity as the meta-data database returns it.
#[derive(Debug, Clone, PartialEq, Eq)]
pub struct EntityRow {
    pub module: Model,
    pub id: EntityId,
    pub hash: EntityHash,
    pub height: BlockHeight,
}

/// A SQL migration as the meta-data database returns it.
#[derive(Debug, Clone, PartialEq, Eq)]
pub struct SqlMigrationRow {
    pub sql: String,
    pub height: BlockHeight,
}

/// An entity update of a block, as the meta-data service records it: the
/// id of its transaction, its place in the transaction, the protocol and
/// model of the transaction, and the entity's id and hash.
#[derive(Debug, Clone, PartialEq, Eq)]
pub struct EntityRecord {
    pub tx_id: TxId,
    pub index: usize,
    pub proto: Proto,
    pub model: Model,
    pub entity_id: EntityId,
    pub entity_hash: EntityHash,
}

impl View for EntityRecord {
    type V = (Seq<u8>, int, Seq<char>, Seq<char>, Seq<char>, Seq<char>);

    open spec fn view(&self) -> Self::V {
        (
            self.tx_id@,
            self.index as int,
            self.proto@,
            self.model@,
            self.entity_id@,
            self.entity_hash@,
        )
    }
}

/// The records of one update transaction, one per entity, in order.
pub open spec fn tx_records(tx: UpdateEntityTx) -> Seq<
    (Seq<u8>, int, Seq<char>, Seq<char>, Seq<char>, Seq<char>),
> {
    Seq::new(
        tx.entities@.len(),
        |j: int|
            (
                sha256_spec(ue_tx_hash_input(tx)),
                j,
                tx.proto@,
                tx.model@,
                tx.entities@[j].id@,
                tx.entities@[j].hash@,
            ),
    )
}

/// The records of update transactions, transaction after transaction.
pub open spec fn block_records(txs: Seq<UpdateEntityTx>) -> Seq<
    (Seq<u8>, int, Seq<char>, Seq<char>, Seq<char>, Seq<char>),
>
    decreases txs.len(),
{
    if txs.len() == 0 {
        Seq::empty()
    } else {
        block_records(txs.drop_last()) + tx_records(txs.last())
    }
}

/// The records of the entity updates of a block.
pub fn block_entities(block: &Block) -> (records: Vec<EntityRecord>)
    ensures
        records@.map_values(|r: EntityRecord| r@) == block_records(block.ue_txs@),
{
    let mut records: Vec<EntityRecord> = Vec::new();
    let mut i: usize = 0;
    while i < block.ue_txs.len()
        invariant
            i <= block.ue_txs@.len(),
            records@.map_values(|r: EntityRecord| r@) == block_records(block.ue_txs@.take(i as int)),
        decreases block.ue_txs@.len() - i,
    {
        let ue_tx = &block.ue_txs[i];
        let tx_id = ue_tx.calc_hash();
        let ghost before = records@.map_values(|r: EntityRecord| r@);
        let mut j: usize = 0;
        while j < ue_tx.entities.len()
            invariant
                j <= ue_tx.entities@.len(),
                tx_id@ == sha256_spec(ue_tx_hash_input(*ue_tx)),
                records@.map_values(|r: EntityRecord| r@) == before + tx_records(*ue_tx).take(
                    j as int,
                ),
            decreases ue_tx.entities@.len() - j,
        {
            let entity = &ue_tx.entities[j];
            let ghost prev = records@;
            records.push(
                EntityRecord {
                    tx_id,
                    index: j,
                    proto: ue_tx.proto.clone(),
                    model: ue_tx.model.clone(),
                    entity_id: entity.id.clone(),
                    entity_hash: entity.hash.clone(),
                },
            );
            proof {
                let m = records@.map_values(|r: EntityRecord| r@);
                let t = tx_records(*ue_tx);
                assert(m[m.len() - 1] == records@[records@.len() - 1]@);
                assert(t[j as int] == (
                    sha256_spec(ue_tx_hash_input(*ue_tx)),
                    j as int,
                    ue_tx.proto@,
                    ue_tx.model@,
                    ue_tx.entities@[j as int].id@,
                    ue_tx.entities@[j as int].hash@,
                ));
                assert(m[m.len() - 1] == t[j as int]);
                assert(m =~= prev.map_values(|r: EntityRecord| r@).push(t[j as int]));
                assert(t.take(j + 1) =~= t.take(j as int).push(t[j as int]));
                assert(m =~= before + t.take(j + 1));
            }
            j = j + 1;
        }
        assert(tx_records(*ue_tx).take(ue_tx.entities@.len() as int) =~= tx_records(*ue_tx));
        assert(block.ue_txs@.take(i + 1).drop_last() =~= block.ue_txs@.take(i as int));
        i = i + 1;
    }
    assert(block.ue_txs@.take(block.ue_txs@.len() as int) =~= block.ue_txs@);
    records
}

/// The records of an update transaction are one per entity, in the
/// entities' order: the record at place `j` carries the transaction's id,
/// `j`, the transaction's protocol and model, and the id and hash of its
/// `j`-th entity.
pub proof fn law_tx_records_follow_the_entities(tx: UpdateEntityTx)
    ensures
        tx_records(tx).len() == tx.entities@.len(),
        forall|j: int|
            0 <= j < tx.entities@.len() ==> (#[trigger] tx_records(tx)[j]) == (
                sha256_spec(ue_tx_hash_input(tx)),
                j,
                tx.proto@,
                tx.model@,
                tx.entities@[j].id@,
                tx.entities@[j].hash@,
            ),
{
}

/// The records of a block hold, for every entity of every update
/// transaction, the record of that entity: its transaction's id, its place,
/// the transaction's protocol and model, and its own id and hash; and there
/// are as many records as entities.
pub proof fn law_block_records_hold_every_entity(txs: Seq<UpdateEntityTx>)
    ensures
        forall|k: int, j: int|
            0 <= k < txs.len() && 0 <= j < txs[k].entities@.len() ==> block_records(txs).contains(
                (
                    sha256_spec(ue_tx_hash_input(txs[k])),
                    j,
                    txs[k].proto@,
                    txs[k].model@,
                    #[trigger] txs[k].entities@[j].id@,
                    txs[k].entities@[j].hash@,
                ),
            ),
    decreases txs.len(),
{
    if txs.len() > 0 {
        let rest = txs.drop_last();
        law_block_records_hold_every_entity(rest);
        let last = txs.last();
        law_tx_records_follow_the_entities(last);
        let b = block_records(txs);
        let b0 = block_records(rest);
        assert(b == b0 + tx_records(last));
        assert forall|k: int, j: int|
            0 <= k < txs.len() && 0 <= j < txs[k].entities@.len() implies b.contains(
            (
                sha256_spec(ue_tx_hash_input(txs[k])),
                j,
                txs[k].proto@,
                txs[k].model@,
                #[trigger] txs[k].entities@[j].id@,
                txs[k].entities@[j].hash@,
            ),
        ) by {
            let rec = (
                sha256_spec(ue_tx_hash_input(txs[k])),
                j,
                txs[k].proto@,
                txs[k].model@,
                txs[k].entities@[j].id@,
                txs[k].entities@[j].hash@,
            );
            if k < txs.len() - 1 {
                assert(rest[k] == txs[k]);
                assert(b0.contains(rec));
                let i = choose|i: int| 0 <= i < b0.len() && b0[i] == rec;
                assert(b[i] == rec);
            } else {
                assert(tx_records(last)[j] == rec);
                assert(b[b0.len() + j] == rec);
            }
        }
    }
}

/// One step of the meta-data synchronisation, after the block at the
/// height following `block_height` was asked of the chain: where it came,
/// its records are to be saved and the height moves on to it; where it did
/// not, the step gives `None` and the synchronisation waits.
pub fn meta_sync_step(block_height: BlockHeight, fetched: Option<&Block>) -> (r: Option<
    (BlockHeight, Vec<EntityRecord>),
>)
    requires
        block_height < u64::MAX,
    ensures
        match fetched {
            None => r is None,
            Some(block) => r matches Some((height, records)) && height == block_height + 1
                && records@.map_values(|x: EntityRecord| x@) == block_records(block.ue_txs@),
        },
{
    match fetched {
        None => None,
        Some(block) => Some((block_height + 1, block_entities(block))),
    }
}

} // verus!
