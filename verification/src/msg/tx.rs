use crate::crypto::{sha256, sha256_spec};
use crate::hashed::Hashed;
use vstd::prelude::*;
use vstd::utf8::encode_utf8;

verus! {

pub type Action = String;
pub type Proto = String;
pub type Model = String;
pub type EntityId = String;
pub type EntityHash = String;
pub type ReqId = String;
pub type WasmHash = Hashed;
pub type TxId = Hashed;

/// A transaction that records an act.
#[derive(Debug, PartialEq, Eq)]
pub struct ActTx {
    pub action: Action,
    pub proto: Proto,
    pub model: Model,
    pub data: Vec<u8>,
}

/// An entity and the hash of its state.
#[derive(Debug, Clone, PartialEq, Eq)]
pub struct Entity {
    pub id: EntityId,
    pub hash: EntityHash,
}

/// A transaction that updates the hashes of some entities.
#[derive(Debug, Clone, PartialEq, Eq)]
pub struct UpdateEntityTx {
    pub proto: Proto,
    pub model: Model,
    pub req_id: ReqId,
    pub entities: Vec<Entity>,
}

/// Identifies a wasm binary of a protocol.
#[derive(Debug, PartialEq, Eq, Hash)]
pub struct WasmId {
    pub proto: Proto,
    pub wasm_hash: WasmHash,
}

/// When a wasm binary takes effect.
#[derive(Debug, Clone, Copy, PartialEq, Eq, Hash)]
pub struct WasmInfo {
    pub block_interval: u64,
}

/// A transaction that upgrades the wasm binary of a protocol.
#[derive(Debug, PartialEq, Eq, Hash)]
pub struct WasmTx {
    pub wasm_id: WasmId,
    pub wasm_info: WasmInfo,
}

impl View for ActTx {
    type V = (Seq<char>, Seq<char>, Seq<char>, Seq<u8>);

    open spec fn view(&self) -> Self::V {
        (self.action@, self.proto@, self.model@, self.data@)
    }
}

impl Clone for ActTx {
    fn clone(&self) -> (r: Self)
        ensures
            r@ == self@,
    {
        ActTx {
            action: self.action.clone(),
            proto: self.proto.clone(),
            model: self.model.clone(),
            data: vstd::slice::slice_to_vec(self.data.as_slice()),
        }
    }
}

impl View for WasmId {
    type V = (Seq<char>, Seq<u8>);

    open spec fn view(&self) -> Self::V {
        (self.proto@, self.wasm_hash@)
    }
}

impl Clone for WasmId {
    fn clone(&self) -> (r: Self)
        ensures
            r@ == self@,
    {
        WasmId { proto: self.proto.clone(), wasm_hash: self.wasm_hash }
    }
}

impl View for WasmTx {
    type V = (Seq<char>, Seq<u8>, u64);

    open spec fn view(&self) -> Self::V {
        (self.wasm_id.proto@, self.wasm_id.wasm_hash@, self.wasm_info.block_interval)
    }
}

impl Clone for WasmTx {
    fn clone(&self) -> (r: Self)
        ensures
            r@ == self@,
    {
        WasmTx { wasm_id: self.wasm_id.clone(), wasm_info: self.wasm_info }
    }
}

/// The UTF-8 bytes of a string.
pub open spec fn str_bytes(s: Seq<char>) -> Seq<u8> {
    encode_utf8(s)
}

/// The bytes hashed for an act transaction: action, proto, model, data.
pub open spec fn act_tx_hash_input(tx: ActTx) -> Seq<u8> {
    str_bytes(tx.action@) + str_bytes(tx.proto@) + str_bytes(tx.model@) + tx.data@
}

/// The bytes hashed for the entities of an update: id and hash of each.
pub open spec fn entities_hash_input(entities: Seq<Entity>) -> Seq<u8>
    decreases entities.len(),
{
    if entities.len() == 0 {
        Seq::empty()
    } else {
        entities_hash_input(entities.drop_last()) + str_bytes(entities.last().id@) + str_bytes(
            entities.last().hash@,
        )
    }
}

/// The bytes hashed for an update transaction: proto, model, request id,
/// then id and hash of each entity in order.
pub open spec fn ue_tx_hash_input(tx: UpdateEntityTx) -> Seq<u8> {
    str_bytes(tx.proto@) + str_bytes(tx.model@) + str_bytes(tx.req_id@) + entities_hash_input(
        tx.entities@,
    )
}

/// Appends the UTF-8 bytes of a string.
fn push_str_bytes(buf: &mut Vec<u8>, s: &String)
    ensures
        final(buf)@ == old(buf)@ + str_bytes(s@),
{
    buf.extend_from_slice(s.as_str().as_bytes());
}

impl ActTx {
    /// The id of the transaction: SHA-256 of its action, proto, model and
    /// data, in this order.
    pub fn calc_hash(&self) -> (h: Hashed)
        ensures
            h@ == sha256_spec(act_tx_hash_input(*self)),
    {
        let mut buf: Vec<u8> = Vec::new();
        push_str_bytes(&mut buf, &self.action);
        push_str_bytes(&mut buf, &self.proto);
        push_str_bytes(&mut buf, &self.model);
        buf.extend_from_slice(self.data.as_slice());
        assert(buf@ =~= act_tx_hash_input(*self));
        Hashed::new(sha256(buf.as_slice()))
    }
}

impl UpdateEntityTx {
    /// The id of the transaction: SHA-256 of its proto, model and request
    /// id, then of the id and hash of each entity.
    pub fn calc_hash(&self) -> (h: Hashed)
        ensures
            h@ == sha256_spec(ue_tx_hash_input(*self)),
    {
        let mut buf: Vec<u8> = Vec::new();
        push_str_bytes(&mut buf, &self.proto);
        push_str_bytes(&mut buf, &self.model);
        push_str_bytes(&mut buf, &self.req_id);
        let ghost head = buf@;
        let mut i: usize = 0;
        while i < self.entities.len()
            invariant
                i <= self.entities@.len(),
                buf@ == head + entities_hash_input(self.entities@.take(i as int)),
            decreases self.entities@.len() - i,
        {
            let entity = &self.entities[i];
            push_str_bytes(&mut buf, &entity.id);
            push_str_bytes(&mut buf, &entity.hash);
            proof {
                let t = self.entities@.take(i + 1);
                assert(t.drop_last() =~= self.entities@.take(i as int));
                assert(t.last() == self.entities@[i as int]);
            }
            i = i + 1;
        }
        assert(self.entities@.take(self.entities@.len() as int) =~= self.entities@);
        assert(buf@ =~= ue_tx_hash_input(*self));
        Hashed::new(sha256(buf.as_slice()))
    }
}

/// The hash of a wasm binary: SHA-256 of its bytes.
pub fn wasm_binary_hash(wasm_binary: &[u8]) -> (h: WasmHash)
    ensures
        h@ == sha256_spec(wasm_binary@),
{
    Hashed::new(sha256(wasm_binary))
}

} // verus!
