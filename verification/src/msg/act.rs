use vstd::prelude::*;

verus! {

/// The id of an act: a random 128-bit number used to spot duplicates.
pub type ActId = u128;

/// The opaque content of an act.
pub type ActContent = Vec<u8>;

/// An act sent by a worker.
#[derive(Debug, PartialEq, Eq)]
pub struct Act {
    pub id: ActId,
    pub content: ActContent,
}

impl View for Act {
    type V = (u128, Seq<u8>);

    open spec fn view(&self) -> Self::V {
        (self.id, self.content@)
    }
}

impl Clone for Act {
    fn clone(&self) -> (r: Self)
        ensures
            r@ == self@,
    {
        Act { id: self.id, content: vstd::slice::slice_to_vec(self.content.as_slice()) }
    }
}

/// An id in the form of a version-4 UUID read as a big-endian number: the
/// version nibble is 4 and the two variant bits are `10`.
pub open spec fn is_v4_uuid(id: u128) -> bool {
    &&& (id >> 76u128) & 0xFu128 == 4u128
    &&& (id >> 62u128) & 0x3u128 == 2u128
}

/// Calls `uuid::Uuid::new_v4().as_u128()`. Trusted: the random bits are not
/// claimed; `new_v4` masks them and sets the version nibble to 4 and the
/// variant bits to `10`, and `as_u128` reads the bytes big-endian, so the
/// result is in the form `is_v4_uuid`.
#[verifier::external_body]
fn random_uuid_u128() -> (id: u128)
    ensures
        is_v4_uuid(id),
{
    uuid::Uuid::new_v4().as_u128()
}

impl Act {
    /// A fresh random act id, in the form of a version-4 UUID.
    pub fn new_id() -> (id: ActId)
        ensures
            is_v4_uuid(id),
    {
        random_uuid_u128()
    }

    /// The act's id.
    pub fn id(&self) -> (id: &ActId)
        ensures
            *id == self.id,
    {
        &self.id
    }
}

/// An upload of a wasm binary by the administrator.
#[derive(Debug, Clone, PartialEq, Eq)]
pub struct UploadWasm {
    pub proto: String,
    pub wasm_binary: Vec<u8>,
    pub block_interval: u64,
}

} // verus!
