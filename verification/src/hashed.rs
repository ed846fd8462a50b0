use crate::text::{spec_hex_upper, to_hex_upper};
use vstd::prelude::*;

verus! {

/// A 32-byte hash value (block hash, transaction id, wasm hash, ...).
/// It is `Copy`, so that a hash read out of a list keeps its known bytes;
/// the bytes are reached through `new`, `as_bytes` and the view.
#[derive(Debug, Clone, Copy, PartialEq, Eq, Hash)]
pub struct Hashed([u8; 32]);

impl View for Hashed {
    type V = Seq<u8>;

    closed spec fn view(&self) -> Seq<u8> {
        self.0@
    }
}

/// Errors of the conversions into a `Hashed`.
#[derive(Debug, Clone, Copy, PartialEq, Eq)]
pub enum HashedError {
    /// The byte string does not hold exactly 32 bytes; its length is given.
    InvalidLength(usize),
}

impl Hashed {
    /// Wraps 32 bytes.
    pub fn new(hash: [u8; 32]) -> (h: Hashed)
        ensures
            h@ == hash@,
    {
        Hashed(hash)
    }

    /// The 32 bytes of the hash.
    pub fn as_bytes(&self) -> (bytes: &[u8])
        ensures
            bytes@ == self@,
            bytes@.len() == 32,
    {
        self.0.as_slice()
    }

    /// Builds a hash from a byte string, which must hold exactly 32 bytes.
    pub fn try_from_bytes(bytes: &[u8]) -> (r: Result<Hashed, HashedError>)
        ensures
            bytes@.len() == 32 ==> (r matches Ok(h) && h@ == bytes@),
            bytes@.len() != 32 ==> r == Err::<Hashed, HashedError>(
                HashedError::InvalidLength(bytes@.len() as usize),
            ),
    {
        if bytes.len() != 32 {
            return Err(HashedError::InvalidLength(bytes.len()));
        }
        let mut hash = [0u8; 32];
        let mut i: usize = 0;
        while i < 32
            invariant
                bytes@.len() == 32,
                i <= 32,
                forall|j: int| 0 <= j < i ==> hash@[j] == bytes@[j],
            decreases 32 - i,
        {
            hash.set(i, bytes[i]);
            i = i + 1;
        }
        assert(hash@ =~= bytes@);
        Ok(Hashed(hash))
    }

    /// Whether two hashes hold the same bytes.
    pub fn same_as(&self, other: &Hashed) -> (r: bool)
        ensures
            r == (self@ == other@),
    {
        let mut i: usize = 0;
        while i < 32
            invariant
                i <= 32,
                self@.len() == 32,
                other@.len() == 32,
                forall|j: int| 0 <= j < i ==> self@[j] == other@[j],
            decreases 32 - i,
        {
            if self.0[i] != other.0[i] {
                return false;
            }
            i = i + 1;
        }
        assert(self@ =~= other@);
        true
    }

    /// The hash as 64 upper-case hexadecimal digits.
    pub fn to_hex_string(&self) -> (s: String)
        ensures
            s@ == spec_hex_upper(self@),
            s@.len() == 64,
    {
        proof {
            crate::text::lemma_hex_upper_len(self@);
        }
        to_hex_upper(self.as_bytes())
    }
}

} // verus!
