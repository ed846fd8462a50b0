//! The bincode wire form (fixed-width integers, little endian) of the
//! values that the node encodes, and the calls into `bincode`.

use vstd::prelude::*;

verus! {

/// The value of a little-endian byte string.
pub open spec fn le_value(b: Seq<u8>) -> nat
    decreases b.len(),
{
    if b.len() == 0 {
        0
    } else {
        (b[0] + 256 * le_value(b.drop_first())) as nat
    }
}

/// The `k` low bytes of `n`, least significant first.
pub open spec fn le_bytes(n: nat, k: nat) -> Seq<u8>
    decreases k,
{
    if k == 0 {
        Seq::empty()
    } else {
        seq![(n % 256) as u8] + le_bytes(n / 256, (k - 1) as nat)
    }
}

/// `256` to the power `k`.
pub open spec fn pow256(k: nat) -> nat
    decreases k,
{
    if k == 0 {
        1
    } else {
        256 * pow256((k - 1) as nat)
    }
}

pub proof fn lemma_le_bytes_len(n: nat, k: nat)
    ensures
        le_bytes(n, k).len() == k,
    decreases k,
{
    if k > 0 {
        lemma_le_bytes_len(n / 256, (k - 1) as nat);
    }
}

/// Reading back `k` bytes of a value below `256^k` gives the value.
pub proof fn lemma_le_value_of_bytes(n: nat, k: nat)
    requires
        n < pow256(k),
    ensures
        le_value(le_bytes(n, k)) == n,
    decreases k,
{
    if k > 0 {
        lemma_le_value_of_bytes(n / 256, (k - 1) as nat);
        let b = le_bytes(n, k);
        assert(b.drop_first() =~= le_bytes(n / 256, (k - 1) as nat));
    }
}

/// Writing the value of a byte string gives the byte string back.
pub proof fn lemma_le_bytes_of_value(b: Seq<u8>)
    ensures
        le_bytes(le_value(b), b.len()) == b,
        le_value(b) < pow256(b.len()),
    decreases b.len(),
{
    if b.len() > 0 {
        lemma_le_bytes_of_value(b.drop_first());
        let v = le_value(b);
        let r = le_value(b.drop_first());
        assert(v % 256 == b[0]);
        assert(v / 256 == r);
        assert(le_bytes(v, b.len()) =~= b);
    }
}

pub proof fn lemma_pow256_facts()
    ensures
        pow256(8) == 0x1_0000_0000_0000_0000,
        pow256(16) == 0x1_0000_0000_0000_0000_0000_0000_0000_0000,
{
    reveal_with_fuel(pow256, 17);
}

/// The bincode form of an act: the id as 16 bytes, then the content as
/// an 8-byte length followed by the bytes.
pub open spec fn act_wire(id: u128, content: Seq<u8>) -> Seq<u8> {
    le_bytes(id as nat, 16) + le_bytes(content.len(), 8) + content
}

/// What bincode reads as an act from a byte string: `None` where the bytes
/// end before the id, the length, or the content that the length gives.
/// Bytes after the content are ignored.
pub open spec fn act_wire_decode(b: Seq<u8>) -> Option<(u128, Seq<u8>)> {
    if b.len() < 24 {
        None
    } else {
        let n = le_value(b.subrange(16, 24));
        if b.len() - 24 < n {
            None
        } else {
            Some((le_value(b.subrange(0, 16)) as u128, b.subrange(24, 24 + n as int)))
        }
    }
}

/// The bincode form of a boolean: one byte, 1 for true and 0 for false.
pub open spec fn bool_wire(b: bool) -> Seq<u8> {
    seq![if b { 1u8 } else { 0u8 }]
}

/// Calls `bincode::serialize` on the pair (id, content), which is how
/// bincode writes a struct with these two fields in this order. Trusted:
/// the result is `Some` and holds `act_wire(id, content)`: the u128 as 16
/// little-endian bytes, the length of the content as 8 little-endian bytes,
/// then the content (fixed-width integers, the default of these functions).
#[verifier::external_body]
pub(crate) fn bincode_serialize_act(id: u128, content: &Vec<u8>) -> (r: Option<Vec<u8>>)
    ensures
        r.is_some(),
        r.unwrap()@ == act_wire(id, content@),
{
    bincode::serialize(&(id, content)).ok()
}

/// Calls `bincode::deserialize` for the pair (u128, Vec<u8>). Trusted: the
/// result is `act_wire_decode(bytes)`: it fails exactly where the input
/// ends early, and ignores trailing bytes (the default of this function).
#[verifier::external_body]
pub(crate) fn bincode_deserialize_act(bytes: &[u8]) -> (r: Option<(u128, Vec<u8>)>)
    ensures
        match r {
            Some((id, content)) => act_wire_decode(bytes@) == Some((id, content@)),
            None => act_wire_decode(bytes@) is None,
        },
{
    bincode::deserialize::<(u128, Vec<u8>)>(bytes).ok()
}

/// Calls `bincode::serialize` on a boolean. Trusted: the result is `Some`
/// and holds the single byte `b as u8`, which is what the serializer writes.
#[verifier::external_body]
pub(crate) fn bincode_serialize_bool(b: bool) -> (r: Option<Vec<u8>>)
    ensures
        r.is_some(),
        r.unwrap()@ == bool_wire(b),
{
    bincode::serialize(&b).ok()
}

/// Decoding the wire form of an act gives the act back.
pub proof fn law_act_wire_roundtrip(id: u128, content: Seq<u8>)
    requires
        content.len() <= u64::MAX,
    ensures
        act_wire_decode(act_wire(id, content)) == Some((id, content)),
{
    let w = act_wire(id, content);
    lemma_le_bytes_len(id as nat, 16);
    lemma_le_bytes_len(content.len(), 8);
    lemma_pow256_facts();
    assert(w.subrange(0, 16) =~= le_bytes(id as nat, 16));
    assert(w.subrange(16, 24) =~= le_bytes(content.len(), 8));
    lemma_le_value_of_bytes(id as nat, 16);
    lemma_le_value_of_bytes(content.len(), 8);
    assert(w.subrange(24, 24 + content.len() as int) =~= content);
}

} // verus!
