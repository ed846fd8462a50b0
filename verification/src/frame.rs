//! The framing of the messages on a connection between nodes: each
//! message is written as its length in 4 big-endian bytes, then its bytes.

use crate::wire::{le_bytes, le_value, lemma_le_bytes_len, lemma_le_value_of_bytes, pow256};
use vstd::prelude::*;

verus! {

/// The `k` low bytes of `n`, most significant first.
pub open spec fn be_bytes(n: nat, k: nat) -> Seq<u8> {
    le_bytes(n, k).reverse()
}

/// The value of a big-endian byte string.
pub open spec fn be_value(b: Seq<u8>) -> nat {
    le_value(b.reverse())
}

/// The frame of a payload: its length, cut to 32 bits, in 4 big-endian
/// bytes, then the payload.
pub open spec fn frame_spec(payload: Seq<u8>) -> Seq<u8> {
    be_bytes((payload.len() as u32) as nat, 4) + payload
}

/// What a buffer holds at its front: `None` while the length or the
/// payload it announces is not complete, else the payload and the number
/// of bytes that the frame takes.
pub open spec fn frame_decode_spec(buf: Seq<u8>) -> Option<(Seq<u8>, nat)> {
    if buf.len() < 4 {
        None
    } else {
        let n = be_value(buf.subrange(0, 4));
        if buf.len() < 4 + n {
            None
        } else {
            Some((buf.subrange(4, 4 + n as int), (4 + n) as nat))
        }
    }
}

proof fn lemma_be4_value(b: Seq<u8>)
    requires
        b.len() == 4,
    ensures
        be_value(b) == b[0] * 16777216 + b[1] * 65536 + b[2] * 256 + b[3],
{
    let r = b.reverse();
    assert(r.drop_first() =~= seq![b[2], b[1], b[0]]);
    assert(r.drop_first().drop_first() =~= seq![b[1], b[0]]);
    assert(r.drop_first().drop_first().drop_first() =~= seq![b[0]]);
    assert(r.drop_first().drop_first().drop_first().drop_first() =~= Seq::<u8>::empty());
    reveal_with_fuel(le_value, 5);
}

proof fn lemma_be4_bytes(n: u32)
    ensures
        be_bytes(n as nat, 4) == seq![
            (n / 16777216) as u8,
            (n / 65536 % 256) as u8,
            (n / 256 % 256) as u8,
            (n % 256) as u8,
        ],
{
    reveal_with_fuel(le_bytes, 5);
    let l = le_bytes(n as nat, 4);
    assert(l =~= seq![
        (n % 256) as u8,
        (n / 256 % 256) as u8,
        (n / 65536 % 256) as u8,
        (n / 16777216) as u8,
    ]);
    assert(l.reverse() =~= seq![
        (n / 16777216) as u8,
        (n / 65536 % 256) as u8,
        (n / 256 % 256) as u8,
        (n % 256) as u8,
    ]);
}

/// Writes a payload as a frame: its length cut to 32 bits, in big-endian
/// bytes, then the payload.
pub fn frame_encode(payload: &[u8]) -> (frame: Vec<u8>)
    ensures
        frame@ == frame_spec(payload@),
{
    let n: u32 = payload.len() as u32;
    proof {
        lemma_be4_bytes(n);
    }
    let mut frame: Vec<u8> = Vec::new();
    frame.push((n / 16777216) as u8);
    frame.push((n / 65536 % 256) as u8);
    frame.push((n / 256 % 256) as u8);
    frame.push((n % 256) as u8);
    frame.extend_from_slice(payload);
    assert(frame@ =~= frame_spec(payload@));
    frame
}

/// Reads the frame at the front of a buffer: `None` while it is not
/// complete, else its payload and the number of bytes it takes.
pub fn frame_decode(buf: &[u8]) -> (r: Option<(Vec<u8>, usize)>)
    ensures
        match frame_decode_spec(buf@) {
            None => r is None,
            Some((payload, used)) => r matches Some((p, u)) && p@ == payload && u == used,
        },
{
    if buf.len() < 4 {
        return None;
    }
    proof {
        lemma_be4_value(buf@.subrange(0, 4));
    }
    let length: u64 = (buf[0] as u64) * 16777216 + (buf[1] as u64) * 65536 + (buf[2] as u64)
        * 256 + (buf[3] as u64);
    assert(length == be_value(buf@.subrange(0, 4)));
    if (buf.len() as u64) < 4 + length {
        return None;
    }
    let end: usize = 4 + length as usize;
    let payload = vstd::slice::slice_to_vec(&buf[4..end]);
    Some((payload, end))
}

/// A buffer gives a frame exactly when it holds the 4 length bytes and at
/// least the number of payload bytes that they announce, read big-endian;
/// the payload is then the announced number of bytes after the length, and
/// the frame takes 4 bytes more than that. A buffer that ends early gives
/// nothing.
pub proof fn law_frame_decode_waits_for_the_whole_payload(buf: Seq<u8>)
    ensures
        buf.len() < 4 ==> frame_decode_spec(buf) is None,
        buf.len() >= 4 ==> ({
            let n = buf[0] * 16777216 + buf[1] * 65536 + buf[2] * 256 + buf[3];
            &&& buf.len() < 4 + n ==> frame_decode_spec(buf) is None
            &&& buf.len() >= 4 + n ==> frame_decode_spec(buf) == Some(
                (buf.subrange(4, 4 + n), (4 + n) as nat),
            )
        }),
        frame_decode_spec(buf) matches Some((p, u)) ==> u == 4 + p.len() && u <= buf.len()
            && p == buf.subrange(4, u as int),
{
    if buf.len() >= 4 {
        lemma_be4_value(buf.subrange(0, 4));
    }
}

/// A complete frame, read back, gives its payload and its own length.
pub proof fn law_frame_roundtrip(payload: Seq<u8>, rest: Seq<u8>)
    requires
        payload.len() <= u32::MAX,
    ensures
        frame_decode_spec(frame_spec(payload) + rest) == Some((payload, 4 + payload.len())),
{
    let n = payload.len();
    let f = frame_spec(payload) + rest;
    lemma_le_bytes_len(n, 4);
    reveal_with_fuel(pow256, 5);
    lemma_le_value_of_bytes(n, 4);
    assert(f.subrange(0, 4) =~= be_bytes(n, 4));
    assert(f.subrange(0, 4).reverse() =~= le_bytes(n, 4));
    assert(f.subrange(4, 4 + n as int) =~= payload);
}

} // verus!
