//! The encoding of the messages that nodes broadcast to each other: a kind
//! byte followed by the bincode form of the message.

use crate::msg::act::Act;
use crate::wire::{
    act_wire, act_wire_decode, bincode_deserialize_act, bincode_serialize_act,
    bincode_serialize_bool, bool_wire,
};
use vstd::prelude::*;

verus! {

/// The kind byte of an act message.
pub const ACT_MSG_KIND: u8 = 1;

/// The kinds of messages, each with its kind byte.
pub trait MsgKind {
    fn msg_kind() -> (k: u8);
}

impl MsgKind for Act {
    fn msg_kind() -> (k: u8)
        ensures
            k == ACT_MSG_KIND,
    {
        ACT_MSG_KIND
    }
}

/// A decoded message.
#[derive(Debug, Clone, PartialEq, Eq)]
pub enum MsgDecoded {
    Act(Act),
}

/// Errors of the message encoding.
#[derive(Debug, Clone, Copy, PartialEq, Eq)]
pub enum MsgCodecError {
    /// bincode could not write the message.
    Encode,
    /// The kind byte names no message.
    InvalidKind(u8),
    /// The body is not the bincode form of a message of its kind.
    Decode,
}

/// The encoding of an act: its kind byte, then its bincode form.
pub open spec fn act_msg_bytes(act: Act) -> Seq<u8> {
    seq![ACT_MSG_KIND] + act_wire(act.id, act.content@)
}

/// What a message decodes to, as an act id and content, where it is an act.
pub open spec fn msg_decode_spec(msg: Seq<u8>) -> Result<(u128, Seq<u8>), MsgCodecError> {
    if msg[0] != ACT_MSG_KIND {
        Err(MsgCodecError::InvalidKind(msg[0]))
    } else {
        match act_wire_decode(msg.drop_first()) {
            Some(p) => Ok(p),
            None => Err(MsgCodecError::Decode),
        }
    }
}

/// Encodes an act: the kind byte, then the bincode form of the act.
pub fn msg_encode(msg: &Act) -> (r: Result<Vec<u8>, MsgCodecError>)
    ensures
        r is Ok,
        r.unwrap()@ == act_msg_bytes(*msg),
{
    let mut bytes = vec![<Act as MsgKind>::msg_kind()];
    match bincode_serialize_act(msg.id, &msg.content) {
        Some(body) => {
            bytes.extend_from_slice(body.as_slice());
            assert(bytes@ =~= act_msg_bytes(*msg));
            Ok(bytes)
        },
        None => Err(MsgCodecError::Encode),
    }
}

/// Decodes a message: the first byte gives the kind, the rest is the body.
pub fn msg_decode(msg_encoded: &[u8]) -> (r: Result<MsgDecoded, MsgCodecError>)
    requires
        msg_encoded@.len() > 0,
    ensures
        match msg_decode_spec(msg_encoded@) {
            Ok((id, content)) => r matches Ok(MsgDecoded::Act(act)) && act.id == id
                && act.content@ == content,
            Err(e) => r == Err::<MsgDecoded, MsgCodecError>(e),
        },
{
    let msg_kind = msg_encoded[0];
    let msg_body = &msg_encoded[1..msg_encoded.len()];
    assert(msg_body@ =~= msg_encoded@.drop_first());
    if msg_kind == <Act as MsgKind>::msg_kind() {
        match bincode_deserialize_act(msg_body) {
            Some((id, content)) => Ok(MsgDecoded::Act(Act { id, content })),
            None => Err(MsgCodecError::Decode),
        }
    } else {
        Err(MsgCodecError::InvalidKind(msg_kind))
    }
}

/// Decoding the encoding of an act gives the act back.
pub proof fn law_msg_roundtrip(act: Act)
    requires
        act.content@.len() <= u64::MAX,
    ensures
        msg_decode_spec(act_msg_bytes(act)) == Ok::<(u128, Seq<u8>), MsgCodecError>(
            (act.id, act.content@),
        ),
{
    let m = act_msg_bytes(act);
    assert(m.drop_first() =~= act_wire(act.id, act.content@));
    crate::wire::law_act_wire_roundtrip(act.id, act.content@);
}

/// Whether a response is the bincode form of `true`.
pub fn is_true(data: &[u8]) -> (r: bool)
    ensures
        r == (data@ == bool_wire(true)),
{
    match bincode_serialize_bool(true) {
        Some(t) => {
            if data.len() != t.len() {
                return false;
            }
            let mut i: usize = 0;
            while i < data.len()
                invariant
                    i <= data@.len(),
                    data@.len() == t@.len(),
                    t@ == bool_wire(true),
                    forall|j: int| 0 <= j < i ==> data@[j] == t@[j],
                decreases data@.len() - i,
            {
                if data[i] != t[i] {
                    return false;
                }
                i = i + 1;
            }
            assert(data@ =~= t@);
            true
        },
        None => false,
    }
}

} // verus!
