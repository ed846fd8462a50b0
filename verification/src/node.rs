//! The addresses of the nodes.

use vstd::prelude::*;

verus! {

/// An IP address: 32 bits for version 4, 128 bits for version 6.
#[derive(Debug, Clone, Copy, PartialEq, Eq, Hash, Structural)]
pub enum IpAddress {
    V4(u32),
    V6(u128),
}

/// The socket address of a node: its IP address and port, and for a
/// version-6 address its flow label and scope id (both 0 for version 4).
#[derive(Debug, Clone, Copy, PartialEq, Eq, Hash, Structural)]
pub struct NodeAddr {
    pub ip: IpAddress,
    pub port: u16,
    pub flowinfo: u32,
    pub scope_id: u32,
}

/// Nodes are known by their socket address.
pub type NodeId = NodeAddr;

/// Whether a node occurs in a list.
pub fn contains_node(nodes: &Vec<NodeId>, node: NodeId) -> (r: bool)
    ensures
        r == nodes@.contains(node),
{
    let mut i: usize = 0;
    while i < nodes.len()
        invariant
            i <= nodes@.len(),
            forall|j: int| 0 <= j < i ==> nodes@[j] != node,
        decreases nodes@.len() - i,
    {
        if nodes[i] == node {
            assert(nodes@[i as int] == node);
            return true;
        }
        i = i + 1;
    }
    false
}

/// Whether two byte strings are equal.
pub fn bytes_eq(a: &[u8], b: &[u8]) -> (r: bool)
    ensures
        r == (a@ == b@),
{
    if a.len() != b.len() {
        return false;
    }
    let mut i: usize = 0;
    while i < a.len()
        invariant
            i <= a@.len(),
            a@.len() == b@.len(),
            forall|j: int| 0 <= j < i ==> a@[j] == b@[j],
        decreases a@.len() - i,
    {
        if a[i] != b[i] {
            return false;
        }
        i = i + 1;
    }
    assert(a@ =~= b@);
    true
}

} // verus!
