//! The node's configuration and what the consensus engine learns from it.

use crate::node::NodeAddr;
use crate::peer_manager::PeerInfo;
use vstd::prelude::*;

verus! {

/// The configuration of a node.
#[derive(Debug, Clone)]
pub struct NodeConfig {
    pub block_interval: u64,
    pub id: u16,
    pub name: String,
    pub listen_addr: NodeAddr,
    pub peers: Vec<PeerInfo>,
    pub propose_weight: u32,
    pub vote_weight: u32,
}

impl NodeConfig {
    /// The number of nodes: the peers and this node.
    pub fn get_number_of_node(&self) -> (n: usize)
        requires
            self.peers@.len() < usize::MAX,
        ensures
            n == self.peers@.len() + 1,
    {
        let number_of_peers = self.peers.len();
        number_of_peers + 1
    }
}

/// A node that takes part in the consensus, with its weights.
#[derive(Debug, Clone, Copy, PartialEq, Eq)]
pub struct Authority {
    pub address: NodeAddr,
    pub propose_weight: u32,
    pub vote_weight: u32,
}

/// The authority of a peer.
pub open spec fn peer_authority(p: PeerInfo) -> Authority {
    Authority { address: p.address, propose_weight: p.propose_weight, vote_weight: p.vote_weight }
}

/// The nodes that take part in the consensus: this node, then its peers in
/// configuration order.
pub open spec fn authority_list_spec(config: NodeConfig) -> Seq<Authority> {
    seq![
        Authority {
            address: config.listen_addr,
            propose_weight: config.propose_weight,
            vote_weight: config.vote_weight,
        },
    ] + config.peers@.map_values(|p: PeerInfo| peer_authority(p))
}

/// The nodes that take part in the consensus: this node, then its peers.
pub fn build_node_list(config: &NodeConfig) -> (nodes: Vec<Authority>)
    ensures
        nodes@ == authority_list_spec(*config),
{
    let mut nodes: Vec<Authority> = Vec::new();
    nodes.push(
        Authority {
            address: config.listen_addr,
            propose_weight: config.propose_weight,
            vote_weight: config.vote_weight,
        },
    );
    let ghost first = nodes@;
    let mut i: usize = 0;
    while i < config.peers.len()
        invariant
            i <= config.peers@.len(),
            first.len() == 1,
            nodes@ == first + config.peers@.take(i as int).map_values(
                |p: PeerInfo| peer_authority(p),
            ),
        decreases config.peers@.len() - i,
    {
        let peer = &config.peers[i];
        nodes.push(
            Authority {
                address: peer.address,
                propose_weight: peer.propose_weight,
                vote_weight: peer.vote_weight,
            },
        );
        assert(config.peers@.take(i + 1) =~= config.peers@.take(i as int).push(config.peers@[i as int]));
        assert(nodes@ =~= first + config.peers@.take(i + 1).map_values(|p: PeerInfo| peer_authority(p)));
        i = i + 1;
    }
    assert(config.peers@.take(config.peers@.len() as int) =~= config.peers@);
    nodes
}

/// The status that the consensus engine starts a height with.
#[derive(Debug, Clone, PartialEq, Eq)]
pub struct ConsensusStatus {
    pub height: u64,
    pub interval: u64,
    pub authority_list: Vec<Authority>,
}

/// The status after `block_height` is committed: the next height, the
/// configured block interval, and the nodes of the configuration.
pub fn consensus_status(config: &NodeConfig, block_height: u64) -> (s: ConsensusStatus)
    requires
        block_height < u64::MAX,
    ensures
        s.height == block_height + 1,
        s.interval == config.block_interval,
        s.authority_list@ == authority_list_spec(*config),
{
    ConsensusStatus {
        height: block_height + 1,
        interval: config.block_interval,
        authority_list: build_node_list(config),
    }
}

} // verus!
