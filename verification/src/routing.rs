//! How a node routes messages: the messages its components hand to the
//! network, and the messages that arrive on a connection. `C` is the type
//! of the consensus messages, which the network carries unread.

use crate::msg::act::UploadWasm;
use crate::msg::tx::{ActTx, UpdateEntityTx};
use crate::node::NodeId;
use crate::request::NetworkRequestId;
use vstd::prelude::*;

verus! {

/// The component that a network message is for.
#[derive(Debug, Clone, Copy, PartialEq, Eq, Structural)]
pub enum NetworkMsgHandler {
    BlockChain,
}

/// What the blockchain component receives.
pub enum MsgToBlockChain {
    /// A broadcast from a node, still encoded.
    Broadcast(NodeId, Vec<u8>),
    /// A request from a node, with its id, still encoded.
    Request(NodeId, NetworkRequestId, Vec<u8>),
    /// An act transaction from a worker.
    ActTx(ActTx),
    /// An update-entity transaction from a worker.
    UpdateEntityTx(UpdateEntityTx),
    /// A wasm upload from the administrator.
    UploadWasm(UploadWasm),
}

/// What the components ask the network to send.
pub enum MsgToNetwork<C> {
    /// Send to all peers.
    Broadcast(NetworkMsgHandler, Vec<u8>),
    /// Send a request to one node.
    Request(NodeId, NetworkMsgHandler, NetworkRequestId, Vec<u8>),
    /// Send a request to all peers.
    RequestBroadcast(NetworkMsgHandler, NetworkRequestId, Vec<u8>),
    /// Answer a request of a node.
    Response(NodeId, NetworkRequestId, Vec<u8>),
    /// Send a consensus message to all peers.
    ConsensusBroadcast(C),
    /// Relay a consensus message to the node whose address the consensus
    /// engine gave as text; `None` where that text is not an address.
    ConsensusMsgRelay(Option<NodeId>, C),
}

/// The content of a message between nodes.
pub enum NetworkMessageContent<C> {
    Broadcast { handler: NetworkMsgHandler, broadcast_content: Vec<u8> },
    Request { handler: NetworkMsgHandler, request_id: NetworkRequestId, request_content: Vec<u8> },
    Response { request_id: NetworkRequestId, response_content: Vec<u8> },
    ConsensusBroadcast(C),
    ConsensusMsgRelay(C),
}

/// What a message between nodes carries: the sender's listening address
/// (the first message on a connection), or content.
pub enum NetworkMessagePayload<C> {
    Handshake(NodeId),
    Content(NetworkMessageContent<C>),
}

/// A message between nodes.
pub struct NetworkMessage<C> {
    pub sender: NodeId,
    pub receiver: Option<NodeId>,
    pub payload: NetworkMessagePayload<C>,
}

/// What the network does with a message from a component.
pub enum Outgoing<C> {
    /// Send to all peers but the sender.
    Broadcast(NetworkMessage<C>),
    /// Send to one node.
    Send(NodeId, NetworkMessage<C>),
    /// Nothing to send: the relay address was not an address.
    Drop,
}

/// A message from the node at `self_addr` with this content, to `receiver`
/// (none for a broadcast).
pub open spec fn content_message<C>(
    self_addr: NodeId,
    receiver: Option<NodeId>,
    content: NetworkMessageContent<C>,
) -> NetworkMessage<C> {
    NetworkMessage { sender: self_addr, receiver, payload: NetworkMessagePayload::Content(content) }
}

/// How the node at `self_addr` sends what a component asks: broadcasts,
/// requests to all and consensus broadcasts go to all peers; requests,
/// responses and relays go to the node they name.
pub open spec fn route_spec<C>(self_addr: NodeId, msg: MsgToNetwork<C>) -> Outgoing<C> {
    match msg {
        MsgToNetwork::Broadcast(handler, broadcast_content) => Outgoing::Broadcast(
            content_message(
                self_addr,
                None,
                NetworkMessageContent::Broadcast { handler, broadcast_content },
            ),
        ),
        MsgToNetwork::Request(n, handler, request_id, request_content) => Outgoing::Send(
            n,
            content_message(
                self_addr,
                Some(n),
                NetworkMessageContent::Request { handler, request_id, request_content },
            ),
        ),
        MsgToNetwork::RequestBroadcast(handler, request_id, request_content) => Outgoing::Broadcast(
            content_message(
                self_addr,
                None,
                NetworkMessageContent::Request { handler, request_id, request_content },
            ),
        ),
        MsgToNetwork::Response(n, request_id, response_content) => Outgoing::Send(
            n,
            content_message(
                self_addr,
                Some(n),
                NetworkMessageContent::Response { request_id, response_content },
            ),
        ),
        MsgToNetwork::ConsensusBroadcast(c) => Outgoing::Broadcast(
            content_message(self_addr, None, NetworkMessageContent::ConsensusBroadcast(c)),
        ),
        MsgToNetwork::ConsensusMsgRelay(Some(n), c) => Outgoing::Send(
            n,
            content_message(self_addr, Some(n), NetworkMessageContent::ConsensusMsgRelay(c)),
        ),
        MsgToNetwork::ConsensusMsgRelay(None, _) => Outgoing::Drop,
    }
}

/// The message that the node at `self_addr` sends for a component's
/// request.
pub fn route_outgoing<C>(self_addr: NodeId, msg: MsgToNetwork<C>) -> (out: Outgoing<C>)
    ensures
        out == route_spec(self_addr, msg),
{
    match msg {
        MsgToNetwork::Broadcast(handler, broadcast_content) => Outgoing::Broadcast(
            NetworkMessage {
                sender: self_addr,
                receiver: None,
                payload: NetworkMessagePayload::Content(
                    NetworkMessageContent::Broadcast { handler, broadcast_content },
                ),
            },
        ),
        MsgToNetwork::Request(node_id, handler, request_id, request_content) => Outgoing::Send(
            node_id,
            NetworkMessage {
                sender: self_addr,
                receiver: Some(node_id),
                payload: NetworkMessagePayload::Content(
                    NetworkMessageContent::Request { handler, request_id, request_content },
                ),
            },
        ),
        MsgToNetwork::RequestBroadcast(handler, request_id, request_content) => Outgoing::Broadcast(
            NetworkMessage {
                sender: self_addr,
                receiver: None,
                payload: NetworkMessagePayload::Content(
                    NetworkMessageContent::Request { handler, request_id, request_content },
                ),
            },
        ),
        MsgToNetwork::Response(node_id, request_id, response_content) => Outgoing::Send(
            node_id,
            NetworkMessage {
                sender: self_addr,
                receiver: Some(node_id),
                payload: NetworkMessagePayload::Content(
                    NetworkMessageContent::Response { request_id, response_content },
                ),
            },
        ),
        MsgToNetwork::ConsensusBroadcast(content) => Outgoing::Broadcast(
            NetworkMessage {
                sender: self_addr,
                receiver: None,
                payload: NetworkMessagePayload::Content(
                    NetworkMessageContent::ConsensusBroadcast(content),
                ),
            },
        ),
        MsgToNetwork::ConsensusMsgRelay(addr, content) => match addr {
            Some(node_id) => Outgoing::Send(
                node_id,
                NetworkMessage {
                    sender: self_addr,
                    receiver: Some(node_id),
                    payload: NetworkMessagePayload::Content(
                        NetworkMessageContent::ConsensusMsgRelay(content),
                    ),
                },
            ),
            None => Outgoing::Drop,
        },
    }
}

/// The peers that a broadcast goes to: all but the message's sender, in
/// order.
pub fn broadcast_targets(peers: &Vec<NodeId>, sender: NodeId) -> (r: Vec<NodeId>)
    ensures
        r@ == peers@.filter(|p: NodeId| p != sender),
{
    let mut r: Vec<NodeId> = Vec::new();
    let mut i: usize = 0;
    while i < peers.len()
        invariant
            i <= peers@.len(),
            r@ == peers@.take(i as int).filter(|p: NodeId| p != sender),
        decreases peers@.len() - i,
    {
        proof {
            reveal_with_fuel(Seq::filter, 1);
            assert(peers@.take(i + 1).drop_last() =~= peers@.take(i as int));
        }
        if peers[i] != sender {
            r.push(peers[i]);
        }
        i = i + 1;
    }
    assert(peers@.take(peers@.len() as int) =~= peers@);
    r
}

/// What to do with a message that arrived on a connection.
pub enum Incoming<C> {
    /// The peer announced its listening address: register the connection
    /// under it.
    RegisterPeer(NodeId),
    /// Hand to the blockchain component.
    ToBlockChain(MsgToBlockChain),
    /// Hand a response to the request bookkeeping.
    OnResponse(NodeId, NetworkRequestId, Vec<u8>),
    /// Hand to the consensus component.
    ToConsensus(C),
    /// Drop: the peer has not announced its address yet.
    Ignore,
}

/// The step taken for a message on a connection, given the address the
/// peer announced, if it did: the new announced address and the action.
/// Content is taken only after the announcement, and carries the announced
/// address as its origin.
pub open spec fn dispatch_spec<C>(peer: Option<NodeId>, payload: NetworkMessagePayload<C>) -> (
    Option<NodeId>,
    Incoming<C>,
) {
    match payload {
        NetworkMessagePayload::Handshake(a) => (Some(a), Incoming::RegisterPeer(a)),
        NetworkMessagePayload::Content(content) => match peer {
            None => (None, Incoming::Ignore),
            Some(p) => (
                peer,
                match content {
                    NetworkMessageContent::Broadcast { handler: _, broadcast_content } => Incoming::ToBlockChain(
                        MsgToBlockChain::Broadcast(p, broadcast_content),
                    ),
                    NetworkMessageContent::Request { handler: _, request_id, request_content } => Incoming::ToBlockChain(
                        MsgToBlockChain::Request(p, request_id, request_content),
                    ),
                    NetworkMessageContent::Response { request_id, response_content } => Incoming::OnResponse(
                        p,
                        request_id,
                        response_content,
                    ),
                    NetworkMessageContent::ConsensusBroadcast(m) => Incoming::ToConsensus(m),
                    NetworkMessageContent::ConsensusMsgRelay(m) => Incoming::ToConsensus(m),
                },
            ),
        },
    }
}

/// The step taken for a message on a connection.
pub fn dispatch_incoming<C>(peer: Option<NodeId>, payload: NetworkMessagePayload<C>) -> (r: (
    Option<NodeId>,
    Incoming<C>,
))
    ensures
        r == dispatch_spec(peer, payload),
{
    match payload {
        NetworkMessagePayload::Handshake(addr) => (Some(addr), Incoming::RegisterPeer(addr)),
        NetworkMessagePayload::Content(content) => match peer {
            None => (peer, Incoming::Ignore),
            Some(p) => {
                let action = match content {
                    NetworkMessageContent::Broadcast { handler, broadcast_content } => match handler {
                        NetworkMsgHandler::BlockChain => Incoming::ToBlockChain(
                            MsgToBlockChain::Broadcast(p, broadcast_content),
                        ),
                    },
                    NetworkMessageContent::Request { handler, request_id, request_content } => match handler {
                        NetworkMsgHandler::BlockChain => Incoming::ToBlockChain(
                            MsgToBlockChain::Request(p, request_id, request_content),
                        ),
                    },
                    NetworkMessageContent::Response { request_id, response_content } => Incoming::OnResponse(
                        p,
                        request_id,
                        response_content,
                    ),
                    NetworkMessageContent::ConsensusBroadcast(m) => Incoming::ToConsensus(m),
                    NetworkMessageContent::ConsensusMsgRelay(m) => Incoming::ToConsensus(m),
                };
                (peer, action)
            },
        },
    }
}

/// The network component as made from its channels: it keeps none of
/// them, the node does the work.
pub struct Network {}

impl Network {
    /// Makes the network component from its channels, which it drops; it
    /// cannot fail.
    pub fn create<Channels>(_channels: Channels) -> (r: Network)
        ensures
            r == (Network {}),
    {
        Network {}
    }
}

/// Once a peer has announced its address `p`, what it sends goes where its
/// kind says: a broadcast or a request to the blockchain component, with
/// `p` as its origin and the request's id and bytes kept; a response, and
/// only a response, to the request bookkeeping; consensus messages to
/// consensus. The announced address stays.
pub proof fn law_content_reaches_its_component<C>(p: NodeId, content: NetworkMessageContent<C>)
    ensures
        ({
            let r = dispatch_spec(Some(p), NetworkMessagePayload::Content(content));
            &&& r.0 == Some(p)
            &&& content matches NetworkMessageContent::Broadcast { handler: _, broadcast_content }
                ==> r.1 == Incoming::<C>::ToBlockChain(MsgToBlockChain::Broadcast(p, broadcast_content))
            &&& content matches NetworkMessageContent::Request { handler: _, request_id, request_content }
                ==> r.1 == Incoming::<C>::ToBlockChain(
                MsgToBlockChain::Request(p, request_id, request_content),
            )
            &&& content matches NetworkMessageContent::Response { request_id, response_content }
                ==> r.1 == Incoming::<C>::OnResponse(p, request_id, response_content)
            &&& content matches NetworkMessageContent::ConsensusBroadcast(m) ==> r.1
                == Incoming::<C>::ToConsensus(m)
            &&& content matches NetworkMessageContent::ConsensusMsgRelay(m) ==> r.1
                == Incoming::<C>::ToConsensus(m)
            &&& (r.1 is OnResponse <==> content is Response)
            &&& (r.1 is ToBlockChain <==> (content is Broadcast || content is Request))
        }),
{
}

/// Every message that a node sends carries the node's own address as its
/// sender; a message sent to one node names that node as its receiver, and
/// a broadcast names none. A request, a response or a relay goes to the
/// node it names, with its content kept; only a relay without an address
/// is dropped.
pub proof fn law_routed_messages_come_from_the_node<C>(self_addr: NodeId, msg: MsgToNetwork<C>)
    ensures
        match route_spec(self_addr, msg) {
            Outgoing::Broadcast(m) => m.sender == self_addr && m.receiver is None,
            Outgoing::Send(n, m) => m.sender == self_addr && m.receiver == Some(n),
            Outgoing::Drop => msg matches MsgToNetwork::ConsensusMsgRelay(None, _),
        },
        msg matches MsgToNetwork::Response(n, request_id, response_content) ==> route_spec(
            self_addr,
            msg,
        ) matches Outgoing::Send(to, m) && to == n && m.payload == NetworkMessagePayload::<
            C,
        >::Content(NetworkMessageContent::Response { request_id, response_content }),
        msg matches MsgToNetwork::Request(n, handler, request_id, request_content) ==> route_spec(
            self_addr,
            msg,
        ) matches Outgoing::Send(to, m) && to == n && m.payload == NetworkMessagePayload::<
            C,
        >::Content(NetworkMessageContent::Request { handler, request_id, request_content }),
        msg matches MsgToNetwork::ConsensusMsgRelay(Some(n), c) ==> route_spec(self_addr, msg) matches Outgoing::Send(
            to,
            m,
        ) && to == n && m.payload == NetworkMessagePayload::<C>::Content(
            NetworkMessageContent::ConsensusMsgRelay(c),
        ),
{
}

/// Content that arrives before the peer announced its address reaches no
/// component; content after it reaches a component with the announced
/// address as its origin, and the announcement stands.
pub proof fn law_handshake_first<C>(peer: Option<NodeId>, content: NetworkMessageContent<C>)
    ensures
        peer is None ==> dispatch_spec(peer, NetworkMessagePayload::Content(content)) == (
            None::<NodeId>,
            Incoming::<C>::Ignore,
        ),
        peer is Some ==> ({
            let r = dispatch_spec(peer, NetworkMessagePayload::Content(content));
            &&& r.0 == peer
            &&& r.1 matches Incoming::ToBlockChain(MsgToBlockChain::Broadcast(n, _)) ==> n
                == peer->0
            &&& r.1 matches Incoming::ToBlockChain(MsgToBlockChain::Request(n, _, _)) ==> n
                == peer->0
            &&& r.1 matches Incoming::OnResponse(n, _, _) ==> n == peer->0
            &&& !(r.1 is Ignore) && !(r.1 is RegisterPeer)
        }),
{
}

} // verus!
