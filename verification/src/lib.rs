//! Verified core of the vintage blockchain node: transaction pools,
//! message encodings, block-event construction, peer bookkeeping and
//! the request/response bookkeeping of the network layer.

pub mod codec;
pub mod config;
pub mod crypto;
pub mod event;
pub mod export;
pub mod frame;
pub mod hashed;
pub mod meta;
pub mod msg;
pub mod node;
pub mod peer_manager;
pub mod request;
pub mod rsp;
pub mod sync;
pub mod routing;
pub mod text;
pub mod tx;
pub mod txpool;
pub mod vote;
pub mod wire;
