//! The messages that the node's components exchange.

pub mod act;
pub mod block;
pub mod event;
pub mod state;
pub mod tx;
