//! The pools of pending transactions.

pub mod act_pool;
pub mod act_tx_pool;
pub mod entity_pool;
pub mod keyed_pool;
pub mod pool;
pub mod tx_pool;
pub mod wasm_tx_pool;
