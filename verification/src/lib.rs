//! Finding a model's files on the hub or in its local cache, and the decisions of a
//! simulated cache-block offload engine.

pub mod hub;
pub mod offload;
pub mod pool;
pub mod settings;
pub mod snapshot;
pub mod text;
