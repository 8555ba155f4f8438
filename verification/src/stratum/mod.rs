//! The stratum protocol between the miner and the pool server.
pub mod protocol;
pub mod message;
pub mod codec;
pub mod handler;
pub mod client;
pub mod framing;
pub mod json;
