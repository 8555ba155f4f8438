//! A stratum mining client for the Aleo pool protocol: the wire protocol,
//! its framing, and the decisions of the client, the prover and its workers.
pub mod hexcode;
pub mod text;
pub mod stratum;
pub mod mining;
pub mod miner;
pub mod aleo;
pub mod account;
