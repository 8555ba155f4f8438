//! The messages that the miner and the pool server exchange, and the
//! JSON-RPC values they are made of.
use vstd::prelude::*;
use crate::stratum::message::ResponseParams;

verus! {

/// A JSON-RPC request identifier: a number, or a string of at most 36 bytes.
#[derive(Debug, Clone, PartialEq, Eq)]
pub enum RpcId {
    Num(u64),
    Str(String),
}

/// A JSON-RPC error object: its numeric code and its message.
#[derive(Debug, Clone, PartialEq, Eq)]
pub struct RpcError {
    pub code: i64,
    pub message: String,
}

/// A JSON value as the protocol reads it, one level deep. A number is kept
/// as the unsigned 64-bit integer that it is, or `None` when it is not one
/// (negative, fractional or too large); the items of an array and the
/// member values of an object are kept as their JSON text, in order.
#[derive(Debug, Clone)]
pub enum JsonValue {
    Null,
    Bool(bool),
    Number(Option<u64>),
    Str(String),
    Array(Vec<String>),
    Object(Vec<(String, String)>),
}

/// Miner and pool server communication protocol
#[derive(Debug)]
pub enum StratumProtocol {
    /// (id, user_agent, protocol_version, session_id)
    Subscribe(RpcId, String, String, Option<String>),
    /// (id, account_name, miner_name, worker_password)
    Authorize(RpcId, String, String, Option<String>),
    /// This is the difficulty target for the next job.
    /// (difficulty_target)
    SetTarget(u64),
    /// New job from the mining pool.
    /// (job_id, block_header_root, hashed_leaves_1, hashed_leaves_2, hashed_leaves_3,
    ///  hashed_leaves_4, clean_jobs)
    Notify(String, String, String, String, String, String, bool),
    /// Submit shares to the pool.
    /// (id, job_id, nonce, proof)
    Submit(RpcId, String, String, String),
    /// (id, result, error)
    Response(RpcId, Option<ResponseParams>, Option<RpcError>),
}

impl StratumProtocol {
    /// The method name of a message.
    pub open spec fn method_name(&self) -> &'static str {
        match self {
            StratumProtocol::Subscribe(..) => "mining.subscribe",
            StratumProtocol::Authorize(..) => "mining.authorize",
            StratumProtocol::SetTarget(..) => "mining.set_target",
            StratumProtocol::Notify(..) => "mining.notify",
            StratumProtocol::Submit(..) => "mining.submit",
            StratumProtocol::Response(..) => "mining.response",
        }
    }

    /// The method name of a message, as it is reported.
    pub fn name(&self) -> (name: &'static str)
        ensures
            name == self.method_name(),
    {
        match self {
            StratumProtocol::Subscribe(..) => "mining.subscribe",
            StratumProtocol::Authorize(..) => "mining.authorize",
            StratumProtocol::SetTarget(..) => "mining.set_target",
            StratumProtocol::Notify(..) => "mining.notify",
            StratumProtocol::Submit(..) => "mining.submit",
            StratumProtocol::Response(..) => "mining.response",
        }
    }
}

/// The text of an optional string as a JSON value: the string, or null.
pub open spec fn optional_text(text: Option<String>) -> JsonValue {
    match text {
        Some(s) => JsonValue::Str(s),
        None => JsonValue::Null,
    }
}

/// Puts an optional string into a JSON value: the string, or null.
pub fn optional_text_value(text: Option<String>) -> (value: JsonValue)
    ensures
        value == optional_text(text),
{
    match text {
        Some(s) => JsonValue::Str(s),
        None => JsonValue::Null,
    }
}

} // verus!
