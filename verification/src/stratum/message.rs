//! The messages as the client's handlers see them.
use vstd::prelude::*;
use crate::stratum::protocol::{JsonValue, RpcError, RpcId, StratumProtocol, optional_text, optional_text_value};

verus! {

/// Miner and pool server communication protocol
#[derive(Debug)]
pub enum StratumMessage {
    /// (id, user_agent, protocol_version, session_id)
    Subscribe(RpcId, String, String, Option<String>),
    /// (id, miner_name, worker_password)
    Authorize(RpcId, String, String),
    /// This is the difficulty target for the next job.
    /// (difficulty_target)
    SetDifficulty(u64),
    /// New job from the mining pool.
    /// (job_id, block_header_root, hashed_leaves_1, hashed_leaves_2, hashed_leaves_3,
    ///  hashed_leaves_4, clean_jobs)
    Notify(String, String, String, String, String, String, bool),
    /// Submit shares to the pool.
    /// (id, worker_name, job_id, nonce, commitment, proof)
    Submit(RpcId, String, String, String, String, String),
    /// (result, message)
    Response(RpcId, Option<ResponseParams>, Option<RpcError>),
}

/// The result that a response carries; an array's items are kept as their
/// JSON text.
#[derive(Debug)]
pub enum ResponseParams {
    Bool(bool),
    Array(Vec<String>),
    Null,
}

/// The parameters of a notification, in the order in which they are sent.
#[derive(Debug, Clone, PartialEq, Eq)]
pub struct NotifyParams(pub String, pub String, pub String, pub String, pub String, pub String, pub bool);

/// The parameters of a subscription, in the order in which they are sent.
#[derive(Debug, Clone, PartialEq, Eq)]
pub struct SubscribeParams(pub String, pub String, pub Option<String>);

impl StratumMessage {
    /// The method name of a message.
    pub open spec fn method_name(&self) -> &'static str {
        match self {
            StratumMessage::Subscribe(..) => "mining.subscribe",
            StratumMessage::Authorize(..) => "mining.authorize",
            StratumMessage::SetDifficulty(..) => "mining.set_difficulty",
            StratumMessage::Notify(..) => "mining.notify",
            StratumMessage::Submit(..) => "mining.submit",
            StratumMessage::Response(..) => "mining.response",
        }
    }

    pub fn name(&self) -> (name: &'static str)
        ensures
            name == self.method_name(),
    {
        match self {
            StratumMessage::Subscribe(..) => "mining.subscribe",
            StratumMessage::Authorize(..) => "mining.authorize",
            StratumMessage::SetDifficulty(..) => "mining.set_difficulty",
            StratumMessage::Notify(..) => "mining.notify",
            StratumMessage::Submit(..) => "mining.submit",
            StratumMessage::Response(..) => "mining.response",
        }
    }
}

impl StratumMessage {
    /// How a message of the wire protocol reads as a handler message: a
    /// target is a difficulty; an authorization keeps its miner name and its
    /// password (empty when none was given); a submission keeps its job id,
    /// nonce and proof, with an empty worker name and commitment; the other
    /// messages keep all they carry.
    pub open spec fn reads_as(p: StratumProtocol, m: StratumMessage) -> bool {
        match p {
            StratumProtocol::Subscribe(id, a, b, c) => m == StratumMessage::Subscribe(id, a, b, c),
            StratumProtocol::Authorize(id, _account, miner, password) => m matches StratumMessage::Authorize(
                id2,
                miner2,
                password2,
            ) && id2 == id && miner2 == miner && match password {
                Some(pw) => password2 == pw,
                None => password2@ == Seq::<char>::empty(),
            },
            StratumProtocol::SetTarget(t) => m == StratumMessage::SetDifficulty(t),
            StratumProtocol::Notify(a, b, c, d, e, f, g) => m == StratumMessage::Notify(a, b, c, d, e, f, g),
            StratumProtocol::Submit(id, job_id, nonce, proof) => m matches StratumMessage::Submit(
                id2,
                worker,
                job_id2,
                nonce2,
                commitment,
                proof2,
            ) && id2 == id && worker@ == Seq::<char>::empty() && job_id2 == job_id && nonce2 == nonce
                && commitment@ == Seq::<char>::empty() && proof2 == proof,
            StratumProtocol::Response(id, result, error) => m == StratumMessage::Response(id, result, error),
        }
    }

    /// Reads a message of the wire protocol as a handler message.
    pub fn from_protocol(p: StratumProtocol) -> (m: StratumMessage)
        ensures
            Self::reads_as(p, m),
    {
        match p {
            StratumProtocol::Subscribe(id, a, b, c) => StratumMessage::Subscribe(id, a, b, c),
            StratumProtocol::Authorize(id, _account, miner, password) => {
                let password = match password {
                    Some(pw) => pw,
                    None => String::new(),
                };
                StratumMessage::Authorize(id, miner, password)
            },
            StratumProtocol::SetTarget(t) => StratumMessage::SetDifficulty(t),
            StratumProtocol::Notify(a, b, c, d, e, f, g) => StratumMessage::Notify(a, b, c, d, e, f, g),
            StratumProtocol::Submit(id, job_id, nonce, proof) => StratumMessage::Submit(
                id,
                String::new(),
                job_id,
                nonce,
                String::new(),
                proof,
            ),
            StratumProtocol::Response(id, result, error) => StratumMessage::Response(id, result, error),
        }
    }
}

/// The parameters of a notification as the JSON array that is sent.
pub open spec fn notify_json(p: NotifyParams) -> Seq<JsonValue> {
    seq![
        JsonValue::Str(p.0),
        JsonValue::Str(p.1),
        JsonValue::Str(p.2),
        JsonValue::Str(p.3),
        JsonValue::Str(p.4),
        JsonValue::Str(p.5),
        JsonValue::Bool(p.6),
    ]
}

/// The parameters of a subscription as the JSON array that is sent; a
/// missing session id is sent as null.
pub open spec fn subscribe_json(p: SubscribeParams) -> Seq<JsonValue> {
    seq![JsonValue::Str(p.0), JsonValue::Str(p.1), optional_text(p.2)]
}

impl NotifyParams {
    /// The JSON array of these parameters.
    pub fn into_json(self) -> (values: Vec<JsonValue>)
        ensures
            values@ == notify_json(self),
    {
        let mut values: Vec<JsonValue> = Vec::new();
        values.push(JsonValue::Str(self.0));
        values.push(JsonValue::Str(self.1));
        values.push(JsonValue::Str(self.2));
        values.push(JsonValue::Str(self.3));
        values.push(JsonValue::Str(self.4));
        values.push(JsonValue::Str(self.5));
        values.push(JsonValue::Bool(self.6));
        values
    }
}

impl SubscribeParams {
    /// The JSON array of these parameters.
    pub fn into_json(self) -> (values: Vec<JsonValue>)
        ensures
            values@ == subscribe_json(self),
    {
        let mut values: Vec<JsonValue> = Vec::new();
        values.push(JsonValue::Str(self.0));
        values.push(JsonValue::Str(self.1));
        values.push(optional_text_value(self.2));
        values
    }
}

} // verus!
