//! What the stratum client does with what the pool sends: the subscription
//! and authorization handshake, then the mining messages.
use vstd::prelude::*;
use vstd::bytes::spec_u64_from_le_bytes;
use vstd::string::StringExecFns;
use crate::hexcode::{JobIdError, decode_job_id, hex_bytes, is_hex_text, job_id_meaning};
use crate::mining::ProverEvent;
use crate::stratum::message::{ResponseParams, StratumMessage};
use crate::stratum::protocol::{RpcId, StratumProtocol};

verus! {

broadcast use vstd::string::group_string_axioms;

/// What came from the pool's stream when the client waited for a message.
#[derive(Debug)]
pub enum Incoming {
    /// A message.
    Message(StratumProtocol),
    /// The stream failed with this error.
    Failed(String),
    /// The stream ended.
    Closed,
}

/// Why the handshake with the pool failed.
#[derive(Debug, Clone, PartialEq, Eq)]
pub enum HandshakeError {
    /// The stream ended before the answer came.
    Closed,
    /// Reading the answer failed with this error.
    ReadFailed(String),
    /// The pool answered with an error carrying this message.
    Rejected(String),
    /// The pool answered with a message of this name instead of a response.
    Unexpected(&'static str),
}

/// The subscription step of the handshake.
pub struct SubscribeHandler;

/// The authorization step of the handshake.
pub struct AuthorizeHandler;

/// The password that the client authorizes with.
pub open spec fn worker_password() -> Seq<char> {
    "123456"@
}

/// The verdict on the pool's answer to the subscription: a response without
/// an error completes it; a response with an error, another message, a read
/// error or the end of the stream fail it.
pub open spec fn spec_subscribe_verdict(incoming: Incoming) -> Result<(), HandshakeError> {
    match incoming {
        Incoming::Closed => Err(HandshakeError::Closed),
        Incoming::Failed(e) => Err(HandshakeError::ReadFailed(e)),
        Incoming::Message(StratumProtocol::Response(_, _, Some(error))) => Err(
            HandshakeError::Rejected(error.message),
        ),
        Incoming::Message(StratumProtocol::Response(_, _, None)) => Ok(()),
        Incoming::Message(m) => Err(HandshakeError::Unexpected(m.method_name())),
    }
}

/// The verdict on the pool's answer to the authorization: any response
/// completes it; another message, a read error or the end of the stream
/// fail it.
pub open spec fn spec_authorize_verdict(incoming: Incoming) -> Result<(), HandshakeError> {
    match incoming {
        Incoming::Closed => Err(HandshakeError::Closed),
        Incoming::Failed(e) => Err(HandshakeError::ReadFailed(e)),
        Incoming::Message(StratumProtocol::Response(..)) => Ok(()),
        Incoming::Message(m) => Err(HandshakeError::Unexpected(m.method_name())),
    }
}

impl SubscribeHandler {
    /// The subscription request: id 0, user agent `client/` followed by the
    /// client's version, protocol `AleoStratum/1.0.0`, no session id.
    pub fn subscribe_request(version: &str) -> (req: StratumProtocol)
        ensures
            req matches StratumProtocol::Subscribe(id, user_agent, protocol_version, session_id)
                && id == RpcId::Num(0) && user_agent@ == "client/"@ + version@ && protocol_version@
                == "AleoStratum/1.0.0"@ && session_id is None,
    {
        let user_agent = "client/".to_string().concat(version);
        StratumProtocol::Subscribe(RpcId::Num(0), user_agent, "AleoStratum/1.0.0".to_string(), None)
    }

    /// Judges the pool's answer to the subscription: a response without an
    /// error completes it; a response with an error, another message, a read
    /// error or the end of the stream fail it.
    pub fn wait_subscribe_resp(incoming: Incoming) -> (res: Result<(), HandshakeError>)
        ensures
            res == spec_subscribe_verdict(incoming),
    {
        match incoming {
            Incoming::Closed => Err(HandshakeError::Closed),
            Incoming::Failed(e) => Err(HandshakeError::ReadFailed(e)),
            Incoming::Message(message) => {
                let name = message.name();
                match message {
                    StratumProtocol::Response(_id, _result, error) => match error {
                        Some(error) => Err(HandshakeError::Rejected(error.message)),
                        None => Ok(()),
                    },
                    _ => Err(HandshakeError::Unexpected(name)),
                }
            },
        }
    }
}

impl AuthorizeHandler {
    /// The authorization request: id 1, the miner's address, the client's
    /// password.
    pub fn authorize_request(address: &String) -> (req: StratumMessage)
        ensures
            req matches StratumMessage::Authorize(id, miner_name, password) && id == RpcId::Num(1)
                && miner_name@ == address@ && password@ == worker_password(),
    {
        StratumMessage::Authorize(RpcId::Num(1), address.clone(), "123456".to_string())
    }

    /// Judges the pool's answer to the authorization: any response completes
    /// it; another message, a read error or the end of the stream fail it.
    pub fn wait_authorize_resp(incoming: Incoming) -> (res: Result<(), HandshakeError>)
        ensures
            res == spec_authorize_verdict(incoming),
    {
        match incoming {
            Incoming::Closed => Err(HandshakeError::Closed),
            Incoming::Failed(e) => Err(HandshakeError::ReadFailed(e)),
            Incoming::Message(message) => {
                let name = message.name();
                match message {
                    StratumProtocol::Response(..) => Ok(()),
                    _ => Err(HandshakeError::Unexpected(name)),
                }
            },
        }
    }
}

/// Where the client's session with the pool stands.
#[derive(Debug, Clone, Copy, PartialEq, Eq, Structural)]
pub enum SessionPhase {
    /// The subscription was sent; its answer is awaited.
    Subscribing,
    /// The authorization was sent; its answer is awaited.
    Authorizing,
    /// The handshake is done; mining messages are handled.
    Mining,
    /// The session failed.
    Closed,
}

/// What the client does with what came from the pool.
#[derive(Debug)]
pub enum SessionAction {
    /// The subscription is done: send this authorization.
    Authorize(StratumMessage),
    /// The authorization is done: mining messages follow.
    Ready,
    /// Handle this mining message.
    Deliver(StratumMessage),
    /// The subscription failed.
    SubscribeFailed(HandshakeError),
    /// The authorization failed.
    AuthorizeFailed(HandshakeError),
    /// The pool's stream ended or failed after the handshake (with the error
    /// if it failed), or the session had already failed.
    Disconnected(Option<String>),
}

/// The client's session with the pool: subscription, then authorization,
/// then mining messages.
pub struct Session {
    phase: SessionPhase,
    address: String,
}

/// The phase that follows a phase on something from the pool: a
/// subscription answered without an error leads to the authorization, any
/// answer to the authorization to mining, and mining stays mining while
/// messages come; everything else closes the session.
pub open spec fn next_phase(phase: SessionPhase, incoming: Incoming) -> SessionPhase {
    match phase {
        SessionPhase::Subscribing => if spec_subscribe_verdict(incoming) is Ok {
            SessionPhase::Authorizing
        } else {
            SessionPhase::Closed
        },
        SessionPhase::Authorizing => if spec_authorize_verdict(incoming) is Ok {
            SessionPhase::Mining
        } else {
            SessionPhase::Closed
        },
        SessionPhase::Mining => if incoming is Message {
            SessionPhase::Mining
        } else {
            SessionPhase::Closed
        },
        SessionPhase::Closed => SessionPhase::Closed,
    }
}

impl Session {
    /// The phase of the session.
    pub closed spec fn spec_phase(&self) -> SessionPhase {
        self.phase
    }

    /// The address that the session authorizes with.
    pub closed spec fn spec_address(&self) -> Seq<char> {
        self.address@
    }

    /// A session for the miner's address that has sent its subscription.
    pub fn new(address: String) -> (session: Session)
        ensures
            session.spec_phase() == SessionPhase::Subscribing,
            session.spec_address() == address@,
    {
        Session { phase: SessionPhase::Subscribing, address }
    }

    /// The phase of the session.
    pub fn phase(&self) -> (phase: SessionPhase)
        ensures
            phase == self.spec_phase(),
    {
        self.phase
    }

    /// Takes what came from the pool: while subscribing, the subscription's
    /// verdict (and, if it succeeded, the authorization to send); while
    /// authorizing, the authorization's verdict; while mining, the message to
    /// handle, read as a handler message, or the end of the stream.
    pub fn on_incoming(&mut self, incoming: Incoming) -> (action: SessionAction)
        ensures
            final(self).spec_address() == old(self).spec_address(),
            final(self).spec_phase() == next_phase(old(self).spec_phase(), incoming),
            match old(self).spec_phase() {
                SessionPhase::Subscribing => match spec_subscribe_verdict(incoming) {
                    Ok(()) => action matches SessionAction::Authorize(
                        StratumMessage::Authorize(id, miner_name, password),
                    ) && id == RpcId::Num(1) && miner_name@ == old(self).spec_address() && password@
                        == worker_password(),
                    Err(e) => action matches SessionAction::SubscribeFailed(f) && f == e,
                },
                SessionPhase::Authorizing => match spec_authorize_verdict(incoming) {
                    Ok(()) => action matches SessionAction::Ready,
                    Err(e) => action matches SessionAction::AuthorizeFailed(f) && f == e,
                },
                SessionPhase::Mining => match incoming {
                    Incoming::Message(p) => action matches SessionAction::Deliver(m)
                        && StratumMessage::reads_as(p, m),
                    Incoming::Failed(e) => action matches SessionAction::Disconnected(Some(f)) && f == e,
                    Incoming::Closed => action matches SessionAction::Disconnected(None),
                },
                SessionPhase::Closed => action matches SessionAction::Disconnected(None),
            },
    {
        match self.phase {
            SessionPhase::Subscribing => match SubscribeHandler::wait_subscribe_resp(incoming) {
                Ok(()) => {
                    self.phase = SessionPhase::Authorizing;
                    SessionAction::Authorize(AuthorizeHandler::authorize_request(&self.address))
                },
                Err(e) => {
                    self.phase = SessionPhase::Closed;
                    SessionAction::SubscribeFailed(e)
                },
            },
            SessionPhase::Authorizing => match AuthorizeHandler::wait_authorize_resp(incoming) {
                Ok(()) => {
                    self.phase = SessionPhase::Mining;
                    SessionAction::Ready
                },
                Err(e) => {
                    self.phase = SessionPhase::Closed;
                    SessionAction::AuthorizeFailed(e)
                },
            },
            SessionPhase::Mining => match incoming {
                Incoming::Message(p) => SessionAction::Deliver(StratumMessage::from_protocol(p)),
                Incoming::Failed(e) => {
                    self.phase = SessionPhase::Closed;
                    SessionAction::Disconnected(Some(e))
                },
                Incoming::Closed => {
                    self.phase = SessionPhase::Closed;
                    SessionAction::Disconnected(None)
                },
            },
            SessionPhase::Closed => SessionAction::Disconnected(None),
        }
    }
}

/// Mining messages are only handled after the handshake: a session reaches
/// the mining phase only from the authorization phase on a response, and
/// the authorization phase only from the subscription phase on a response
/// without an error; a closed session stays closed.
pub proof fn law_handshake_order(phase: SessionPhase, incoming: Incoming)
    ensures
        next_phase(phase, incoming) == SessionPhase::Mining ==> phase == SessionPhase::Mining || (
        phase == SessionPhase::Authorizing && incoming matches Incoming::Message(
            StratumProtocol::Response(..),
        )),
        next_phase(phase, incoming) == SessionPhase::Authorizing ==> phase == SessionPhase::Subscribing
            && incoming matches Incoming::Message(StratumProtocol::Response(_, _, None)),
        phase == SessionPhase::Closed ==> next_phase(phase, incoming) == SessionPhase::Closed,
        next_phase(phase, incoming) != SessionPhase::Subscribing,
{
}

/// What the handler does with a mining message.
#[derive(Debug)]
pub enum HandlerAction {
    /// Tell the prover.
    ToProver(ProverEvent),
    /// Make this the current proof target.
    NewTarget(u64),
    /// A response whose result is a boolean other than `true`.
    UnexpectedResult(bool),
    /// A response whose result is not a boolean.
    UnexpectedParams,
    /// A message of this name, which the handler does not act on.
    Ignored(&'static str),
}

/// Why a mining message could not be handled.
#[derive(Debug, Clone, Copy, PartialEq, Eq, Structural)]
pub enum HandlerError {
    /// The job id of a notification stands for this many bytes, not eight.
    JobIdLength(usize),
}

/// The messages that the handler accepts: a response carries a result or an
/// error, and the job id of a notification is hexadecimal text.
pub open spec fn handleable(message: StratumMessage) -> bool {
    match message {
        StratumMessage::Response(_, None, error) => error is Some,
        StratumMessage::Notify(job_id, ..) => is_hex_text(vstd::utf8::encode_utf8(job_id@)),
        _ => true,
    }
}

/// Handles a mining message from the pool. An accepted share (result
/// `true`) is reported to the prover as a valid submit result; an error
/// response as an invalid one with the error's message; other results are
/// reported as unexpected. A notification gives the prover new work: the
/// epoch that its job id names, its challenge (second parameter) and its
/// address (third parameter). A difficulty becomes the new target. Other
/// messages are ignored.
pub fn process_mining_message(message: StratumMessage) -> (res: Result<HandlerAction, HandlerError>)
    requires
        handleable(message),
    ensures
        match message {
            StratumMessage::Response(_, Some(ResponseParams::Bool(true)), _) => res matches Ok(
                HandlerAction::ToProver(ProverEvent::SubmitResult(true, None)),
            ),
            StratumMessage::Response(_, Some(ResponseParams::Bool(false)), _) => res matches Ok(
                HandlerAction::UnexpectedResult(false),
            ),
            StratumMessage::Response(_, Some(_), _) => res matches Ok(HandlerAction::UnexpectedParams),
            StratumMessage::Response(_, None, Some(error)) => res matches Ok(
                HandlerAction::ToProver(ProverEvent::SubmitResult(false, Some(msg))),
            ) && msg == error.message,
            StratumMessage::Notify(job_id, epoch_challenge, address, ..) => {
                let bytes = hex_bytes(vstd::utf8::encode_utf8(job_id@));
                if bytes.len() == 8 {
                    res matches Ok(HandlerAction::ToProver(ProverEvent::NewWork(epoch, c, a))) && epoch
                        == spec_u64_from_le_bytes(bytes) && c == epoch_challenge && a == address
                } else {
                    res == Err::<HandlerAction, HandlerError>(
                        HandlerError::JobIdLength(bytes.len() as usize),
                    )
                }
            },
            StratumMessage::SetDifficulty(target) => res matches Ok(HandlerAction::NewTarget(t)) && t
                == target,
            _ => res matches Ok(HandlerAction::Ignored(name)) && name == message.method_name(),
        },
{
    let name = message.name();
    match message {
        StratumMessage::Response(_, result, error) => match result {
            Some(params) => match params {
                ResponseParams::Bool(result) => {
                    if result {
                        Ok(HandlerAction::ToProver(ProverEvent::SubmitResult(result, None)))
                    } else {
                        Ok(HandlerAction::UnexpectedResult(result))
                    }
                },
                _ => Ok(HandlerAction::UnexpectedParams),
            },
            None => {
                let error = error.unwrap();
                Ok(HandlerAction::ToProver(ProverEvent::SubmitResult(false, Some(error.message))))
            },
        },
        StratumMessage::Notify(job_id, epoch_challenge, address, _, _, _, _) => {
            match decode_job_id(job_id.as_str()) {
                Ok(epoch) => Ok(HandlerAction::ToProver(ProverEvent::NewWork(epoch, epoch_challenge, address))),
                Err(JobIdError::WrongLength(n)) => Err(HandlerError::JobIdLength(n)),
                Err(JobIdError::NotHex) => {
                    // a notification's job id is hexadecimal text
                    proof {
                        assert(false);
                    }
                    Err(HandlerError::JobIdLength(0))
                },
            }
        },
        StratumMessage::SetDifficulty(difficulty_target) => Ok(HandlerAction::NewTarget(difficulty_target)),
        _ => Ok(HandlerAction::Ignored(name)),
    }
}

} // verus!
