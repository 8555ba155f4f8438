//! How the client retries its connection to the pool server.
use vstd::prelude::*;

verus! {

/// How long one connection attempt may take, in seconds.
pub const CONNECT_TIMEOUT_SECS: u64 = 5;

/// How long the client waits after its stream to the pool broke, in seconds.
pub const RECONNECT_DELAY_SECS: u64 = 5;

/// The back-off factor above which a failed connection is given up.
pub const MAX_BACKOFF: u64 = 64;

/// What came of one connection attempt.
#[derive(Debug, Clone, Copy, PartialEq, Eq, Structural)]
pub enum ConnectEvent {
    /// The connection was made.
    Connected,
    /// The connection was refused or failed.
    Failed,
    /// The attempt took longer than the timeout.
    TimedOut,
}

/// What the client does next.
#[derive(Debug, Clone, Copy, PartialEq, Eq, Structural)]
pub enum ConnectAction {
    /// Use the connection.
    Done,
    /// Give up and report the last error.
    GiveUp,
    /// Wait this many seconds, then try again.
    RetryAfter(u64),
    /// Try again at once.
    Retry,
}

/// The back-off state of the connection loop.
#[derive(Debug, Clone, Copy, PartialEq, Eq, Structural)]
pub struct ConnectBackoff {
    pub backoff: u64,
}

/// One step of the connection loop on the back-off factor `backoff`: the
/// next factor and what to do. A failure waits five seconds per unit of the
/// factor, unless the factor is above 64, when the client gives up; a
/// failure or a timeout then doubles the factor.
pub open spec fn connect_step(backoff: u64, event: ConnectEvent) -> (u64, ConnectAction) {
    match event {
        ConnectEvent::Connected => (backoff, ConnectAction::Done),
        ConnectEvent::Failed => if backoff > 64 {
            (backoff, ConnectAction::GiveUp)
        } else {
            ((2 * backoff) as u64, ConnectAction::RetryAfter((5 * backoff) as u64))
        },
        ConnectEvent::TimedOut => ((2 * backoff) as u64, ConnectAction::Retry),
    }
}

impl ConnectBackoff {
    /// The state before the first attempt: factor one.
    pub fn new() -> (s: ConnectBackoff)
        ensures
            s.backoff == 1,
    {
        ConnectBackoff { backoff: 1 }
    }

    /// Takes the outcome of one attempt and gives what to do next.
    pub fn on_event(&mut self, event: ConnectEvent) -> (action: ConnectAction)
        requires
            event is TimedOut ==> old(self).backoff <= u64::MAX / 2,
        ensures
            (final(self).backoff, action) == connect_step(old(self).backoff, event),
    {
        match event {
            ConnectEvent::Connected => ConnectAction::Done,
            ConnectEvent::Failed => {
                if self.backoff > MAX_BACKOFF {
                    ConnectAction::GiveUp
                } else {
                    let wait: u64 = 5 * self.backoff;
                    self.backoff = self.backoff * 2;
                    ConnectAction::RetryAfter(wait)
                }
            },
            ConnectEvent::TimedOut => {
                self.backoff = self.backoff * 2;
                ConnectAction::Retry
            },
        }
    }
}

/// How many failed attempts in a row the client retries from factor
/// `backoff` before it gives up.
pub open spec fn retries_left(backoff: nat) -> nat
    decreases 128 - backoff,
{
    if backoff == 0 || backoff > 64 {
        0
    } else {
        1 + retries_left(2 * backoff)
    }
}

/// How many seconds the client waits in all over those retries.
pub open spec fn total_wait(backoff: nat) -> nat
    decreases 128 - backoff,
{
    if backoff == 0 || backoff > 64 {
        0
    } else {
        5 * backoff + total_wait(2 * backoff)
    }
}

/// From any factor, a run of failures is retried while the factor is at most
/// 64, each retry after five seconds per unit of the factor; a fresh client
/// (factor one) retries seven failures in a row, waiting 635 seconds in all,
/// and gives up at the eighth.
pub proof fn law_connect_gives_up(backoff: u64)
    requires
        1 <= backoff <= u64::MAX / 2,
    ensures
        backoff <= 64 ==> connect_step(backoff, ConnectEvent::Failed) == (
            (2 * backoff) as u64,
            ConnectAction::RetryAfter((5 * backoff) as u64),
        ),
        backoff <= 64 ==> retries_left(backoff as nat) == 1 + retries_left((2 * backoff) as nat),
        backoff <= 64 ==> total_wait(backoff as nat) == 5 * backoff + total_wait((2 * backoff) as nat),
        backoff > 64 ==> connect_step(backoff, ConnectEvent::Failed) == (backoff, ConnectAction::GiveUp),
        backoff > 64 ==> retries_left(backoff as nat) == 0,
        retries_left(1) == 7,
        total_wait(1) == 635,
{
    reveal_with_fuel(retries_left, 8);
    reveal_with_fuel(total_wait, 8);
}

/// A timed-out attempt never ends the connection loop: whatever the back-off
/// factor, it is retried at once with the factor doubled. A made connection
/// is used at once and leaves the factor as it is; only a failed attempt
/// waits, and only a failed attempt gives up.
pub proof fn law_timeouts_are_always_retried(backoff: u64, event: ConnectEvent)
    requires
        backoff <= u64::MAX / 2,
    ensures
        connect_step(backoff, ConnectEvent::TimedOut).0 == 2 * backoff,
        connect_step(backoff, ConnectEvent::TimedOut).1 == ConnectAction::Retry,
        connect_step(backoff, ConnectEvent::Connected) == (backoff, ConnectAction::Done),
        connect_step(backoff, event).1 == ConnectAction::GiveUp ==> event == ConnectEvent::Failed
            && backoff > 64,
        connect_step(backoff, event).1 is RetryAfter ==> event == ConnectEvent::Failed && backoff <= 64,
{
}

} // verus!
