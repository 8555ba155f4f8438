//! Share statistics and proof rates.
use vstd::prelude::*;
use std::collections::VecDeque;

verus! {

/// What the statistics task is told.
#[derive(Debug)]
pub enum StatsEvent {
    /// A proof was made: (whether it is valid, its weight).
    Prove(bool, u32),
    /// The pool's verdict on a share, with its message if any.
    SubmitResult(bool, Option<String>),
    /// Stop, and answer on this channel once stopped.
    Exit(tokio::sync::oneshot::Sender<()>),
}

/// The number of shares that the pool accepted and rejected.
#[derive(Debug, Clone, Copy, PartialEq, Eq, Structural)]
pub struct ShareTally {
    pub valid: u32,
    pub invalid: u32,
}

/// One line of the share report: the verdict, the pool's message if any, and
/// the counts after the verdict was counted.
#[derive(Debug, Clone, PartialEq, Eq)]
pub struct ShareReport {
    pub accepted: bool,
    pub message: Option<String>,
    pub valid: u32,
    pub total: u32,
}

impl ShareTally {
    /// No share counted yet.
    pub fn new() -> (tally: ShareTally)
        ensures
            tally.valid == 0,
            tally.invalid == 0,
    {
        ShareTally { valid: 0, invalid: 0 }
    }

    /// Counts the pool's verdict on a share and gives the line to report:
    /// an accepted share adds one valid, a rejected one one invalid; the
    /// report holds the valid count and the total after the addition.
    pub fn print_shares(&mut self, success: bool, msg: Option<String>) -> (report: ShareReport)
        requires
            old(self).valid + old(self).invalid < u32::MAX,
        ensures
            success ==> final(self).valid == old(self).valid + 1 && final(self).invalid == old(
                self,
            ).invalid,
            !success ==> final(self).invalid == old(self).invalid + 1 && final(self).valid == old(
                self,
            ).valid,
            report.accepted == success,
            report.message == msg,
            report.valid == final(self).valid,
            report.total == final(self).valid + final(self).invalid,
    {
        if success {
            self.valid = self.valid + 1;
        } else {
            self.invalid = self.invalid + 1;
        }
        ShareReport { accepted: success, message: msg, valid: self.valid, total: self.valid + self.invalid }
    }
}

/// A proof rate: unknown, or this many proofs over this many seconds.
#[derive(Debug, Clone, Copy, PartialEq, Eq, Structural)]
pub enum ProofRate {
    Unknown,
    Over { proofs: u32, seconds: u32 },
}

/// The proof rate between a past total and the current one, `interval`
/// minutes apart: unknown when the interval is empty, when no proof was
/// counted since, or when the past total is zero (no reading yet).
pub open spec fn spec_proof_rate(now: u32, past: u32, interval: u32) -> ProofRate {
    if interval < 1 || now <= past || past == 0 {
        ProofRate::Unknown
    } else {
        ProofRate::Over { proofs: (now - past) as u32, seconds: (interval * 60) as u32 }
    }
}

/// The proof rate between a past total and the current one.
pub fn calculate_proof_rate(now: u32, past: u32, interval: u32) -> (rate: ProofRate)
    requires
        interval >= 1 && now > past && past != 0 ==> interval * 60 <= u32::MAX,
    ensures
        rate == spec_proof_rate(now, past, interval),
{
    if interval < 1 {
        return ProofRate::Unknown;
    }
    if now <= past || past == 0 {
        return ProofRate::Unknown;
    }
    ProofRate::Over { proofs: now - past, seconds: interval * 60 }
}

/// The minutes over which the proof rate is reported.
pub const RATE_WINDOW: usize = 60;

/// The totals read at the last sixty minutes, oldest first.
pub struct ProofRateLog {
    log: VecDeque<u32>,
}

/// The totals at the minutes 1, 5, 15, 30 and 60 before the current one.
#[derive(Debug, Clone, Copy, PartialEq, Eq, Structural)]
pub struct ProofRates {
    pub total: u32,
    pub m1: u32,
    pub m5: u32,
    pub m15: u32,
    pub m30: u32,
    pub m60: u32,
}

/// The readings before any was taken: sixty zeros.
pub open spec fn empty_window() -> Seq<u32> {
    Seq::new(60, |i: int| 0u32)
}

/// The window after a history of readings: the last sixty of the history,
/// counted after sixty zeros.
pub open spec fn window_of(history: Seq<u32>) -> Seq<u32> {
    (empty_window() + history).skip(history.len() as int)
}

/// The reading `k` readings before the next one, zero when the history is
/// shorter.
pub open spec fn reading_back(history: Seq<u32>, k: int) -> u32 {
    if k <= history.len() {
        history[history.len() - k]
    } else {
        0
    }
}

impl ProofRateLog {
    /// The readings of the log, oldest first.
    pub closed spec fn readings(&self) -> Seq<u32> {
        self.log@
    }

    /// The log holds sixty readings.
    pub closed spec fn wf(&self) -> bool {
        self.log@.len() == 60
    }

    /// A log of sixty zero readings.
    pub fn new() -> (log: ProofRateLog)
        ensures
            log.wf(),
            log.readings() == empty_window(),
    {
        let mut log: VecDeque<u32> = VecDeque::new();
        let mut i: usize = 0;
        while i < RATE_WINDOW
            invariant
                i <= 60,
                log@ == Seq::new(i as nat, |j: int| 0u32),
            decreases 60 - i,
        {
            log.push_back(0);
            i = i + 1;
            assert(log@ =~= Seq::new(i as nat, |j: int| 0u32));
        }
        ProofRateLog { log }
    }

    /// Records the current total and gives it with the totals of 1, 5, 15,
    /// 30 and 60 minutes before; the oldest reading leaves the log.
    pub fn record(&mut self, proofs: u32) -> (rates: ProofRates)
        requires
            old(self).wf(),
        ensures
            final(self).wf(),
            final(self).readings() == old(self).readings().drop_first().push(proofs),
            rates == (ProofRates {
                total: proofs,
                m1: old(self).readings()[59],
                m5: old(self).readings()[55],
                m15: old(self).readings()[45],
                m30: old(self).readings()[30],
                m60: old(self).readings()[0],
            }),
    {
        self.log.push_back(proofs);
        let m1: u32 = self.log[59];
        let m5: u32 = self.log[55];
        let m15: u32 = self.log[45];
        let m30: u32 = self.log[30];
        let m60: u32 = match self.log.pop_front() {
            Some(v) => v,
            None => 0,
        };
        assert(self.log@ =~= old(self).log@.drop_first().push(proofs));
        ProofRates { total: proofs, m1, m5, m15, m30, m60 }
    }
}

/// Each new reading enters the window at its end and the oldest leaves it;
/// the window after any history of readings then holds, at position 60 - k,
/// the reading taken k readings before the next one (zero before there was
/// one), so the rates of `record` compare the current total with the totals
/// 1, 5, 15, 30 and 60 minutes earlier.
pub proof fn law_window_looks_back(history: Seq<u32>, next: u32, k: int)
    requires
        1 <= k <= 60,
    ensures
        window_of(history).len() == 60,
        window_of(history.push(next)) == window_of(history).drop_first().push(next),
        window_of(history)[60 - k] == reading_back(history, k),
{
    let z = empty_window();
    let n: int = history.len() as int;
    assert(window_of(history.push(next)) =~= window_of(history).drop_first().push(next)) by {
        assert((z + history.push(next)) =~= (z + history).push(next));
    }
    let w = window_of(history);
    assert(w[60 - k] == (z + history)[n + 60 - k]);
    if k <= n {
        assert((z + history)[n + 60 - k] == history[n - k]);
    } else {
        assert((z + history)[n + 60 - k] == z[n + 60 - k]);
    }
}

} // verus!
