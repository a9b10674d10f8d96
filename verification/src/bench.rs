//! The benchmark orchestrator: the phase machine of one run, the counters and
//! timestamps it accumulates, and the statistics it derives at the end.
//!
//! A run walks `Connecting → Sending → AwaitingConfirmations → Finalizing →
//! Done`, exactly once, with no loop back. Timestamps are nanoseconds on a
//! monotone clock measured from a fixed origin before the run; the caller
//! samples the clock and hands the instants in.

use vstd::prelude::*;

use crate::codec::{encode_frame, frame_bytes, FramingError, MAX_FRAME_LEN};
use crate::tracker::{outcome_count, ConfirmationOutcome};
use crate::transaction::{generate, tx_payload, TX_SIZE};

verus! {

/// How long the receive phase may wait for confirmations, in seconds.
pub const CONFIRMATION_DEADLINE_SECS: u64 = 10;

/// The orchestrator's phases, reached strictly in this order.
#[derive(Clone, Copy, Debug, PartialEq, Eq, Structural)]
pub enum Phase {
    /// Establishing the connection; failure here is fatal.
    Connecting,
    /// Writing the batch, strictly in order, one transaction at a time.
    Sending,
    /// The confirmation tracker is draining acknowledgments.
    AwaitingConfirmations,
    /// The outcome is interpreted; statistics are about to be derived.
    Finalizing,
    /// The run is over; reached exactly once.
    Done,
}

/// The counters and timestamps one run accumulates, written only by the
/// single sequential flow of the run and read once at the end.
#[derive(Clone, Copy, Debug, PartialEq, Eq, Structural)]
pub struct RunStats {
    /// Transactions written whole to the stream.
    pub sent_count: u64,
    /// Confirmations credited to the run, after fallback.
    pub confirmed_count: u64,
    /// Stamped before the first write.
    pub send_start: u64,
    /// Stamped after the last write completed.
    pub send_end: u64,
    /// Stamped when the receive phase began to wait.
    pub confirmation_start: u64,
    /// Stamped when the receive phase's outcome was produced.
    pub confirmation_end: u64,
}

/// The figures a finished run reports; deriving them never errors.
#[derive(Clone, Copy, Debug, PartialEq, Eq)]
pub struct Report {
    /// Transactions written whole to the stream.
    pub sent_count: u64,
    /// Confirmations credited to the run, after fallback.
    pub confirmed_count: u64,
    /// The send phase, first write to last.
    pub send_duration_nanos: u64,
    /// The receive phase, start of the wait to its outcome.
    pub confirmation_duration_nanos: u64,
    /// First write to the final confirmation or fallback event.
    pub total_duration_nanos: u64,
    /// Confirmed transactions per second, scaled by 1000; the undefined
    /// sentinel when nothing was confirmed or no time passed.
    pub tps_milli: Option<u128>,
    /// Mean latency per confirmed transaction in whole microseconds; the
    /// undefined sentinel when nothing was confirmed.
    pub avg_latency_micros: Option<u64>,
}

/// The fallback rule of `AwaitingConfirmations → Finalizing`: a completed
/// outcome keeps its count; a timed-out, closed or undecodable stream
/// substitutes the sent count — the optimistic approximation — and either way
/// the confirmation end is stamped at `now`, the moment the outcome was
/// produced.
pub open spec fn apply_outcome(stats: RunStats, outcome: ConfirmationOutcome, now: u64) -> RunStats {
    RunStats {
        confirmed_count: match outcome {
            ConfirmationOutcome::Completed(n) => n,
            ConfirmationOutcome::TimedOut(_) => stats.sent_count,
            ConfirmationOutcome::StreamClosed(_) => stats.sent_count,
            ConfirmationOutcome::DecodeError(_) => stats.sent_count,
        },
        confirmation_end: now,
        ..stats
    }
}

/// Whether the recorded instants stand in run order.
pub open spec fn times_ordered(s: RunStats) -> bool {
    s.send_start <= s.send_end <= s.confirmation_start <= s.confirmation_end
}

/// The figures derived at `Finalizing → Done`: the three durations, and the
/// throughput and latency guarded against division by zero.
pub open spec fn derive_report(s: RunStats) -> Report
    recommends
        times_ordered(s),
{
    Report {
        sent_count: s.sent_count,
        confirmed_count: s.confirmed_count,
        send_duration_nanos: (s.send_end - s.send_start) as u64,
        confirmation_duration_nanos: (s.confirmation_end - s.confirmation_start) as u64,
        total_duration_nanos: (s.confirmation_end - s.send_start) as u64,
        tps_milli: if s.confirmed_count == 0 || s.confirmation_end - s.send_start == 0 {
            None
        } else {
            Some(((s.confirmed_count * 1000000000000) / (s.confirmation_end - s.send_start)) as u128)
        },
        avg_latency_micros: if s.confirmed_count == 0 {
            None
        } else {
            Some((((s.confirmation_end - s.send_start) / 1000) / (s.confirmed_count as int)) as u64)
        },
    }
}

/// One benchmark run: the phase machine around `RunStats`.
pub struct Benchmark {
    phase: Phase,
    target_count: u64,
    stats: RunStats,
}

impl Benchmark {
    /// The phase the run stands in.
    pub closed spec fn spec_phase(&self) -> Phase {
        self.phase
    }

    /// How many transactions the run is to send.
    pub closed spec fn spec_target(&self) -> u64 {
        self.target_count
    }

    /// The counters and timestamps accumulated so far.
    pub closed spec fn spec_stats(&self) -> RunStats {
        self.stats
    }

    /// What holds of a run in every phase: the confirmed count never exceeds
    /// the sent count, the sent count never exceeds the target, and the
    /// recorded instants stand in order as far as the run has come.
    pub open spec fn wf(&self) -> bool {
        let s = self.spec_stats();
        &&& s.confirmed_count <= s.sent_count
        &&& s.sent_count <= self.spec_target()
        &&& match self.spec_phase() {
            Phase::Connecting => s.sent_count == 0 && s.confirmed_count == 0,
            Phase::Sending => s.confirmed_count == 0,
            Phase::AwaitingConfirmations => {
                &&& s.sent_count == self.spec_target()
                &&& s.confirmed_count == 0
                &&& s.send_start <= s.send_end <= s.confirmation_start
            },
            Phase::Finalizing => s.sent_count == self.spec_target() && times_ordered(s),
            Phase::Done => s.sent_count == self.spec_target() && times_ordered(s),
        }
    }

    /// How many transactions were written whole to the stream so far.
    pub fn sent_count(&self) -> (r: u64)
        ensures
            r == self.spec_stats().sent_count,
    {
        self.stats.sent_count
    }

    /// How many confirmations the run is credited with so far.
    pub fn confirmed_count(&self) -> (r: u64)
        ensures
            r == self.spec_stats().confirmed_count,
    {
        self.stats.confirmed_count
    }

    /// The phase the run stands in.
    pub fn current_phase(&self) -> (r: Phase)
        ensures
            r == self.spec_phase(),
    {
        self.phase
    }

    /// A fresh run aimed at `target_count` transactions, about to connect.
    pub fn new(target_count: u64) -> (r: Benchmark)
        ensures
            r.wf(),
            r.spec_phase() == Phase::Connecting,
            r.spec_target() == target_count,
            r.spec_stats() == (RunStats {
                sent_count: 0,
                confirmed_count: 0,
                send_start: 0,
                send_end: 0,
                confirmation_start: 0,
                confirmation_end: 0,
            }),
    {
        Benchmark {
            phase: Phase::Connecting,
            target_count,
            stats: RunStats {
                sent_count: 0,
                confirmed_count: 0,
                send_start: 0,
                send_end: 0,
                confirmation_start: 0,
                confirmation_end: 0,
            },
        }
    }

    /// The connection stands: enter the send phase, stamping its start
    /// before the first write.
    pub fn begin_send(&mut self, now: u64)
        requires
            old(self).wf(),
            old(self).spec_phase() == Phase::Connecting,
        ensures
            final(self).wf(),
            final(self).spec_phase() == Phase::Sending,
            final(self).spec_target() == old(self).spec_target(),
            final(self).spec_stats() == (RunStats { send_start: now, ..old(self).spec_stats() }),
    {
        self.phase = Phase::Sending;
        self.stats.send_start = now;
    }

    /// One more transaction was written whole to the stream.
    pub fn record_send(&mut self)
        requires
            old(self).wf(),
            old(self).spec_phase() == Phase::Sending,
            old(self).spec_stats().sent_count < old(self).spec_target(),
        ensures
            final(self).wf(),
            final(self).spec_phase() == Phase::Sending,
            final(self).spec_target() == old(self).spec_target(),
            final(self).spec_stats() == (RunStats {
                sent_count: (old(self).spec_stats().sent_count + 1) as u64,
                ..old(self).spec_stats()
            }),
    {
        self.stats.sent_count = self.stats.sent_count + 1;
    }

    /// The last write is done: stamp the send end, and enter the receive
    /// phase, stamping where its wait begins.
    pub fn begin_confirmations(&mut self, send_end: u64, confirmation_start: u64)
        requires
            old(self).wf(),
            old(self).spec_phase() == Phase::Sending,
            old(self).spec_stats().sent_count == old(self).spec_target(),
            old(self).spec_stats().send_start <= send_end <= confirmation_start,
        ensures
            final(self).wf(),
            final(self).spec_phase() == Phase::AwaitingConfirmations,
            final(self).spec_target() == old(self).spec_target(),
            final(self).spec_stats() == (RunStats {
                send_end,
                confirmation_start,
                ..old(self).spec_stats()
            }),
    {
        self.phase = Phase::AwaitingConfirmations;
        self.stats.send_end = send_end;
        self.stats.confirmation_start = confirmation_start;
    }

    /// Interprets the receive phase's outcome under the fallback rule and
    /// stamps the confirmation end at `now`, the moment the outcome was
    /// produced.
    pub fn complete_confirmations(&mut self, outcome: ConfirmationOutcome, now: u64)
        requires
            old(self).wf(),
            old(self).spec_phase() == Phase::AwaitingConfirmations,
            outcome_count(outcome) <= old(self).spec_stats().sent_count,
            (outcome matches ConfirmationOutcome::Completed(n) ==> n == old(
                self,
            ).spec_stats().sent_count),
            now >= old(self).spec_stats().confirmation_start,
        ensures
            final(self).wf(),
            final(self).spec_phase() == Phase::Finalizing,
            final(self).spec_target() == old(self).spec_target(),
            final(self).spec_stats() == apply_outcome(old(self).spec_stats(), outcome, now),
            final(self).spec_stats().confirmed_count == old(self).spec_stats().sent_count,
    {
        self.stats.confirmed_count = match outcome {
            ConfirmationOutcome::Completed(n) => n,
            ConfirmationOutcome::TimedOut(_) => self.stats.sent_count,
            ConfirmationOutcome::StreamClosed(_) => self.stats.sent_count,
            ConfirmationOutcome::DecodeError(_) => self.stats.sent_count,
        };
        self.stats.confirmation_end = now;
        self.phase = Phase::Finalizing;
    }

    /// Derives the run's statistics. This never errors: with nothing
    /// confirmed, or no time passed, throughput and latency short-circuit to
    /// the undefined sentinel instead of dividing by zero.
    pub fn finalize(&mut self) -> (r: Report)
        requires
            old(self).wf(),
            old(self).spec_phase() == Phase::Finalizing,
        ensures
            final(self).wf(),
            final(self).spec_phase() == Phase::Done,
            final(self).spec_target() == old(self).spec_target(),
            final(self).spec_stats() == old(self).spec_stats(),
            r == derive_report(old(self).spec_stats()),
    {
        self.phase = Phase::Done;
        let s = &self.stats;
        let send_duration_nanos = s.send_end - s.send_start;
        let confirmation_duration_nanos = s.confirmation_end - s.confirmation_start;
        let total_duration_nanos = s.confirmation_end - s.send_start;
        let tps_milli: Option<u128> = if s.confirmed_count == 0 || total_duration_nanos == 0 {
            None
        } else {
            Some((s.confirmed_count as u128) * 1000000000000 / (total_duration_nanos as u128))
        };
        let avg_latency_micros: Option<u64> = if s.confirmed_count == 0 {
            None
        } else {
            Some(total_duration_nanos / 1000 / s.confirmed_count)
        };
        Report {
            sent_count: s.sent_count,
            confirmed_count: s.confirmed_count,
            send_duration_nanos,
            confirmation_duration_nanos,
            total_duration_nanos,
            tps_milli,
            avg_latency_micros,
        }
    }
}

/// Encodes transaction `index` ready for the wire: its fixed-size payload
/// behind the length prefix. A transaction payload always fits a frame, so
/// this cannot fail.
pub fn encode_transaction(index: u64) -> (r: Vec<u8>)
    ensures
        r@ == frame_bytes(tx_payload(index)),
        r@.len() == TX_SIZE + 4,
{
    let payload = generate(index);
    match encode_frame(&payload) {
        Ok(f) => f,
        Err(_) => vstd::pervasive::unreached(),
    }
}

/// With nothing confirmed, the report's throughput and latency are the
/// undefined sentinel: neither is ever computed from a zero count.
pub proof fn lemma_zero_confirmed_sentinel(s: RunStats)
    requires
        s.confirmed_count == 0,
    ensures
        derive_report(s).tps_milli is None,
        derive_report(s).avg_latency_micros is None,
{
}

/// Whatever the outcome, the fallback rule leaves the confirmed count no
/// greater than the sent count.
pub proof fn lemma_confirmed_le_sent(stats: RunStats, outcome: ConfirmationOutcome, now: u64)
    requires
        outcome_count(outcome) <= stats.sent_count,
    ensures
        apply_outcome(stats, outcome, now).confirmed_count <= apply_outcome(
            stats,
            outcome,
            now,
        ).sent_count,
{
}

/// If the deadline elapses with zero confirmations received, the fallback
/// still credits the run with the full sent count, and the total duration
/// covers at least the whole send phase.
pub proof fn lemma_deadline_fallback(stats: RunStats, now: u64)
    requires
        stats.send_start <= stats.send_end <= stats.confirmation_start <= now,
    ensures
        ({
            let done = apply_outcome(stats, ConfirmationOutcome::TimedOut(0), now);
            let rep = derive_report(done);
            &&& done.confirmed_count == stats.sent_count
            &&& rep.confirmed_count == rep.sent_count
            &&& rep.total_duration_nanos >= rep.send_duration_nanos
        }),
{
}

} // verus!
