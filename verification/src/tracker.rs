//! The confirmation tracker: drains inbound acknowledgment frames against a
//! deadline, counting one confirmation per frame, until the target count is
//! reached, the deadline elapses, the stream closes, or a frame fails to
//! decode.
//!
//! The tracker itself is pure: the stream and the timer stand outside and
//! hand it one observation at a time. It never substitutes counts; the
//! orchestrator owns the fallback policy.

use vstd::prelude::*;

verus! {

/// One observation off the inbound framed stream during the receive phase.
#[derive(Clone, Copy, Debug, PartialEq, Eq, Structural)]
pub enum StreamEvent {
    /// One acknowledgment frame arrived and decoded whole.
    FrameReceived,
    /// An inbound frame failed to decode.
    DecodeFailed,
    /// The peer closed the stream cleanly.
    StreamEnded,
    /// The deadline elapsed before anything else happened.
    DeadlineElapsed,
}

/// How the receive phase ended, carrying the confirmations counted so far.
#[derive(Clone, Copy, Debug, PartialEq, Eq, Structural)]
pub enum ConfirmationOutcome {
    /// Every sent transaction was acknowledged.
    Completed(u64),
    /// The deadline elapsed first, with this partial count.
    TimedOut(u64),
    /// The peer closed the stream first, with this partial count.
    StreamClosed(u64),
    /// An inbound frame failed to decode first, with this partial count.
    DecodeError(u64),
}

/// The confirmation count an outcome carries.
pub open spec fn outcome_count(o: ConfirmationOutcome) -> u64 {
    match o {
        ConfirmationOutcome::Completed(n) => n,
        ConfirmationOutcome::TimedOut(n) => n,
        ConfirmationOutcome::StreamClosed(n) => n,
        ConfirmationOutcome::DecodeError(n) => n,
    }
}

/// The outcome that a confirmation count, a target and a sequence of stream
/// observations resolve to, or `None` if the observations run out while the
/// phase is still undecided.
pub open spec fn resolve_spec(
    confirmed: u64,
    target: u64,
    events: Seq<StreamEvent>,
) -> Option<ConfirmationOutcome>
    decreases events.len(),
{
    if confirmed >= target {
        Some(ConfirmationOutcome::Completed(confirmed))
    } else if events.len() == 0 {
        None
    } else {
        match events[0] {
            StreamEvent::FrameReceived => resolve_spec(
                (confirmed + 1) as u64,
                target,
                events.drop_first(),
            ),
            StreamEvent::DecodeFailed => Some(ConfirmationOutcome::DecodeError(confirmed)),
            StreamEvent::StreamEnded => Some(ConfirmationOutcome::StreamClosed(confirmed)),
            StreamEvent::DeadlineElapsed => Some(ConfirmationOutcome::TimedOut(confirmed)),
        }
    }
}

/// Counts inbound acknowledgments against a target and turns the first
/// terminating observation into an outcome.
pub struct ConfirmationTracker {
    target_count: u64,
    confirmed_count: u64,
}

impl ConfirmationTracker {
    /// How many acknowledgments have been counted so far.
    pub closed spec fn spec_confirmed(&self) -> u64 {
        self.confirmed_count
    }

    /// The count the tracker is waiting for.
    pub closed spec fn spec_target(&self) -> u64 {
        self.target_count
    }

    /// The tracker never counts past its target.
    pub open spec fn wf(&self) -> bool {
        self.spec_confirmed() <= self.spec_target()
    }

    /// A fresh tracker waiting for `target_count` acknowledgments.
    pub fn new(target_count: u64) -> (r: ConfirmationTracker)
        ensures
            r.wf(),
            r.spec_target() == target_count,
            r.spec_confirmed() == 0,
    {
        ConfirmationTracker { target_count, confirmed_count: 0 }
    }

    /// How many acknowledgments have been counted so far.
    pub fn confirmed(&self) -> (r: u64)
        ensures
            r == self.spec_confirmed(),
    {
        self.confirmed_count
    }

    /// The completed outcome if the target is already reached — trivially so
    /// for a target of zero — and nothing otherwise.
    pub fn done(&self) -> (r: Option<ConfirmationOutcome>)
        requires
            self.wf(),
        ensures
            self.spec_confirmed() >= self.spec_target() ==> r == Some(
                ConfirmationOutcome::Completed(self.spec_confirmed()),
            ),
            self.spec_confirmed() < self.spec_target() ==> r is None,
    {
        if self.confirmed_count >= self.target_count {
            Some(ConfirmationOutcome::Completed(self.confirmed_count))
        } else {
            None
        }
    }

    /// Feeds the next observation; a terminating one yields the phase's
    /// outcome, a counted frame that reaches the target completes the phase.
    pub fn step(&mut self, event: StreamEvent) -> (r: Option<ConfirmationOutcome>)
        requires
            old(self).wf(),
            old(self).spec_confirmed() < old(self).spec_target(),
        ensures
            final(self).wf(),
            final(self).spec_target() == old(self).spec_target(),
            event is FrameReceived ==> {
                &&& final(self).spec_confirmed() == old(self).spec_confirmed() + 1
                &&& (final(self).spec_confirmed() == final(self).spec_target() ==> r == Some(
                    ConfirmationOutcome::Completed(final(self).spec_target()),
                ))
                &&& (final(self).spec_confirmed() < final(self).spec_target() ==> r is None)
            },
            !(event is FrameReceived) ==> final(self).spec_confirmed() == old(
                self,
            ).spec_confirmed(),
            event is DecodeFailed ==> r == Some(
                ConfirmationOutcome::DecodeError(old(self).spec_confirmed()),
            ),
            event is StreamEnded ==> r == Some(
                ConfirmationOutcome::StreamClosed(old(self).spec_confirmed()),
            ),
            event is DeadlineElapsed ==> r == Some(
                ConfirmationOutcome::TimedOut(old(self).spec_confirmed()),
            ),
    {
        match event {
            StreamEvent::FrameReceived => {
                self.confirmed_count = self.confirmed_count + 1;
                if self.confirmed_count == self.target_count {
                    Some(ConfirmationOutcome::Completed(self.target_count))
                } else {
                    None
                }
            },
            StreamEvent::DecodeFailed => Some(
                ConfirmationOutcome::DecodeError(self.confirmed_count),
            ),
            StreamEvent::StreamEnded => Some(
                ConfirmationOutcome::StreamClosed(self.confirmed_count),
            ),
            StreamEvent::DeadlineElapsed => Some(
                ConfirmationOutcome::TimedOut(self.confirmed_count),
            ),
        }
    }
}

/// Replays one receive phase over its recorded observations, exactly as the
/// tracker consumes them live off the stream and the timer.
pub fn await_confirmations(target_count: u64, events: &Vec<StreamEvent>) -> (r: Option<
    ConfirmationOutcome,
>)
    ensures
        r == resolve_spec(0, target_count, events@),
{
    let mut tracker = ConfirmationTracker::new(target_count);
    match tracker.done() {
        Some(o) => {
            return Some(o);
        },
        None => {},
    }
    let mut i: usize = 0;
    proof {
        assert(events@.skip(0) =~= events@);
    }
    while i < events.len()
        invariant
            tracker.wf(),
            tracker.spec_target() == target_count,
            tracker.spec_confirmed() < target_count,
            i <= events@.len(),
            resolve_spec(0, target_count, events@) == resolve_spec(
                tracker.spec_confirmed(),
                target_count,
                events@.skip(i as int),
            ),
        decreases events@.len() - i,
    {
        let ev = events[i];
        proof {
            assert(events@.skip(i as int)[0] == events@[i as int]);
            assert(events@.skip(i as int).drop_first() =~= events@.skip(i as int + 1));
        }
        let stepped = tracker.step(ev);
        i = i + 1;
        match stepped {
            Some(o) => {
                return Some(o);
            },
            None => {},
        }
    }
    proof {
        assert(events@.skip(events@.len() as int).len() == 0);
    }
    None
}

/// Whatever the outcome, its count never exceeds the target it was tracked
/// against — confirmations cannot outnumber the transactions sent.
pub proof fn lemma_outcome_count_le_target(confirmed: u64, target: u64, events: Seq<StreamEvent>)
    requires
        confirmed <= target,
    ensures
        resolve_spec(confirmed, target, events) matches Some(o) ==> outcome_count(o) <= target,
    decreases events.len(),
{
    if confirmed >= target {
    } else if events.len() == 0 {
    } else {
        match events[0] {
            StreamEvent::FrameReceived => {
                lemma_outcome_count_le_target((confirmed + 1) as u64, target, events.drop_first());
            },
            _ => {},
        }
    }
}

/// A completed outcome always carries exactly the target count: the tracker
/// stops counting the moment the target is reached.
pub proof fn lemma_completed_count(
    confirmed: u64,
    target: u64,
    events: Seq<StreamEvent>,
    n: u64,
)
    requires
        confirmed <= target,
        resolve_spec(confirmed, target, events) == Some(ConfirmationOutcome::Completed(n)),
    ensures
        n == target,
    decreases events.len(),
{
    if confirmed >= target {
    } else if events.len() == 0 {
    } else {
        match events[0] {
            StreamEvent::FrameReceived => {
                lemma_completed_count((confirmed + 1) as u64, target, events.drop_first(), n);
            },
            _ => {},
        }
    }
}

} // verus!
