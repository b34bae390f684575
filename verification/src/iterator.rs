//! The cursor: a consumer's way to pull messages from a queue.
//!
//! A cursor holds no message of its own.  It only knows how long a pull may
//! wait: not at all (a timeout of zero), for a given number of milliseconds,
//! or without limit.  One pull fixes its deadline when it starts and then
//! goes through polls: each poll hands out the oldest message if there is
//! one, and otherwise says how long the caller may sleep, against the
//! deadline fixed at the start, before it polls again.

use crate::message::{Message, MessageView};
use crate::queue::MessageQueue;
use vstd::prelude::*;

verus! {

/// Nanoseconds in a millisecond.
pub const NANOS_PER_MILLI: u64 = 1_000_000;

/// A consumer's view of a queue, with the time that one pull may wait:
/// `None` waits without limit.
#[derive(Debug, Clone, Copy, PartialEq, Eq, Structural)]
pub struct AsyncClientIntoIterator {
    timeout_ms: Option<u32>,
}

/// One pull in progress.
#[derive(Debug, Clone, Copy, PartialEq, Eq, Structural)]
pub struct Pull {
    timeout_ms: Option<u32>,
    started: u64,
}

/// What a poll tells the consumer.
#[derive(Debug, PartialEq, Eq)]
pub enum Step {
    /// The oldest message, removed from the queue.
    Deliver(Message),
    /// The deadline has passed and no message waits.
    TimedOut,
    /// No message waits: sleep until a message is signalled, at most this
    /// many milliseconds, then report how the sleep ended.
    Wait(u32),
    /// No message waits: sleep until a message is signalled.
    WaitForever,
}

/// A step as a mathematical value.
pub enum StepView {
    Deliver(MessageView),
    TimedOut,
    Wait(u32),
    WaitForever,
}

impl View for Step {
    type V = StepView;

    open spec fn view(&self) -> StepView {
        match *self {
            Step::Deliver(m) => StepView::Deliver(m@),
            Step::TimedOut => StepView::TimedOut,
            Step::Wait(ms) => StepView::Wait(ms),
            Step::WaitForever => StepView::WaitForever,
        }
    }
}

/// The nanoseconds that passed between two readings of the clock.  A second
/// reading below the first counts as no time.
pub open spec fn elapsed_ns(started: u64, now: u64) -> int {
    if now >= started {
        now - started
    } else {
        0
    }
}

/// The whole milliseconds that are left at `now` of a pull that started at
/// `started` and may wait `timeout_ms`.
pub open spec fn remaining_ms(timeout_ms: u32, started: u64, now: u64) -> int {
    let budget = timeout_ms * NANOS_PER_MILLI;
    if elapsed_ns(started, now) >= budget {
        0
    } else {
        (budget - elapsed_ns(started, now)) / (NANOS_PER_MILLI as int)
    }
}

/// The queue after a poll at `now`, and what the poll says.
pub open spec fn poll_spec(
    timeout_ms: Option<u32>,
    started: u64,
    queue: Seq<MessageView>,
    now: u64,
) -> (Seq<MessageView>, StepView) {
    if queue.len() > 0 {
        (queue.subrange(1, queue.len() as int), StepView::Deliver(queue[0]))
    } else {
        match timeout_ms {
            None => (queue, StepView::WaitForever),
            Some(t) => if remaining_ms(t, started, now) == 0 {
                (queue, StepView::TimedOut)
            } else {
                (queue, StepView::Wait(remaining_ms(t, started, now) as u32))
            },
        }
    }
}

/// The queue after a sleep that ended at `now`, and what to do next.  A
/// bounded sleep that ran its full time without a signal ends the pull;
/// every other wake-up is followed by a poll.
pub open spec fn woken_spec(
    timeout_ms: Option<u32>,
    started: u64,
    queue: Seq<MessageView>,
    notified: bool,
    now: u64,
) -> (Seq<MessageView>, StepView) {
    if timeout_ms is Some && !notified {
        (queue, StepView::TimedOut)
    } else {
        poll_spec(timeout_ms, started, queue, now)
    }
}

/// The time left is a whole number of milliseconds within the timeout.  A
/// sleep of that length does not pass the deadline, and nothing is left
/// exactly when less than a millisecond remains until the deadline.
pub proof fn lemma_remaining_within_deadline(timeout_ms: u32, started: u64, now: u64)
    ensures
        0 <= remaining_ms(timeout_ms, started, now) <= timeout_ms,
        remaining_ms(timeout_ms, started, now) > 0 ==> elapsed_ns(started, now) + remaining_ms(
            timeout_ms,
            started,
            now,
        ) * NANOS_PER_MILLI <= timeout_ms * NANOS_PER_MILLI,
        remaining_ms(timeout_ms, started, now) == 0 <==> elapsed_ns(started, now) + NANOS_PER_MILLI
            > timeout_ms * NANOS_PER_MILLI,
        now <= started ==> remaining_ms(timeout_ms, started, now) == timeout_ms,
{
}

/// Waking up does not buy time: at a later reading of the clock no more is
/// left than at an earlier one.
pub proof fn lemma_remaining_never_grows(timeout_ms: u32, started: u64, earlier: u64, later: u64)
    requires
        earlier <= later,
    ensures
        remaining_ms(timeout_ms, started, later) <= remaining_ms(timeout_ms, started, earlier),
{
}

/// A message that is queued is handed out by the first poll, whatever the
/// clock shows; over an empty queue a pull with a timeout ends as timed out
/// once less than a millisecond of the timeout is left, and a pull without
/// one never ends as timed out.
pub proof fn lemma_poll_outcomes(
    timeout_ms: Option<u32>,
    started: u64,
    queue: Seq<MessageView>,
    now: u64,
)
    ensures
        queue.len() > 0 ==> poll_spec(timeout_ms, started, queue, now) == (
            queue.subrange(1, queue.len() as int),
            StepView::Deliver(queue[0]),
        ),
        queue.len() == 0 ==> poll_spec(timeout_ms, started, queue, now).0 == queue,
        queue.len() == 0 && timeout_ms is Some && elapsed_ns(started, now) + NANOS_PER_MILLI
            > timeout_ms->0 * NANOS_PER_MILLI ==> poll_spec(timeout_ms, started, queue, now).1
            == StepView::TimedOut,
        queue.len() == 0 && timeout_ms is Some && elapsed_ns(started, now) + NANOS_PER_MILLI
            <= timeout_ms->0 * NANOS_PER_MILLI ==> poll_spec(timeout_ms, started, queue, now).1
            is Wait,
        timeout_ms is None ==> poll_spec(timeout_ms, started, queue, now).1 != StepView::TimedOut,
{
    if let Some(t) = timeout_ms {
        lemma_remaining_within_deadline(t, started, now);
    }
}

/// `time::precise_time_ns`: the steady clock, in nanoseconds since a moment
/// that is not specified.  Nothing is claimed of the number.
#[verifier::external_body]
fn clock_ns() -> (now: u64) {
    time::precise_time_ns()
}

impl AsyncClientIntoIterator {
    /// A cursor whose pulls wait at most `timeout_ms` milliseconds, or
    /// without limit for `None`.
    pub fn new(timeout_ms: Option<u32>) -> (c: AsyncClientIntoIterator)
        ensures
            c.timeout_ms() == timeout_ms,
    {
        AsyncClientIntoIterator { timeout_ms }
    }

    /// The time that one pull may wait.
    pub closed spec fn spec_timeout_ms(&self) -> Option<u32> {
        self.timeout_ms
    }

    /// The time that one pull may wait.
    #[verifier::when_used_as_spec(spec_timeout_ms)]
    pub fn timeout_ms(&self) -> (t: Option<u32>)
        ensures
            t == self.timeout_ms(),
    {
        self.timeout_ms
    }

    /// Starts a pull at the clock reading `now`: the deadline is fixed here
    /// and no later wake-up moves it.
    pub fn start_at(&self, now: u64) -> (p: Pull)
        ensures
            p.timeout_ms() == self.timeout_ms(),
            p.started() == now,
    {
        Pull { timeout_ms: self.timeout_ms, started: now }
    }

    /// Starts a pull now, by the steady clock.
    pub fn start(&self) -> (p: Pull)
        ensures
            p.timeout_ms() == self.timeout_ms(),
    {
        self.start_at(clock_ns())
    }
}

impl Pull {
    /// The time that this pull may wait.
    pub closed spec fn spec_timeout_ms(&self) -> Option<u32> {
        self.timeout_ms
    }

    /// The clock reading at which this pull started.
    pub closed spec fn spec_started(&self) -> u64 {
        self.started
    }

    /// The time that this pull may wait.
    #[verifier::when_used_as_spec(spec_timeout_ms)]
    pub fn timeout_ms(&self) -> (t: Option<u32>)
        ensures
            t == self.timeout_ms(),
    {
        self.timeout_ms
    }

    /// The clock reading at which this pull started.
    #[verifier::when_used_as_spec(spec_started)]
    pub fn started(&self) -> (t: u64)
        ensures
            t == self.started(),
    {
        self.started
    }

    /// The whole milliseconds that are left of this pull at the clock
    /// reading `now`; `None` for a pull without a deadline.
    pub fn remaining_at(&self, now: u64) -> (left: Option<u32>)
        ensures
            self.timeout_ms() is None ==> left is None,
            self.timeout_ms() matches Some(t) ==> left == Some(
                remaining_ms(t, self.started(), now) as u32,
            ) && 0 <= remaining_ms(t, self.started(), now) <= t,
    {
        match self.timeout_ms {
            None => None,
            Some(t) => {
                let budget: u64 = (t as u64) * NANOS_PER_MILLI;
                let elapsed: u64 = if now >= self.started {
                    now - self.started
                } else {
                    0
                };
                if elapsed >= budget {
                    Some(0)
                } else {
                    let left: u64 = (budget - elapsed) / NANOS_PER_MILLI;
                    Some(left as u32)
                }
            },
        }
    }

    /// One poll at the clock reading `now`.  The oldest message is handed
    /// out if one waits, whether or not the deadline has passed.  Over an
    /// empty queue the poll says to wait for what is left of the timeout, or
    /// that the pull has timed out when less than a millisecond is left.
    pub fn poll_at(&self, queue: &mut MessageQueue, now: u64) -> (step: Step)
        ensures
            (final(queue)@, step@) == poll_spec(
                self.timeout_ms(),
                self.started(),
                old(queue)@,
                now,
            ),
    {
        match queue.pop_if_available() {
            Some(m) => Step::Deliver(m),
            None => match self.remaining_at(now) {
                None => Step::WaitForever,
                Some(left) => if left == 0 {
                    Step::TimedOut
                } else {
                    Step::Wait(left)
                },
            },
        }
    }

    /// What follows a sleep that ended at the clock reading `now`;
    /// `notified` says whether a signal ended it.  A bounded sleep that ran
    /// its full time ends the pull as timed out.  After every other wake-up
    /// the queue is polled again, against the deadline fixed at the start.
    pub fn woken_at(&self, queue: &mut MessageQueue, notified: bool, now: u64) -> (step: Step)
        ensures
            (final(queue)@, step@) == woken_spec(
                self.timeout_ms(),
                self.started(),
                old(queue)@,
                notified,
                now,
            ),
    {
        if self.timeout_ms.is_some() && !notified {
            Step::TimedOut
        } else {
            self.poll_at(queue, now)
        }
    }

    /// One poll now, by the steady clock: what `poll_at` does at the reading
    /// that the clock gives, whatever that reading is.
    pub fn poll(&self, queue: &mut MessageQueue) -> (step: Step)
        ensures
            exists|now: u64|
                (final(queue)@, step@) == #[trigger] poll_spec(
                    self.timeout_ms(),
                    self.started(),
                    old(queue)@,
                    now,
                ),
    {
        let now = clock_ns();
        self.poll_at(queue, now)
    }

    /// What follows a sleep that has just ended, by the steady clock;
    /// `notified` says whether a signal ended it: what `woken_at` does at the
    /// reading that the clock gives, whatever that reading is.
    pub fn woken(&self, queue: &mut MessageQueue, notified: bool) -> (step: Step)
        ensures
            exists|now: u64|
                (final(queue)@, step@) == #[trigger] woken_spec(
                    self.timeout_ms(),
                    self.started(),
                    old(queue)@,
                    notified,
                    now,
                ),
    {
        let now = clock_ns();
        self.woken_at(queue, notified, now)
    }
}

} // verus!
