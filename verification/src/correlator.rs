//! The one-shot meeting point between the thread that issues a request and
//! the transport thread that reports what came of it.
//!
//! A correlator is idle, armed, or completed with an outcome.  It is armed on
//! the issuing thread just before the request goes to the transport, and
//! completed once by the success or the failure callback.  The outcome stays
//! readable until the next request is armed.

use crate::error::CallbackError;
use vstd::prelude::*;

verus! {

/// What a completion callback reported.
#[derive(Debug, Clone, Copy, PartialEq, Eq, Structural)]
pub enum Outcome {
    Success,
    Failure(CallbackError),
}

/// The pending-action slot as the issuing thread reads it.
#[derive(Debug, Clone, Copy, PartialEq, Eq, Structural)]
pub enum ActionResult {
    /// No outcome has been recorded for the request at hand.
    Unsettled,
    Succeeded,
    Failed(CallbackError),
}

/// The states of a correlator.
#[derive(Debug, Clone, Copy, PartialEq, Eq, Structural)]
pub enum CorrelatorState {
    Idle,
    Armed,
    Completed(Outcome),
}

impl CorrelatorState {
    /// The state after an attempt to arm: armed, unless a request is in
    /// flight already, which leaves the state as it is.
    pub open spec fn arm(self) -> CorrelatorState {
        CorrelatorState::Armed
    }

    /// Whether an attempt to arm is accepted.
    pub open spec fn can_arm(self) -> bool {
        self != CorrelatorState::Armed
    }

    /// The state after a completion callback reported `outcome`: an armed
    /// correlator records it, any other keeps what it has.
    pub open spec fn complete(self, outcome: Outcome) -> CorrelatorState {
        if self == CorrelatorState::Armed {
            CorrelatorState::Completed(outcome)
        } else {
            self
        }
    }

    /// What the pending-action slot shows in this state.
    pub open spec fn action_result(self) -> ActionResult {
        match self {
            CorrelatorState::Idle => ActionResult::Unsettled,
            CorrelatorState::Armed => ActionResult::Unsettled,
            CorrelatorState::Completed(Outcome::Success) => ActionResult::Succeeded,
            CorrelatorState::Completed(Outcome::Failure(e)) => ActionResult::Failed(e),
        }
    }
}

/// A request that is armed and then completed shows the outcome of that
/// completion, whatever the correlator held before; a second completion
/// without a new request changes nothing.
pub proof fn lemma_one_outcome_per_request(before: CorrelatorState, first: Outcome, second: Outcome)
    requires
        before.can_arm(),
    ensures
        before.arm().action_result() == ActionResult::Unsettled,
        before.arm().complete(first) == CorrelatorState::Completed(first),
        before.arm().complete(first).action_result() == match first {
            Outcome::Success => ActionResult::Succeeded,
            Outcome::Failure(e) => ActionResult::Failed(e),
        },
        before.arm().complete(first).complete(second) == before.arm().complete(first),
{
}

/// The correlator of one client.
pub struct RequestCorrelator {
    state: CorrelatorState,
}

impl View for RequestCorrelator {
    type V = CorrelatorState;

    closed spec fn view(&self) -> CorrelatorState {
        self.state
    }
}

impl RequestCorrelator {
    /// An idle correlator.
    pub fn new() -> (c: RequestCorrelator)
        ensures
            c@ == CorrelatorState::Idle,
    {
        RequestCorrelator { state: CorrelatorState::Idle }
    }

    /// The state.
    pub fn state(&self) -> (s: CorrelatorState)
        ensures
            s == self@,
    {
        self.state
    }

    /// Whether a request is in flight: armed and not yet completed.
    pub fn is_armed(&self) -> (b: bool)
        ensures
            b == (self@ == CorrelatorState::Armed),
    {
        match self.state {
            CorrelatorState::Armed => true,
            _ => false,
        }
    }

    /// Arms for a new request and forgets the outcome of the last one.
    /// Refused, with no change, while a request is in flight.
    pub fn arm(&mut self) -> (armed: bool)
        ensures
            armed == old(self)@.can_arm(),
            armed ==> final(self)@ == old(self)@.arm(),
            !armed ==> final(self)@ == old(self)@,
    {
        match self.state {
            CorrelatorState::Armed => false,
            _ => {
                self.state = CorrelatorState::Armed;
                true
            },
        }
    }

    /// Gives up the request at hand: the correlator is idle, no completion
    /// is awaited and no outcome is kept.
    pub fn disarm(&mut self)
        ensures
            final(self)@ == CorrelatorState::Idle,
    {
        self.state = CorrelatorState::Idle;
    }

    /// Records `outcome` for the request in flight.  Returns whether it was
    /// recorded: a completion that meets no armed request is dropped.
    pub fn complete(&mut self, outcome: Outcome) -> (recorded: bool)
        ensures
            recorded == (old(self)@ == CorrelatorState::Armed),
            final(self)@ == old(self)@.complete(outcome),
    {
        match self.state {
            CorrelatorState::Armed => {
                self.state = CorrelatorState::Completed(outcome);
                true
            },
            _ => false,
        }
    }

    /// What the pending-action slot shows.
    pub fn action_result(&self) -> (r: ActionResult)
        ensures
            r == self@.action_result(),
    {
        match self.state {
            CorrelatorState::Idle => ActionResult::Unsettled,
            CorrelatorState::Armed => ActionResult::Unsettled,
            CorrelatorState::Completed(Outcome::Success) => ActionResult::Succeeded,
            CorrelatorState::Completed(Outcome::Failure(e)) => ActionResult::Failed(e),
        }
    }
}

} // verus!
