//! The door's logical state and the rules by which requests change it.
//!
//! A request to open or close the door either starts a sequence of the motor
//! or changes nothing. While a sequence runs the door is in flight, and every
//! further request is turned away until the end of that sequence has been
//! reported: at most one sequence runs at any time.

use vstd::prelude::*;
use crate::actuator::Direction;

verus! {

/// Where the door is, as far as the controller knows.
#[derive(Clone, Copy, Debug, PartialEq, Eq, Structural)]
pub enum DoorState {
    Closed,
    Closing,
    Open,
    Opening,
}

impl DoorState {
    /// True while a sequence of the motor runs.
    pub open spec fn in_flight(self) -> bool {
        self is Closing || self is Opening
    }

    /// The number of sequences that run in this state.
    pub open spec fn sequences_running(self) -> nat {
        if self.in_flight() {
            1
        } else {
            0
        }
    }

    /// The state in which the door rests after travelling in `towards`.
    pub open spec fn at_end_of(towards: Direction) -> DoorState {
        match towards {
            Direction::Closing => DoorState::Closed,
            Direction::Opening => DoorState::Open,
        }
    }
}

/// The answer to a request.
#[derive(Clone, Copy, Debug, PartialEq, Eq, Structural)]
pub enum Outcome {
    /// The door has begun to travel. The caller performs the sequence for
    /// this direction and reports how it ended.
    Actuate(Direction),
    /// Nothing was done: the door is closed.
    AlreadyClosed,
    /// Nothing was done: the door is open.
    AlreadyOpen,
    /// Nothing was done: a sequence runs.
    InProgress,
    /// Nothing was done: the door's state could not be had.
    LockUnavailable,
}

/// How a sequence ended.
#[derive(Clone, Copy, Debug, PartialEq, Eq, Structural)]
pub enum Report {
    /// The sequence was performed to its end.
    Completed,
    /// The sequence was performed to its end, but the limit switch did not
    /// report within its timeout, or the wait for it failed. This may be a
    /// fault of the door or of the switch.
    Unconfirmed,
    /// The outputs could not be had, and nothing was driven.
    HardwareUnavailable,
}

/// What can happen to the door's state.
#[derive(Clone, Copy, Debug, PartialEq, Eq, Structural)]
pub enum DoorEvent {
    /// Travel in a direction was requested.
    Requested(Direction),
    /// The end of the running sequence was reported.
    Ended(Report),
}

/// The answer to a request for travel in `towards` that finds the door in
/// `state`.
///
/// Only a door at rest at the other end begins to travel. A request never
/// preempts a sequence that runs.
pub open spec fn outcome_of(state: DoorState, towards: Direction) -> Outcome {
    match (towards, state) {
        (Direction::Closing, DoorState::Open) => Outcome::Actuate(Direction::Closing),
        (Direction::Closing, DoorState::Closed) => Outcome::AlreadyClosed,
        (Direction::Opening, DoorState::Closed) => Outcome::Actuate(Direction::Opening),
        (Direction::Opening, DoorState::Open) => Outcome::AlreadyOpen,
        (_, DoorState::Closing) | (_, DoorState::Opening) => Outcome::InProgress,
    }
}

/// The state that follows `state` on `event`.
///
/// A sequence that was performed leaves the door at the end it travelled to,
/// confirmed by the limit switch or not. One for which the outputs could not
/// be had leaves the door where it was before the request. A report that
/// finds no sequence running changes nothing.
pub open spec fn step(state: DoorState, event: DoorEvent) -> DoorState {
    match (event, state) {
        (DoorEvent::Requested(Direction::Closing), DoorState::Open) => DoorState::Closing,
        (DoorEvent::Requested(Direction::Opening), DoorState::Closed) => DoorState::Opening,
        (DoorEvent::Ended(Report::HardwareUnavailable), DoorState::Closing) => DoorState::Open,
        (DoorEvent::Ended(Report::HardwareUnavailable), DoorState::Opening) => DoorState::Closed,
        (DoorEvent::Ended(_), DoorState::Closing) => DoorState::Closed,
        (DoorEvent::Ended(_), DoorState::Opening) => DoorState::Open,
        _ => state,
    }
}

/// True when `event`, met in `state`, starts a sequence of the motor.
pub open spec fn starts_sequence(state: DoorState, event: DoorEvent) -> bool {
    event matches DoorEvent::Requested(towards) && outcome_of(state, towards) is Actuate
}

/// True when `event`, met in `state`, ends the sequence that runs.
pub open spec fn ends_sequence(state: DoorState, event: DoorEvent) -> bool {
    event is Ended && state.in_flight()
}

/// The state after the first `n` of `events`, begun in `start`.
pub open spec fn state_after(start: DoorState, events: Seq<DoorEvent>, n: nat) -> DoorState
    recommends
        n <= events.len(),
    decreases n,
{
    if n == 0 {
        start
    } else {
        step(state_after(start, events, (n - 1) as nat), events[n - 1])
    }
}

/// The number of sequences that the first `n` of `events` start.
pub open spec fn sequences_started(start: DoorState, events: Seq<DoorEvent>, n: nat) -> nat
    recommends
        n <= events.len(),
    decreases n,
{
    if n == 0 {
        0
    } else {
        let before = (n - 1) as nat;
        let begun: nat = if starts_sequence(state_after(start, events, before), events[n - 1]) {
            1
        } else {
            0
        };
        sequences_started(start, events, before) + begun
    }
}

/// The number of sequences that the first `n` of `events` end.
pub open spec fn sequences_ended(start: DoorState, events: Seq<DoorEvent>, n: nat) -> nat
    recommends
        n <= events.len(),
    decreases n,
{
    if n == 0 {
        0
    } else {
        let before = (n - 1) as nat;
        let over: nat = if ends_sequence(state_after(start, events, before), events[n - 1]) {
            1
        } else {
            0
        };
        sequences_ended(start, events, before) + over
    }
}

/// The state after a request for travel in `towards` that is served to its
/// end, and the number of sequences performed for it.
pub open spec fn served(state: DoorState, towards: Direction) -> (DoorState, nat) {
    if outcome_of(state, towards) is Actuate {
        (
            step(
                step(state, DoorEvent::Requested(towards)),
                DoorEvent::Ended(Report::Completed),
            ),
            1,
        )
    } else {
        (state, 0)
    }
}

/// Owner of the door's logical state.
///
/// All changes of the state go through the methods of one controller. The
/// program keeps it behind a lock, which it holds from a request to the
/// report of the sequence that the request started.
#[derive(Debug)]
pub struct DoorController {
    state: DoorState,
}

impl View for DoorController {
    type V = DoorState;

    closed spec fn view(&self) -> DoorState {
        self.state
    }
}

impl DoorController {
    /// A controller for a door that is closed.
    pub fn new() -> (door: DoorController)
        ensures
            door@ == DoorState::Closed,
    {
        DoorController { state: DoorState::Closed }
    }

    /// The door's state.
    pub fn current_state(&self) -> (state: DoorState)
        ensures
            state == self@,
    {
        self.state
    }

    /// Asks for the door to close.
    ///
    /// An open door begins to close: the answer is `Actuate`, and the caller
    /// performs the closing sequence and reports its end with
    /// [`DoorController::finish`]. In every other state nothing changes.
    pub fn request_close(&mut self) -> (outcome: Outcome)
        ensures
            outcome == outcome_of(old(self)@, Direction::Closing),
            final(self)@ == step(old(self)@, DoorEvent::Requested(Direction::Closing)),
            outcome is Actuate <==> old(self)@ == DoorState::Open,
    {
        match self.state {
            DoorState::Open => {
                self.state = DoorState::Closing;
                Outcome::Actuate(Direction::Closing)
            },
            DoorState::Closed => Outcome::AlreadyClosed,
            DoorState::Closing | DoorState::Opening => Outcome::InProgress,
        }
    }

    /// Asks for the door to open.
    ///
    /// A closed door begins to open: the answer is `Actuate`, and the caller
    /// performs the opening sequence and reports its end with
    /// [`DoorController::finish`]. In every other state nothing changes; in
    /// particular a door that is open is not driven again.
    pub fn request_open(&mut self) -> (outcome: Outcome)
        ensures
            outcome == outcome_of(old(self)@, Direction::Opening),
            final(self)@ == step(old(self)@, DoorEvent::Requested(Direction::Opening)),
            outcome is Actuate <==> old(self)@ == DoorState::Closed,
            old(self)@ == DoorState::Open ==> outcome == Outcome::AlreadyOpen && final(self)@
                == DoorState::Open,
    {
        match self.state {
            DoorState::Closed => {
                self.state = DoorState::Opening;
                Outcome::Actuate(Direction::Opening)
            },
            DoorState::Open => Outcome::AlreadyOpen,
            DoorState::Closing | DoorState::Opening => Outcome::InProgress,
        }
    }

    /// Takes the report of how the running sequence ended and returns the
    /// state in which the door now rests.
    ///
    /// A sequence that was performed leaves the door at the end it travelled
    /// to, whether the limit switch confirmed it or not. One for which the
    /// outputs could not be had leaves the door where it was. With no
    /// sequence running nothing changes.
    pub fn finish(&mut self, report: Report) -> (state: DoorState)
        ensures
            final(self)@ == step(old(self)@, DoorEvent::Ended(report)),
            state == final(self)@,
            !state.in_flight(),
    {
        let travelled = match report {
            Report::Completed | Report::Unconfirmed => true,
            Report::HardwareUnavailable => false,
        };
        self.state = match self.state {
            DoorState::Closing => if travelled {
                DoorState::Closed
            } else {
                DoorState::Open
            },
            DoorState::Opening => if travelled {
                DoorState::Open
            } else {
                DoorState::Closed
            },
            DoorState::Closed => DoorState::Closed,
            DoorState::Open => DoorState::Open,
        };
        self.state
    }
}

/// Sequences never overlap: after any events, the sequences started and not
/// yet ended are as many as the state says run, and that is one at most.
pub proof fn lemma_sequences_never_overlap(start: DoorState, events: Seq<DoorEvent>, n: nat)
    requires
        n <= events.len(),
    ensures
        start.sequences_running() + sequences_started(start, events, n) == sequences_ended(
            start,
            events,
            n,
        ) + state_after(start, events, n).sequences_running(),
        start.sequences_running() + sequences_started(start, events, n) - sequences_ended(
            start,
            events,
            n,
        ) <= 1,
    decreases n,
{
    if n > 0 {
        lemma_sequences_never_overlap(start, events, (n - 1) as nat);
    }
}

/// Two requests to close in a row, each served to its end, perform one
/// closing sequence between them and leave an open door closed.
pub proof fn lemma_closing_twice_closes_once(state: DoorState)
    requires
        state == DoorState::Open,
    ensures
        ({
            let first = served(state, Direction::Closing);
            let second = served(first.0, Direction::Closing);
            first.1 + second.1 == 1 && second.0 == DoorState::Closed
        }),
{
}

/// A request that was served to its end leaves nothing to do for the same
/// request made again, in whatever state the door was. Served at rest, it
/// leaves the door at the end that was asked for.
pub proof fn lemma_repeated_request_is_idle(state: DoorState, towards: Direction)
    ensures
        served(served(state, towards).0, towards) == (served(state, towards).0, 0nat),
        !state.in_flight() ==> served(state, towards).0 == DoorState::at_end_of(towards),
        state.in_flight() ==> served(state, towards) == (state, 0nat),
{
}

} // verus!
