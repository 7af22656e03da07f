//! Relaying bytes both ways between the inbound connection and the guest,
//! and taking both down together: as soon as one direction ends, both
//! endpoints are shut down, and the relay is over when the other
//! direction has ended too.

use vstd::prelude::*;

verus! {

/// One of the two directions of a relay.
#[derive(Clone, Copy, Debug, PartialEq, Eq, Structural)]
pub enum Direction {
    /// From the inbound connection to the guest.
    ToGuest,
    /// From the guest to the inbound connection.
    FromGuest,
}

impl Direction {
    /// The other direction.
    pub open spec fn opposite(self) -> Direction {
        match self {
            Direction::ToGuest => Direction::FromGuest,
            Direction::FromGuest => Direction::ToGuest,
        }
    }
}

/// Where the relay stands.
#[derive(Clone, Copy, Debug, PartialEq, Eq, Structural)]
pub enum SpliceState {
    /// Not started.
    Idle,
    /// Both directions copy.
    Copying,
    /// The named direction has ended and both endpoints were shut down;
    /// the other direction has yet to end.
    Draining(Direction),
    /// Both directions have ended.
    Finished,
}

/// What happened since the last action.
#[derive(Clone, Copy, Debug, PartialEq, Eq, Structural)]
pub enum SpliceEvent {
    /// The relay is asked to begin.
    Start,
    /// A direction's copy loop ended, at the end of its source or on an
    /// error.
    CopyEnded(Direction),
}

/// What is to be done next.
#[derive(Clone, Copy, Debug, PartialEq, Eq, Structural)]
pub enum SpliceAction {
    /// Start both copy loops.
    StartCopies,
    /// Shut down reading and writing on both endpoints.
    ShutdownBoth,
    /// Return to the caller.
    Return,
    /// The event does not apply here; nothing changes.
    Nothing,
}

/// The transition table.
pub open spec fn splice_step(state: SpliceState, event: SpliceEvent) -> (SpliceState, SpliceAction) {
    match (state, event) {
        (SpliceState::Idle, SpliceEvent::Start) => (SpliceState::Copying, SpliceAction::StartCopies),
        (SpliceState::Copying, SpliceEvent::CopyEnded(d)) => (
            SpliceState::Draining(d),
            SpliceAction::ShutdownBoth,
        ),
        (SpliceState::Draining(first), SpliceEvent::CopyEnded(d)) => if d == first.opposite() {
            (SpliceState::Finished, SpliceAction::Return)
        } else {
            (state, SpliceAction::Nothing)
        },
        (state, _) => (state, SpliceAction::Nothing),
    }
}

impl SpliceState {
    /// Takes one event: the state that follows and what to do next.
    pub fn on_event(self, event: SpliceEvent) -> (next: (SpliceState, SpliceAction))
        ensures
            next == splice_step(self, event),
    {
        match (self, event) {
            (SpliceState::Idle, SpliceEvent::Start) => (
                SpliceState::Copying,
                SpliceAction::StartCopies,
            ),
            (SpliceState::Copying, SpliceEvent::CopyEnded(d)) => (
                SpliceState::Draining(d),
                SpliceAction::ShutdownBoth,
            ),
            (SpliceState::Draining(Direction::ToGuest), SpliceEvent::CopyEnded(Direction::FromGuest))
            | (
                SpliceState::Draining(Direction::FromGuest),
                SpliceEvent::CopyEnded(Direction::ToGuest),
            ) => (SpliceState::Finished, SpliceAction::Return),
            (state, _) => (state, SpliceAction::Nothing),
        }
    }
}

/// What a run of the relay has come to.
pub struct SpliceTally {
    pub state: SpliceState,
    /// How often the shutdown of both endpoints was asked for.
    pub shutdowns: nat,
}

/// The relay after it has taken `events` in order, starting idle.
pub open spec fn splice_run(events: Seq<SpliceEvent>) -> SpliceTally
    decreases events.len(),
{
    if events.len() == 0 {
        SpliceTally { state: SpliceState::Idle, shutdowns: 0 }
    } else {
        let before = splice_run(events.drop_last());
        let (state, action) = splice_step(before.state, events.last());
        SpliceTally {
            state,
            shutdowns: before.shutdowns + if action is ShutdownBoth {
                1nat
            } else {
                0nat
            },
        }
    }
}

/// Whether direction `d` is reported as ended somewhere in `events`.
pub open spec fn ended_in(events: Seq<SpliceEvent>, d: Direction) -> bool {
    exists|i: int| 0 <= i < events.len() && events[i] == SpliceEvent::CopyEnded(d)
}

/// What a run has seen by the time it stands in each state.
pub open spec fn splice_settled(events: Seq<SpliceEvent>, tally: SpliceTally) -> bool {
    match tally.state {
        SpliceState::Idle | SpliceState::Copying => tally.shutdowns == 0,
        SpliceState::Draining(d) => tally.shutdowns == 1 && ended_in(events, d),
        SpliceState::Finished => tally.shutdowns == 1 && ended_in(events, Direction::ToGuest)
            && ended_in(events, Direction::FromGuest),
    }
}

/// Whatever the events, the relay asks for the shutdown of both
/// endpoints exactly once, in the step in which the first direction is
/// reported as ended, and not before.
pub proof fn lemma_splice_settled(events: Seq<SpliceEvent>)
    ensures
        splice_settled(events, splice_run(events)),
    decreases events.len(),
{
    if events.len() > 0 {
        let prefix = events.drop_last();
        lemma_splice_settled(prefix);
        assert forall|d: Direction| ended_in(prefix, d) implies ended_in(events, d) by {
            let i = choose|i: int| 0 <= i < prefix.len() && prefix[i] == SpliceEvent::CopyEnded(d);
            assert(events[i] == SpliceEvent::CopyEnded(d));
        }
        if let SpliceEvent::CopyEnded(d) = events.last() {
            assert(events[events.len() - 1] == SpliceEvent::CopyEnded(d));
        }
    }
}

/// A relay that has returned was told that both directions have ended,
/// and has asked for the shutdown of both endpoints exactly once on the
/// way.
pub proof fn lemma_return_after_both(events: Seq<SpliceEvent>)
    requires
        splice_run(events).state is Finished,
    ensures
        ended_in(events, Direction::ToGuest),
        ended_in(events, Direction::FromGuest),
        splice_run(events).shutdowns == 1,
{
    lemma_splice_settled(events);
}

/// The first direction to end takes both endpoints down at once,
/// whichever direction it is.
pub proof fn lemma_first_end_shuts_down(d: Direction)
    ensures
        splice_step(SpliceState::Copying, SpliceEvent::CopyEnded(d)) == (
            SpliceState::Draining(d),
            SpliceAction::ShutdownBoth,
        ),
{
}

} // verus!
