//! Setting up the host side of every slot before the first connection is
//! taken: for each slot in turn its tap interface, then the static
//! neighbour entry of its guest; after the last slot a pause; and only
//! then the pool is ready. The first failure ends it all: a pool that is
//! only partly set up is never served from.

use crate::slot::ARP_SETTLE_MS;
use vstd::prelude::*;

verus! {

/// Where the set-up stands.
#[derive(Clone, Copy, Debug, PartialEq, Eq, Structural)]
pub enum ProvisionState {
    /// Not started.
    Idle,
    /// The tap interface of this slot is being created.
    Creating(u8),
    /// The neighbour entry of this slot's guest is being registered.
    Binding(u8),
    /// Every slot is set up; the pause runs.
    Settling,
    /// Connections may be accepted.
    Ready,
    /// A step failed; nothing more is done.
    Failed,
}

/// What happened since the last action.
#[derive(Clone, Copy, Debug, PartialEq, Eq, Structural)]
pub enum ProvisionEvent {
    /// The set-up is asked to begin.
    Start,
    /// The last action succeeded.
    Succeeded,
    /// The last action failed.
    Failed,
}

/// What is to be done next.
#[derive(Clone, Copy, Debug, PartialEq, Eq, Structural)]
pub enum ProvisionAction {
    /// Create the tap interface of this slot and bring it up.
    CreateInterface { slot: u8 },
    /// Register the permanent neighbour entry of this slot's guest.
    BindStaticArp { slot: u8 },
    /// Sleep for `ms` milliseconds.
    Settle { ms: u64 },
    /// Start to accept connections.
    Accept,
    /// Give up; the process must not serve.
    Abort,
    /// The event does not apply here; nothing changes.
    Nothing,
}

/// The transition table for a pool of `capacity` slots.
pub open spec fn provision_step(capacity: u8, state: ProvisionState, event: ProvisionEvent) -> (
    ProvisionState,
    ProvisionAction,
) {
    match (state, event) {
        (ProvisionState::Idle, ProvisionEvent::Start) => if capacity == 0 {
            (ProvisionState::Settling, ProvisionAction::Settle { ms: ARP_SETTLE_MS })
        } else {
            (ProvisionState::Creating(0), ProvisionAction::CreateInterface { slot: 0 })
        },
        (ProvisionState::Creating(j), ProvisionEvent::Succeeded) => (
            ProvisionState::Binding(j),
            ProvisionAction::BindStaticArp { slot: j },
        ),
        (ProvisionState::Binding(j), ProvisionEvent::Succeeded) => if j + 1 < capacity {
            (
                ProvisionState::Creating((j + 1) as u8),
                ProvisionAction::CreateInterface { slot: (j + 1) as u8 },
            )
        } else {
            (ProvisionState::Settling, ProvisionAction::Settle { ms: ARP_SETTLE_MS })
        },
        (ProvisionState::Settling, ProvisionEvent::Succeeded) => (
            ProvisionState::Ready,
            ProvisionAction::Accept,
        ),
        (ProvisionState::Creating(_), ProvisionEvent::Failed)
        | (ProvisionState::Binding(_), ProvisionEvent::Failed)
        | (ProvisionState::Settling, ProvisionEvent::Failed) => (
            ProvisionState::Failed,
            ProvisionAction::Abort,
        ),
        (state, _) => (state, ProvisionAction::Nothing),
    }
}

impl ProvisionState {
    /// Takes one event in the set-up of a pool of `capacity` slots: the
    /// state that follows and what to do next.
    pub fn on_event(self, capacity: u8, event: ProvisionEvent) -> (next: (
        ProvisionState,
        ProvisionAction,
    ))
        ensures
            next == provision_step(capacity, self, event),
    {
        match (self, event) {
            (ProvisionState::Idle, ProvisionEvent::Start) => if capacity == 0 {
                (ProvisionState::Settling, ProvisionAction::Settle { ms: ARP_SETTLE_MS })
            } else {
                (ProvisionState::Creating(0), ProvisionAction::CreateInterface { slot: 0 })
            },
            (ProvisionState::Creating(j), ProvisionEvent::Succeeded) => (
                ProvisionState::Binding(j),
                ProvisionAction::BindStaticArp { slot: j },
            ),
            (ProvisionState::Binding(j), ProvisionEvent::Succeeded) => if j < capacity && j + 1
                < capacity {
                (ProvisionState::Creating(j + 1), ProvisionAction::CreateInterface { slot: j + 1 })
            } else {
                (ProvisionState::Settling, ProvisionAction::Settle { ms: ARP_SETTLE_MS })
            },
            (ProvisionState::Settling, ProvisionEvent::Succeeded) => (
                ProvisionState::Ready,
                ProvisionAction::Accept,
            ),
            (ProvisionState::Creating(_), ProvisionEvent::Failed)
            | (ProvisionState::Binding(_), ProvisionEvent::Failed)
            | (ProvisionState::Settling, ProvisionEvent::Failed) => (
                ProvisionState::Failed,
                ProvisionAction::Abort,
            ),
            (state, _) => (state, ProvisionAction::Nothing),
        }
    }
}

/// What a run of the set-up has come to.
pub struct ProvisionTally {
    pub state: ProvisionState,
    /// The slots whose tap interface was asked for.
    pub interfaces: Set<int>,
    /// The slots whose neighbour entry was asked for.
    pub bindings: Set<int>,
    /// How often the pause was asked for.
    pub settles: nat,
}

/// The set-up of a pool of `capacity` slots after it has taken `events`
/// in order, starting idle.
pub open spec fn provision_run(capacity: u8, events: Seq<ProvisionEvent>) -> ProvisionTally
    decreases events.len(),
{
    if events.len() == 0 {
        ProvisionTally {
            state: ProvisionState::Idle,
            interfaces: Set::empty(),
            bindings: Set::empty(),
            settles: 0,
        }
    } else {
        let before = provision_run(capacity, events.drop_last());
        let (state, action) = provision_step(capacity, before.state, events.last());
        ProvisionTally {
            state,
            interfaces: match action {
                ProvisionAction::CreateInterface { slot } => before.interfaces.insert(slot as int),
                _ => before.interfaces,
            },
            bindings: match action {
                ProvisionAction::BindStaticArp { slot } => before.bindings.insert(slot as int),
                _ => before.bindings,
            },
            settles: before.settles + if action is Settle {
                1nat
            } else {
                0nat
            },
        }
    }
}

/// The slots `0, 1, .., n - 1`.
pub open spec fn first_slots(n: int) -> Set<int> {
    Set::new(|i: int| 0 <= i < n)
}

/// What a run has asked for by the time it stands in each state.
pub open spec fn provision_ordered(capacity: u8, tally: ProvisionTally) -> bool {
    match tally.state {
        ProvisionState::Idle => tally.interfaces == first_slots(0) && tally.bindings == first_slots(
            0,
        ) && tally.settles == 0,
        ProvisionState::Creating(j) => j < capacity && tally.interfaces == first_slots(j + 1)
            && tally.bindings == first_slots(j as int) && tally.settles == 0,
        ProvisionState::Binding(j) => j < capacity && tally.interfaces == first_slots(j + 1)
            && tally.bindings == first_slots(j + 1) && tally.settles == 0,
        ProvisionState::Settling | ProvisionState::Ready => tally.interfaces == first_slots(
            capacity as int,
        ) && tally.bindings == first_slots(capacity as int) && tally.settles == 1,
        ProvisionState::Failed => true,
    }
}

/// Whatever the events, the set-up asks for the slots in order, each
/// slot's interface before its neighbour entry, and for the pause once,
/// after the last slot.
pub proof fn lemma_provision_ordered(capacity: u8, events: Seq<ProvisionEvent>)
    ensures
        provision_ordered(capacity, provision_run(capacity, events)),
    decreases events.len(),
{
    if events.len() > 0 {
        lemma_provision_ordered(capacity, events.drop_last());
        match provision_run(capacity, events.drop_last()).state {
            ProvisionState::Idle => {
                assert(first_slots(0).insert(0) =~= first_slots(1));
            },
            ProvisionState::Creating(j) => {
                assert(first_slots(j as int).insert(j as int) =~= first_slots(j + 1));
            },
            ProvisionState::Binding(j) => {
                assert(first_slots(j + 1).insert(j + 1) =~= first_slots(j + 2));
            },
            _ => {},
        }
    } else {
        assert(Set::<int>::empty() =~= first_slots(0));
    }
}

/// A pool is ready only when the interface and the neighbour entry of
/// every one of its slots, and after them the pause, have been asked for.
pub proof fn lemma_ready_means_all_provisioned(capacity: u8, events: Seq<ProvisionEvent>)
    requires
        provision_run(capacity, events).state is Ready,
    ensures
        provision_run(capacity, events).interfaces == first_slots(capacity as int),
        provision_run(capacity, events).bindings == first_slots(capacity as int),
        provision_run(capacity, events).settles == 1,
{
    lemma_provision_ordered(capacity, events);
}

/// A failed set-up stays failed: no event leads on to a pool that serves.
pub proof fn lemma_failure_is_final(capacity: u8, event: ProvisionEvent)
    ensures
        provision_step(capacity, ProvisionState::Failed, event) == (
            ProvisionState::Failed,
            ProvisionAction::Nothing,
        ),
{
}

} // verus!
