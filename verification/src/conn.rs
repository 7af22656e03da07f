//! The life of one inbound connection, as a state machine: from accept,
//! through holding a slot while its guest runs, to giving the slot back
//! when the guest has exited.
//!
//! The machine decides; it performs nothing. Whoever drives it does what
//! each action names and reports back what happened as the next event.

use crate::boot::ExitClass;
use crate::vm::Lease;
use vstd::multiset::Multiset;
use vstd::prelude::*;

verus! {

/// How the attempt to run a guest ended.
#[derive(Clone, Copy, Debug, PartialEq, Eq, Structural)]
pub enum VmOutcome {
    /// The guest booted and later exited.
    Exited(ExitClass),
    /// The hypervisor could not boot or run the guest.
    BootFailed,
}

/// How far the proxy of a connection has come. The proxy runs beside the
/// guest and has no say in when the slot is given back.
#[derive(Clone, Copy, Debug, PartialEq, Eq, Structural)]
pub enum ProxyPhase {
    /// The guest does not answer yet.
    WaitingGuest,
    /// Bytes are relayed between the inbound connection and the guest.
    Proxying,
    /// The relay has ended.
    Finished,
}

/// Where a connection stands.
#[derive(Debug)]
pub enum ConnState {
    /// The inbound connection was accepted; nothing is held.
    Accepted,
    /// A slot is held; its guest and its proxy are about to be started.
    LeaseAcquired(Lease),
    /// The guest boots or runs, and beside it the proxy waits for the
    /// guest, copies bytes, or has ended.
    Serving(Lease, ProxyPhase),
    /// The guest has exited and the slot is on its way back to the pool.
    Released(VmOutcome),
    /// Nothing is left to do.
    Closed,
    /// No slot was to be had; the inbound connection is refused.
    Rejected,
}

/// What happened since the last action.
#[derive(Debug)]
pub enum ConnEvent {
    /// An inbound connection arrived.
    Inbound,
    /// The pool handed out a slot.
    LeaseGranted(Lease),
    /// The pool had no free slot.
    LeaseDenied,
    /// The guest's run and the proxy have been started.
    Launched,
    /// The proxy has reached the guest and starts to relay.
    GuestConnected,
    /// The proxy's relay has ended.
    ProxyFinished,
    /// The guest's run returned.
    VmExited(VmOutcome),
    /// The slot is back in the pool.
    SlotReleased,
}

/// What is to be done next.
#[derive(Debug)]
pub enum ConnAction {
    /// Ask the pool for a slot.
    AcquireLease,
    /// Start the guest on the slot, and beside it the proxy: connect to
    /// the guest, then relay the inbound connection.
    Launch { slot: u8 },
    /// Close the inbound connection at once.
    CloseInbound,
    /// Wait until the guest's run returns.
    AwaitVmExit,
    /// Give the slot back to the pool.
    Release(Lease),
    /// Report how the guest's run ended; the connection is done.
    Finish(VmOutcome),
    /// Nothing is to be done.
    Nothing,
}

/// The transition table.
///
/// A slot is asked for only for a connection that holds none. The slot is
/// held from the grant until the guest's run returns, however the proxy
/// fares meanwhile, and is given back at that moment: the proxy may still
/// be copying then, or may have ended long before. A grant that arrives
/// when no slot was asked for is given back at once. An event that does
/// not apply in a state changes nothing.
pub open spec fn conn_step(state: ConnState, event: ConnEvent) -> (ConnState, ConnAction) {
    match (state, event) {
        (ConnState::Accepted, ConnEvent::Inbound) => (ConnState::Accepted, ConnAction::AcquireLease),
        (ConnState::Accepted, ConnEvent::LeaseGranted(lease)) => (
            ConnState::LeaseAcquired(lease),
            ConnAction::Launch { slot: lease@ as u8 },
        ),
        (ConnState::Accepted, ConnEvent::LeaseDenied) => (
            ConnState::Rejected,
            ConnAction::CloseInbound,
        ),
        (ConnState::LeaseAcquired(lease), ConnEvent::Launched) => (
            ConnState::Serving(lease, ProxyPhase::WaitingGuest),
            ConnAction::AwaitVmExit,
        ),
        (ConnState::Serving(lease, ProxyPhase::WaitingGuest), ConnEvent::GuestConnected) => (
            ConnState::Serving(lease, ProxyPhase::Proxying),
            ConnAction::Nothing,
        ),
        (ConnState::Serving(lease, ProxyPhase::Proxying), ConnEvent::ProxyFinished) => (
            ConnState::Serving(lease, ProxyPhase::Finished),
            ConnAction::Nothing,
        ),
        (ConnState::Serving(lease, _), ConnEvent::VmExited(outcome)) => (
            ConnState::Released(outcome),
            ConnAction::Release(lease),
        ),
        (ConnState::Released(outcome), ConnEvent::SlotReleased) => (
            ConnState::Closed,
            ConnAction::Finish(outcome),
        ),
        (state, ConnEvent::LeaseGranted(lease)) => (state, ConnAction::Release(lease)),
        (state, _) => (state, ConnAction::Nothing),
    }
}

impl ConnState {
    /// The state of a connection that was just accepted.
    pub fn accepted() -> (state: ConnState)
        ensures
            state == ConnState::Accepted,
    {
        ConnState::Accepted
    }

    /// The lease the connection holds, if it holds one.
    pub open spec fn held(self) -> Option<Lease> {
        match self {
            ConnState::LeaseAcquired(lease) => Some(lease),
            ConnState::Serving(lease, _) => Some(lease),
            _ => None,
        }
    }

    /// Whether nothing more will happen to the connection.
    pub open spec fn is_terminal(self) -> bool {
        self is Closed || self is Rejected
    }

    /// Takes one event: the state that follows and what to do next.
    pub fn on_event(self, event: ConnEvent) -> (next: (ConnState, ConnAction))
        ensures
            next == conn_step(self, event),
    {
        match (self, event) {
            (ConnState::Accepted, ConnEvent::Inbound) => (
                ConnState::Accepted,
                ConnAction::AcquireLease,
            ),
            (ConnState::Accepted, ConnEvent::LeaseGranted(lease)) => {
                let slot = lease.index();
                (ConnState::LeaseAcquired(lease), ConnAction::Launch { slot })
            },
            (ConnState::Accepted, ConnEvent::LeaseDenied) => (
                ConnState::Rejected,
                ConnAction::CloseInbound,
            ),
            (ConnState::LeaseAcquired(lease), ConnEvent::Launched) => (
                ConnState::Serving(lease, ProxyPhase::WaitingGuest),
                ConnAction::AwaitVmExit,
            ),
            (ConnState::Serving(lease, ProxyPhase::WaitingGuest), ConnEvent::GuestConnected) => (
                ConnState::Serving(lease, ProxyPhase::Proxying),
                ConnAction::Nothing,
            ),
            (ConnState::Serving(lease, ProxyPhase::Proxying), ConnEvent::ProxyFinished) => (
                ConnState::Serving(lease, ProxyPhase::Finished),
                ConnAction::Nothing,
            ),
            (ConnState::Serving(lease, _), ConnEvent::VmExited(outcome)) => (
                ConnState::Released(outcome),
                ConnAction::Release(lease),
            ),
            (ConnState::Released(outcome), ConnEvent::SlotReleased) => (
                ConnState::Closed,
                ConnAction::Finish(outcome),
            ),
            (state, ConnEvent::LeaseGranted(lease)) => (state, ConnAction::Release(lease)),
            (state, _) => (state, ConnAction::Nothing),
        }
    }
}

impl ConnEvent {
    /// The lease that comes in with the event, if one does.
    pub open spec fn carried(self) -> Option<Lease> {
        match self {
            ConnEvent::LeaseGranted(lease) => Some(lease),
            _ => None,
        }
    }
}

impl ConnAction {
    /// The lease that goes back to the pool with the action, if one does.
    pub open spec fn given_back(self) -> Option<Lease> {
        match self {
            ConnAction::Release(lease) => Some(lease),
            _ => None,
        }
    }
}

/// The leases in `held`: one or none.
pub open spec fn lease_bag(held: Option<Lease>) -> Multiset<Lease> {
    match held {
        Some(lease) => Multiset::singleton(lease),
        None => Multiset::empty(),
    }
}

/// No step loses a lease or makes one up: the leases held before the step
/// and brought by the event are those held after it and given back by the
/// action.
pub proof fn lemma_lease_conserved(state: ConnState, event: ConnEvent)
    ensures
        ({
            let (next, action) = conn_step(state, event);
            lease_bag(state.held()).add(lease_bag(event.carried())) =~= lease_bag(next.held()).add(
                lease_bag(action.given_back()),
            )
        }),
{
}

/// A connection that holds a slot keeps it through every event but one:
/// once its guest was launched, the return of the guest's run, on which
/// it gives the slot back.
pub proof fn lemma_release_tied_to_vm_exit(state: ConnState, event: ConnEvent)
    requires
        state.held() is Some,
    ensures
        ({
            let (next, action) = conn_step(state, event);
            let exited = state is Serving && event is VmExited;
            &&& exited ==> next.held() is None && action == ConnAction::Release(
                state.held().unwrap(),
            )
            &&& !exited ==> next.held() == state.held()
        }),
{
}

/// What the proxy reports neither gives the slot back nor asks for
/// anything: whether it has reached the guest, and whether its relay has
/// ended, only moves its own phase.
pub proof fn lemma_proxy_leaves_slot_alone(state: ConnState, event: ConnEvent)
    requires
        event is GuestConnected || event is ProxyFinished,
    ensures
        conn_step(state, event).0.held() == state.held(),
        conn_step(state, event).1 == ConnAction::Nothing,
        !(state is Serving) ==> conn_step(state, event).0 == state,
{
}

/// The guest's exit gives the slot back in whatever phase the proxy is.
pub proof fn lemma_vm_exit_releases_in_any_phase(
    lease: Lease,
    phase: ProxyPhase,
    outcome: VmOutcome,
)
    ensures
        conn_step(ConnState::Serving(lease, phase), ConnEvent::VmExited(outcome)) == (
            ConnState::Released(outcome),
            ConnAction::Release(lease),
        ),
{
}

/// A slot is launched on only in the step that takes its grant, and the
/// connection then holds that slot.
pub proof fn lemma_launch_holds_slot(state: ConnState, event: ConnEvent, slot: u8)
    requires
        conn_step(state, event).1 == (ConnAction::Launch { slot }),
    ensures
        state is Accepted,
        event.carried() is Some,
        conn_step(state, event).0.held() == event.carried(),
        event.carried().unwrap()@ as u8 == slot,
{
}

/// A closed or rejected connection holds no slot and never leaves its
/// state; a grant that reaches it goes straight back.
pub proof fn lemma_terminal_absorbs(state: ConnState, event: ConnEvent)
    requires
        state.is_terminal(),
    ensures
        state.held() is None,
        conn_step(state, event).0 == state,
        conn_step(state, event).1 == match event.carried() {
            Some(lease) => ConnAction::Release(lease),
            None => ConnAction::Nothing,
        },
{
}

/// A connection is refused only for want of a slot, and then holds none.
pub proof fn lemma_rejected_without_slot(state: ConnState, event: ConnEvent)
    requires
        !(state is Rejected),
        conn_step(state, event).0 is Rejected,
    ensures
        state is Accepted,
        event is LeaseDenied,
        conn_step(state, event).1 == ConnAction::CloseInbound,
{
}

/// What a connection has come to.
pub struct ConnTally {
    pub state: ConnState,
    /// The leases that events brought in.
    pub granted: Multiset<Lease>,
    /// The leases that actions gave back.
    pub given_back: Multiset<Lease>,
    /// How often a launch was asked for.
    pub launches: nat,
}

/// A connection after it has taken `events` in order, starting as
/// accepted.
pub open spec fn conn_run(events: Seq<ConnEvent>) -> ConnTally
    decreases events.len(),
{
    if events.len() == 0 {
        ConnTally {
            state: ConnState::Accepted,
            granted: Multiset::empty(),
            given_back: Multiset::empty(),
            launches: 0,
        }
    } else {
        let before = conn_run(events.drop_last());
        let (state, action) = conn_step(before.state, events.last());
        ConnTally {
            state,
            granted: before.granted.add(lease_bag(events.last().carried())),
            given_back: before.given_back.add(lease_bag(action.given_back())),
            launches: before.launches + if action is Launch {
                1nat
            } else {
                0nat
            },
        }
    }
}

/// Whether the books of a connection balance: every lease that came in is
/// either still held or was given back, once; and a guest was launched at
/// most once, and only for a connection that got a slot.
pub open spec fn conn_balanced(tally: ConnTally) -> bool {
    &&& tally.granted == tally.given_back.add(lease_bag(tally.state.held()))
    &&& tally.launches == if tally.state is Accepted || tally.state is Rejected {
        0nat
    } else {
        1nat
    }
}

/// Whatever the events, the books of a connection balance.
pub proof fn lemma_conn_balanced(events: Seq<ConnEvent>)
    ensures
        conn_balanced(conn_run(events)),
    decreases events.len(),
{
    if events.len() > 0 {
        lemma_conn_balanced(events.drop_last());
        let before = conn_run(events.drop_last());
        let after = conn_run(events);
        lemma_lease_conserved(before.state, events.last());
        assert(after.granted =~= after.given_back.add(lease_bag(after.state.held())));
    } else {
        assert(conn_run(events).granted =~= conn_run(events).given_back.add(
            lease_bag(conn_run(events).state.held()),
        ));
    }
}

/// A connection that is closed or rejected has given back every lease it
/// was granted, each exactly once: none leaks and none is given back
/// twice.
pub proof fn lemma_done_means_all_given_back(events: Seq<ConnEvent>)
    requires
        conn_run(events).state.is_terminal(),
    ensures
        conn_run(events).granted == conn_run(events).given_back,
{
    lemma_conn_balanced(events);
}

} // verus!
