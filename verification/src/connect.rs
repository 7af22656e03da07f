//! Reaching a guest that is still booting: wait once, then try to connect
//! until an attempt succeeds, pausing after each failure. There is no
//! deadline: the machine never gives up.

use crate::addr::Ipv4;
use vstd::prelude::*;

verus! {

/// The port on which every guest serves.
pub const GUEST_PORT: u16 = 8081;

/// Whom to reach and how patiently. Times are in milliseconds.
#[derive(Clone, Copy, Debug, PartialEq, Eq, Structural)]
pub struct ConnectPlan {
    pub guest_ip: Ipv4,
    pub port: u16,
    /// How long one attempt may take.
    pub connect_timeout_ms: u64,
    /// The pause after a failed attempt.
    pub poll_interval_ms: u64,
    /// The wait before the first attempt.
    pub initial_delay_ms: u64,
}

/// Where the connector stands.
#[derive(Clone, Copy, Debug, PartialEq, Eq, Structural)]
pub enum ConnectState {
    /// Not started.
    Idle,
    /// In the wait before the first attempt.
    Delaying,
    /// An attempt is under way.
    Attempting,
    /// In the pause after a failed attempt.
    Backoff,
    /// The guest answered.
    Connected,
}

/// What happened since the last action.
#[derive(Clone, Copy, Debug, PartialEq, Eq, Structural)]
pub enum ConnectEvent {
    /// The connector is asked to begin.
    Start,
    /// The sleep that was asked for is over.
    Slept,
    /// The attempt failed or ran out of time.
    Refused,
    /// The attempt succeeded.
    Established,
}

/// What is to be done next.
#[derive(Clone, Copy, Debug, PartialEq, Eq, Structural)]
pub enum ConnectAction {
    /// Sleep for `ms` milliseconds.
    Sleep { ms: u64 },
    /// Try to connect, giving up after `timeout_ms` milliseconds.
    Attempt { ip: Ipv4, port: u16, timeout_ms: u64 },
    /// Switch off output coalescing on the new stream and hand it over.
    EnableNoDelay,
    /// The event does not apply here; nothing changes.
    Nothing,
}

/// The transition table.
pub open spec fn connect_step(plan: ConnectPlan, state: ConnectState, event: ConnectEvent) -> (
    ConnectState,
    ConnectAction,
) {
    match (state, event) {
        (ConnectState::Idle, ConnectEvent::Start) => (
            ConnectState::Delaying,
            ConnectAction::Sleep { ms: plan.initial_delay_ms },
        ),
        (ConnectState::Delaying, ConnectEvent::Slept) => (
            ConnectState::Attempting,
            plan.attempt(),
        ),
        (ConnectState::Attempting, ConnectEvent::Refused) => (
            ConnectState::Backoff,
            ConnectAction::Sleep { ms: plan.poll_interval_ms },
        ),
        (ConnectState::Backoff, ConnectEvent::Slept) => (ConnectState::Attempting, plan.attempt()),
        (ConnectState::Attempting, ConnectEvent::Established) => (
            ConnectState::Connected,
            ConnectAction::EnableNoDelay,
        ),
        (state, _) => (state, ConnectAction::Nothing),
    }
}

impl ConnectPlan {
    /// The plan for a guest at `guest_ip`: its service port, one
    /// millisecond for each attempt and between attempts, five before the
    /// first.
    pub fn for_guest(guest_ip: Ipv4) -> (plan: ConnectPlan)
        ensures
            plan == (ConnectPlan {
                guest_ip,
                port: GUEST_PORT,
                connect_timeout_ms: 1,
                poll_interval_ms: 1,
                initial_delay_ms: 5,
            }),
    {
        ConnectPlan {
            guest_ip,
            port: GUEST_PORT,
            connect_timeout_ms: 1,
            poll_interval_ms: 1,
            initial_delay_ms: 5,
        }
    }

    /// One attempt under this plan.
    pub open spec fn attempt(self) -> ConnectAction {
        ConnectAction::Attempt {
            ip: self.guest_ip,
            port: self.port,
            timeout_ms: self.connect_timeout_ms,
        }
    }

    /// Takes one event: the state that follows and what to do next.
    pub fn on_event(&self, state: ConnectState, event: ConnectEvent) -> (next: (
        ConnectState,
        ConnectAction,
    ))
        ensures
            next == connect_step(*self, state, event),
    {
        let attempt = ConnectAction::Attempt {
            ip: self.guest_ip,
            port: self.port,
            timeout_ms: self.connect_timeout_ms,
        };
        match (state, event) {
            (ConnectState::Idle, ConnectEvent::Start) => (
                ConnectState::Delaying,
                ConnectAction::Sleep { ms: self.initial_delay_ms },
            ),
            (ConnectState::Delaying, ConnectEvent::Slept) => (ConnectState::Attempting, attempt),
            (ConnectState::Attempting, ConnectEvent::Refused) => (
                ConnectState::Backoff,
                ConnectAction::Sleep { ms: self.poll_interval_ms },
            ),
            (ConnectState::Backoff, ConnectEvent::Slept) => (ConnectState::Attempting, attempt),
            (ConnectState::Attempting, ConnectEvent::Established) => (
                ConnectState::Connected,
                ConnectAction::EnableNoDelay,
            ),
            (state, _) => (state, ConnectAction::Nothing),
        }
    }
}

/// What a run of the connector has come to.
pub struct ConnectTally {
    pub state: ConnectState,
    /// Milliseconds of sleep asked for so far.
    pub slept_ms: nat,
    /// Attempts asked for so far.
    pub attempts: nat,
}

/// The connector after it has taken `events` in order, starting idle.
pub open spec fn connect_run(plan: ConnectPlan, events: Seq<ConnectEvent>) -> ConnectTally
    decreases events.len(),
{
    if events.len() == 0 {
        ConnectTally { state: ConnectState::Idle, slept_ms: 0, attempts: 0 }
    } else {
        let before = connect_run(plan, events.drop_last());
        let (state, action) = connect_step(plan, before.state, events.last());
        ConnectTally {
            state,
            slept_ms: before.slept_ms + match action {
                ConnectAction::Sleep { ms } => ms as nat,
                _ => 0,
            },
            attempts: before.attempts + if action is Attempt {
                1nat
            } else {
                0nat
            },
        }
    }
}

/// How much sleep a run has asked for by the time it stands in each state,
/// as a function of its attempts so far.
pub open spec fn connect_paced(plan: ConnectPlan, tally: ConnectTally) -> bool {
    match tally.state {
        ConnectState::Idle => tally.attempts == 0 && tally.slept_ms == 0,
        ConnectState::Delaying => tally.attempts == 0 && tally.slept_ms == plan.initial_delay_ms,
        ConnectState::Attempting | ConnectState::Connected => tally.attempts >= 1 && tally.slept_ms
            == plan.initial_delay_ms + (tally.attempts - 1) * plan.poll_interval_ms,
        ConnectState::Backoff => tally.attempts >= 1 && tally.slept_ms == plan.initial_delay_ms
            + tally.attempts * plan.poll_interval_ms,
    }
}

/// Whatever the events, the connector keeps its pace: it asks for the
/// initial delay before its first attempt and for the poll interval
/// before each further one, and for no other sleep.
pub proof fn lemma_connect_paced(plan: ConnectPlan, events: Seq<ConnectEvent>)
    ensures
        connect_paced(plan, connect_run(plan, events)),
    decreases events.len(),
{
    if events.len() > 0 {
        lemma_connect_paced(plan, events.drop_last());
        let before = connect_run(plan, events.drop_last());
        let after = connect_run(plan, events);
        let p = plan.poll_interval_ms as int;
        let n = before.attempts as int;
        let m = after.attempts as int;
        assert((n - 1) * p + p == n * p) by (nonlinear_arith);
        assert(m == n + 1 ==> (m - 1) * p == n * p) by (nonlinear_arith);
        assert(m == 1 ==> (m - 1) * p == 0) by (nonlinear_arith);
    }
}

/// A run that ends connected has asked for at least one attempt, and
/// before it for the initial delay, and after each attempt that failed
/// for the poll interval.
pub proof fn lemma_connected_after_delay(plan: ConnectPlan, events: Seq<ConnectEvent>)
    requires
        connect_run(plan, events).state is Connected,
    ensures
        connect_run(plan, events).attempts >= 1,
        connect_run(plan, events).slept_ms == plan.initial_delay_ms + (connect_run(
            plan,
            events,
        ).attempts - 1) * plan.poll_interval_ms,
        connect_run(plan, events).slept_ms >= plan.initial_delay_ms,
{
    lemma_connect_paced(plan, events);
    let n = connect_run(plan, events).attempts as int;
    let p = plan.poll_interval_ms as int;
    assert((n - 1) * p >= 0) by (nonlinear_arith)
        requires
            n >= 1,
            p >= 0,
    ;
}

/// A failed attempt never ends the run: it is always followed by a pause
/// and, after the pause, by another attempt.
pub proof fn lemma_refusal_retries(plan: ConnectPlan)
    ensures
        connect_step(plan, ConnectState::Attempting, ConnectEvent::Refused) == (
            ConnectState::Backoff,
            ConnectAction::Sleep { ms: plan.poll_interval_ms },
        ),
        connect_step(plan, ConnectState::Backoff, ConnectEvent::Slept) == (
            ConnectState::Attempting,
            plan.attempt(),
        ),
{
}

} // verus!
