use vm_runner::addr::Ipv4;
use vm_runner::boot::ExitClass;
use vm_runner::conn::{ConnAction, ConnEvent, ConnState, ProxyPhase, VmOutcome};
use vm_runner::connect::{ConnectAction, ConnectEvent, ConnectPlan, ConnectState, GUEST_PORT};
use vm_runner::provision::{ProvisionAction, ProvisionEvent, ProvisionState};
use vm_runner::splice::{Direction, SpliceAction, SpliceEvent, SpliceState};
use vm_runner::vm::VmHandler;

fn pool(size: u8) -> VmHandler {
    VmHandler::new(size, Ipv4::new(172, 16, 0, 0)).unwrap()
}

fn plan() -> ConnectPlan {
    ConnectPlan {
        guest_ip: Ipv4::new(172, 16, 0, 1),
        port: 8081,
        connect_timeout_ms: 2,
        poll_interval_ms: 3,
        initial_delay_ms: 7,
    }
}

#[test]
fn plan_for_a_guest_has_the_usual_times() {
    let p = ConnectPlan::for_guest(Ipv4::new(172, 16, 0, 5));
    assert_eq!(p.guest_ip, Ipv4::new(172, 16, 0, 5));
    assert_eq!(p.port, 8081);
    assert_eq!(GUEST_PORT, 8081);
    assert_eq!(p.connect_timeout_ms, 1);
    assert_eq!(p.poll_interval_ms, 1);
    assert_eq!(p.initial_delay_ms, 5);
}

#[test]
fn connector_sleeps_before_the_first_attempt() {
    let p = plan();
    let attempt = ConnectAction::Attempt {
        ip: Ipv4::new(172, 16, 0, 1),
        port: 8081,
        timeout_ms: 2,
    };
    let (s, a) = p.on_event(ConnectState::Idle, ConnectEvent::Start);
    assert_eq!((s, a), (ConnectState::Delaying, ConnectAction::Sleep { ms: 7 }));
    let (s, a) = p.on_event(s, ConnectEvent::Slept);
    assert_eq!((s, a), (ConnectState::Attempting, attempt));
    let (s, a) = p.on_event(s, ConnectEvent::Refused);
    assert_eq!((s, a), (ConnectState::Backoff, ConnectAction::Sleep { ms: 3 }));
    let (s, a) = p.on_event(s, ConnectEvent::Slept);
    assert_eq!((s, a), (ConnectState::Attempting, attempt));
    let (s, a) = p.on_event(s, ConnectEvent::Established);
    assert_eq!((s, a), (ConnectState::Connected, ConnectAction::EnableNoDelay));
}

#[test]
fn connector_ignores_events_out_of_turn() {
    let p = plan();
    for state in [
        ConnectState::Idle,
        ConnectState::Delaying,
        ConnectState::Attempting,
        ConnectState::Backoff,
        ConnectState::Connected,
    ] {
        for event in [
            ConnectEvent::Start,
            ConnectEvent::Slept,
            ConnectEvent::Refused,
            ConnectEvent::Established,
        ] {
            let applies = matches!(
                (state, event),
                (ConnectState::Idle, ConnectEvent::Start)
                    | (ConnectState::Delaying, ConnectEvent::Slept)
                    | (ConnectState::Backoff, ConnectEvent::Slept)
                    | (ConnectState::Attempting, ConnectEvent::Refused)
                    | (ConnectState::Attempting, ConnectEvent::Established)
            );
            let (next, action) = p.on_event(state, event);
            if !applies {
                assert_eq!(next, state);
                assert_eq!(action, ConnectAction::Nothing);
            } else {
                assert_ne!(next, state);
                assert_ne!(action, ConnectAction::Nothing);
            }
        }
    }
}

/// Drives the connector against a guest that starts to accept `ready_at`
/// milliseconds in, on a clock that only the connector's own actions move.
fn connect_against(p: ConnectPlan, ready_at: u64) -> (u64, u64) {
    let mut clock = 0u64;
    let mut attempts = 0u64;
    let (mut state, mut action) = p.on_event(ConnectState::Idle, ConnectEvent::Start);
    loop {
        let event = match action {
            ConnectAction::Sleep { ms } => {
                clock += ms;
                ConnectEvent::Slept
            }
            ConnectAction::Attempt { ip, port, timeout_ms } => {
                assert_eq!(ip, p.guest_ip);
                assert_eq!(port, p.port);
                attempts += 1;
                if clock >= ready_at {
                    ConnectEvent::Established
                } else {
                    clock += timeout_ms;
                    ConnectEvent::Refused
                }
            }
            ConnectAction::EnableNoDelay => {
                assert_eq!(state, ConnectState::Connected);
                return (clock, attempts);
            }
            ConnectAction::Nothing => panic!("the connector stalled in {:?}", state),
        };
        let next = p.on_event(state, event);
        state = next.0;
        action = next.1;
    }
}

#[test]
fn connector_reaches_a_guest_that_accepts_late() {
    let p = plan();
    for ready_at in [0u64, 1, 7, 8, 50, 333] {
        let (elapsed, attempts) = connect_against(p, ready_at);
        assert!(elapsed >= ready_at);
        assert!(elapsed >= p.initial_delay_ms);
        assert!(attempts >= 1);
        assert_eq!(
            elapsed,
            p.initial_delay_ms + (attempts - 1) * (p.connect_timeout_ms + p.poll_interval_ms)
        );
    }
    assert_eq!(connect_against(p, 0), (7, 1));
    assert_eq!(connect_against(p, 8), (12, 2));
}

#[test]
fn splice_shuts_down_when_the_first_direction_ends() {
    for first in [Direction::ToGuest, Direction::FromGuest] {
        let other = match first {
            Direction::ToGuest => Direction::FromGuest,
            Direction::FromGuest => Direction::ToGuest,
        };
        let (s, a) = SpliceState::Idle.on_event(SpliceEvent::Start);
        assert_eq!((s, a), (SpliceState::Copying, SpliceAction::StartCopies));
        let (s, a) = s.on_event(SpliceEvent::CopyEnded(first));
        assert_eq!((s, a), (SpliceState::Draining(first), SpliceAction::ShutdownBoth));
        let (s, a) = s.on_event(SpliceEvent::CopyEnded(first));
        assert_eq!((s, a), (SpliceState::Draining(first), SpliceAction::Nothing));
        let (s, a) = s.on_event(SpliceEvent::CopyEnded(other));
        assert_eq!((s, a), (SpliceState::Finished, SpliceAction::Return));
        let (s, a) = s.on_event(SpliceEvent::CopyEnded(other));
        assert_eq!((s, a), (SpliceState::Finished, SpliceAction::Nothing));
    }
}

#[test]
fn splice_ignores_events_out_of_turn() {
    assert_eq!(
        SpliceState::Idle.on_event(SpliceEvent::CopyEnded(Direction::ToGuest)),
        (SpliceState::Idle, SpliceAction::Nothing)
    );
    assert_eq!(
        SpliceState::Copying.on_event(SpliceEvent::Start),
        (SpliceState::Copying, SpliceAction::Nothing)
    );
    assert_eq!(
        SpliceState::Draining(Direction::ToGuest).on_event(SpliceEvent::Start),
        (SpliceState::Draining(Direction::ToGuest), SpliceAction::Nothing)
    );
    assert_eq!(
        SpliceState::Finished.on_event(SpliceEvent::Start),
        (SpliceState::Finished, SpliceAction::Nothing)
    );
}

/// Drives the relay over a pair of streams in which closing one side ends
/// that side's copy at once and the other side's copy once the endpoints
/// are shut down.
#[test]
fn closing_one_side_ends_the_splice() {
    for closed in [Direction::ToGuest, Direction::FromGuest] {
        let mut shutdowns = 0;
        let mut ended = Vec::new();
        let mut steps = 0;
        let (mut state, mut action) = SpliceState::Idle.on_event(SpliceEvent::Start);
        loop {
            steps += 1;
            assert!(steps < 10);
            let event = match action {
                SpliceAction::StartCopies => {
                    ended.push(closed);
                    SpliceEvent::CopyEnded(closed)
                }
                SpliceAction::ShutdownBoth => {
                    shutdowns += 1;
                    let other = if closed == Direction::ToGuest {
                        Direction::FromGuest
                    } else {
                        Direction::ToGuest
                    };
                    ended.push(other);
                    SpliceEvent::CopyEnded(other)
                }
                SpliceAction::Return => break,
                SpliceAction::Nothing => panic!("the relay stalled in {:?}", state),
            };
            let next = state.on_event(event);
            state = next.0;
            action = next.1;
        }
        assert_eq!(state, SpliceState::Finished);
        assert_eq!(shutdowns, 1);
        assert_eq!(ended.len(), 2);
        assert!(ended.contains(&Direction::ToGuest));
        assert!(ended.contains(&Direction::FromGuest));
    }
}

#[test]
fn connection_walks_from_accept_to_close() {
    let p = pool(2);
    let (state, action) = ConnState::accepted().on_event(ConnEvent::Inbound);
    assert!(matches!(state, ConnState::Accepted));
    assert!(matches!(action, ConnAction::AcquireLease));
    let lease = p.lease().unwrap();
    let (state, action) = state.on_event(ConnEvent::LeaseGranted(lease));
    assert!(matches!(&state, ConnState::LeaseAcquired(l) if l.index() == 0));
    assert!(matches!(action, ConnAction::Launch { slot: 0 }));
    let (state, action) = state.on_event(ConnEvent::Launched);
    assert!(matches!(&state, ConnState::Serving(l, ProxyPhase::WaitingGuest) if l.index() == 0));
    assert!(matches!(action, ConnAction::AwaitVmExit));
    let (state, action) = state.on_event(ConnEvent::GuestConnected);
    assert!(matches!(&state, ConnState::Serving(l, ProxyPhase::Proxying) if l.index() == 0));
    assert!(matches!(action, ConnAction::Nothing));
    let (state, action) = state.on_event(ConnEvent::ProxyFinished);
    assert!(matches!(&state, ConnState::Serving(l, ProxyPhase::Finished) if l.index() == 0));
    assert!(matches!(action, ConnAction::Nothing));
    assert_eq!(p.free_mask().bits, 0b10);
    let (state, action) = state.on_event(ConnEvent::VmExited(VmOutcome::Exited(ExitClass::Clean)));
    assert!(matches!(state, ConnState::Released(VmOutcome::Exited(ExitClass::Clean))));
    let lease = match action {
        ConnAction::Release(lease) => lease,
        other => panic!("expected a release, got {:?}", other),
    };
    assert_eq!(lease.index(), 0);
    p.release(lease);
    let (state, action) = state.on_event(ConnEvent::SlotReleased);
    assert!(matches!(state, ConnState::Closed));
    assert!(matches!(action, ConnAction::Finish(VmOutcome::Exited(ExitClass::Clean))));
    assert_eq!(p.free_mask().bits, 0b11);
}

#[test]
fn connection_without_a_slot_is_rejected() {
    let (state, action) = ConnState::accepted().on_event(ConnEvent::LeaseDenied);
    assert!(matches!(state, ConnState::Rejected));
    assert!(matches!(action, ConnAction::CloseInbound));
    let (state, action) = state.on_event(ConnEvent::Launched);
    assert!(matches!(state, ConnState::Rejected));
    assert!(matches!(action, ConnAction::Nothing));
    let (state, action) = state.on_event(ConnEvent::VmExited(VmOutcome::BootFailed));
    assert!(matches!(state, ConnState::Rejected));
    assert!(matches!(action, ConnAction::Nothing));
}

fn serving(p: &VmHandler) -> ConnState {
    let lease = p.lease().unwrap();
    let (state, _) = ConnState::accepted().on_event(ConnEvent::LeaseGranted(lease));
    let (state, _) = state.on_event(ConnEvent::Launched);
    state
}

#[test]
fn only_the_exit_of_the_guest_releases_the_slot() {
    let p = pool(8);
    for (slot, event) in [
        ConnEvent::Inbound,
        ConnEvent::LeaseDenied,
        ConnEvent::Launched,
        ConnEvent::SlotReleased,
    ]
    .into_iter()
    .enumerate()
    {
        let (next, action) = serving(&p).on_event(event);
        assert!(matches!(
            &next,
            ConnState::Serving(l, ProxyPhase::WaitingGuest) if l.index() as usize == slot
        ));
        assert!(matches!(action, ConnAction::Nothing));
    }
    let (next, action) = serving(&p).on_event(ConnEvent::ProxyFinished);
    assert!(matches!(next, ConnState::Serving(_, ProxyPhase::WaitingGuest)));
    assert!(matches!(action, ConnAction::Nothing));
    for outcome in [
        VmOutcome::Exited(ExitClass::Clean),
        VmOutcome::Exited(ExitClass::Abnormal),
        VmOutcome::BootFailed,
    ] {
        let (next, action) = serving(&p).on_event(ConnEvent::VmExited(outcome));
        assert!(matches!(next, ConnState::Released(o) if o == outcome));
        assert!(matches!(action, ConnAction::Release(_)));
    }
}

#[test]
fn a_grant_nobody_asked_for_goes_back() {
    let p = pool(4);
    let held = serving(&p);
    let extra = p.lease().unwrap();
    let extra_index = extra.index();
    let (next, action) = held.on_event(ConnEvent::LeaseGranted(extra));
    assert!(matches!(&next, ConnState::Serving(l, _) if l.index() == 0));
    assert!(matches!(&action, ConnAction::Release(l) if l.index() == extra_index));
    for state in [ConnState::Closed, ConnState::Rejected] {
        let extra = p.lease().unwrap();
        let (next, action) = state.on_event(ConnEvent::LeaseGranted(extra));
        assert!(matches!(next, ConnState::Closed | ConnState::Rejected));
        assert!(matches!(action, ConnAction::Release(_)));
    }
}

#[test]
fn handler_leases_on_inbound_and_releases_on_exit() {
    let p = pool(1);
    let (state, action) = p.handle_tcp_conn(ConnState::accepted(), ConnEvent::Inbound);
    assert!(matches!(&state, ConnState::LeaseAcquired(l) if l.index() == 0));
    assert!(matches!(action, ConnAction::Launch { slot: 0 }));
    assert_eq!(p.free_mask().bits, 0);
    let (state, action) = p.handle_tcp_conn(state, ConnEvent::Launched);
    assert!(matches!(state, ConnState::Serving(_, ProxyPhase::WaitingGuest)));
    assert!(matches!(action, ConnAction::AwaitVmExit));
    assert_eq!(p.free_mask().bits, 0);
    let (state, action) =
        p.handle_tcp_conn(state, ConnEvent::VmExited(VmOutcome::Exited(ExitClass::Abnormal)));
    assert!(matches!(state, ConnState::Closed));
    assert!(matches!(action, ConnAction::Finish(VmOutcome::Exited(ExitClass::Abnormal))));
    assert_eq!(p.free_mask().bits, 1);
    let (state, action) = p.handle_tcp_conn(state, ConnEvent::Inbound);
    assert!(matches!(state, ConnState::Closed));
    assert!(matches!(action, ConnAction::Nothing));
    assert_eq!(p.free_mask().bits, 1);
}

#[test]
fn handler_releases_after_a_failed_boot() {
    let p = pool(1);
    let (state, _) = p.handle_tcp_conn(ConnState::accepted(), ConnEvent::Inbound);
    let (state, _) = p.handle_tcp_conn(state, ConnEvent::Launched);
    let (state, action) = p.handle_tcp_conn(state, ConnEvent::VmExited(VmOutcome::BootFailed));
    assert!(matches!(state, ConnState::Closed));
    assert!(matches!(action, ConnAction::Finish(VmOutcome::BootFailed)));
    assert_eq!(p.free_mask().bits, 1);
}

#[test]
fn handler_gives_back_a_grant_nobody_asked_for() {
    let p = pool(2);
    let state = serving(&p);
    let extra = p.lease().unwrap();
    assert_eq!(p.free_mask().bits, 0);
    let (state, action) = p.handle_tcp_conn(state, ConnEvent::LeaseGranted(extra));
    assert!(matches!(&state, ConnState::Serving(l, _) if l.index() == 0));
    assert!(matches!(action, ConnAction::Nothing));
    assert_eq!(p.free_mask().bits, 0b10);
}

#[test]
fn the_slot_goes_back_while_the_proxy_still_copies() {
    let p = pool(1);
    let (state, _) = p.handle_tcp_conn(serving(&p), ConnEvent::GuestConnected);
    assert!(matches!(state, ConnState::Serving(_, ProxyPhase::Proxying)));
    assert_eq!(p.free_mask().bits, 0);
    let (state, action) =
        p.handle_tcp_conn(state, ConnEvent::VmExited(VmOutcome::Exited(ExitClass::Clean)));
    assert!(matches!(state, ConnState::Closed));
    assert!(matches!(action, ConnAction::Finish(_)));
    assert_eq!(p.free_mask().bits, 1);
    let (state, action) = p.handle_tcp_conn(state, ConnEvent::ProxyFinished);
    assert!(matches!(state, ConnState::Closed));
    assert!(matches!(action, ConnAction::Nothing));
    assert_eq!(p.free_mask().bits, 1);
}

#[test]
fn the_slot_stays_held_after_the_proxy_has_ended() {
    let p = pool(1);
    let (state, _) = p.handle_tcp_conn(serving(&p), ConnEvent::GuestConnected);
    let (state, action) = p.handle_tcp_conn(state, ConnEvent::ProxyFinished);
    assert!(matches!(state, ConnState::Serving(_, ProxyPhase::Finished)));
    assert!(matches!(action, ConnAction::Nothing));
    assert_eq!(p.free_mask().bits, 0);
    assert!(p.lease().is_err());
    let (state, _) = p.handle_tcp_conn(state, ConnEvent::VmExited(VmOutcome::BootFailed));
    assert!(matches!(state, ConnState::Closed));
    assert_eq!(p.free_mask().bits, 1);
}

/// Runs one connection up to the point where its guest is running.
fn arrive(p: &VmHandler) -> Result<(ConnState, u8), ConnState> {
    let (state, action) = p.handle_tcp_conn(ConnState::accepted(), ConnEvent::Inbound);
    match action {
        ConnAction::Launch { slot } => {
            let (state, action) = p.handle_tcp_conn(state, ConnEvent::Launched);
            assert!(matches!(action, ConnAction::AwaitVmExit));
            Ok((state, slot))
        }
        ConnAction::CloseInbound => Err(state),
        other => panic!("unexpected first action {:?}", other),
    }
}

#[test]
fn three_connections_on_two_slots() {
    let p = pool(2);
    let first = arrive(&p);
    let second = arrive(&p);
    let third = arrive(&p);
    let (a, slot_a) = first.unwrap();
    let (b, slot_b) = second.unwrap();
    assert_ne!(slot_a, slot_b);
    assert!(slot_a < 2 && slot_b < 2);
    assert!(matches!(third, Err(ConnState::Rejected)));
    assert_eq!(p.free_mask().bits, 0);

    let (a, done_a) = p.handle_tcp_conn(a, ConnEvent::VmExited(VmOutcome::Exited(ExitClass::Clean)));
    assert!(matches!(a, ConnState::Closed));
    assert!(matches!(done_a, ConnAction::Finish(VmOutcome::Exited(ExitClass::Clean))));
    let (b, done_b) = p.handle_tcp_conn(b, ConnEvent::VmExited(VmOutcome::Exited(ExitClass::Clean)));
    assert!(matches!(b, ConnState::Closed));
    assert!(matches!(done_b, ConnAction::Finish(_)));
    assert_eq!(p.free_mask().bits, 0b11);

    let (fourth, slot) = arrive(&p).unwrap();
    assert_eq!(slot, 0);
    assert!(matches!(fourth, ConnState::Serving(_, ProxyPhase::WaitingGuest)));
}

/// Drives the set-up of a pool and writes down what it asks for. The step
/// numbered `fail_at`, if any, fails.
fn provision(capacity: u8, fail_at: Option<usize>) -> (ProvisionState, Vec<ProvisionAction>) {
    let mut asked = Vec::new();
    let (mut state, mut action) = ProvisionState::Idle.on_event(capacity, ProvisionEvent::Start);
    loop {
        asked.push(action);
        let event = match action {
            ProvisionAction::Accept | ProvisionAction::Abort => return (state, asked),
            ProvisionAction::Nothing => panic!("the set-up stalled in {:?}", state),
            _ if fail_at == Some(asked.len() - 1) => ProvisionEvent::Failed,
            _ => ProvisionEvent::Succeeded,
        };
        let next = state.on_event(capacity, event);
        state = next.0;
        action = next.1;
    }
}

#[test]
fn provisioning_goes_through_the_slots_in_order() {
    let (state, asked) = provision(3, None);
    assert_eq!(state, ProvisionState::Ready);
    assert_eq!(
        asked,
        vec![
            ProvisionAction::CreateInterface { slot: 0 },
            ProvisionAction::BindStaticArp { slot: 0 },
            ProvisionAction::CreateInterface { slot: 1 },
            ProvisionAction::BindStaticArp { slot: 1 },
            ProvisionAction::CreateInterface { slot: 2 },
            ProvisionAction::BindStaticArp { slot: 2 },
            ProvisionAction::Settle { ms: 1100 },
            ProvisionAction::Accept,
        ]
    );
    let (state, asked) = provision(63, None);
    assert_eq!(state, ProvisionState::Ready);
    assert_eq!(asked.len(), 2 * 63 + 2);
    assert_eq!(asked[124], ProvisionAction::CreateInterface { slot: 62 });
    assert_eq!(asked[125], ProvisionAction::BindStaticArp { slot: 62 });
}

#[test]
fn provisioning_of_an_empty_pool_only_settles() {
    let (state, asked) = provision(0, None);
    assert_eq!(state, ProvisionState::Ready);
    assert_eq!(
        asked,
        vec![ProvisionAction::Settle { ms: 1100 }, ProvisionAction::Accept]
    );
}

#[test]
fn provisioning_stops_at_the_first_failure() {
    for fail_at in 0..6 {
        let (state, asked) = provision(3, Some(fail_at));
        assert_eq!(state, ProvisionState::Failed);
        assert_eq!(asked.len(), fail_at + 2);
        assert_eq!(asked[fail_at + 1], ProvisionAction::Abort);
        assert!(!asked.contains(&ProvisionAction::Accept));
        assert!(!asked.contains(&ProvisionAction::Settle { ms: 1100 }));
    }
    for event in [
        ProvisionEvent::Start,
        ProvisionEvent::Succeeded,
        ProvisionEvent::Failed,
    ] {
        assert_eq!(
            ProvisionState::Failed.on_event(3, event),
            (ProvisionState::Failed, ProvisionAction::Nothing)
        );
        assert_eq!(
            ProvisionState::Ready.on_event(3, event),
            (ProvisionState::Ready, ProvisionAction::Nothing)
        );
    }
}
