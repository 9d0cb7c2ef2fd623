use vector_app::pty_actor::{backoff_delay_secs, step, PaneActorAction, PaneActorEvent, PaneActorState};

#[test]
fn backoff_schedule_doubles_then_caps_at_30() {
    let got: Vec<u64> = (1..=9).map(backoff_delay_secs).collect();
    assert_eq!(got, vec![1, 2, 4, 8, 16, 30, 30, 30, 30]);
    assert_eq!(backoff_delay_secs(u32::MAX), 30);
}

#[test]
fn transport_death_starts_reconnecting_at_attempt_one() {
    let (s, a) = step(PaneActorState::Active, PaneActorEvent::TransportDead);
    assert_eq!(s, PaneActorState::Reconnecting { attempt: 1 });
    assert_eq!(a, PaneActorAction::TryReconnect { attempt: 1 });
}

#[test]
fn failed_attempts_wait_then_retry_with_next_number() {
    let mut state = PaneActorState::Reconnecting { attempt: 1 };
    let mut waits = Vec::new();
    for expected_next in 2..=7u32 {
        let (s, a) = step(state, PaneActorEvent::ReconnectFailed);
        if let PaneActorAction::Wait { secs } = a {
            waits.push(secs);
        } else {
            panic!("expected a wait, got {a:?}");
        }
        let (s2, a2) = step(s, PaneActorEvent::BackoffElapsed);
        assert_eq!(a2, PaneActorAction::TryReconnect { attempt: expected_next });
        state = s2;
    }
    assert_eq!(waits, vec![1, 2, 4, 8, 16, 30]);
}

#[test]
fn success_swaps_and_returns_to_active() {
    let (s, a) = step(PaneActorState::Reconnecting { attempt: 4 }, PaneActorEvent::ReconnectSucceeded);
    assert_eq!(s, PaneActorState::Active);
    assert_eq!(a, PaneActorAction::SwapTransport);
}

#[test]
fn cancel_exits_from_every_live_state_and_exited_is_final() {
    for st in [PaneActorState::Active, PaneActorState::Reconnecting { attempt: 3 }] {
        assert_eq!(step(st, PaneActorEvent::Cancelled), (PaneActorState::Exited, PaneActorAction::Exit));
    }
    assert_eq!(
        step(PaneActorState::Reconnecting { attempt: 1 }, PaneActorEvent::ReconnectGaveUp),
        (PaneActorState::Exited, PaneActorAction::Exit)
    );
    for ev in [PaneActorEvent::Cancelled, PaneActorEvent::TransportDead, PaneActorEvent::ReconnectSucceeded] {
        assert_eq!(step(PaneActorState::Exited, ev), (PaneActorState::Exited, PaneActorAction::Idle));
    }
}

#[test]
fn attempt_counter_saturates() {
    let (s, a) = step(PaneActorState::Reconnecting { attempt: u32::MAX }, PaneActorEvent::BackoffElapsed);
    assert_eq!(s, PaneActorState::Reconnecting { attempt: u32::MAX });
    assert_eq!(a, PaneActorAction::TryReconnect { attempt: u32::MAX });
}
