//! Per-pane PTY actor decisions: Active -> Reconnecting -> Active when a
//! remote transport drops, with exponential backoff (1, 2, 4, 8, 16 s, then
//! 30 s for every further attempt). The async loop that performs the I/O
//! lives in the app and asks [`step`] what to do next.

use vstd::prelude::*;

verus! {

/// Longest wait between reconnect attempts, in seconds.
pub const BACKOFF_CAP_SECS: u64 = 30;

/// Wait after the failed reconnect attempt number `attempt` (1-based).
pub open spec fn backoff_spec(attempt: int) -> u64 {
    if attempt <= 1 { 1 }
    else if attempt == 2 { 2 }
    else if attempt == 3 { 4 }
    else if attempt == 4 { 8 }
    else if attempt == 5 { 16 }
    else { BACKOFF_CAP_SECS }
}

/// Seconds to wait after failed attempt `attempt` before the next one.
pub fn backoff_delay_secs(attempt: u32) -> (secs: u64)
    requires
        attempt >= 1,
    ensures
        secs == backoff_spec(attempt as int),
{
    let idx = attempt - 1;
    if idx == 0 { 1 }
    else if idx == 1 { 2 }
    else if idx == 2 { 4 }
    else if idx == 3 { 8 }
    else if idx == 4 { 16 }
    else { BACKOFF_CAP_SECS }
}

/// Waits never shrink from one attempt to the next and never exceed 30 s.
pub proof fn lemma_backoff_monotone_capped(a: int, b: int)
    requires
        1 <= a <= b,
    ensures
        backoff_spec(a) <= backoff_spec(b),
        backoff_spec(b) <= BACKOFF_CAP_SECS,
        1 <= backoff_spec(a),
{
}

/// Where a pane's actor is.
#[derive(Debug, Clone, Copy, PartialEq, Eq, Structural)]
pub enum PaneActorState {
    /// Pumping bytes over a live transport.
    Active,
    /// The transport dropped; `attempt` is the current reconnect attempt.
    Reconnecting { attempt: u32 },
    /// The actor has finished.
    Exited,
}

/// What happened to the actor.
#[derive(Debug, Clone, Copy, PartialEq, Eq, Structural)]
pub enum PaneActorEvent {
    /// The pane was closed (cancel token fired) or its input channels closed.
    Cancelled,
    /// The transport's reader ended.
    TransportDead,
    /// A reconnect attempt produced a fresh transport.
    ReconnectSucceeded,
    /// The domain said the pane cannot come back (a local shell that exited).
    ReconnectGaveUp,
    /// A reconnect attempt failed.
    ReconnectFailed,
    /// The backoff wait after a failed attempt ran out.
    BackoffElapsed,
}

/// What the actor loop must do next.
#[derive(Debug, Clone, Copy, PartialEq, Eq, Structural)]
pub enum PaneActorAction {
    /// Nothing.
    Idle,
    /// Announce reconnect attempt `attempt` (PaneReconnecting) and try it.
    TryReconnect { attempt: u32 },
    /// Wait `secs` seconds (abandoning the wait if the pane is closed).
    Wait { secs: u64 },
    /// Install the fresh transport and announce PaneReconnected.
    SwapTransport,
    /// Announce PaneExited and stop.
    Exit,
}

/// The transition table of the pane actor.
pub open spec fn step_spec(state: PaneActorState, event: PaneActorEvent) -> (PaneActorState, PaneActorAction) {
    match state {
        PaneActorState::Exited => (state, PaneActorAction::Idle),
        PaneActorState::Active => match event {
            PaneActorEvent::Cancelled => (PaneActorState::Exited, PaneActorAction::Exit),
            PaneActorEvent::TransportDead => (
                PaneActorState::Reconnecting { attempt: 1 },
                PaneActorAction::TryReconnect { attempt: 1 },
            ),
            _ => (state, PaneActorAction::Idle),
        },
        PaneActorState::Reconnecting { attempt } => match event {
            PaneActorEvent::Cancelled => (PaneActorState::Exited, PaneActorAction::Exit),
            PaneActorEvent::ReconnectSucceeded => (PaneActorState::Active, PaneActorAction::SwapTransport),
            PaneActorEvent::ReconnectGaveUp => (PaneActorState::Exited, PaneActorAction::Exit),
            PaneActorEvent::ReconnectFailed => (state, PaneActorAction::Wait { secs: backoff_spec(attempt as int) }),
            PaneActorEvent::BackoffElapsed => {
                let next: u32 = if attempt == u32::MAX { u32::MAX } else { (attempt + 1) as u32 };
                (PaneActorState::Reconnecting { attempt: next }, PaneActorAction::TryReconnect { attempt: next })
            },
            PaneActorEvent::TransportDead => (state, PaneActorAction::Idle),
        },
    }
}

/// A well-formed actor state: reconnect attempts count from 1.
pub open spec fn state_ok(state: PaneActorState) -> bool {
    match state {
        PaneActorState::Reconnecting { attempt } => attempt >= 1,
        _ => true,
    }
}

/// The next state and action for `event` in `state`.
pub fn step(state: PaneActorState, event: PaneActorEvent) -> (r: (PaneActorState, PaneActorAction))
    requires
        state_ok(state),
    ensures
        r == step_spec(state, event),
        state_ok(r.0),
{
    match state {
        PaneActorState::Exited => (state, PaneActorAction::Idle),
        PaneActorState::Active => match event {
            PaneActorEvent::Cancelled => (PaneActorState::Exited, PaneActorAction::Exit),
            PaneActorEvent::TransportDead => (
                PaneActorState::Reconnecting { attempt: 1 },
                PaneActorAction::TryReconnect { attempt: 1 },
            ),
            _ => (state, PaneActorAction::Idle),
        },
        PaneActorState::Reconnecting { attempt } => match event {
            PaneActorEvent::Cancelled => (PaneActorState::Exited, PaneActorAction::Exit),
            PaneActorEvent::ReconnectSucceeded => (PaneActorState::Active, PaneActorAction::SwapTransport),
            PaneActorEvent::ReconnectGaveUp => (PaneActorState::Exited, PaneActorAction::Exit),
            PaneActorEvent::ReconnectFailed => (state, PaneActorAction::Wait { secs: backoff_delay_secs(attempt) }),
            PaneActorEvent::BackoffElapsed => {
                let next = attempt.saturating_add(1);
                (PaneActorState::Reconnecting { attempt: next }, PaneActorAction::TryReconnect { attempt: next })
            },
            PaneActorEvent::TransportDead => (state, PaneActorAction::Idle),
        },
    }
}

/// Once exited, the actor stays exited and does nothing, whatever happens.
pub proof fn lemma_exited_is_final(event: PaneActorEvent)
    ensures
        step_spec(PaneActorState::Exited, event) == (PaneActorState::Exited, PaneActorAction::Idle),
{
}

/// Closing the pane ends the actor from any live state, at once.
pub proof fn lemma_cancel_always_exits(state: PaneActorState)
    requires
        state != PaneActorState::Exited,
    ensures
        step_spec(state, PaneActorEvent::Cancelled) == (PaneActorState::Exited, PaneActorAction::Exit),
{
}

/// Each further reconnect attempt after a failed one carries the next
/// number (until the counter saturates), and the wait before it follows the
/// backoff schedule.
pub proof fn lemma_retry_counts_up(attempt: u32)
    requires
        1 <= attempt < u32::MAX,
    ensures
        step_spec(PaneActorState::Reconnecting { attempt }, PaneActorEvent::ReconnectFailed).1
            == (PaneActorAction::Wait { secs: backoff_spec(attempt as int) }),
        step_spec(PaneActorState::Reconnecting { attempt }, PaneActorEvent::BackoffElapsed)
            == (PaneActorState::Reconnecting { attempt: (attempt + 1) as u32 },
                PaneActorAction::TryReconnect { attempt: (attempt + 1) as u32 }),
{
}

/// The schedule doubles from 1 s up to 16 s and then stays at 30 s.
pub proof fn lemma_backoff_doubles_then_caps(a: int)
    requires
        a >= 1,
    ensures
        a <= 4 ==> backoff_spec(a + 1) == 2 * backoff_spec(a),
        a >= 5 ==> backoff_spec(a + 1) == BACKOFF_CAP_SECS,
        backoff_spec(1) == 1,
{
}

/// A live actor stops only when the pane is closed or the domain says the
/// pane cannot come back; a dead transport or a failed attempt never ends it.
pub proof fn lemma_exit_only_on_cancel_or_give_up(state: PaneActorState, event: PaneActorEvent)
    requires
        state != PaneActorState::Exited,
        step_spec(state, event).0 == PaneActorState::Exited,
    ensures
        event == PaneActorEvent::Cancelled || event == PaneActorEvent::ReconnectGaveUp,
        step_spec(state, event).1 == PaneActorAction::Exit,
{
}

} // verus!
