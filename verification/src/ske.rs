//! Secure Keyboard Entry guard. The secure-input switch is process-wide on
//! macOS; leaving it on strands other apps' keyboards until logout, so it
//! must be turned off on every path out.
//!
//! The guard decides; the app makes the Carbon call each operation returns
//! (`EnableSecureEventInput` / `DisableSecureEventInput`) and disables the
//! guard when it is dropped. The guard asks for a call exactly on the
//! off-to-on and on-to-off transitions.

use vstd::prelude::*;

verus! {

/// A call to make on the process-level secure-input switch.
#[derive(Debug, Clone, Copy, PartialEq, Eq, Structural)]
pub enum SecureInputCall {
    Enable,
    Disable,
}

/// The call a guard going from `was_on` to `now_on` asks for: none when the
/// state stays, `Enable` when it turns on, `Disable` when it turns off.
pub open spec fn transition_call(was_on: bool, now_on: bool) -> Option<SecureInputCall> {
    if was_on == now_on {
        None
    } else if now_on {
        Some(SecureInputCall::Enable)
    } else {
        Some(SecureInputCall::Disable)
    }
}

/// Whether secure input is held on.
pub struct SecureInputGuard {
    enabled: bool,
}

impl SecureInputGuard {
    /// Whether the guard holds secure input on.
    pub closed spec fn on(&self) -> bool {
        self.enabled
    }

    /// A guard that has not turned secure input on.
    pub fn new() -> (g: Self)
        ensures
            !g.on(),
    {
        SecureInputGuard { enabled: false }
    }

    /// Turns secure input on; asks for `Enable` only if it was off.
    pub fn enable(&mut self) -> (call: Option<SecureInputCall>)
        ensures
            final(self).on(),
            call == transition_call(old(self).on(), true),
    {
        if self.enabled {
            None
        } else {
            self.enabled = true;
            Some(SecureInputCall::Enable)
        }
    }

    /// Turns secure input off; asks for `Disable` only if it was on. This is
    /// also what dropping the guard does.
    pub fn disable(&mut self) -> (call: Option<SecureInputCall>)
        ensures
            !final(self).on(),
            call == transition_call(old(self).on(), false),
    {
        if self.enabled {
            self.enabled = false;
            Some(SecureInputCall::Disable)
        } else {
            None
        }
    }

    /// Whether the guard holds secure input on.
    pub fn is_enabled(&self) -> (b: bool)
        ensures
            b == self.on(),
    {
        self.enabled
    }

    /// Flips secure input; returns the new state and the one call it needs.
    pub fn toggle(&mut self) -> (r: (bool, SecureInputCall))
        ensures
            r.0 == !old(self).on(),
            final(self).on() == r.0,
            Some(r.1) == transition_call(old(self).on(), r.0),
    {
        if self.enabled {
            self.enabled = false;
            (false, SecureInputCall::Disable)
        } else {
            self.enabled = true;
            (true, SecureInputCall::Enable)
        }
    }
}

/// How many times `c` occurs among the calls made.
pub open spec fn call_count(calls: Seq<Option<SecureInputCall>>, c: SecureInputCall) -> nat
    decreases calls.len(),
{
    if calls.len() == 0 {
        0
    } else {
        call_count(calls.drop_last(), c) + (if calls.last() == Some(c) { 1nat } else { 0nat })
    }
}

/// Over any run of guard operations from a fresh guard (states `ons`, the
/// call of step `i` leading from `ons[i]` to `ons[i + 1]`), enable and
/// disable calls alternate: secure input was turned on once more than off
/// while the guard is on, and as often as off once it is off, so an off
/// guard has released everything it turned on.
pub proof fn lemma_calls_balance(ons: Seq<bool>, calls: Seq<Option<SecureInputCall>>)
    requires
        ons.len() == calls.len() + 1,
        !ons[0],
        forall|i: int| 0 <= i < calls.len() ==> #[trigger] calls[i] == transition_call(ons[i], ons[i + 1]),
    ensures
        call_count(calls, SecureInputCall::Enable)
            == call_count(calls, SecureInputCall::Disable) + (if ons.last() { 1nat } else { 0nat }),
    decreases calls.len(),
{
    if calls.len() > 0 {
        let n = calls.len() - 1;
        lemma_calls_balance(ons.drop_last(), calls.drop_last());
        assert(calls[n] == transition_call(ons[n], ons[n + 1]));
    }
}

/// Toggling twice returns to the starting state with one call each way.
pub proof fn lemma_toggle_twice(a: bool, b: bool, c: bool)
    requires
        b == !a,
        c == !b,
    ensures
        c == a,
        transition_call(a, b) != transition_call(b, c),
        transition_call(a, b) is Some && transition_call(b, c) is Some,
{
}

} // verus!
