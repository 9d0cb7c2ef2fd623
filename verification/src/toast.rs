//! Toast banner state machine. Info toasts are 36 px tall and dismiss
//! themselves 5 s after they were shown; action toasts are 56 px tall and
//! stay until dismissed. At most one toast is visible: a new one replaces
//! the old one.
//!
//! Times are milliseconds on the caller's monotonic clock.

use vstd::prelude::*;
use vstd::string::*;

verus! {

/// How long an info toast stays up, in milliseconds.
pub const INFO_DISMISS_AFTER_MS: u64 = 5000;
/// Height of an info toast, in pixels.
pub const INFO_HEIGHT_PX: u32 = 36;
/// Height of an action toast, in pixels.
pub const ACTION_HEIGHT_PX: u32 = 56;

#[derive(Debug, Clone, PartialEq, Eq)]
pub enum ToastMode {
    Info,
    Action { buttons: Vec<String> },
}

#[derive(Debug, Clone)]
pub struct ToastBanner {
    pub text: String,
    pub mode: ToastMode,
    /// When the toast was shown (ms).
    pub shown_at_ms: u64,
    pub focused_button: usize,
}

/// An info toast shown at `now` has aged out at `now2` once 5 s have passed.
pub open spec fn auto_dismiss_due(t: ToastBanner, now_ms: int) -> bool {
    &&& t.mode is Info
    &&& now_ms - t.shown_at_ms >= INFO_DISMISS_AFTER_MS
}

impl ToastBanner {
    /// An info toast with `text`, shown at `now_ms`.
    pub fn info(text: &str, now_ms: u64) -> (t: Self)
        ensures
            t.text@ == text@,
            t.mode is Info,
            t.shown_at_ms == now_ms,
            t.focused_button == 0,
    {
        ToastBanner {
            text: String::from_str(text),
            mode: ToastMode::Info,
            shown_at_ms: now_ms,
            focused_button: 0,
        }
    }

    /// An action toast with `text` and `buttons`, shown at `now_ms`.
    pub fn action(text: &str, buttons: Vec<String>, now_ms: u64) -> (t: Self)
        ensures
            t.text@ == text@,
            t.mode == (ToastMode::Action { buttons }),
            t.shown_at_ms == now_ms,
            t.focused_button == 0,
    {
        ToastBanner {
            text: String::from_str(text),
            mode: ToastMode::Action { buttons },
            shown_at_ms: now_ms,
            focused_button: 0,
        }
    }

    /// Whether an info toast has been up for at least 5 s at `now_ms`
    /// (a `now_ms` before `shown_at_ms` counts as no time elapsed).
    pub fn should_auto_dismiss(&self, now_ms: u64) -> (b: bool)
        ensures
            b == auto_dismiss_due(*self, now_ms as int),
    {
        match self.mode {
            ToastMode::Info => now_ms >= self.shown_at_ms && now_ms - self.shown_at_ms >= INFO_DISMISS_AFTER_MS,
            ToastMode::Action { .. } => false,
        }
    }

    /// Banner height: 36 px for info, 56 px for action.
    pub fn height_px(&self) -> (h: u32)
        ensures
            h == (if self.mode is Info { INFO_HEIGHT_PX } else { ACTION_HEIGHT_PX }),
    {
        match self.mode {
            ToastMode::Info => INFO_HEIGHT_PX,
            ToastMode::Action { .. } => ACTION_HEIGHT_PX,
        }
    }
}

/// At most one toast visible. New replaces old.
pub struct ToastStack {
    current: Option<ToastBanner>,
}

impl View for ToastStack {
    type V = Option<ToastBanner>;

    closed spec fn view(&self) -> Option<ToastBanner> {
        self.current
    }
}

impl Default for ToastStack {
    fn default() -> (s: Self)
        ensures
            s@ is None,
    {
        ToastStack::new()
    }
}

impl ToastStack {
    /// An empty stack.
    pub fn new() -> (s: Self)
        ensures
            s@ is None,
    {
        ToastStack { current: None }
    }

    /// Shows `t`, replacing whatever toast was up.
    pub fn show(&mut self, t: ToastBanner)
        ensures
            final(self)@ == Some(t),
    {
        self.current = Some(t);
    }

    /// Removes the visible toast, if any.
    pub fn dismiss(&mut self)
        ensures
            final(self)@ is None,
    {
        self.current = None;
    }

    /// Drops the visible toast if it is an info toast that has aged out.
    pub fn tick(&mut self, now_ms: u64)
        ensures
            final(self)@ == (match old(self)@ {
                Some(t) => if auto_dismiss_due(t, now_ms as int) { None } else { Some(t) },
                None => None,
            }),
    {
        let due = match &self.current {
            Some(t) => t.should_auto_dismiss(now_ms),
            None => false,
        };
        if due {
            self.current = None;
        }
    }

    /// The visible toast.
    pub fn current(&self) -> (c: Option<&ToastBanner>)
        ensures
            c == match self@ {
                Some(t) => Some(&t),
                None => None::<&ToastBanner>,
            },
    {
        self.current.as_ref()
    }
}

/// Toast lifetimes: an action toast is never aged out, whatever the time;
/// an info toast is aged out exactly from 5 s after it was shown.
pub proof fn lemma_toast_lifetimes(t: ToastBanner, now_ms: int)
    ensures
        t.mode is Action ==> !auto_dismiss_due(t, now_ms),
        t.mode is Info ==> (auto_dismiss_due(t, now_ms) <==> now_ms >= t.shown_at_ms + INFO_DISMISS_AFTER_MS),
{
}

} // verus!
