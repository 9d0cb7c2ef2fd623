//! Cmd-click on an OSC 8 hyperlink: open it when its scheme is allowed,
//! otherwise explain with a toast.

use vstd::prelude::*;
use vstd::string::*;
use crate::toast::{ToastBanner, ToastStack};

verus! {

/// The notice shown when a link's scheme is refused, verbatim.
pub const DISALLOWED_SCHEME_TOAST: &'static str = "vector only opens http and https links";

#[derive(Debug, Clone, PartialEq, Eq)]
pub enum DispatchAction {
    OpenUrl(String),
    NoAction,
}

/// Routes a Cmd-click on `url` whose scheme the terminal's allowlist
/// accepts (`scheme_allowed`) or not: accepted links are opened and the
/// toasts are left alone; refused ones open nothing and show the refusal
/// notice at `now_ms`.
pub fn dispatch_cmd_click(url: &str, scheme_allowed: bool, toasts: &mut ToastStack, now_ms: u64) -> (a: DispatchAction)
    ensures
        scheme_allowed ==> (a matches DispatchAction::OpenUrl(u) && u@ == url@),
        scheme_allowed ==> final(toasts)@ == old(toasts)@,
        !scheme_allowed ==> a is NoAction,
        !scheme_allowed ==> (final(toasts)@ matches Some(t) && t.text@ == DISALLOWED_SCHEME_TOAST@
            && t.mode is Info && t.shown_at_ms == now_ms),
{
    if scheme_allowed {
        DispatchAction::OpenUrl(String::from_str(url))
    } else {
        toasts.show(ToastBanner::info(DISALLOWED_SCHEME_TOAST, now_ms));
        DispatchAction::NoAction
    }
}

} // verus!
