//! OSC 52 clipboard writes: the active profile's policy decides whether the
//! text goes straight to the pasteboard, is refused with a notice, or needs
//! the user's answer (an action toast). Reads are always denied.

use vstd::prelude::*;
use vstd::string::*;
use crate::config::ClipboardPolicy;
use crate::toast::{ToastBanner, ToastMode};

verus! {

/// Which pasteboard an OSC 52 write targets.
#[derive(Debug, Clone, Copy, PartialEq, Eq, Structural)]
pub enum ClipboardType {
    Clipboard,
    Selection,
}

/// A clipboard request from a pane.
#[derive(Debug, Clone)]
pub enum ClipboardEvent {
    Store(ClipboardType, String),
    LoadDenied,
}

/// What the caller must do with a clipboard request.
#[derive(Debug, Clone)]
pub enum ClipboardAction {
    WritePasteboard(String),
    ShowPrompt(ToastBanner),
    DenyRead,
}

/// The store event for a write to the selection (`true`) or the clipboard.
pub fn make_store_event(kind_is_selection: bool, data: String) -> (e: ClipboardEvent)
    ensures
        e == ClipboardEvent::Store(
            if kind_is_selection { ClipboardType::Selection } else { ClipboardType::Clipboard },
            data,
        ),
{
    ClipboardEvent::Store(
        if kind_is_selection { ClipboardType::Selection } else { ClipboardType::Clipboard },
        data,
    )
}

/// Routes clipboard requests by the active profile's policy.
pub struct ClipboardRouter {
    pub active_profile: String,
    /// `None` means: ask the user.
    pub policy: Option<ClipboardPolicy>,
}

/// Text of the notice for a refused write.
pub open spec fn blocked_text(profile: Seq<char>) -> Seq<char> {
    "clipboard write from "@ + profile + " blocked"@
}

/// Text of the question for a write that needs the user's answer.
pub open spec fn prompt_text(profile: Seq<char>, process: Seq<char>) -> Seq<char> {
    "allow \""@ + profile + " : "@ + process + "\" to write to your clipboard?"@
}

/// The three answers offered, in order.
pub open spec fn prompt_buttons_ok(buttons: Seq<String>) -> bool {
    &&& buttons.len() == 3
    &&& buttons[0]@ == "allow once"@
    &&& buttons[1]@ == "always"@
    &&& buttons[2]@ == "block"@
}

/// `action` is the right answer to `event` under `policy`, for a write from
/// `process` in `profile`, decided at `now_ms`.
pub open spec fn routed(
    policy: Option<ClipboardPolicy>,
    profile: Seq<char>,
    process: Seq<char>,
    now_ms: u64,
    event: ClipboardEvent,
    action: ClipboardAction,
) -> bool {
    match event {
        ClipboardEvent::Store(_, data) => match policy {
            Some(ClipboardPolicy::Allow) => action == ClipboardAction::WritePasteboard(data),
            Some(ClipboardPolicy::Block) => match action {
                ClipboardAction::ShowPrompt(t) => {
                    &&& t.text@ == blocked_text(profile)
                    &&& t.mode is Info
                    &&& t.shown_at_ms == now_ms
                    &&& t.focused_button == 0
                },
                _ => false,
            },
            None => match action {
                ClipboardAction::ShowPrompt(t) => {
                    &&& t.text@ == prompt_text(profile, process)
                    &&& t.mode matches ToastMode::Action { buttons } && prompt_buttons_ok(buttons@)
                    &&& t.shown_at_ms == now_ms
                    &&& t.focused_button == 0
                },
                _ => false,
            },
        },
        ClipboardEvent::LoadDenied => action is DenyRead,
    }
}

impl ClipboardRouter {
    /// Decides what to do with `event`, a request from `foreground_process`,
    /// at `now_ms`: allowed writes go to the pasteboard, blocked writes show
    /// an info toast, unanswered ones an action toast with "allow once",
    /// "always" and "block"; reads are denied.
    pub fn handle(&self, event: ClipboardEvent, foreground_process: &str, now_ms: u64) -> (a: ClipboardAction)
        ensures
            routed(self.policy, self.active_profile@, foreground_process@, now_ms, event, a),
    {
        match event {
            ClipboardEvent::Store(_kind, data) => match self.policy {
                Some(ClipboardPolicy::Allow) => ClipboardAction::WritePasteboard(data),
                Some(ClipboardPolicy::Block) => {
                    let mut text = String::from_str("clipboard write from ");
                    text.append(self.active_profile.as_str());
                    text.append(" blocked");
                    ClipboardAction::ShowPrompt(ToastBanner::info(text.as_str(), now_ms))
                },
                None => {
                    let mut text = String::from_str("allow \"");
                    text.append(self.active_profile.as_str());
                    text.append(" : ");
                    text.append(foreground_process);
                    text.append("\" to write to your clipboard?");
                    let mut buttons: Vec<String> = Vec::new();
                    buttons.push(String::from_str("allow once"));
                    buttons.push(String::from_str("always"));
                    buttons.push(String::from_str("block"));
                    ClipboardAction::ShowPrompt(ToastBanner::action(text.as_str(), buttons, now_ms))
                },
            },
            ClipboardEvent::LoadDenied => ClipboardAction::DenyRead,
        }
    }
}

/// Which pasteboard a write targets never changes the decision: both
/// targets get the same answer, and under `Allow` every write goes to the
/// pasteboard with its data unchanged.
pub proof fn lemma_store_target_irrelevant(
    policy: Option<ClipboardPolicy>,
    profile: Seq<char>,
    process: Seq<char>,
    now_ms: u64,
    kind: ClipboardType,
    data: String,
    action: ClipboardAction,
)
    ensures
        routed(policy, profile, process, now_ms, ClipboardEvent::Store(ClipboardType::Clipboard, data), action)
            <==> routed(policy, profile, process, now_ms, ClipboardEvent::Store(ClipboardType::Selection, data), action),
        routed(Some(ClipboardPolicy::Allow), profile, process, now_ms, ClipboardEvent::Store(kind, data), action)
            <==> action == ClipboardAction::WritePasteboard(data),
        policy != Some(ClipboardPolicy::Allow) && routed(policy, profile, process, now_ms, ClipboardEvent::Store(kind, data), action)
            ==> action is ShowPrompt,
{
}

} // verus!
