//! The shell's window-independent state and the decisions made on its
//! events: toasts, the search bar, the profile picker, clipboard routing,
//! per-pane reconnect bookkeeping (the input lock, the one-shot "input
//! ignored" toast, the tab badge, the inline status bar) and which chrome
//! surfaces a frame draws. The winit / AppKit / wgpu handler that feeds it
//! lives in the app.
//!
//! Pane ids are the multiplexer's numeric ids; times are milliseconds on
//! the caller's monotonic clock.

use vstd::prelude::*;
use vstd::string::*;
use std::collections::{HashMap, HashSet};
use crate::clipboard_router::{ClipboardAction, ClipboardRouter, make_store_event};
use crate::config::{profile_named, find_profile, Kind, ProfileEntry};
use crate::profile_picker::{all_indices, PickerEntry, ProfilePicker};
use crate::search_bar::{closed_from, opened_with, SearchBar, SelectionRange};
use crate::tint::{parse_hex_rgb, tint_spec};
use crate::toast::{ToastBanner, ToastStack};

verus! {

broadcast use vstd::std_specs::hash::group_hash_axioms;

/// Before a reconnecting pane shows its status bar it must have been
/// reconnecting this long (ms).
pub const RECONNECT_DEBOUNCE_MS: u64 = 250;

/// Per-pane reconnect bookkeeping for the inline status bar.
#[derive(Debug)]
pub struct ReconnectingState {
    pub profile_label: String,
    pub attempt: u32,
    pub started_at_ms: u64,
    pub fade_in_started_at_ms: Option<u64>,
}

impl Clone for ReconnectingState {
    fn clone(&self) -> (r: Self)
        ensures
            r == *self,
    {
        ReconnectingState {
            profile_label: self.profile_label.clone(),
            attempt: self.attempt,
            started_at_ms: self.started_at_ms,
            fade_in_started_at_ms: self.fade_in_started_at_ms,
        }
    }
}

/// Whether keystrokes for `pane_id` must be dropped: it is reconnecting.
pub fn pane_input_locked(reconnecting: &HashMap<u64, ReconnectingState>, pane_id: u64) -> (b: bool)
    ensures
        b == reconnecting@.contains_key(pane_id),
{
    reconnecting.contains_key(&pane_id)
}

/// A pane's state as the tab badge shows it.
#[derive(Debug, Clone, Copy, PartialEq, Eq, Structural)]
pub enum PaneUiState {
    Active,
    Reconnecting,
}

/// Which chrome surfaces a frame draws.
#[derive(Debug, Clone, Copy, PartialEq, Eq, Structural)]
pub struct ChromeDrawPlan {
    pub draw_tint: bool,
    pub draw_search_bar: bool,
    pub draw_toast: bool,
    pub draw_picker: bool,
}

/// One-line notices the shell shows as info toasts.
#[derive(Debug, Clone)]
pub enum Notice {
    ConfigError(String),
    ConfigReloaded,
    Info(String),
    MicrosoftSignedIn,
    MicrosoftSignInCancelled,
    MicrosoftSignInFailed(String),
    MicrosoftSignedOut,
    DevTunnelsAuthRequired,
    DevTunnelConnectStarted(String),
    DevTunnelConnectFailed { tunnel_id: String, reason: String },
    InputIgnoredReconnecting,
}

/// The text of each notice, verbatim.
pub open spec fn notice_text_spec(n: Notice) -> Seq<char> {
    match n {
        Notice::ConfigError(msg) => "config error: "@ + msg@,
        Notice::ConfigReloaded => "config reloaded"@,
        Notice::Info(text) => text@,
        Notice::MicrosoftSignedIn => "Signed in to Microsoft."@,
        Notice::MicrosoftSignInCancelled => "Microsoft sign-in cancelled."@,
        Notice::MicrosoftSignInFailed(reason) => "Microsoft sign-in failed: "@ + reason@,
        Notice::MicrosoftSignedOut => "Signed out of Microsoft."@,
        Notice::DevTunnelsAuthRequired => "Sign in with Microsoft to list Dev Tunnels."@,
        Notice::DevTunnelConnectStarted(id) => "Connecting to "@ + id@ + "\u{2026}"@,
        Notice::DevTunnelConnectFailed { tunnel_id, reason } =>
            "Could not connect to '"@ + tunnel_id@ + "': "@ + reason@ + "."@,
        Notice::InputIgnoredReconnecting => "Input ignored \u{2014} reconnecting"@,
    }
}

/// The text of `n`.
pub fn notice_text(n: &Notice) -> (s: String)
    ensures
        s@ == notice_text_spec(*n),
{
    match n {
        Notice::ConfigError(msg) => {
            let mut s = String::from_str("config error: ");
            s.append(msg.as_str());
            s
        },
        Notice::ConfigReloaded => String::from_str("config reloaded"),
        Notice::Info(text) => text.clone(),
        Notice::MicrosoftSignedIn => String::from_str("Signed in to Microsoft."),
        Notice::MicrosoftSignInCancelled => String::from_str("Microsoft sign-in cancelled."),
        Notice::MicrosoftSignInFailed(reason) => {
            let mut s = String::from_str("Microsoft sign-in failed: ");
            s.append(reason.as_str());
            s
        },
        Notice::MicrosoftSignedOut => String::from_str("Signed out of Microsoft."),
        Notice::DevTunnelsAuthRequired => String::from_str("Sign in with Microsoft to list Dev Tunnels."),
        Notice::DevTunnelConnectStarted(id) => {
            let mut s = String::from_str("Connecting to ");
            s.append(id.as_str());
            s.append("\u{2026}");
            s
        },
        Notice::DevTunnelConnectFailed { tunnel_id, reason } => {
            let mut s = String::from_str("Could not connect to '");
            s.append(tunnel_id.as_str());
            s.append("': ");
            s.append(reason.as_str());
            s.append(".");
            s
        },
        Notice::InputIgnoredReconnecting => String::from_str("Input ignored \u{2014} reconnecting"),
    }
}

/// The shell's window-independent state.
pub struct AppState {
    pub toasts: ToastStack,
    pub search_bar: SearchBar,
    pub profile_picker: ProfilePicker,
    pub clipboard_router: ClipboardRouter,
    /// Profiles of the config last applied; `None` before any config arrived.
    pub profiles: Option<Vec<ProfileEntry>>,
    pub reconnecting_panes: HashMap<u64, ReconnectingState>,
    /// Panes that already showed the "input ignored" toast during their
    /// current reconnect span.
    pub reconnect_first_keystroke_shown: HashSet<u64>,
}

/// The picker entry for a profile: its name, and its kind (local when unspecified).
pub open spec fn picker_entry_of(p: ProfileEntry) -> PickerEntry {
    PickerEntry {
        name: p.name,
        kind: match p.kind { Some(k) => k, None => Kind::Local },
    }
}

impl AppState {
    /// Start-up state: no toast, search bar closed, an empty closed picker,
    /// the `default` profile asking before clipboard writes, no config and
    /// no reconnecting pane.
    pub fn new() -> (s: Self)
        ensures
            s.toasts@ is None,
            !s.search_bar.open,
            s.search_bar.saved_selection is None,
            s.profile_picker.entries@.len() == 0,
            !s.profile_picker.open,
            s.clipboard_router.active_profile@ == "default"@,
            s.clipboard_router.policy is None,
            s.profiles is None,
            s.reconnecting_panes@ == Map::<u64, ReconnectingState>::empty(),
            s.reconnect_first_keystroke_shown@ == Set::<u64>::empty(),
    {
        AppState {
            toasts: ToastStack::new(),
            search_bar: SearchBar::default(),
            profile_picker: ProfilePicker::new(Vec::new()),
            clipboard_router: ClipboardRouter { active_profile: String::from_str("default"), policy: None },
            profiles: None,
            reconnecting_panes: HashMap::new(),
            reconnect_first_keystroke_shown: HashSet::new(),
        }
    }

    /// Shows `n` as an info toast at `now_ms`.
    pub fn show_notice(&mut self, n: &Notice, now_ms: u64)
        ensures
            final(self).toasts@ matches Some(t) && t.text@ == notice_text_spec(*n) && t.mode is Info
                && t.shown_at_ms == now_ms,
            final(self).search_bar == old(self).search_bar,
            final(self).reconnecting_panes == old(self).reconnecting_panes,
            final(self).reconnect_first_keystroke_shown == old(self).reconnect_first_keystroke_shown,
    {
        let text = notice_text(n);
        self.toasts.show(ToastBanner::info(text.as_str(), now_ms));
    }

    /// Cmd-F: closes the search bar if it is open, handing back the
    /// selection to restore; otherwise opens it over `current_selection`.
    pub fn toggle_search(&mut self, current_selection: Option<SelectionRange>) -> (restore: Option<SelectionRange>)
        ensures
            search_toggled(old(self).search_bar, final(self).search_bar, current_selection, restore),
            final(self).reconnecting_panes == old(self).reconnecting_panes,
            final(self).toasts == old(self).toasts,
    {
        if self.search_bar.open {
            self.search_bar.close()
        } else {
            self.search_bar.open_with(current_selection);
            None
        }
    }

    /// Applies a freshly parsed config: keeps its profiles and re-resolves
    /// the clipboard policy of the active profile (unspecified means ask).
    pub fn apply_config(&mut self, profiles: Vec<ProfileEntry>)
        ensures
            final(self).profiles == Some(profiles),
            final(self).clipboard_router.active_profile == old(self).clipboard_router.active_profile,
            final(self).clipboard_router.policy == (match profile_named(profiles@, old(self).clipboard_router.active_profile@) {
                Some(p) => p.clipboard_write,
                None => None,
            }),
    {
        let policy = match find_profile(&profiles, self.clipboard_router.active_profile.as_str()) {
            Some(p) => p.clipboard_write,
            None => None,
        };
        self.clipboard_router.policy = policy;
        self.profiles = Some(profiles);
    }

    /// Cmd-Shift-P: rebuilds the picker from the config's profiles (when a
    /// config has arrived) and opens it.
    pub fn open_profile_picker(&mut self)
        ensures
            final(self).profile_picker.open,
            final(self).profile_picker.query@.len() == 0,
            final(self).profile_picker.selected_idx == 0,
            final(self).profile_picker.wf(),
            final(self).profile_picker.filtered@ == all_indices(final(self).profile_picker.entries@.len() as int),
            (match old(self).profiles {
                Some(ps) => final(self).profile_picker.entries@.len() == ps@.len()
                    && forall|i: int| 0 <= i < ps@.len() ==>
                        #[trigger] final(self).profile_picker.entries@[i] == picker_entry_of(ps@[i]),
                None => final(self).profile_picker.entries@ == old(self).profile_picker.entries@,
            }),
            final(self).profiles == old(self).profiles,
    {
        match &self.profiles {
            Some(ps) => {
                let mut entries: Vec<PickerEntry> = Vec::new();
                let mut i: usize = 0;
                while i < ps.len()
                    invariant
                        i <= ps@.len(),
                        entries@.len() == i,
                        forall|j: int| 0 <= j < i ==> #[trigger] entries@[j] == picker_entry_of(ps@[j]),
                    decreases ps@.len() - i,
                {
                    let p = &ps[i];
                    let kind = match p.kind { Some(k) => k, None => Kind::Local };
                    entries.push(PickerEntry { name: p.name.clone(), kind });
                    i = i + 1;
                }
                self.profile_picker = ProfilePicker::new(entries);
            },
            None => {},
        }
        self.profile_picker.open();
    }

    /// The tint text of the active profile, if the applied config gives one.
    pub open spec fn active_tint_text_spec(&self) -> Option<String> {
        match self.profiles {
            Some(ps) => match profile_named(ps@, self.clipboard_router.active_profile@) {
                Some(p) => p.tint,
                None => None,
            },
            None => None,
        }
    }

    /// The active profile's tint text.
    pub fn active_profile_tint_text(&self) -> (t: Option<&String>)
        ensures
            t == (match self.active_tint_text_spec() {
                Some(s) => Some(&s),
                None => None::<&String>,
            }),
    {
        match &self.profiles {
            Some(ps) => match find_profile(ps, self.clipboard_router.active_profile.as_str()) {
                Some(p) => match &p.tint {
                    Some(t) => Some(t),
                    None => None,
                },
                None => None,
            },
            None => None,
        }
    }

    /// The active profile's tint as red, green and blue bytes; `None` when
    /// no config arrived, the profile is not in it, it has no tint, or the
    /// tint is not a `#RRGGBB` colour. The chrome draws the tint stripe
    /// exactly when this is `Some`.
    pub fn active_profile_tint(&self) -> (r: Option<[u8; 3]>)
        ensures
            r == (match self.active_tint_text_spec() {
                Some(t) => tint_spec(t@),
                None => None,
            }),
    {
        match self.active_profile_tint_text() {
            Some(t) => parse_hex_rgb(t.as_str()),
            None => None,
        }
    }

    /// A pane reported reconnect attempt `attempt`: it is (still)
    /// reconnecting under `profile_label`; a pane entering the state starts
    /// its span at `now_ms`, one already in it keeps its start and fade.
    pub fn on_pane_reconnecting(&mut self, pane_id: u64, attempt: u32, profile_label: String, now_ms: u64)
        ensures
            reconnect_reported(*old(self), *final(self), pane_id, attempt, profile_label, now_ms),
    {
        let (started, fade) = match self.reconnecting_panes.get(&pane_id) {
            Some(s) => (s.started_at_ms, s.fade_in_started_at_ms),
            None => (now_ms, None),
        };
        self.reconnecting_panes.insert(pane_id, ReconnectingState {
            profile_label,
            attempt,
            started_at_ms: started,
            fade_in_started_at_ms: fade,
        });
    }

    /// A pane reconnected, exited or was closed: it is no longer
    /// reconnecting, and its next reconnect span may toast again.
    pub fn forget_reconnect(&mut self, pane_id: u64)
        ensures
            reconnect_forgotten(*old(self), *final(self), pane_id),
    {
        self.reconnecting_panes.remove(&pane_id);
        self.reconnect_first_keystroke_shown.remove(&pane_id);
    }

    /// Keystroke / paste gate for the active pane: bytes may go to the PTY
    /// unless that pane is reconnecting. The first dropped keystroke of a
    /// reconnect span shows "Input ignored — reconnecting"; later ones are
    /// dropped silently.
    pub fn gate_pty_input(&mut self, active_pane: Option<u64>, now_ms: u64) -> (forward: bool)
        ensures
            input_gated(*old(self), *final(self), active_pane, now_ms, forward),
    {
        match active_pane {
            Some(p) => {
                if self.reconnecting_panes.contains_key(&p) {
                    if !self.reconnect_first_keystroke_shown.contains(&p) {
                        self.show_notice(&Notice::InputIgnoredReconnecting, now_ms);
                        self.reconnect_first_keystroke_shown.insert(p);
                    }
                    false
                } else {
                    true
                }
            },
            None => true,
        }
    }

    /// The tab badge state of `pane_id`.
    pub fn pane_ui_state(&self, pane_id: u64) -> (s: PaneUiState)
        ensures
            s == pane_ui_state_spec(*self, pane_id),
    {
        if self.reconnecting_panes.contains_key(&pane_id) {
            PaneUiState::Reconnecting
        } else {
            PaneUiState::Active
        }
    }

    /// Which chrome surfaces to draw: the tint when the active profile has
    /// one, the search bar when it is open and the active pane's rectangle
    /// is known, the toast when one is up, the picker when it is open.
    pub fn chrome_draw_plan(&self, has_tint: bool, has_active_pane_rect: bool) -> (p: ChromeDrawPlan)
        ensures
            p == (ChromeDrawPlan {
                draw_tint: has_tint,
                draw_search_bar: self.search_bar.open && has_active_pane_rect,
                draw_toast: self.toasts@ is Some,
                draw_picker: self.profile_picker.open,
            }),
    {
        ChromeDrawPlan {
            draw_tint: has_tint,
            draw_search_bar: self.search_bar.open && has_active_pane_rect,
            draw_toast: self.toasts.current().is_some(),
            draw_picker: self.profile_picker.open,
        }
    }

    /// Drops the visible toast if it is an info toast that has aged out.
    pub fn tick_toasts(&mut self, now_ms: u64)
        ensures
            final(self).toasts@ == (match old(self).toasts@ {
                Some(t) => if crate::toast::auto_dismiss_due(t, now_ms as int) { None } else { Some(t) },
                None => None,
            }),
            final(self).search_bar == old(self).search_bar,
            final(self).reconnecting_panes == old(self).reconnecting_panes,
    {
        self.toasts.tick(now_ms);
    }

    /// An OSC 52 write of `data` from `foreground_process` arrived: routes it
    /// by the active profile's policy. Returns the text to put on the
    /// pasteboard when the write is allowed; otherwise shows the refusal or
    /// the question as a toast and returns `None`.
    pub fn route_clipboard_store(&mut self, kind_is_selection: bool, data: String, foreground_process: &str, now_ms: u64)
        -> (write: Option<String>)
        ensures
            crate::clipboard_router::routed(
                old(self).clipboard_router.policy,
                old(self).clipboard_router.active_profile@,
                foreground_process@,
                now_ms,
                make_store_event_spec(kind_is_selection, data),
                match write {
                    Some(text) => ClipboardAction::WritePasteboard(text),
                    None => ClipboardAction::ShowPrompt(final(self).toasts@->0),
                },
            ),
            write is Some ==> final(self).toasts == old(self).toasts,
            write is None ==> final(self).toasts@ is Some,
            final(self).clipboard_router == old(self).clipboard_router,
            final(self).search_bar == old(self).search_bar,
            final(self).reconnecting_panes == old(self).reconnecting_panes,
    {
        let event = make_store_event(kind_is_selection, data);
        match self.clipboard_router.handle(event, foreground_process, now_ms) {
            ClipboardAction::WritePasteboard(text) => Some(text),
            ClipboardAction::ShowPrompt(toast) => {
                self.toasts.show(toast);
                None
            },
            ClipboardAction::DenyRead => None,
        }
    }

    /// Sizes for the picker modal: the widest label in pixels (9 px per byte
    /// of the longest name, 280 when there are no entries) and the rows
    /// visible (at most 8).
    pub fn picker_metrics(&self) -> (r: (u32, u32))
        ensures
            r.0 == longest_label_px(self.profile_picker.entries@),
            r.1 == (if self.profile_picker.filtered@.len() < 8 { self.profile_picker.filtered@.len() as u32 } else { 8u32 }),
    {
        let entries = &self.profile_picker.entries;
        let mut best: Option<u32> = None;
        let mut i: usize = 0;
        while i < entries.len()
            invariant
                i <= entries@.len(),
                best == longest_label_opt(entries@.subrange(0, i as int)),
            decreases entries@.len() - i,
        {
            let w = label_px(entries[i].name.as_str().len());
            best = match best {
                Some(b) => Some(if w > b { w } else { b }),
                None => Some(w),
            };
            assert(entries@.subrange(0, i + 1).drop_last() =~= entries@.subrange(0, i as int));
            i = i + 1;
        }
        assert(entries@.subrange(0, entries@.len() as int) =~= entries@);
        let longest = match best { Some(b) => b, None => 280 };
        let n = self.profile_picker.filtered.len();
        let visible: u32 = if n < 8 { n as u32 } else { 8 };
        (longest, visible)
    }

    /// A reconnecting pane's status bar at `now_ms`: hidden (`None`) for its
    /// first 250 ms; after that the fade-in starts (recorded the first time
    /// it is asked) and the result is how long it has been fading in.
    /// Panes that are not reconnecting show no bar.
    pub fn reconnect_bar_fade_ms(&mut self, pane_id: u64, now_ms: u64) -> (fade: Option<u64>)
        ensures
            !old(self).reconnecting_panes@.contains_key(pane_id) ==> fade is None
                && final(self).reconnecting_panes == old(self).reconnecting_panes,
            old(self).reconnecting_panes@.contains_key(pane_id) ==> ({
                let st = old(self).reconnecting_panes@[pane_id];
                if sat_sub(now_ms, st.started_at_ms) < RECONNECT_DEBOUNCE_MS {
                    &&& fade is None
                    &&& final(self).reconnecting_panes == old(self).reconnecting_panes
                } else {
                    let fade_start = match st.fade_in_started_at_ms { Some(f) => f, None => now_ms };
                    &&& fade == Some(sat_sub(now_ms, fade_start))
                    &&& final(self).reconnecting_panes@ == old(self).reconnecting_panes@.insert(
                        pane_id,
                        ReconnectingState { fade_in_started_at_ms: Some(fade_start), ..st },
                    )
                }
            }),
            final(self).toasts == old(self).toasts,
            final(self).reconnect_first_keystroke_shown == old(self).reconnect_first_keystroke_shown,
    {
        let st = match self.reconnecting_panes.get(&pane_id) {
            Some(s) => s.clone(),
            None => return None,
        };
        let elapsed = if now_ms >= st.started_at_ms { now_ms - st.started_at_ms } else { 0 };
        if elapsed < RECONNECT_DEBOUNCE_MS {
            return None;
        }
        let fade_start = match st.fade_in_started_at_ms { Some(f) => f, None => now_ms };
        let updated = ReconnectingState {
            profile_label: st.profile_label,
            attempt: st.attempt,
            started_at_ms: st.started_at_ms,
            fade_in_started_at_ms: Some(fade_start),
        };
        self.reconnecting_panes.insert(pane_id, updated);
        Some(if now_ms >= fade_start { now_ms - fade_start } else { 0 })
    }
}

/// `post` is the search bar after Cmd-F on `pre` over `current`, and
/// `restore` the selection handed back: an open bar closes (handing back
/// the selection it was opened over), a closed one opens over `current`.
pub open spec fn search_toggled(
    pre: SearchBar,
    post: SearchBar,
    current: Option<SelectionRange>,
    restore: Option<SelectionRange>,
) -> bool {
    if pre.open {
        closed_from(pre, post, restore)
    } else {
        opened_with(pre, post, current) && restore is None
    }
}

/// The tab badge state of pane `p`: reconnecting while it is in the
/// reconnecting map.
pub open spec fn pane_ui_state_spec(s: AppState, p: u64) -> PaneUiState {
    if s.reconnecting_panes@.contains_key(p) {
        PaneUiState::Reconnecting
    } else {
        PaneUiState::Active
    }
}

/// `post` is `pre` after pane `p` reported reconnect attempt `attempt` at
/// `now_ms`: it is reconnecting under `label`; a pane entering the state
/// starts its span now, one already in it keeps its start and fade. The
/// toasts and the record of notified panes are untouched.
pub open spec fn reconnect_reported(pre: AppState, post: AppState, p: u64, attempt: u32, label: String, now_ms: u64) -> bool {
    let known = pre.reconnecting_panes@.contains_key(p);
    &&& post.reconnecting_panes@ == pre.reconnecting_panes@.insert(p, ReconnectingState {
        profile_label: label,
        attempt,
        started_at_ms: if known { pre.reconnecting_panes@[p].started_at_ms } else { now_ms },
        fade_in_started_at_ms: if known { pre.reconnecting_panes@[p].fade_in_started_at_ms } else { None },
    })
    &&& post.reconnect_first_keystroke_shown == pre.reconnect_first_keystroke_shown
    &&& post.toasts == pre.toasts
}

/// `post` is `pre` after pane `p` left the reconnecting state (reconnected,
/// exited or closed): it is neither reconnecting nor marked as notified.
pub open spec fn reconnect_forgotten(pre: AppState, post: AppState, p: u64) -> bool {
    &&& post.reconnecting_panes@ == pre.reconnecting_panes@.remove(p)
    &&& post.reconnect_first_keystroke_shown@ == pre.reconnect_first_keystroke_shown@.remove(p)
    &&& post.toasts == pre.toasts
}

/// `post` is `pre` after a keystroke for `active` at `now_ms`, and
/// `forward` whether it may reach the PTY: it may unless the pane is
/// reconnecting; the first dropped keystroke of a span shows the "input
/// ignored" notice and marks the pane as notified, later ones change nothing.
pub open spec fn input_gated(pre: AppState, post: AppState, active: Option<u64>, now_ms: u64, forward: bool) -> bool {
    &&& post.reconnecting_panes == pre.reconnecting_panes
    &&& match active {
        Some(p) => if !pre.reconnecting_panes@.contains_key(p) {
            &&& forward
            &&& post.reconnect_first_keystroke_shown == pre.reconnect_first_keystroke_shown
            &&& post.toasts == pre.toasts
        } else if pre.reconnect_first_keystroke_shown@.contains(p) {
            &&& !forward
            &&& post.reconnect_first_keystroke_shown == pre.reconnect_first_keystroke_shown
            &&& post.toasts == pre.toasts
        } else {
            &&& !forward
            &&& post.reconnect_first_keystroke_shown@ == pre.reconnect_first_keystroke_shown@.insert(p)
            &&& post.toasts@ matches Some(t)
            &&& t.text@ == notice_text_spec(Notice::InputIgnoredReconnecting)
            &&& t.mode is Info
            &&& t.shown_at_ms == now_ms
        },
        None => {
            &&& forward
            &&& post.reconnect_first_keystroke_shown == pre.reconnect_first_keystroke_shown
            &&& post.toasts == pre.toasts
        },
    }
}

/// Cmd-F twice: the bar is closed again, and the second press hands back
/// the selection the first one was made over.
pub proof fn lemma_toggle_search_twice(
    a: SearchBar,
    b: SearchBar,
    c: SearchBar,
    sel: Option<SelectionRange>,
    other: Option<SelectionRange>,
    r1: Option<SelectionRange>,
    r2: Option<SelectionRange>,
)
    requires
        !a.open,
        search_toggled(a, b, sel, r1),
        search_toggled(b, c, other, r2),
    ensures
        b.open,
        !c.open,
        r1 is None,
        r2 == sel,
{
}

/// Keystrokes to a reconnecting pane never reach the PTY, and within one
/// reconnect span only the first of them shows the notice: a second
/// dropped keystroke leaves the toasts as they were.
pub proof fn lemma_input_notice_once_per_span(
    s0: AppState,
    s1: AppState,
    s2: AppState,
    p: u64,
    t1: u64,
    t2: u64,
    f1: bool,
    f2: bool,
)
    requires
        s0.reconnecting_panes@.contains_key(p),
        input_gated(s0, s1, Some(p), t1, f1),
        input_gated(s1, s2, Some(p), t2, f2),
    ensures
        !f1,
        !f2,
        s2.toasts == s1.toasts,
        s2.reconnect_first_keystroke_shown@.contains(p),
{
}

/// Once a pane has left the reconnecting state, a new reconnect span
/// notifies afresh: its first dropped keystroke shows the notice again.
pub proof fn lemma_new_span_notifies_again(
    s0: AppState,
    s1: AppState,
    s2: AppState,
    s3: AppState,
    p: u64,
    attempt: u32,
    label: String,
    t_report: u64,
    t_key: u64,
    forward: bool,
)
    requires
        reconnect_forgotten(s0, s1, p),
        reconnect_reported(s1, s2, p, attempt, label, t_report),
        input_gated(s2, s3, Some(p), t_key, forward),
    ensures
        !forward,
        s3.toasts@ matches Some(t) && t.text@ == notice_text_spec(Notice::InputIgnoredReconnecting)
            && t.shown_at_ms == t_key,
{
    assert(s2.reconnecting_panes@.contains_key(p));
    assert(!s2.reconnect_first_keystroke_shown@.contains(p));
}

/// The tab badge and the input lock agree: a pane's keystrokes are dropped
/// exactly when its badge reads "reconnecting".
pub proof fn lemma_badge_matches_input_lock(s0: AppState, s1: AppState, p: u64, now_ms: u64, forward: bool)
    requires
        input_gated(s0, s1, Some(p), now_ms, forward),
    ensures
        forward <==> pane_ui_state_spec(s0, p) == PaneUiState::Active,
{
}

/// The grid cell under a pointer at (`px_x`, `px_y`) physical pixels, for
/// cells of `cell_w` x `cell_h` pixels (a zero size counts as one pixel):
/// (column, row), each clamped to `u16`.
pub open spec fn cell_at_pixel_spec(px_x: u32, px_y: u32, cell_w: u32, cell_h: u32) -> (u16, u16) {
    let cw: int = if cell_w == 0 { 1 } else { cell_w as int };
    let ch: int = if cell_h == 0 { 1 } else { cell_h as int };
    let col: int = px_x as int / cw;
    let row: int = px_y as int / ch;
    (
        if col > u16::MAX { u16::MAX } else { col as u16 },
        if row > u16::MAX { u16::MAX } else { row as u16 },
    )
}

/// The grid cell under a pointer position given in whole physical pixels.
pub fn cell_at_pixel(px_x: u32, px_y: u32, cell_w: u32, cell_h: u32) -> (r: (u16, u16))
    ensures
        r == cell_at_pixel_spec(px_x, px_y, cell_w, cell_h),
{
    let cw = if cell_w == 0 { 1 } else { cell_w };
    let ch = if cell_h == 0 { 1 } else { cell_h };
    let col = px_x / cw;
    let row = px_y / ch;
    (
        if col > u16::MAX as u32 { u16::MAX } else { col as u16 },
        if row > u16::MAX as u32 { u16::MAX } else { row as u16 },
    )
}

/// How the pane borders and cursors change when focus moves to a pane.
#[derive(Debug, Clone, Copy, PartialEq, Eq, Structural)]
pub struct FocusChange {
    /// The pane that loses the active border and gets a hollow cursor.
    pub deactivate: Option<u64>,
    /// The pane that gets the active border and a filled cursor.
    pub activate: u64,
}

/// Focus moves from `active` to `new_id`: the previously active pane is
/// dimmed unless it is the same pane, and `new_id` is highlighted.
pub fn focus_change(active: Option<u64>, new_id: u64) -> (c: FocusChange)
    ensures
        c.activate == new_id,
        c.deactivate == (match active {
            Some(old) => if old != new_id { Some(old) } else { None },
            None => None,
        }),
{
    let deactivate = match active {
        Some(old) => if old != new_id { Some(old) } else { None },
        None => None,
    };
    FocusChange { deactivate, activate: new_id }
}

/// `a - b`, or zero when `b` is later.
pub open spec fn sat_sub(a: u64, b: u64) -> u64 {
    if a >= b { (a - b) as u64 } else { 0 }
}

/// The store event `make_store_event` builds.
pub open spec fn make_store_event_spec(kind_is_selection: bool, data: String) -> crate::clipboard_router::ClipboardEvent {
    crate::clipboard_router::ClipboardEvent::Store(
        if kind_is_selection {
            crate::clipboard_router::ClipboardType::Selection
        } else {
            crate::clipboard_router::ClipboardType::Clipboard
        },
        data,
    )
}

/// Pixel width allotted to a label of `bytes` UTF-8 bytes: 9 px each, saturating
/// (the byte count is first taken modulo 2^32).
pub open spec fn label_px_spec(bytes: usize) -> u32 {
    let b: u32 = bytes as u32;
    if b as int * 9 > u32::MAX { u32::MAX } else { (b * 9) as u32 }
}

fn label_px(bytes: usize) -> (w: u32)
    ensures
        w == label_px_spec(bytes),
{
    #[verifier::truncate]
    let b: u32 = bytes as u32;
    if b > u32::MAX / 9 { u32::MAX } else { b * 9 }
}

/// The widest label among `entries`, if any.
pub open spec fn longest_label_opt(entries: Seq<PickerEntry>) -> Option<u32>
    decreases entries.len(),
{
    if entries.len() == 0 {
        None
    } else {
        let w = label_px_spec(vstd::utf8::encode_utf8(entries.last().name@).len() as usize);
        match longest_label_opt(entries.drop_last()) {
            Some(b) => Some(if w > b { w } else { b }),
            None => Some(w),
        }
    }
}

/// The widest label among `entries`, 280 px when there are none.
pub open spec fn longest_label_px(entries: Seq<PickerEntry>) -> u32 {
    match longest_label_opt(entries) {
        Some(b) => b,
        None => 280,
    }
}

/// A configured profile that does not say its kind is local: its picker
/// entry is `Local` and its row reads just its name; a profile that names
/// its kind keeps it; either way the entry keeps the profile's name.
pub proof fn lemma_unspecified_kind_is_local(p: ProfileEntry)
    ensures
        picker_entry_of(p).name == p.name,
        p.kind is None ==> picker_entry_of(p).kind == Kind::Local,
        p.kind is None ==> crate::profile_picker::row_label_spec(picker_entry_of(p)) == p.name@,
        p.kind matches Some(k) ==> picker_entry_of(p).kind == k,
{
}

} // verus!
