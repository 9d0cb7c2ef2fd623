//! Dev Tunnels picker: footer copy, row template, status-dot buckets and the
//! picker's selection / filter state. The NSPanel that shows them lives in `app/`.
//!
//! Panel: 640 x 480 px; rows container x=8 y=32 w=624 h=416; footer x=8 y=4
//! w=624 h=24. Rows are 22 px tall, 13 pt; the footer is 11 pt.

use vstd::prelude::*;
use vstd::string::*;
use crate::devtunnels_actor::TunnelView;
use crate::relative_time::{humanize, humanize_spec};
use crate::text::{decimal, is_infix_of, lowercase, str_contains, to_lowercase, u64_to_string};

verus! {

pub const PANEL_W: u32 = 640;
pub const PANEL_H: u32 = 480;
pub const ROWS_X: u32 = 8;
pub const ROWS_Y: u32 = 32;
pub const ROWS_W: u32 = 624;
pub const ROWS_H: u32 = 416;
pub const FOOTER_X: u32 = 8;
pub const FOOTER_Y: u32 = 4;
pub const FOOTER_W: u32 = 624;
pub const FOOTER_H: u32 = 24;
pub const ROW_HEIGHT: u32 = 22;
pub const ROW_FONT_SIZE: u32 = 13;
pub const FOOTER_FONT_SIZE: u32 = 11;

/// What the picker footer reports.
#[derive(Debug, Clone)]
pub enum FooterState {
    Loading,
    EmptySignedIn,
    NotSignedIn,
    SignedInOtherProvider { provider: String },
    ApiError { reason: String },
    Loaded { shown: usize, total: usize },
}

/// The footer line for each state, verbatim.
pub open spec fn footer_copy_spec(state: FooterState) -> Seq<char> {
    match state {
        FooterState::Loading => "Loading Dev Tunnels\u{2026}"@,
        FooterState::EmptySignedIn =>
            "No Vector-agent tunnels yet. Install vector-tunnel-agent on a remote machine and run it."@,
        FooterState::NotSignedIn => "Sign in with GitHub or Microsoft to list Dev Tunnels."@,
        FooterState::SignedInOtherProvider { provider } =>
            "No tunnels under your "@ + provider@ + " account. Switch providers or register one."@,
        FooterState::ApiError { reason } =>
            "Could not load tunnels: "@ + reason@ + ". Press R to retry."@,
        FooterState::Loaded { shown, total } =>
            decimal(shown as nat) + " of "@ + decimal(total as nat) + " tunnels."@,
    }
}

/// The footer line for `state`.
pub fn footer_copy(state: &FooterState) -> (s: String)
    ensures
        s@ == footer_copy_spec(*state),
{
    match state {
        FooterState::Loading => String::from_str("Loading Dev Tunnels\u{2026}"),
        FooterState::EmptySignedIn => String::from_str(
            "No Vector-agent tunnels yet. Install vector-tunnel-agent on a remote machine and run it.",
        ),
        FooterState::NotSignedIn => String::from_str("Sign in with GitHub or Microsoft to list Dev Tunnels."),
        FooterState::SignedInOtherProvider { provider } => {
            let mut s = String::from_str("No tunnels under your ");
            s.append(provider.as_str());
            s.append(" account. Switch providers or register one.");
            s
        },
        FooterState::ApiError { reason } => {
            let mut s = String::from_str("Could not load tunnels: ");
            s.append(reason.as_str());
            s.append(". Press R to retry.");
            s
        },
        FooterState::Loaded { shown, total } => {
            let mut s = u64_to_string(*shown as u64);
            s.append(" of ");
            let t = u64_to_string(*total as u64);
            s.append(t.as_str());
            s.append(" tunnels.");
            s
        },
    }
}

/// Colour category of a row's status dot.
#[derive(Debug, Clone, Copy, PartialEq, Eq, Structural)]
pub enum StatusColor {
    Live,
    Stale,
    Unreachable,
}

/// The dot glyph shown at the start of every row.
pub const STATUS_DOT: char = '\u{25CF}';
/// Ages below this many seconds are live.
pub const LIVE_UNDER_SECS: u64 = 300;
/// Ages below this many seconds (and not live) are stale.
pub const STALE_UNDER_SECS: u64 = 86_400;

/// Colour for a tunnel last seen `last_seen` seconds ago: under 5 min live,
/// under 24 h stale, older or unknown unreachable.
pub open spec fn status_color_spec(last_seen: Option<u64>) -> StatusColor {
    match last_seen {
        Some(s) => if s < LIVE_UNDER_SECS {
            StatusColor::Live
        } else if s < STALE_UNDER_SECS {
            StatusColor::Stale
        } else {
            StatusColor::Unreachable
        },
        None => StatusColor::Unreachable,
    }
}

/// The status dot and its colour for a tunnel last seen `last_seen_secs_ago` seconds ago.
pub fn status_dot(last_seen_secs_ago: Option<u64>) -> (r: (char, StatusColor))
    ensures
        r == (STATUS_DOT, status_color_spec(last_seen_secs_ago)),
{
    let color = match last_seen_secs_ago {
        Some(s) => if s < LIVE_UNDER_SECS {
            StatusColor::Live
        } else if s < STALE_UNDER_SECS {
            StatusColor::Stale
        } else {
            StatusColor::Unreachable
        },
        None => StatusColor::Unreachable,
    };
    (STATUS_DOT, color)
}

/// The "last seen" cell of a row: `never` when unknown, otherwise the
/// relative-time label (an age beyond `i64` reads as zero seconds).
pub open spec fn last_seen_label(last_seen: Option<u64>) -> Seq<char> {
    match last_seen {
        Some(s) => humanize_spec(if s <= i64::MAX { s as int } else { 0 }),
        None => "never"@,
    }
}

/// Row template: `{dot}  {display_name}  {host}  ·  {last_seen}`.
pub open spec fn format_row_spec(v: TunnelView) -> Seq<char> {
    "\u{25CF}  "@ + v.display_name@ + "  "@ + v.host@ + "  \u{B7}  "@ + last_seen_label(v.last_seen_secs_ago)
}

/// The picker row for `view`.
pub fn format_row(view: &TunnelView) -> (s: String)
    ensures
        s@ == format_row_spec(*view),
{
    let last_seen = match view.last_seen_secs_ago {
        Some(secs) => {
            let age: i64 = if secs <= i64::MAX as u64 { secs as i64 } else { 0 };
            humanize(age)
        },
        None => String::from_str("never"),
    };
    let mut s = String::from_str("\u{25CF}  ");
    s.append(view.display_name.as_str());
    s.append("  ");
    s.append(view.host.as_str());
    s.append("  \u{B7}  ");
    s.append(last_seen.as_str());
    s
}

/// A row matches the (already lowercased) filter `q` when `q` is empty or
/// occurs in the lowercased `"{display_name} {host}"`.
pub open spec fn row_matches(v: TunnelView, q: Seq<char>) -> bool {
    q.len() == 0 || is_infix_of(q, lowercase(v.display_name@ + " "@ + v.host@))
}

/// Indices, in order, of the first `n` views that match `q`.
pub open spec fn filtered_upto(views: Seq<TunnelView>, q: Seq<char>, n: int) -> Seq<usize>
    decreases n,
{
    if n <= 0 {
        Seq::empty()
    } else {
        let prev = filtered_upto(views, q, n - 1);
        if row_matches(views[n - 1], q) { prev.push((n - 1) as usize) } else { prev }
    }
}

/// Every index `filtered_upto` yields is below `n`, and they are strictly increasing.
pub proof fn lemma_filtered_upto_bounds(views: Seq<TunnelView>, q: Seq<char>, n: int)
    requires
        0 <= n <= usize::MAX,
    ensures
        forall|k: int| 0 <= k < filtered_upto(views, q, n).len() ==> #[trigger] filtered_upto(views, q, n)[k] < n,
        forall|a: int, b: int| 0 <= a < b < filtered_upto(views, q, n).len()
            ==> filtered_upto(views, q, n)[a] < filtered_upto(views, q, n)[b],
        filtered_upto(views, q, n).len() <= n,
    decreases n,
{
    if n > 0 {
        lemma_filtered_upto_bounds(views, q, n - 1);
        let prev = filtered_upto(views, q, n - 1);
        let cur = filtered_upto(views, q, n);
        if row_matches(views[n - 1], q) {
            assert(cur == prev.push((n - 1) as usize));
            assert forall|a: int, b: int| 0 <= a < b < cur.len() implies cur[a] < cur[b] by {
                if b < prev.len() {
                    assert(prev[a] < prev[b]);
                } else {
                    assert(prev[a] < n - 1);
                }
            }
        }
    }
}

/// The row after the selected one among `n` rows, wrapping to the top (no selection counts as row 0).
pub open spec fn wrap_next(sel: Option<usize>, n: int) -> usize {
    let idx: int = match sel { Some(i) => i as int, None => 0 };
    ((idx + 1) % n) as usize
}

/// The row before the selected one among `n` rows, wrapping to the bottom (no selection counts as row 0).
pub open spec fn wrap_prev(sel: Option<usize>, n: int) -> usize {
    let idx: int = match sel { Some(i) => i as int, None => 0 };
    (if idx == 0 { n - 1 } else { idx - 1 }) as usize
}

/// Selection / filter state of the Dev Tunnels picker.
pub struct TunnelPicker {
    views: Vec<TunnelView>,
    /// Position of the selected row among the filtered rows.
    selected_index: Option<usize>,
    filter_text: String,
}

impl TunnelPicker {
    /// The tunnels the picker holds.
    pub closed spec fn views(&self) -> Seq<TunnelView> {
        self.views@
    }

    /// The selected position among the filtered rows.
    pub closed spec fn selection(&self) -> Option<usize> {
        self.selected_index
    }

    /// The filter as typed.
    pub closed spec fn filter(&self) -> Seq<char> {
        self.filter_text@
    }

    /// Indices of the views shown under the current filter, in order.
    pub open spec fn shown(&self) -> Seq<usize> {
        filtered_upto(self.views(), lowercase(self.filter()), self.views().len() as int)
    }

    /// A picker with no tunnels, no selection and an empty filter.
    pub fn new() -> (p: Self)
        ensures
            p.views().len() == 0,
            p.selection() is None,
            p.filter().len() == 0,
    {
        TunnelPicker { views: Vec::new(), selected_index: None, filter_text: String::new() }
    }

    /// Indices of the views that match the current filter, in order.
    pub fn filtered_indices(&self) -> (r: Vec<usize>)
        ensures
            r@ == self.shown(),
            self.views().len() <= usize::MAX,
    {
        let _count = self.views.len();
        let q = to_lowercase(self.filter_text.as_str());
        let q_empty = q.as_str().unicode_len() == 0;
        let mut out: Vec<usize> = Vec::new();
        let mut i: usize = 0;
        while i < self.views.len()
            invariant
                i <= self.views@.len(),
                q@ == lowercase(self.filter_text@),
                q_empty == (q@.len() == 0),
                out@ == filtered_upto(self.views@, q@, i as int),
            decreases self.views@.len() - i,
        {
            let v = &self.views[i];
            let keep = if q_empty {
                true
            } else {
                let mut hay = v.display_name.clone();
                hay.append(" ");
                hay.append(v.host.as_str());
                let hay_lower = to_lowercase(hay.as_str());
                str_contains(hay_lower.as_str(), q.as_str())
            };
            if keep {
                out.push(i);
            }
            i = i + 1;
        }
        out
    }

    /// Replaces the tunnel list; selects the first row when the list is not
    /// empty and returns the new footer line: the signed-in empty-list
    /// notice for an empty list, otherwise "{shown} of {total} tunnels.".
    pub fn handle_loaded(&mut self, views: Vec<TunnelView>) -> (footer: String)
        ensures
            final(self).views() == views@,
            final(self).filter() == old(self).filter(),
            final(self).selection() == (if views@.len() == 0 { None } else { Some(0usize) }),
            footer@ == footer_copy_spec(
                if views@.len() == 0 {
                    FooterState::EmptySignedIn
                } else {
                    FooterState::Loaded { shown: final(self).shown().len() as usize, total: views@.len() as usize }
                },
            ),
    {
        let total = views.len();
        self.views = views;
        self.selected_index = if total == 0 { None } else { Some(0) };
        if total == 0 {
            footer_copy(&FooterState::EmptySignedIn)
        } else {
            let shown = self.filtered_indices().len();
            footer_copy(&FooterState::Loaded { shown, total })
        }
    }

    /// The list failed to load: clears it and returns the error footer.
    pub fn handle_load_failed(&mut self, reason: String) -> (footer: String)
        ensures
            final(self).views().len() == 0,
            final(self).selection() is None,
            final(self).filter() == old(self).filter(),
            footer@ == footer_copy_spec(FooterState::ApiError { reason }),
    {
        self.views = Vec::new();
        self.selected_index = None;
        footer_copy(&FooterState::ApiError { reason })
    }

    /// The user is not signed in: clears the list and returns the sign-in footer.
    pub fn handle_auth_required(&mut self) -> (footer: String)
        ensures
            final(self).views().len() == 0,
            final(self).selection() is None,
            final(self).filter() == old(self).filter(),
            footer@ == footer_copy_spec(FooterState::NotSignedIn),
    {
        self.views = Vec::new();
        self.selected_index = None;
        footer_copy(&FooterState::NotSignedIn)
    }

    /// The selected tunnel: the view at the selected position among the
    /// filtered rows, if that position exists.
    pub fn selected(&self) -> (r: Option<TunnelView>)
        ensures
            r == (match self.selection() {
                Some(k) => if k < self.shown().len() {
                    Some(self.views()[self.shown()[k as int] as int])
                } else {
                    None
                },
                None => None,
            }),
    {
        let shown = self.filtered_indices();
        proof {
            lemma_filtered_upto_bounds(self.views@, lowercase(self.filter_text@), self.views@.len() as int);
        }
        match self.selected_index {
            Some(k) => {
                if k < shown.len() {
                    let i = shown[k];
                    Some(self.views[i].clone())
                } else {
                    None
                }
            },
            None => None,
        }
    }

    /// Moves the selection one row down, wrapping to the top; no-op when no
    /// row is shown. No selection counts as the first row.
    pub fn select_next(&mut self)
        ensures
            final(self).views() == old(self).views(),
            final(self).filter() == old(self).filter(),
            final(self).selection() == (if old(self).shown().len() == 0 {
                old(self).selection()
            } else {
                Some(wrap_next(old(self).selection(), old(self).shown().len() as int))
            }),
    {
        let n = self.filtered_indices().len();
        proof {
            lemma_filtered_upto_bounds(self.views@, lowercase(self.filter_text@), self.views@.len() as int);
        }
        if n == 0 {
            return;
        }
        let idx = match self.selected_index { Some(i) => i, None => 0 };
        proof {
            vstd::arithmetic::div_mod::lemma_add_mod_noop(idx as int, 1, n as int);
            vstd::arithmetic::div_mod::lemma_mod_bound(idx as int, n as int);
            if n > 1 {
                vstd::arithmetic::div_mod::lemma_small_mod(1, n as nat);
            } else {
                assert(((idx % n) + 1) % (n as int) == 0) by (nonlinear_arith) requires n == 1;
                assert((idx + 1) % (n as int) == 0) by (nonlinear_arith) requires n == 1;
            }
        }
        self.selected_index = Some((idx % n + 1) % n);
    }

    /// Moves the selection one row up, wrapping to the bottom; no-op when no
    /// row is shown. No selection counts as the first row.
    pub fn select_prev(&mut self)
        ensures
            final(self).views() == old(self).views(),
            final(self).filter() == old(self).filter(),
            final(self).selection() == (if old(self).shown().len() == 0 {
                old(self).selection()
            } else {
                Some(wrap_prev(old(self).selection(), old(self).shown().len() as int))
            }),
    {
        let n = self.filtered_indices().len();
        proof {
            lemma_filtered_upto_bounds(self.views@, lowercase(self.filter_text@), self.views@.len() as int);
        }
        if n == 0 {
            return;
        }
        let idx = match self.selected_index { Some(i) => i, None => 0 };
        self.selected_index = Some(if idx == 0 { n - 1 } else { idx - 1 });
    }

    /// Sets the filter; selects the first shown row, or nothing when no row matches.
    pub fn set_filter(&mut self, q: String)
        ensures
            final(self).views() == old(self).views(),
            final(self).filter() == q@,
            final(self).selection() == (if final(self).shown().len() == 0 { None } else { Some(0usize) }),
    {
        self.filter_text = q;
        let n = self.filtered_indices().len();
        proof {
            lemma_filtered_upto_bounds(self.views@, lowercase(self.filter_text@), self.views@.len() as int);
        }
        self.selected_index = if n == 0 { None } else { Some(0) };
    }

    /// The rows to draw, top to bottom: each shown tunnel's row text and
    /// whether it is the selected row.
    pub fn row_labels(&self) -> (rows: Vec<(String, bool)>)
        ensures
            rows@.len() == self.shown().len(),
            forall|k: int| 0 <= k < rows@.len() ==> {
                &&& (#[trigger] rows@[k]).0@ == format_row_spec(self.views()[self.shown()[k] as int])
                &&& rows@[k].1 == (self.selection() == Some(k as usize))
            },
    {
        let shown = self.filtered_indices();
        proof {
            lemma_filtered_upto_bounds(self.views@, lowercase(self.filter_text@), self.views@.len() as int);
        }
        let mut rows: Vec<(String, bool)> = Vec::new();
        let mut k: usize = 0;
        while k < shown.len()
            invariant
                shown@ == self.shown(),
                k <= shown@.len(),
                rows@.len() == k,
                forall|j: int| 0 <= j < shown@.len() ==> #[trigger] shown@[j] < self.views@.len(),
                forall|j: int| 0 <= j < k ==> {
                    &&& (#[trigger] rows@[j]).0@ == format_row_spec(self.views()[self.shown()[j] as int])
                    &&& rows@[j].1 == (self.selection() == Some(j as usize))
                },
            decreases shown@.len() - k,
        {
            let label = format_row(&self.views[shown[k]]);
            let is_sel = match self.selected_index { Some(s) => s == k, None => false };
            rows.push((label, is_sel));
            k = k + 1;
        }
        rows
    }
}

/// Moving the picker selection down and then up again returns to the same
/// row, whenever that row is shown.
pub proof fn lemma_next_then_prev_returns(i: usize, n: int)
    requires
        0 <= i < n <= usize::MAX,
    ensures
        wrap_prev(Some(wrap_next(Some(i), n)), n) == i,
{
    if i + 1 < n {
        assert((i + 1) % n == i + 1) by (nonlinear_arith) requires 0 <= i + 1 < n;
    } else {
        assert((i + 1) % n == 0) by (nonlinear_arith) requires i + 1 == n, n > 0;
    }
}

/// Membership in `filtered_upto`: index `i` below `n` is listed exactly
/// when its view matches `q`.
proof fn lemma_filtered_upto_contains(views: Seq<TunnelView>, q: Seq<char>, n: int, i: int)
    requires
        0 <= i < n <= views.len(),
        n <= usize::MAX,
    ensures
        filtered_upto(views, q, n).contains(i as usize) <==> row_matches(views[i], q),
    decreases n,
{
    lemma_filtered_upto_bounds(views, q, n - 1);
    let prev = filtered_upto(views, q, n - 1);
    if i < n - 1 {
        lemma_filtered_upto_contains(views, q, n - 1, i);
        if row_matches(views[n - 1], q) {
            assert(filtered_upto(views, q, n) == prev.push((n - 1) as usize));
            if filtered_upto(views, q, n).contains(i as usize) {
                let k = choose|k: int| 0 <= k < filtered_upto(views, q, n).len() && filtered_upto(views, q, n)[k] == i as usize;
                if k < prev.len() {
                    assert(prev.contains(i as usize));
                }
            }
            if prev.contains(i as usize) {
                let k = choose|k: int| 0 <= k < prev.len() && prev[k] == i as usize;
                assert(filtered_upto(views, q, n)[k] == i as usize);
            }
        }
    } else {
        if row_matches(views[n - 1], q) {
            assert(filtered_upto(views, q, n)[prev.len() as int] == i as usize);
        } else {
            if prev.contains(i as usize) {
                let k = choose|k: int| 0 <= k < prev.len() && prev[k] == i as usize;
                assert(prev[k] < n - 1);
            }
        }
    }
}

/// The filter is case-insensitive: a tunnel is shown exactly when the
/// lowercased filter is empty or occurs in its lowercased
/// `"{display_name} {host}"`; so two filters with the same lowercase form
/// show the same rows.
pub proof fn lemma_filter_is_case_insensitive(p: TunnelPicker, p2: TunnelPicker, i: int)
    requires
        0 <= i < p.views().len(),
    ensures
        p.shown().contains(i as usize) <==> (lowercase(p.filter()).len() == 0
            || is_infix_of(lowercase(p.filter()), lowercase(p.views()[i].display_name@ + " "@ + p.views()[i].host@))),
        p2.views() == p.views() && lowercase(p2.filter()) == lowercase(p.filter()) ==> p2.shown() == p.shown(),
{
    assert(p.views@.len() == p.views.len());
    lemma_filtered_upto_contains(p.views(), lowercase(p.filter()), p.views().len() as int, i);
}

} // verus!
