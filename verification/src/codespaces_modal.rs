//! Codespaces picker: row template, filter, footer and placeholder copy, and
//! the picker's selection state. The NSPanel that shows them lives in `app/`.
//!
//! Panel: 640 px wide; rows container x=8 y=32 w=624 h=416, rows 44 px tall.

use vstd::prelude::*;
use vstd::string::*;
use crate::relative_time::{humanize, humanize_spec};
use crate::text::{decimal, is_infix_of, lowercase, str_contains, to_lowercase, u64_to_string};

verus! {

pub const CODESPACE_ROW_HEIGHT: u32 = 44;

/// Shown while the list is loading.
pub const LOADING_CODESPACES: &'static str = "loading codespaces\u{2026}";
/// Shown when the list could not be fetched.
pub const FETCH_FAILED: &'static str = "could not fetch codespaces \u{2014} check your connection";
/// Shown when the account has no codespaces.
pub const NO_CODESPACES: &'static str = "no codespaces found";
/// Footer for an empty list.
pub const ZERO_CODESPACES: &'static str = "0 codespaces";

/// What a picker row shows of one codespace.
pub struct CodespaceView {
    /// Unique name of the codespace.
    pub name: String,
    /// Full name of the repository (`owner/repo`).
    pub repo: String,
    /// Checked-out branch.
    pub branch: String,
    /// Name chosen by the user, if any.
    pub display_name: Option<String>,
    /// State label (`Available`, `Shutdown`, ...).
    pub state: String,
    /// Seconds since the codespace was last used.
    pub last_used_secs_ago: i64,
}

impl Clone for CodespaceView {
    fn clone(&self) -> (r: Self)
        ensures
            r == *self,
    {
        CodespaceView {
            name: self.name.clone(),
            repo: self.repo.clone(),
            branch: self.branch.clone(),
            display_name: match &self.display_name {
                Some(d) => Some(d.clone()),
                None => None,
            },
            state: self.state.clone(),
            last_used_secs_ago: self.last_used_secs_ago,
        }
    }
}

/// `s` left-aligned in a field of `w` characters: padded with spaces on the
/// right up to `w`, never cut.
pub open spec fn pad_right(s: Seq<char>, w: nat) -> Seq<char> {
    if s.len() >= w {
        s
    } else {
        s + Seq::new((w - s.len()) as nat, |i: int| ' ')
    }
}

/// `s` padded on the right with spaces to `w` characters.
pub fn pad_right_exec(s: &str, w: usize) -> (r: String)
    ensures
        r@ == pad_right(s@, w as nat),
{
    let n = s.unicode_len();
    let mut r = String::from_str(s);
    if n >= w {
        return r;
    }
    let mut k: usize = n;
    while k < w
        invariant
            n == s@.len(),
            n <= k <= w,
            r@ == s@ + Seq::new((k - n) as nat, |i: int| ' '),
        decreases w - k,
    {
        proof {
            reveal_strlit(" ");
        }
        r.append(" ");
        assert(s@ + Seq::new((k + 1 - n) as nat, |i: int| ' ') =~= (s@ + Seq::new((k - n) as nat, |i: int| ' ')) + " "@);
        k = k + 1;
    }
    r
}

/// The "last used" cell: the relative-time label of the age, a negative age read as zero.
pub open spec fn last_used_label(age: i64) -> Seq<char> {
    humanize_spec(if age < 0 { 0 } else { age as int })
}

/// Row template: `  ● {state:<10}  {repo:<32}  {branch:<16}  {last used}`.
pub open spec fn codespace_row_spec(v: CodespaceView) -> Seq<char> {
    "  \u{25CF} "@ + pad_right(v.state@, 10) + "  "@ + pad_right(v.repo@, 32) + "  "@ + pad_right(v.branch@, 16)
        + "  "@ + last_used_label(v.last_used_secs_ago)
}

/// The picker row for `v`.
pub fn codespace_row(v: &CodespaceView) -> (s: String)
    ensures
        s@ == codespace_row_spec(*v),
{
    let age: i64 = if v.last_used_secs_ago < 0 { 0 } else { v.last_used_secs_ago };
    let mut s = String::from_str("  \u{25CF} ");
    let st = pad_right_exec(v.state.as_str(), 10);
    s.append(st.as_str());
    s.append("  ");
    let repo = pad_right_exec(v.repo.as_str(), 32);
    s.append(repo.as_str());
    s.append("  ");
    let branch = pad_right_exec(v.branch.as_str(), 16);
    s.append(branch.as_str());
    s.append("  ");
    let t = humanize(age);
    s.append(t.as_str());
    s
}

/// The text a filter is matched against: `"{repo} {branch} {display name}"`
/// (an absent display name is empty).
pub open spec fn filter_haystack(v: CodespaceView) -> Seq<char> {
    v.repo@ + " "@ + v.branch@ + " "@ + (match v.display_name {
        Some(d) => d@,
        None => ""@,
    })
}

/// A codespace matches the (already lowercased) filter `q` when `q` is empty
/// or occurs in its lowercased haystack.
pub open spec fn codespace_matches(v: CodespaceView, q: Seq<char>) -> bool {
    q.len() == 0 || is_infix_of(q, lowercase(filter_haystack(v)))
}

/// The rows for the first `n` codespaces under filter `q`, top to bottom:
/// each matching codespace's row text, and whether its index in the whole
/// list is the selected one.
pub open spec fn codespace_rows_spec(views: Seq<CodespaceView>, q: Seq<char>, selected: Option<usize>, n: int)
    -> Seq<(Seq<char>, bool)>
    decreases n,
{
    if n <= 0 {
        Seq::empty()
    } else {
        let prev = codespace_rows_spec(views, q, selected, n - 1);
        if codespace_matches(views[n - 1], q) {
            prev.push((codespace_row_spec(views[n - 1]), selected == Some((n - 1) as usize)))
        } else {
            prev
        }
    }
}

/// A drawn row as plain values.
pub open spec fn row_view(r: (String, bool)) -> (Seq<char>, bool) {
    (r.0@, r.1)
}

/// The rows to draw for `views` under `filter` with the codespace at index
/// `selected` highlighted.
pub fn codespace_rows(views: &Vec<CodespaceView>, filter: &str, selected: Option<usize>) -> (rows: Vec<(String, bool)>)
    ensures
        rows@.map_values(|r: (String, bool)| row_view(r))
            == codespace_rows_spec(views@, lowercase(filter@), selected, views@.len() as int),
{
    let q = to_lowercase(filter);
    let q_empty = q.as_str().unicode_len() == 0;
    let mut rows: Vec<(String, bool)> = Vec::new();
    let mut i: usize = 0;
    while i < views.len()
        invariant
            i <= views@.len(),
            q@ == lowercase(filter@),
            q_empty == (q@.len() == 0),
            rows@.map_values(|r: (String, bool)| row_view(r))
                == codespace_rows_spec(views@, q@, selected, i as int),
        decreases views@.len() - i,
    {
        let v = &views[i];
        let keep = if q_empty {
            true
        } else {
            let mut hay = v.repo.clone();
            hay.append(" ");
            hay.append(v.branch.as_str());
            hay.append(" ");
            match &v.display_name {
                Some(d) => hay.append(d.as_str()),
                None => hay.append(""),
            }
            let hay_lower = to_lowercase(hay.as_str());
            str_contains(hay_lower.as_str(), q.as_str())
        };
        if keep {
            let label = codespace_row(v);
            let is_sel = match selected { Some(s) => s == i, None => false };
            let ghost before = rows@;
            rows.push((label, is_sel));
            assert(rows@.map_values(|r: (String, bool)| row_view(r))
                =~= before.map_values(|r: (String, bool)| row_view(r)).push(row_view((label, is_sel))));
        }
        i = i + 1;
    }
    rows
}

/// Footer for a loaded list of `count` codespaces.
pub open spec fn codespace_footer_spec(count: nat) -> Seq<char> {
    decimal(count) + " codespace"@ + (if count == 1 { ""@ } else { "s"@ }) + " \u{B7} last refreshed just now"@
}

/// `{count} codespace{s} · last refreshed just now`.
pub fn codespace_footer(count: usize) -> (s: String)
    ensures
        s@ == codespace_footer_spec(count as nat),
{
    let mut s = u64_to_string(count as u64);
    s.append(" codespace");
    if count == 1 {
        s.append("");
    } else {
        s.append("s");
    }
    s.append(" \u{B7} last refreshed just now");
    s
}

/// Footer while a codespace's state is being polled: `polling {name} ({state})…`.
pub open spec fn polling_footer_spec(name: Seq<char>, state: Seq<char>) -> Seq<char> {
    "polling "@ + name + " ("@ + state + ")\u{2026}"@
}

/// Where loading the list stands.
#[derive(Debug, Clone, Copy, PartialEq, Eq, Structural)]
pub enum LoadPhase {
    Loading,
    Ready,
    Failed,
}

/// What the picker draws: its rows (text, highlighted) top to bottom, and
/// the footer line when the rows decide it.
pub open spec fn render_spec(phase: LoadPhase, views: Seq<CodespaceView>, q: Seq<char>, selected: Option<usize>)
    -> (Seq<(Seq<char>, bool)>, Option<Seq<char>>)
{
    match phase {
        LoadPhase::Loading => (seq![(LOADING_CODESPACES@, false)], None),
        LoadPhase::Failed => (seq![(FETCH_FAILED@, false)], None),
        LoadPhase::Ready => if views.len() == 0 {
            (seq![(NO_CODESPACES@, false)], Some(ZERO_CODESPACES@))
        } else {
            (codespace_rows_spec(views, q, selected, views.len() as int), Some(codespace_footer_spec(views.len())))
        },
    }
}

/// Index of the first codespace at or after `from` named `name`.
pub open spec fn first_named(views: Seq<CodespaceView>, name: Seq<char>, from: int) -> Option<int>
    decreases views.len() - from,
{
    if 0 <= from < views.len() {
        if views[from].name@ == name {
            Some(from)
        } else {
            first_named(views, name, from + 1)
        }
    } else {
        None
    }
}

/// `v` with its state label replaced by `state`.
pub open spec fn with_state(v: CodespaceView, state: String) -> CodespaceView {
    CodespaceView { state, ..v }
}

/// Load state, selection and filter of the Codespaces picker.
pub struct CodespacesPicker {
    phase: LoadPhase,
    views: Vec<CodespaceView>,
    error: String,
    /// Index of the selected codespace in the whole list.
    selected_index: Option<usize>,
    filter_text: String,
}

impl CodespacesPicker {
    pub closed spec fn phase(&self) -> LoadPhase {
        self.phase
    }

    /// The codespaces held (empty unless loaded).
    pub closed spec fn views(&self) -> Seq<CodespaceView> {
        self.views@
    }

    /// The reason the last load failed.
    pub closed spec fn error(&self) -> Seq<char> {
        self.error@
    }

    pub closed spec fn selection(&self) -> Option<usize> {
        self.selected_index
    }

    pub closed spec fn filter(&self) -> Seq<char> {
        self.filter_text@
    }

    /// A picker that is loading, with no selection and an empty filter.
    pub fn new() -> (p: Self)
        ensures
            p.phase() == LoadPhase::Loading,
            p.views().len() == 0,
            p.selection() is None,
            p.filter().len() == 0,
    {
        CodespacesPicker {
            phase: LoadPhase::Loading,
            views: Vec::new(),
            error: String::new(),
            selected_index: None,
            filter_text: String::new(),
        }
    }

    /// The list arrived: holds it and selects the first codespace, if any.
    pub fn handle_loaded(&mut self, list: Vec<CodespaceView>)
        ensures
            final(self).phase() == LoadPhase::Ready,
            final(self).views() == list@,
            final(self).selection() == (if list@.len() == 0 { None } else { Some(0usize) }),
            final(self).filter() == old(self).filter(),
    {
        let empty = list.len() == 0;
        self.phase = LoadPhase::Ready;
        self.views = list;
        self.selected_index = if empty { None } else { Some(0) };
    }

    /// Loading the list failed with `err`.
    pub fn handle_load_failed(&mut self, err: String)
        ensures
            final(self).phase() == LoadPhase::Failed,
            final(self).error() == err@,
            final(self).views().len() == 0,
            final(self).selection() == old(self).selection(),
            final(self).filter() == old(self).filter(),
    {
        self.phase = LoadPhase::Failed;
        self.views = Vec::new();
        self.error = err;
    }

    /// Codespace `name` is now in state `state`: a loaded list takes the new
    /// state on the first codespace of that name. Returns the polling footer.
    pub fn handle_state_change(&mut self, name: &str, state: String) -> (footer: String)
        ensures
            footer@ == polling_footer_spec(name@, state@),
            final(self).phase() == old(self).phase(),
            final(self).selection() == old(self).selection(),
            final(self).filter() == old(self).filter(),
            final(self).views() == (if old(self).phase() == LoadPhase::Ready {
                match first_named(old(self).views(), name@, 0) {
                    Some(i) => old(self).views().update(i, with_state(old(self).views()[i], state)),
                    None => old(self).views(),
                }
            } else {
                old(self).views()
            }),
    {
        let mut footer = String::from_str("polling ");
        footer.append(name);
        footer.append(" (");
        footer.append(state.as_str());
        footer.append(")\u{2026}");
        proof {
            reveal_strlit("polling ");
            reveal_strlit(" (");
            reveal_strlit(")\u{2026}");
        }
        if self.phase != LoadPhase::Ready {
            return footer;
        }
        let target = String::from_str(name);
        let mut i: usize = 0;
        while i < self.views.len()
            invariant
                target@ == name@,
                footer@ == polling_footer_spec(name@, state@),
                self.phase == LoadPhase::Ready,
                self.phase == old(self).phase,
                self.selected_index == old(self).selected_index,
                self.filter_text@ == old(self).filter_text@,
                self.views@ == old(self).views@,
                i <= self.views@.len(),
                first_named(self.views@, name@, 0) == first_named(self.views@, name@, i as int),
            decreases self.views@.len() - i,
        {
            if self.views[i].name == target {
                let mut v = self.views[i].clone();
                v.state = state;
                assert(v == with_state(old(self).views@[i as int], state));
                self.views.set(i, v);
                return footer;
            }
            i = i + 1;
        }
        footer
    }

    /// The selected codespace, if any.
    pub fn selected(&self) -> (r: Option<CodespaceView>)
        ensures
            r == (match self.selection() {
                Some(i) => if self.phase() == LoadPhase::Ready && i < self.views().len() {
                    Some(self.views()[i as int])
                } else {
                    None
                },
                None => None,
            }),
    {
        if self.phase != LoadPhase::Ready {
            return None;
        }
        match self.selected_index {
            Some(i) => if i < self.views.len() {
                Some(self.views[i].clone())
            } else {
                None
            },
            None => None,
        }
    }

    /// Moves the selection down one codespace, wrapping to the top; no-op
    /// unless a non-empty list is loaded. No selection counts as the first.
    pub fn select_next(&mut self)
        ensures
            final(self).phase() == old(self).phase(),
            final(self).views() == old(self).views(),
            final(self).filter() == old(self).filter(),
            final(self).selection() == (if old(self).phase() == LoadPhase::Ready && old(self).views().len() > 0 {
                Some(crate::devtunnels_modal::wrap_next(old(self).selection(), old(self).views().len() as int))
            } else {
                old(self).selection()
            }),
    {
        let n = self.views.len();
        if self.phase != LoadPhase::Ready || n == 0 {
            return;
        }
        let idx = match self.selected_index { Some(i) => i, None => 0 };
        proof {
            vstd::arithmetic::div_mod::lemma_add_mod_noop(idx as int, 1, n as int);
            vstd::arithmetic::div_mod::lemma_mod_bound(idx as int, n as int);
            if n > 1 {
                vstd::arithmetic::div_mod::lemma_small_mod(1, n as nat);
            } else {
                assert(((idx % n) + 1) % (n as int) == 0) by (nonlinear_arith) requires n == 1;
                assert((idx + 1) % (n as int) == 0) by (nonlinear_arith) requires n == 1;
            }
        }
        self.selected_index = Some((idx % n + 1) % n);
    }

    /// Moves the selection up one codespace, wrapping to the bottom; no-op
    /// unless a non-empty list is loaded. No selection counts as the first.
    pub fn select_prev(&mut self)
        ensures
            final(self).phase() == old(self).phase(),
            final(self).views() == old(self).views(),
            final(self).filter() == old(self).filter(),
            final(self).selection() == (if old(self).phase() == LoadPhase::Ready && old(self).views().len() > 0 {
                Some(crate::devtunnels_modal::wrap_prev(old(self).selection(), old(self).views().len() as int))
            } else {
                old(self).selection()
            }),
    {
        let n = self.views.len();
        if self.phase != LoadPhase::Ready || n == 0 {
            return;
        }
        let idx = match self.selected_index { Some(i) => i, None => 0 };
        self.selected_index = Some(if idx == 0 { n - 1 } else { idx - 1 });
    }

    /// Sets the filter; the selection stays.
    pub fn set_filter(&mut self, q: String)
        ensures
            final(self).phase() == old(self).phase(),
            final(self).views() == old(self).views(),
            final(self).selection() == old(self).selection(),
            final(self).filter() == q@,
    {
        self.filter_text = q;
    }

    /// The rows to draw and, where the rows decide it, the footer line.
    pub fn render(&self) -> (r: (Vec<(String, bool)>, Option<String>))
        ensures
            r.0@.map_values(|x: (String, bool)| row_view(x))
                == render_spec(self.phase(), self.views(), lowercase(self.filter()), self.selection()).0,
            (match r.1 {
                Some(f) => Some(f@),
                None => None,
            }) == render_spec(self.phase(), self.views(), lowercase(self.filter()), self.selection()).1,
    {
        match self.phase {
            LoadPhase::Loading => {
                let mut rows: Vec<(String, bool)> = Vec::new();
                rows.push((String::from_str(LOADING_CODESPACES), false));
                assert(rows@.map_values(|x: (String, bool)| row_view(x)) =~= seq![(LOADING_CODESPACES@, false)]);
                (rows, None)
            },
            LoadPhase::Failed => {
                let mut rows: Vec<(String, bool)> = Vec::new();
                rows.push((String::from_str(FETCH_FAILED), false));
                assert(rows@.map_values(|x: (String, bool)| row_view(x)) =~= seq![(FETCH_FAILED@, false)]);
                (rows, None)
            },
            LoadPhase::Ready => {
                if self.views.len() == 0 {
                    let mut rows: Vec<(String, bool)> = Vec::new();
                    rows.push((String::from_str(NO_CODESPACES), false));
                    assert(rows@.map_values(|x: (String, bool)| row_view(x)) =~= seq![(NO_CODESPACES@, false)]);
                    (rows, Some(String::from_str(ZERO_CODESPACES)))
                } else {
                    let rows = codespace_rows(&self.views, self.filter_text.as_str(), self.selected_index);
                    (rows, Some(codespace_footer(self.views.len())))
                }
            },
        }
    }
}

} // verus!
