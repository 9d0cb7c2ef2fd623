//! Cmd-F search bar: smart-case regex, a 1000-match cache with a wrapping
//! cursor, and restoring the prior selection when the bar closes.
//!
//! Smart case: an all-lowercase query matches case-insensitively; any
//! uppercase letter makes it case-sensitive. Queries are regexes; a query
//! that is not a valid regex is searched for literally.

use vstd::prelude::*;
use vstd::string::*;
use regex::Regex;

verus! {

/// `regex::Regex`, carried opaquely.
#[verifier::external_type_specification]
#[verifier::external_body]
pub struct ExRegex(regex::Regex);

/// Matches kept in the cache; beyond this the counter reads `1000+`.
pub const MAX_CACHED_MATCHES: usize = 1000;

/// One search hit in the terminal grid.
#[derive(Debug, Clone, Copy, PartialEq, Eq, Structural)]
pub struct Match {
    pub start_row: usize,
    pub start_col: usize,
    pub end_row: usize,
    pub end_col: usize,
}

/// A selection in the grid, as (column, row) cells.
#[derive(Debug, Clone, Copy, PartialEq, Eq)]
pub struct SelectionRange {
    pub anchor: (u16, u16),
    pub cursor: (u16, u16),
}

/// The match total as the counter shows it.
#[derive(Debug, Clone, Copy, PartialEq, Eq, Structural)]
pub enum MatchOverflow {
    Bounded(usize),
    OverThousand,
}

/// Up to 1000 matches of the current query and the active one among them.
pub struct MatchCache {
    pub matches: Vec<Match>,
    pub overflow: MatchOverflow,
    pub active_idx: usize,
}

impl MatchCache {
    /// The cached matches.
    pub open spec fn cached(&self) -> Seq<Match> {
        self.matches@
    }

    /// The match total shown by the counter.
    pub open spec fn total(&self) -> MatchOverflow {
        self.overflow
    }

    /// Position of the active match.
    pub open spec fn active(&self) -> usize {
        self.active_idx
    }

    /// A cache as `from_matches` builds it: at most 1000 matches, the first
    /// active, and the total reading their count, or `1000+` when full.
    pub open spec fn fresh(&self) -> bool {
        &&& self.active() == 0
        &&& (self.total() == MatchOverflow::Bounded(self.cached().len() as usize)
            || (self.total() == MatchOverflow::OverThousand && self.cached().len() == MAX_CACHED_MATCHES))
    }

    /// Caches the first 1000 of `all`; the total reads `Bounded(n)` up to
    /// 1000 matches and `OverThousand` beyond. The first match is active.
    pub fn from_matches(all: Vec<Match>) -> (c: Self)
        ensures
            c.cached() == (if all@.len() > MAX_CACHED_MATCHES {
                all@.subrange(0, MAX_CACHED_MATCHES as int)
            } else {
                all@
            }),
            c.total() == (if all@.len() > MAX_CACHED_MATCHES {
                MatchOverflow::OverThousand
            } else {
                MatchOverflow::Bounded(all@.len() as usize)
            }),
            c.active() == 0,
            c.fresh(),
    {
        let mut all = all;
        let overflow = if all.len() > MAX_CACHED_MATCHES {
            all.truncate(MAX_CACHED_MATCHES);
            MatchOverflow::OverThousand
        } else {
            MatchOverflow::Bounded(all.len())
        };
        MatchCache { matches: all, overflow, active_idx: 0 }
    }

    /// Makes the next match active, wrapping to the first.
    pub fn next(&mut self)
        ensures
            final(self).cached() == old(self).cached(),
            final(self).total() == old(self).total(),
            final(self).active() == (if old(self).cached().len() == 0 {
                old(self).active() as int
            } else {
                (old(self).active() + 1) % (old(self).cached().len() as int)
            }),
    {
        let n = self.matches.len();
        if n > 0 {
            let idx = self.active_idx;
            proof {
                vstd::arithmetic::div_mod::lemma_add_mod_noop(idx as int, 1, n as int);
                vstd::arithmetic::div_mod::lemma_mod_bound(idx as int, n as int);
                if n > 1 {
                    vstd::arithmetic::div_mod::lemma_small_mod(1, n as nat);
                } else {
                    assert(((idx % n) + 1) % (n as int) == 0) by (nonlinear_arith) requires n == 1;
                    assert((idx + 1) % (n as int) == 0) by (nonlinear_arith) requires n == 1;
                }
            }
            self.active_idx = (idx % n + 1) % n;
        }
    }

    /// Makes the previous match active, wrapping to the last.
    pub fn prev(&mut self)
        ensures
            final(self).cached() == old(self).cached(),
            final(self).total() == old(self).total(),
            final(self).active() == (if old(self).cached().len() == 0 {
                old(self).active() as int
            } else if old(self).active() == 0 {
                old(self).cached().len() - 1
            } else {
                old(self).active() - 1
            }),
    {
        let n = self.matches.len();
        if n > 0 {
            self.active_idx = if self.active_idx == 0 { n - 1 } else { self.active_idx - 1 };
        }
    }

    /// The counter: the 1-based active position (0 when there are no
    /// matches) and the match total.
    pub fn counter(&self) -> (r: (usize, MatchOverflow))
        requires
            self.cached().len() == 0 || self.active() < usize::MAX,
        ensures
            r.0 == (if self.cached().len() == 0 { 0 } else { self.active() + 1 }),
            r.1 == self.total(),
    {
        let idx = if self.matches.len() == 0 { 0 } else { self.active_idx + 1 };
        (idx, self.overflow)
    }

    /// The cached matches.
    pub fn matches(&self) -> (m: &[Match])
        ensures
            m@ == self.cached(),
    {
        self.matches.as_slice()
    }
}

/// Unicode uppercase property of a character, as `char::is_uppercase` reports it.
pub uninterp spec fn unicode_uppercase(c: char) -> bool;

/// Calls `char::is_uppercase`; its result is named `unicode_uppercase`.
#[verifier::external_body]
fn char_is_uppercase(c: char) -> (b: bool)
    ensures
        b == unicode_uppercase(c),
{
    c.is_uppercase()
}

/// The characters `regex::escape` escapes: `\ . + * ? ( ) | [ ] { } ^ $ # & - ~`.
pub open spec fn is_regex_meta(c: char) -> bool {
    c == '\\' || c == '.' || c == '+' || c == '*' || c == '?' || c == '(' || c == ')' || c == '|'
        || c == '[' || c == ']' || c == '{' || c == '}' || c == '^' || c == '$' || c == '#'
        || c == '&' || c == '-' || c == '~'
}

/// The pattern `regex::escape` makes of a string: each character in turn,
/// a meta character preceded by a backslash.
pub open spec fn regex_escape(s: Seq<char>) -> Seq<char>
    decreases s.len(),
{
    if s.len() == 0 {
        Seq::empty()
    } else {
        let c = s.last();
        regex_escape(s.drop_last()) + (if is_regex_meta(c) { seq!['\\', c] } else { seq![c] })
    }
}

/// Calls `regex::escape`, which escapes every meta character of its input.
#[verifier::external_body]
fn escape_regex(s: &str) -> (r: String)
    ensures
        r@ == regex_escape(s@),
{
    regex::escape(s)
}

/// Whether `regex::Regex::new` accepts a pattern (it is valid and within the
/// default size limit).
pub uninterp spec fn regex_compiles(pattern: Seq<char>) -> bool;

/// Calls `regex::Regex::new`; it succeeds exactly when `regex_compiles` of
/// the pattern.
#[verifier::external_body]
fn regex_new(pattern: &str) -> (r: Option<Regex>)
    ensures
        r is Some <==> regex_compiles(pattern@),
{
    match Regex::new(pattern) {
        Ok(re) => Some(re),
        Err(_) => None,
    }
}

/// A search regex together with the pattern it was built from. Values are
/// only made by `compile_regex`, with `Regex::new` on that very pattern
/// (default options), so what the regex matches is a function of `source`.
pub struct SearchRegex {
    re: Regex,
    source: String,
}

impl SearchRegex {
    /// The pattern the regex was built from.
    pub closed spec fn source(&self) -> Seq<char> {
        self.source@
    }

    /// The pattern the regex was built from.
    pub fn as_str(&self) -> (s: &str)
        ensures
            s@ == self.source(),
    {
        self.source.as_str()
    }

    /// The compiled regex.
    pub fn regex(&self) -> &Regex {
        &self.re
    }
}

/// Compiles `pattern` with default options; succeeds exactly when
/// `regex_compiles` of the pattern.
pub fn compile_regex(pattern: &str) -> (r: Option<SearchRegex>)
    ensures
        r is Some <==> regex_compiles(pattern@),
        r matches Some(re) ==> re.source() == pattern@,
{
    match regex_new(pattern) {
        Some(re) => Some(SearchRegex { re, source: String::from_str(pattern) }),
        None => None,
    }
}

/// Whether a query holds an uppercase letter.
pub open spec fn has_upper(q: Seq<char>) -> bool {
    exists|i: int| 0 <= i < q.len() && unicode_uppercase(#[trigger] q[i])
}

/// Whether `query` holds an uppercase letter.
pub fn query_has_upper(query: &str) -> (b: bool)
    ensures
        b == has_upper(query@),
{
    let n = query.unicode_len();
    let mut i: usize = 0;
    while i < n
        invariant
            n == query@.len(),
            i <= n,
            forall|j: int| 0 <= j < i ==> !unicode_uppercase(#[trigger] query@[j]),
        decreases n - i,
    {
        if char_is_uppercase(query.get_char(i)) {
            return true;
        }
        i = i + 1;
    }
    false
}

/// The pattern tried first: the query itself when it has an uppercase
/// letter, otherwise the query with the case-insensitive flag `(?i)`.
pub open spec fn smart_case_pattern_spec(q: Seq<char>) -> Seq<char> {
    if has_upper(q) { q } else { "(?i)"@ + q }
}

/// The pattern tried when the first one does not compile: the same with the
/// query escaped, so it is searched for literally.
pub open spec fn smart_case_fallback_spec(q: Seq<char>) -> Seq<char> {
    if has_upper(q) { regex_escape(q) } else { "(?i)"@ + regex_escape(q) }
}

/// One of the two smart-case patterns compiles.
pub open spec fn smart_case_compiles(q: Seq<char>) -> bool {
    regex_compiles(smart_case_pattern_spec(q)) || regex_compiles(smart_case_fallback_spec(q))
}

/// The regex source searched for `query`: the smart-case pattern if it
/// compiles, otherwise the escaped fallback.
pub open spec fn smart_case_source_spec(q: Seq<char>) -> Seq<char> {
    if regex_compiles(smart_case_pattern_spec(q)) { smart_case_pattern_spec(q) } else { smart_case_fallback_spec(q) }
}

/// The smart-case pattern for `query`.
pub fn smart_case_pattern(query: &str) -> (p: String)
    ensures
        p@ == smart_case_pattern_spec(query@),
{
    if query_has_upper(query) {
        String::from_str(query)
    } else {
        let mut p = String::from_str("(?i)");
        p.append(query);
        p
    }
}

/// The escaped smart-case pattern for `query`.
pub fn smart_case_fallback(query: &str) -> (p: String)
    ensures
        p@ == smart_case_fallback_spec(query@),
{
    let escaped = escape_regex(query);
    if query_has_upper(query) {
        escaped
    } else {
        let mut p = String::from_str("(?i)");
        p.append(escaped.as_str());
        p
    }
}

/// The compiled smart-case regex for `query`, or `None` when neither the
/// pattern nor its escaped fallback compiles.
pub fn smart_case_regex_checked(query: &str) -> (r: Option<SearchRegex>)
    ensures
        r is Some <==> smart_case_compiles(query@),
        r matches Some(re) ==> re.source() == smart_case_source_spec(query@),
{
    let p = smart_case_pattern(query);
    match compile_regex(p.as_str()) {
        Some(re) => Some(re),
        None => {
            let f = smart_case_fallback(query);
            compile_regex(f.as_str())
        },
    }
}

/// The compiled smart-case regex for `query`.
pub fn smart_case_regex(query: &str) -> (re: SearchRegex)
    requires
        smart_case_compiles(query@),
    ensures
        re.source() == smart_case_source_spec(query@),
{
    match smart_case_regex_checked(query) {
        Some(re) => re,
        None => vstd::pervasive::unreached(),
    }
}

/// The matches a cache keeps of `all`: the first 1000.
pub open spec fn capped(all: Seq<Match>) -> Seq<Match> {
    if all.len() > MAX_CACHED_MATCHES { all.subrange(0, MAX_CACHED_MATCHES as int) } else { all }
}

/// Where search hits come from: the terminal grid.
pub trait MatchSource {
    /// Every hit, in grid order, of the regex built from `pattern`.
    spec fn hits(&self, pattern: Seq<char>) -> Seq<Match>;

    /// The hits of `re`.
    fn search(&self, re: &SearchRegex) -> (m: Vec<Match>)
        ensures
            m@ == self.hits(re.source());
}

/// Byte ranges `(start, end)`, left to right, of the non-overlapping
/// matches of the regex built from `pattern` in `hay`, as `Regex::find_iter`
/// reports them.
pub uninterp spec fn regex_spans(pattern: Seq<char>, hay: Seq<char>) -> Seq<(usize, usize)>;

/// Calls `Regex::find_iter` on `hay`, keeping each match's start and end;
/// the regex was built by `Regex::new` from `re.source()`, so the result is
/// named `regex_spans` of that pattern and `hay`.
#[verifier::external_body]
fn find_spans(re: &SearchRegex, hay: &str) -> (r: Vec<(usize, usize)>)
    ensures
        r@ == regex_spans(re.source(), hay@),
{
    re.re.find_iter(hay).map(|m| (m.start(), m.end())).collect()
}

/// The hits on row `row` whose byte ranges are `spans`.
pub open spec fn row_hits(row: usize, spans: Seq<(usize, usize)>) -> Seq<Match> {
    Seq::new(spans.len(), |k: int| Match { start_row: row, start_col: spans[k].0, end_row: row, end_col: spans[k].1 })
}

/// The hits of the regex built from `pattern` over `rows`, row by row.
pub open spec fn grid_hits(rows: Seq<String>, pattern: Seq<char>) -> Seq<Match>
    decreases rows.len(),
{
    if rows.len() == 0 {
        Seq::empty()
    } else {
        grid_hits(rows.drop_last(), pattern)
            + row_hits((rows.len() - 1) as usize, regex_spans(pattern, rows.last()@))
    }
}

/// A grid of plain text rows; a hit's columns are byte offsets in its row.
pub struct GridText {
    pub rows: Vec<String>,
}

impl MatchSource for GridText {
    open spec fn hits(&self, pattern: Seq<char>) -> Seq<Match> {
        grid_hits(self.rows@, pattern)
    }

    fn search(&self, re: &SearchRegex) -> (m: Vec<Match>) {
        let mut out: Vec<Match> = Vec::new();
        let mut r: usize = 0;
        while r < self.rows.len()
            invariant
                r <= self.rows@.len(),
                out@ == grid_hits(self.rows@.subrange(0, r as int), re.source()),
            decreases self.rows@.len() - r,
        {
            let spans = find_spans(re, self.rows[r].as_str());
            let ghost before = out@;
            let mut k: usize = 0;
            while k < spans.len()
                invariant
                    k <= spans@.len(),
                    out@ == before + row_hits(r, spans@).subrange(0, k as int),
                decreases spans@.len() - k,
            {
                let (s, e) = spans[k];
                out.push(Match { start_row: r, start_col: s, end_row: r, end_col: e });
                k = k + 1;
                assert(row_hits(r, spans@).subrange(0, k as int)
                    =~= row_hits(r, spans@).subrange(0, k - 1).push(row_hits(r, spans@)[k - 1]));
            }
            proof {
                let rows = self.rows@.subrange(0, r + 1);
                assert(rows.drop_last() =~= self.rows@.subrange(0, r as int));
                assert(row_hits(r, spans@).subrange(0, spans@.len() as int) =~= row_hits(r, spans@));
            }
            r = r + 1;
        }
        assert(self.rows@.subrange(0, self.rows@.len() as int) =~= self.rows@);
        out
    }
}

/// The search bar's state.
pub struct SearchBar {
    pub query: String,
    pub cache: Option<MatchCache>,
    pub saved_selection: Option<SelectionRange>,
    pub open: bool,
}

/// `post` is `pre` after opening with `prior` selected.
pub open spec fn opened_with(pre: SearchBar, post: SearchBar, prior: Option<SelectionRange>) -> bool {
    &&& post.open
    &&& post.saved_selection == prior
    &&& post.query@.len() == 0
    &&& post.cache is None
}

/// `post` is `pre` after closing, and `restored` is what closing hands back.
pub open spec fn closed_from(pre: SearchBar, post: SearchBar, restored: Option<SelectionRange>) -> bool {
    &&& !post.open
    &&& post.query@.len() == 0
    &&& post.cache is None
    &&& post.saved_selection is None
    &&& restored == pre.saved_selection
}

impl Default for SearchBar {
    fn default() -> (b: Self)
        ensures
            !b.open,
            b.query@.len() == 0,
            b.cache is None,
            b.saved_selection is None,
    {
        SearchBar { query: String::new(), cache: None, saved_selection: None, open: false }
    }
}

impl SearchBar {
    /// Opens the bar, remembering the selection it covers.
    pub fn open_with(&mut self, prior_selection: Option<SelectionRange>)
        ensures
            opened_with(*old(self), *final(self), prior_selection),
    {
        self.open = true;
        self.saved_selection = prior_selection;
        self.query = String::new();
        self.cache = None;
    }

    /// Closes the bar; returns the saved selection so the caller can restore it.
    pub fn close(&mut self) -> (restored: Option<SelectionRange>)
        ensures
            closed_from(*old(self), *final(self), restored),
    {
        self.open = false;
        self.query = String::new();
        self.cache = None;
        let restored = self.saved_selection;
        self.saved_selection = None;
        restored
    }

    /// Sets the query; an empty query clears the cache, otherwise the grid
    /// is searched with the smart-case regex and the hits are cached.
    pub fn set_query<T: MatchSource>(&mut self, q: &str, term: &T)
        requires
            q@.len() == 0 || smart_case_compiles(q@),
        ensures
            final(self).query@ == q@,
            final(self).open == old(self).open,
            final(self).saved_selection == old(self).saved_selection,
            q@.len() == 0 <==> final(self).cache is None,
            final(self).cache matches Some(c) ==> c.fresh()
                && c.cached() == capped(term.hits(smart_case_source_spec(q@))),
    {
        self.query = String::from_str(q);
        if q.unicode_len() == 0 {
            self.cache = None;
            return;
        }
        let re = smart_case_regex(q);
        let matches = term.search(&re);
        self.cache = Some(MatchCache::from_matches(matches));
    }

    /// `set_query` when a regex can be built for `q`; returns whether it was.
    /// (Otherwise nothing changes.)
    pub fn try_set_query<T: MatchSource>(&mut self, q: &str, term: &T) -> (ok: bool)
        ensures
            ok == (q@.len() == 0 || smart_case_compiles(q@)),
            ok ==> final(self).query@ == q@,
            ok ==> (q@.len() == 0 <==> final(self).cache is None),
            ok ==> (final(self).cache matches Some(c) ==> c.fresh()
                && c.cached() == capped(term.hits(smart_case_source_spec(q@)))),
            !ok ==> *final(self) == *old(self),
            final(self).open == old(self).open,
            final(self).saved_selection == old(self).saved_selection,
    {
        if q.unicode_len() != 0 {
            if smart_case_regex_checked(q).is_none() {
                return false;
            }
        }
        self.set_query(q, term);
        true
    }
}

/// Closing the bar right after opening it hands back the selection it was
/// opened over (Esc restores the prior selection).
pub proof fn lemma_close_after_open_restores(
    a: SearchBar,
    b: SearchBar,
    c: SearchBar,
    prior: Option<SelectionRange>,
    restored: Option<SelectionRange>,
)
    requires
        opened_with(a, b, prior),
        closed_from(b, c, restored),
    ensures
        restored == prior,
        !c.open,
{
}

/// Smart case: a query with an uppercase character anywhere, first to last,
/// is searched as typed (case-sensitively); a query with none is searched
/// with the case-insensitive flag. In particular appending an uppercase
/// character makes any query case-sensitive.
pub proof fn lemma_smart_case_follows_any_uppercase(q: Seq<char>, i: int, c: char)
    ensures
        0 <= i < q.len() && unicode_uppercase(q[i]) ==> smart_case_pattern_spec(q) == q,
        (forall|j: int| 0 <= j < q.len() ==> !unicode_uppercase(#[trigger] q[j]))
            ==> smart_case_pattern_spec(q) == "(?i)"@ + q,
        unicode_uppercase(c) ==> smart_case_pattern_spec(q.push(c)) == q.push(c),
{
    if unicode_uppercase(c) {
        assert(q.push(c)[q.len() as int] == c);
    }
}

} // verus!
