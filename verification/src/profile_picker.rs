//! Cmd-Shift-P profile picker: fuzzy-ranked profile names.

use vstd::prelude::*;
use vstd::string::*;
use fuzzy_matcher::skim::SkimMatcherV2;
use fuzzy_matcher::FuzzyMatcher;
use crate::config::Kind;

verus! {

#[derive(Debug)]
pub struct PickerEntry {
    pub name: String,
    pub kind: Kind,
}

impl Clone for PickerEntry {
    fn clone(&self) -> (r: Self)
        ensures
            r == *self,
    {
        PickerEntry { name: self.name.clone(), kind: self.kind }
    }
}

/// Score that `fuzzy_matcher`'s default skim matcher (v2) gives `choice`
/// for `pattern`; `None` when the pattern does not match.
pub uninterp spec fn skim_score(choice: Seq<char>, pattern: Seq<char>) -> Option<i64>;

/// Calls `SkimMatcherV2::default().fuzzy_match(choice, pattern)`; its result
/// is named `skim_score` of the two strings.
#[verifier::external_body]
fn skim_fuzzy_match(choice: &str, pattern: &str) -> (r: Option<i64>)
    ensures
        r == skim_score(choice@, pattern@),
{
    SkimMatcherV2::default().fuzzy_match(choice, pattern)
}

/// The score of entry `i` for `query`.
pub open spec fn entry_score(entries: Seq<PickerEntry>, query: Seq<char>, i: int) -> Option<i64> {
    skim_score(entries[i].name@, query)
}

/// `ranked` lists exactly the entries that match `query`, each once, best
/// score first (entries with equal scores may come in any order).
pub open spec fn is_ranking(entries: Seq<PickerEntry>, query: Seq<char>, ranked: Seq<usize>) -> bool {
    &&& forall|k: int| 0 <= k < ranked.len() ==> {
        &&& #[trigger] ranked[k] < entries.len()
        &&& entry_score(entries, query, ranked[k] as int) is Some
    }
    &&& forall|i: int| 0 <= i < entries.len() && (#[trigger] entry_score(entries, query, i)) is Some
        ==> ranked.contains(i as usize)
    &&& ranked.no_duplicates()
    &&& forall|a: int, b: int| 0 <= a < b < ranked.len()
        ==> entry_score(entries, query, ranked[a] as int)->0 >= entry_score(entries, query, ranked[b] as int)->0
}

/// Indices of the entries that match `query`, highest score first.
pub fn rank_profiles(entries: &Vec<PickerEntry>, query: &str) -> (ranked: Vec<usize>)
    ensures
        is_ranking(entries@, query@, ranked@),
{
    // (score, index) pairs, kept sorted by descending score.
    let mut scored: Vec<(i64, usize)> = Vec::new();
    let mut i: usize = 0;
    while i < entries.len()
        invariant
            i <= entries@.len(),
            forall|k: int| 0 <= k < scored@.len() ==> {
                &&& (#[trigger] scored@[k]).1 < i
                &&& entry_score(entries@, query@, scored@[k].1 as int) == Some(scored@[k].0)
            },
            forall|j: int| 0 <= j < i && (#[trigger] entry_score(entries@, query@, j)) is Some
                ==> exists|k: int| 0 <= k < scored@.len() && (#[trigger] scored@[k]).1 == j,
            forall|a: int, b: int| 0 <= a < b < scored@.len() ==> scored@[a].1 != scored@[b].1,
            forall|a: int, b: int| 0 <= a < b < scored@.len() ==> scored@[a].0 >= scored@[b].0,
        decreases entries@.len() - i,
    {
        match skim_fuzzy_match(entries[i].name.as_str(), query) {
            Some(s) => {
                let mut j: usize = 0;
                while j < scored.len() && scored[j].0 >= s
                    invariant
                        j <= scored@.len(),
                        forall|k: int| 0 <= k < j ==> scored@[k].0 >= s,
                    decreases scored@.len() - j,
                {
                    j = j + 1;
                }
                let ghost before = scored@;
                scored.insert(j, (s, i));
                assert forall|a: int, b: int| 0 <= a < b < scored@.len() implies scored@[a].0 >= scored@[b].0 by {
                    if b < j {
                    } else if a < j && b == j {
                    } else if a < j {
                        assert(before[a].0 >= before[b - 1].0);
                    } else if a == j {
                        if j < before.len() {
                            assert(before[j as int].0 < s);
                            assert(before[j as int].0 >= before[b - 1].0);
                        }
                    } else {
                        assert(before[a - 1].0 >= before[b - 1].0);
                    }
                }
                assert forall|a: int, b: int| 0 <= a < b < scored@.len() implies scored@[a].1 != scored@[b].1 by {
                    if a == j {
                        assert(scored@[b].1 == before[b - 1].1);
                    } else if b == j {
                        assert(scored@[a].1 == before[a].1);
                    } else {
                        let a0 = if a < j { a } else { a - 1 };
                        let b0 = if b < j { b } else { b - 1 };
                        assert(scored@[a].1 == before[a0].1);
                        assert(scored@[b].1 == before[b0].1);
                    }
                }
                assert forall|jj: int| 0 <= jj < i + 1 && (#[trigger] entry_score(entries@, query@, jj)) is Some
                    implies exists|k: int| 0 <= k < scored@.len() && (#[trigger] scored@[k]).1 == jj by {
                    if jj == i {
                        assert(scored@[j as int].1 == jj);
                    } else {
                        let k0 = choose|k: int| 0 <= k < before.len() && (#[trigger] before[k]).1 == jj;
                        if k0 < j {
                            assert(scored@[k0].1 == jj);
                        } else {
                            assert(scored@[k0 + 1].1 == jj);
                        }
                    }
                }
            },
            None => {},
        }
        i = i + 1;
    }
    let mut ranked: Vec<usize> = Vec::new();
    let mut k: usize = 0;
    while k < scored.len()
        invariant
            k <= scored@.len(),
            ranked@.len() == k,
            forall|t: int| 0 <= t < k ==> #[trigger] ranked@[t] == scored@[t].1,
        decreases scored@.len() - k,
    {
        ranked.push(scored[k].1);
        k = k + 1;
    }
    assert forall|jj: int| 0 <= jj < entries@.len() && (#[trigger] entry_score(entries@, query@, jj)) is Some
        implies ranked@.contains(jj as usize) by {
        let k0 = choose|k: int| 0 <= k < scored@.len() && (#[trigger] scored@[k]).1 == jj;
        assert(ranked@[k0] == jj as usize);
    }
    assert forall|a: int, b: int| 0 <= a < b < ranked@.len() implies
        entry_score(entries@, query@, ranked@[a] as int)->0 >= entry_score(entries@, query@, ranked@[b] as int)->0 by {
        assert(scored@[a].0 >= scored@[b].0);
    }
    ranked
}

/// The entries that match `query`, highest score first.
pub fn match_profiles<'a>(entries: &'a Vec<PickerEntry>, query: &str) -> (r: Vec<&'a PickerEntry>)
    ensures
        exists|ranked: Seq<usize>| #![trigger is_ranking(entries@, query@, ranked)] {
            &&& is_ranking(entries@, query@, ranked)
            &&& r@.len() == ranked.len()
            &&& forall|k: int| 0 <= k < ranked.len() ==> *r@[k] == entries@[#[trigger] ranked[k] as int]
        },
{
    let ranked = rank_profiles(entries, query);
    let mut out: Vec<&'a PickerEntry> = Vec::new();
    let mut k: usize = 0;
    while k < ranked.len()
        invariant
            k <= ranked@.len(),
            is_ranking(entries@, query@, ranked@),
            out@.len() == k,
            forall|t: int| 0 <= t < k ==> *out@[t] == entries@[#[trigger] ranked@[t] as int],
        decreases ranked@.len() - k,
    {
        out.push(&entries[ranked[k]]);
        k = k + 1;
    }
    out
}


/// `0, 1, ..., n - 1`.
pub open spec fn all_indices(n: int) -> Seq<usize> {
    Seq::new(n as nat, |i: int| i as usize)
}

/// `0, 1, ..., n - 1` as a vector.
fn index_range(n: usize) -> (r: Vec<usize>)
    ensures
        r@ == all_indices(n as int),
{
    let mut r: Vec<usize> = Vec::new();
    let mut i: usize = 0;
    while i < n
        invariant
            i <= n,
            r@ == all_indices(i as int),
        decreases n - i,
    {
        r.push(i);
        i = i + 1;
        assert(r@ =~= all_indices(i as int));
    }
    r
}

/// Position of the first entry named `name` (the length when there is none).
pub open spec fn first_named(entries: Seq<PickerEntry>, name: Seq<char>) -> int
    decreases entries.len(),
{
    if entries.len() == 0 {
        0
    } else if entries[0].name@ == name {
        0
    } else {
        1 + first_named(entries.drop_first(), name)
    }
}

proof fn lemma_first_named_of_member(entries: Seq<PickerEntry>, i: int)
    requires
        0 <= i < entries.len(),
    ensures
        0 <= first_named(entries, entries[i].name@) <= i,
        entries[first_named(entries, entries[i].name@)].name@ == entries[i].name@,
    decreases entries.len(),
{
    if entries[0].name@ != entries[i].name@ {
        lemma_first_named_of_member(entries.drop_first(), i - 1);
    }
}

/// The position of the first entry with the same name as entry `i`.
fn first_with_same_name(entries: &Vec<PickerEntry>, i: usize) -> (p: usize)
    requires
        i < entries@.len(),
    ensures
        p as int == first_named(entries@, entries@[i as int].name@),
        p <= i,
{
    proof { lemma_first_named_of_member(entries@, i as int); }
    assert(entries@.subrange(0, entries@.len() as int) =~= entries@);
    let mut p: usize = 0;
    while p < i
        invariant
            p <= i < entries@.len(),
            first_named(entries@, entries@[i as int].name@)
                == p + first_named(entries@.subrange(p as int, entries@.len() as int), entries@[i as int].name@),
        decreases i - p,
    {
        let ghost rest = entries@.subrange(p as int, entries@.len() as int);
        assert(rest.drop_first() =~= entries@.subrange(p + 1, entries@.len() as int));
        if entries[p].name == entries[i].name {
            return p;
        }
        p = p + 1;
    }
    let ghost rest = entries@.subrange(p as int, entries@.len() as int);
    assert(rest[0] == entries@[i as int]);
    p
}

/// The Cmd-Shift-P picker's state.
pub struct ProfilePicker {
    pub entries: Vec<PickerEntry>,
    pub query: String,
    /// Positions in `entries` of the rows shown, in display order.
    pub filtered: Vec<usize>,
    /// Position of the active row among the shown rows.
    pub selected_idx: usize,
    pub open: bool,
}

/// Row label: local profiles show their name; codespace and dev-tunnel
/// profiles add a `  Phase 6+` suffix.
pub open spec fn row_label_spec(e: PickerEntry) -> Seq<char> {
    match e.kind {
        Kind::Local => e.name@,
        _ => e.name@ + "  Phase 6+"@,
    }
}

impl ProfilePicker {
    /// Every shown row refers to an entry.
    pub open spec fn wf(&self) -> bool {
        forall|k: int| 0 <= k < self.filtered@.len() ==> #[trigger] self.filtered@[k] < self.entries@.len()
    }

    /// A closed picker over `entries`, showing all of them.
    pub fn new(entries: Vec<PickerEntry>) -> (p: Self)
        ensures
            p.entries@ == entries@,
            p.query@.len() == 0,
            p.filtered@ == all_indices(entries@.len() as int),
            p.selected_idx == 0,
            !p.open,
            p.wf(),
    {
        let n = entries.len();
        ProfilePicker {
            entries,
            query: String::new(),
            filtered: index_range(n),
            selected_idx: 0,
            open: false,
        }
    }

    /// Opens the picker with an empty query, every entry shown and the first row active.
    pub fn open(&mut self)
        ensures
            final(self).entries@ == old(self).entries@,
            final(self).open,
            final(self).query@.len() == 0,
            final(self).filtered@ == all_indices(old(self).entries@.len() as int),
            final(self).selected_idx == 0,
            final(self).wf(),
    {
        self.open = true;
        self.query = String::new();
        self.filtered = index_range(self.entries.len());
        self.selected_idx = 0;
    }

    /// Closes the picker, keeping its query and rows.
    pub fn close(&mut self)
        ensures
            !final(self).open,
            final(self).entries@ == old(self).entries@,
            final(self).query@ == old(self).query@,
            final(self).filtered@ == old(self).filtered@,
            final(self).selected_idx == old(self).selected_idx,
    {
        self.open = false;
    }

    /// Sets the query and re-filters: an empty query shows every entry;
    /// otherwise the fuzzy matches, best first, each shown as the first entry
    /// bearing its name. The first row becomes active.
    pub fn set_query(&mut self, q: &str)
        ensures
            final(self).entries@ == old(self).entries@,
            final(self).query@ == q@,
            final(self).open == old(self).open,
            final(self).selected_idx == 0,
            final(self).wf(),
            q@.len() == 0 ==> final(self).filtered@ == all_indices(old(self).entries@.len() as int),
            q@.len() != 0 ==> exists|ranked: Seq<usize>| #![trigger is_ranking(old(self).entries@, q@, ranked)] {
                &&& is_ranking(old(self).entries@, q@, ranked)
                &&& final(self).filtered@.len() == ranked.len()
                &&& forall|k: int| 0 <= k < ranked.len() ==> #[trigger] final(self).filtered@[k] as int
                    == first_named(old(self).entries@, old(self).entries@[ranked[k] as int].name@)
            },
    {
        self.query = String::from_str(q);
        if q.unicode_len() == 0 {
            self.filtered = index_range(self.entries.len());
        } else {
            let ranked = rank_profiles(&self.entries, q);
            let mut filtered: Vec<usize> = Vec::new();
            let mut k: usize = 0;
            while k < ranked.len()
                invariant
                    k <= ranked@.len(),
                    is_ranking(self.entries@, q@, ranked@),
                    filtered@.len() == k,
                    forall|t: int| 0 <= t < k ==> #[trigger] filtered@[t] as int
                        == first_named(self.entries@, self.entries@[ranked@[t] as int].name@),
                    forall|t: int| 0 <= t < k ==> #[trigger] filtered@[t] < self.entries@.len(),
                decreases ranked@.len() - k,
            {
                let r = ranked[k];
                let p = first_with_same_name(&self.entries, r);
                filtered.push(p);
                k = k + 1;
            }
            self.filtered = filtered;
        }
        self.selected_idx = 0;
    }

    /// Label of the shown row at `filtered_idx`.
    pub fn row_label(&self, filtered_idx: usize) -> (s: String)
        requires
            filtered_idx < self.filtered@.len(),
            self.wf(),
        ensures
            s@ == row_label_spec(self.entries@[self.filtered@[filtered_idx as int] as int]),
    {
        let entry = &self.entries[self.filtered[filtered_idx]];
        match entry.kind {
            Kind::Local => entry.name.clone(),
            _ => {
                let mut s = entry.name.clone();
                s.append("  Phase 6+");
                s
            },
        }
    }

    /// The active row's entry, if the active position is shown.
    pub fn select_active(&self) -> (r: Option<&PickerEntry>)
        requires
            self.wf(),
        ensures
            r == (if self.selected_idx < self.filtered@.len() {
                Some(&self.entries@[self.filtered@[self.selected_idx as int] as int])
            } else {
                None::<&PickerEntry>
            }),
    {
        if self.selected_idx < self.filtered.len() {
            Some(&self.entries[self.filtered[self.selected_idx]])
        } else {
            None
        }
    }
}

} // verus!
