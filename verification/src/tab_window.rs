//! Window-resize bookkeeping: the grid size a surface holds, and the
//! debounce that forwards a resize to the panes only once the window has
//! stopped changing for 50 ms.

use vstd::prelude::*;

verus! {

/// A pending resize is forwarded once it is this old (ms).
pub const RESIZE_DEBOUNCE_MS: u64 = 50;

/// Whole cells of size `cell` that fit in `px` pixels, at least 1, clamped
/// to `u16` (a zero cell size counts as 1 px).
pub open spec fn cells_spec(px: u32, cell: u32) -> u16 {
    let c: int = if cell == 0 { 1 } else { cell as int };
    let n: int = px as int / c;
    let n1: int = if n < 1 { 1 } else { n };
    if n1 > u16::MAX { u16::MAX } else { n1 as u16 }
}

/// Rows and columns of cells that fit in a `width_px` x `height_px` surface.
pub fn grid_dims(width_px: u32, height_px: u32, cell_w: u32, cell_h: u32) -> (r: (u16, u16))
    ensures
        r == (cells_spec(height_px, cell_h), cells_spec(width_px, cell_w)),
{
    (cells(height_px, cell_h), cells(width_px, cell_w))
}

fn cells(px: u32, cell: u32) -> (n: u16)
    ensures
        n == cells_spec(px, cell),
{
    let c = if cell == 0 { 1 } else { cell };
    let q = px / c;
    let q1 = if q < 1 { 1 } else { q };
    if q1 > u16::MAX as u32 { u16::MAX } else { q1 as u16 }
}

/// The latest window size not yet forwarded to the panes, and when it arrived.
pub struct ResizeDebounce {
    pub last_resize_at_ms: Option<u64>,
    pub pending: Option<(u16, u16)>,
}

/// `post` is `pre` after a resize to `rows` x `cols` was recorded at `now_ms`.
pub open spec fn resize_recorded(pre: ResizeDebounce, post: ResizeDebounce, rows: u16, cols: u16, now_ms: u64) -> bool {
    &&& post.pending == Some((rows, cols))
    &&& post.last_resize_at_ms == Some(now_ms)
}

/// `post` is `pre` after asking at `now_ms` for a quiescent resize, and `r`
/// is the answer: the pending size once it is at least 50 ms old (it then
/// stops being pending), otherwise nothing and no change.
pub open spec fn resize_taken(pre: ResizeDebounce, post: ResizeDebounce, now_ms: u64, r: Option<(u16, u16)>) -> bool {
    match (pre.last_resize_at_ms, pre.pending) {
        (Some(at), Some(size)) => if now_ms >= at && now_ms - at >= RESIZE_DEBOUNCE_MS {
            &&& r == Some(size)
            &&& post.pending is None
            &&& post.last_resize_at_ms is None
        } else {
            &&& r is None
            &&& post == pre
        },
        _ => {
            &&& r is None
            &&& post == pre
        },
    }
}

impl ResizeDebounce {
    /// Nothing pending.
    pub fn new() -> (d: Self)
        ensures
            d.last_resize_at_ms is None,
            d.pending is None,
    {
        ResizeDebounce { last_resize_at_ms: None, pending: None }
    }

    /// Records a resize to `rows` x `cols` at `now_ms`, replacing any pending one.
    pub fn record(&mut self, rows: u16, cols: u16, now_ms: u64)
        ensures
            resize_recorded(*old(self), *final(self), rows, cols, now_ms),
    {
        self.pending = Some((rows, cols));
        self.last_resize_at_ms = Some(now_ms);
    }

    /// The pending size, if it arrived at least 50 ms before `now_ms`; it is
    /// then no longer pending. Otherwise nothing changes.
    pub fn take_if_quiescent(&mut self, now_ms: u64) -> (r: Option<(u16, u16)>)
        ensures
            resize_taken(*old(self), *final(self), now_ms, r),
    {
        match (self.last_resize_at_ms, self.pending) {
            (Some(at), Some(size)) => {
                if now_ms >= at && now_ms - at >= RESIZE_DEBOUNCE_MS {
                    self.pending = None;
                    self.last_resize_at_ms = None;
                    Some(size)
                } else {
                    None
                }
            },
            _ => None,
        }
    }
}

/// A burst of resizes is forwarded as its last size, once the window has
/// been still for 50 ms, and only once: asking again forwards nothing.
pub proof fn lemma_latest_resize_forwarded_once(
    d0: ResizeDebounce,
    d1: ResizeDebounce,
    d2: ResizeDebounce,
    d3: ResizeDebounce,
    d4: ResizeDebounce,
    first: (u16, u16),
    last: (u16, u16),
    t1: u64,
    t2: u64,
    now: u64,
    later: u64,
    r: Option<(u16, u16)>,
    r_again: Option<(u16, u16)>,
)
    requires
        resize_recorded(d0, d1, first.0, first.1, t1),
        resize_recorded(d1, d2, last.0, last.1, t2),
        resize_taken(d2, d3, now, r),
        resize_taken(d3, d4, later, r_again),
        now >= t2,
        now - t2 >= RESIZE_DEBOUNCE_MS,
    ensures
        r == Some(last),
        r_again is None,
{
}

/// While the window is still changing (the last resize is under 50 ms
/// old), nothing is forwarded and the pending size is kept.
pub proof fn lemma_no_resize_before_quiescence(
    d0: ResizeDebounce,
    d1: ResizeDebounce,
    d2: ResizeDebounce,
    size: (u16, u16),
    t: u64,
    now: u64,
    r: Option<(u16, u16)>,
)
    requires
        resize_recorded(d0, d1, size.0, size.1, t),
        resize_taken(d1, d2, now, r),
        now < t || now - t < RESIZE_DEBOUNCE_MS,
    ensures
        r is None,
        d2.pending == Some(size),
{
}

} // verus!
