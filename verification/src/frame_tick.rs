//! PTY-burst coalescing and frame pacing. Output is drained once per ~8 ms
//! tick, or as soon as the pending bytes cross a size threshold; Low Power
//! Mode stretches the tick to ~33 ms (30 fps).

use vstd::prelude::*;
use std::sync::Arc;
use std::sync::atomic::AtomicBool;

verus! {

/// Pending-byte count at which the drain task is woken immediately.
pub const COALESCE_THRESHOLD: usize = 8192;
/// Tick period at full rate, in ms.
pub const TICK_FAST_MS: u64 = 8;
/// Tick period under Low Power Mode, in ms.
pub const TICK_SLOW_MS: u64 = 33;

/// Tick period for a Low Power Mode flag value.
pub open spec fn period_spec(lpm_on: bool) -> u64 {
    if lpm_on { TICK_SLOW_MS } else { TICK_FAST_MS }
}

/// Tick period in ms for the given Low Power Mode state.
pub fn frame_period_for(lpm_on: bool) -> (ms: u64)
    ensures
        ms == period_spec(lpm_on),
{
    if lpm_on { TICK_SLOW_MS } else { TICK_FAST_MS }
}

/// Tick period in ms for the shared Low Power Mode flag as it reads now.
/// The flag is written by another thread, so which of the two periods comes
/// back depends on when it is read.
pub fn frame_period_ms(lpm: &Arc<AtomicBool>) -> (ms: u64)
    ensures
        ms == TICK_FAST_MS || ms == TICK_SLOW_MS,
{
    let on = lpm.load(std::sync::atomic::Ordering::Relaxed);
    frame_period_for(on)
}

/// Whether a tick `elapsed_ms` after the previous drain should drain: only
/// once a whole period has passed.
pub fn should_drain(elapsed_ms: u64, lpm_on: bool) -> (b: bool)
    ensures
        b == (elapsed_ms >= period_spec(lpm_on)),
{
    elapsed_ms >= frame_period_for(lpm_on)
}

/// Bytes read from a pane's PTY that have not been drained yet.
pub struct CoalesceBuffer {
    buf: Vec<u8>,
    threshold: usize,
}

impl View for CoalesceBuffer {
    type V = Seq<u8>;

    closed spec fn view(&self) -> Seq<u8> {
        self.buf@
    }
}

impl CoalesceBuffer {
    /// The byte count that wakes the drain task.
    pub closed spec fn threshold(&self) -> usize {
        self.threshold
    }

    /// An empty buffer that asks for a wake-up at `threshold` bytes.
    pub fn new(threshold: usize) -> (b: Self)
        ensures
            b@ == Seq::<u8>::empty(),
            b.threshold() == threshold,
    {
        CoalesceBuffer { buf: Vec::new(), threshold }
    }

    /// Appends `chunk`; returns whether the pending bytes now reach the
    /// threshold, i.e. whether the drain task must be woken.
    pub fn push(&mut self, chunk: &[u8]) -> (wake: bool)
        requires
            old(self)@.len() + chunk@.len() <= usize::MAX,
        ensures
            final(self)@ == old(self)@ + chunk@,
            final(self).threshold() == old(self).threshold(),
            wake == (final(self)@.len() >= final(self).threshold()),
    {
        let mut i: usize = 0;
        while i < chunk.len()
            invariant
                i <= chunk@.len(),
                self.buf@ == old(self)@ + chunk@.subrange(0, i as int),
                self.threshold == old(self).threshold(),
            decreases chunk@.len() - i,
        {
            self.buf.push(chunk[i]);
            i = i + 1;
            assert(chunk@.subrange(0, i as int) =~= chunk@.subrange(0, (i - 1) as int).push(chunk@[i - 1]));
        }
        assert(chunk@.subrange(0, chunk@.len() as int) =~= chunk@);
        self.buf.len() >= self.threshold
    }

    /// Takes every pending byte, leaving the buffer empty.
    pub fn drain(&mut self) -> (out: Vec<u8>)
        ensures
            out@ == old(self)@,
            final(self)@ == Seq::<u8>::empty(),
            final(self).threshold() == old(self).threshold(),
    {
        if self.buf.len() == 0 {
            return Vec::new();
        }
        let mut out: Vec<u8> = Vec::new();
        std::mem::swap(&mut out, &mut self.buf);
        out
    }

    /// How many bytes are pending.
    pub fn len(&self) -> (n: usize)
        ensures
            n == self@.len(),
    {
        self.buf.len()
    }

    /// Whether nothing is pending.
    pub fn is_empty(&self) -> (b: bool)
        ensures
            b == (self@.len() == 0),
    {
        self.buf.len() == 0
    }

    /// A copy of the pending bytes, leaving them pending.
    pub fn peek_snapshot(&self) -> (out: Vec<u8>)
        ensures
            out@ == self@,
    {
        let mut out: Vec<u8> = Vec::new();
        let mut i: usize = 0;
        while i < self.buf.len()
            invariant
                i <= self.buf@.len(),
                out@ == self.buf@.subrange(0, i as int),
            decreases self.buf@.len() - i,
        {
            out.push(self.buf[i]);
            i = i + 1;
        }
        out
    }
}

/// The bytes held after the first `n` pushes, starting empty, are the
/// first `n` chunks in order.
proof fn lemma_pushed_prefix(bufs: Seq<CoalesceBuffer>, chunks: Seq<Seq<u8>>, n: int)
    requires
        bufs.len() == chunks.len() + 1,
        bufs[0]@ == Seq::<u8>::empty(),
        forall|i: int| 0 <= i < chunks.len() ==> #[trigger] bufs[i + 1]@ == bufs[i]@ + chunks[i],
        0 <= n <= chunks.len(),
    ensures
        bufs[n]@ == chunks.take(n).flatten_alt(),
    decreases n,
{
    if n > 0 {
        lemma_pushed_prefix(bufs, chunks, n - 1);
        assert(chunks.take(n).drop_last() =~= chunks.take(n - 1));
        assert(bufs[(n - 1) + 1]@ == bufs[n - 1]@ + chunks[n - 1]);
    } else {
        assert(chunks.take(0).len() == 0);
    }
}

/// No pane output is lost or reordered: starting from an empty buffer,
/// after pushing `chunks` one after another, a drain hands back exactly
/// their concatenation.
pub proof fn lemma_drain_returns_every_pushed_byte(
    bufs: Seq<CoalesceBuffer>,
    chunks: Seq<Seq<u8>>,
    out: Seq<u8>,
)
    requires
        bufs.len() == chunks.len() + 1,
        bufs[0]@ == Seq::<u8>::empty(),
        forall|i: int| 0 <= i < chunks.len() ==> #[trigger] bufs[i + 1]@ == bufs[i]@ + chunks[i],
        out == bufs.last()@,
    ensures
        out == chunks.flatten(),
{
    lemma_pushed_prefix(bufs, chunks, chunks.len() as int);
    assert(chunks.take(chunks.len() as int) =~= chunks);
    chunks.lemma_flatten_and_flatten_alt_are_equivalent();
}

} // verus!
