//! PTY output coalescing and frame pacing.

use std::sync::atomic::{AtomicBool, Ordering};
use std::sync::Arc;
use vector_app::frame_tick::{
    frame_period_for, frame_period_ms, should_drain, CoalesceBuffer, COALESCE_THRESHOLD,
};

#[test]
fn coalesce_accumulates_then_drains() {
    let mut cb = CoalesceBuffer::new(8 * 1024);
    for _ in 0..1000 {
        cb.push(b"hello");
    }
    let out = cb.drain();
    assert_eq!(out.len(), 5000);
    assert!(out.starts_with(b"hello"));
    assert!(cb.is_empty());
}

#[test]
fn drain_empty_returns_empty() {
    let mut cb = CoalesceBuffer::new(16);
    let out = cb.drain();
    assert!(out.is_empty());
}

#[test]
fn period_off_8ms_on_33ms() {
    let lpm = Arc::new(AtomicBool::new(false));
    assert_eq!(frame_period_ms(&lpm), 8);
    lpm.store(true, Ordering::Relaxed);
    assert_eq!(frame_period_ms(&lpm), 33);
}

#[test]
fn push_wakes_exactly_at_threshold() {
    let mut cb = CoalesceBuffer::new(10);
    assert!(!cb.push(b"12345"));
    assert!(!cb.push(b"6789"));
    assert!(cb.push(b"0"));
    assert_eq!(cb.peek_snapshot(), b"1234567890".to_vec());
    assert!(!cb.is_empty());
    assert_eq!(cb.drain(), b"1234567890".to_vec());
    assert!(cb.drain().is_empty());
    assert_eq!(COALESCE_THRESHOLD, 8192);
}

#[test]
fn drain_waits_a_whole_period() {
    assert_eq!(frame_period_for(false), 8);
    assert_eq!(frame_period_for(true), 33);
    assert!(!should_drain(7, false));
    assert!(should_drain(8, false));
    assert!(!should_drain(32, true));
    assert!(should_drain(33, true));
}

#[test]
fn len_counts_pending_bytes() {
    let mut cb = CoalesceBuffer::new(4);
    assert_eq!(cb.len(), 0);
    assert!(!cb.push(b"abc"));
    assert_eq!(cb.len(), 3);
    assert!(cb.push(b"d"));
    assert_eq!(cb.drain(), b"abcd".to_vec());
    assert_eq!(cb.len(), 0);
}
