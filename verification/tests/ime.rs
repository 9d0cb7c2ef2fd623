use tokio::sync::mpsc;
use vector_app::ime::{ImeState, MarkedRange, NOT_FOUND};

#[test]
fn preedit_not_to_pty() {
    let (write_tx, mut write_rx) = mpsc::channel::<Vec<u8>>(16);
    let mut ime = ImeState::new(write_tx);
    ime.set_preedit("か", 1);
    assert!(ime.is_active(), "preedit must be active after setMarkedText");
    let received = write_rx.try_recv();
    assert!(received.is_err(), "setMarkedText must not write to the PTY; got {received:?}");
}

#[test]
fn commit_to_pty() {
    let (write_tx, mut write_rx) = mpsc::channel::<Vec<u8>>(16);
    let mut ime = ImeState::new(write_tx);
    ime.set_preedit("か", 1);
    let ok = ime.commit("か");
    assert!(ok, "commit must enqueue bytes");
    let bytes = write_rx.try_recv().expect("commit must write to PTY");
    assert_eq!(bytes, "か".as_bytes());
    assert!(!ime.is_active(), "after commit, preedit cleared and state inactive");
}

#[test]
fn unmark_clears() {
    let (write_tx, mut write_rx) = mpsc::channel::<Vec<u8>>(16);
    let mut ime = ImeState::new(write_tx);
    ime.set_preedit("か", 1);
    assert!(ime.is_active());
    ime.clear();
    assert!(!ime.is_active());
    assert_eq!(ime.preedit(), "");
    assert!(write_rx.try_recv().is_err(), "unmark must not commit");
}

#[test]
fn preedit_active_no_pty() {
    let (write_tx, mut write_rx) = mpsc::channel::<Vec<u8>>(16);
    let mut ime = ImeState::new(write_tx);
    ime.set_preedit("こん", 0);
    assert!(ime.is_active(), "preedit must be active after set_preedit");
    assert_eq!(ime.preedit(), "こん");
    assert!(write_rx.try_recv().is_err(), "setMarkedText must not write PTY bytes");
}

#[test]
fn commit_sends_utf8() {
    let (write_tx, mut write_rx) = mpsc::channel::<Vec<u8>>(16);
    let mut ime = ImeState::new(write_tx);
    ime.set_preedit("こん", 0);
    let sent = ime.commit("こん");
    assert!(sent, "commit must return true when bytes enqueued");
    let bytes = write_rx.try_recv().expect("commit must write to PTY");
    assert_eq!(bytes, "こん".as_bytes(), "PTY must receive exact UTF-8 bytes");
    assert!(!ime.is_active(), "after commit preedit is cleared");
    assert_eq!(ime.preedit(), "");
}

#[test]
fn clear_no_pty_bytes() {
    let (write_tx, mut write_rx) = mpsc::channel::<Vec<u8>>(16);
    let mut ime = ImeState::new(write_tx);
    ime.set_preedit("a", 0);
    assert!(ime.is_active());
    ime.clear();
    assert!(!ime.is_active(), "after clear preedit must be inactive");
    assert_eq!(ime.preedit(), "");
    assert!(write_rx.try_recv().is_err(), "unmarkText must not write PTY bytes");
}

#[test]
fn marked_range_counts_characters() {
    let (write_tx, _write_rx) = mpsc::channel::<Vec<u8>>(16);
    let mut ime = ImeState::new(write_tx);
    assert_eq!(ime.marked_range(), MarkedRange { location: NOT_FOUND, length: 0 });
    ime.set_preedit("こんに", 2);
    assert_eq!(ime.marked_range(), MarkedRange { location: 0, length: 3 });
    assert_eq!(ime.selected_offset(), 2);
    ime.set_preedit("", 0);
    assert!(!ime.is_active());
    assert_eq!(ime.marked_range(), MarkedRange { location: NOT_FOUND, length: 0 });
}

#[test]
fn commit_reports_a_full_channel() {
    let (write_tx, mut write_rx) = mpsc::channel::<Vec<u8>>(1);
    let mut ime = ImeState::new(write_tx);
    assert!(ime.commit("a"));
    assert!(!ime.commit("b"), "a full channel refuses the bytes");
    assert!(!ime.is_active());
    assert_eq!(write_rx.try_recv().unwrap(), b"a".to_vec());
}

#[test]
fn preedit_events_mark_or_cancel() {
    let (write_tx, mut write_rx) = mpsc::channel::<Vec<u8>>(16);
    let mut ime = ImeState::new(write_tx);
    ime.handle_preedit("にほ", Some((1, 1)));
    assert!(ime.is_active());
    assert_eq!(ime.selected_offset(), 1);
    ime.handle_preedit("にほん", None);
    assert_eq!(ime.selected_offset(), 0);
    assert_eq!(ime.preedit(), "にほん");
    ime.handle_preedit("", Some((2, 2)));
    assert!(!ime.is_active());
    assert_eq!(ime.preedit(), "");
    assert_eq!(ime.selected_offset(), 0);
    assert!(write_rx.try_recv().is_err());
}
