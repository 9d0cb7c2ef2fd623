//! IME composition state behind the NSTextInputClient view.
//!
//! Preedit (marked) text is display-only and never reaches the PTY; only a
//! commit (`insertText:`) writes bytes to the pane's input channel.

use vstd::prelude::*;
use vstd::string::*;
use tokio::sync::mpsc::Sender;

verus! {

/// `tokio::sync::mpsc::Sender`, carried opaquely.
#[verifier::external_type_specification]
#[verifier::external_body]
#[verifier::reject_recursive_types(T)]
pub struct ExSender<T>(tokio::sync::mpsc::Sender<T>);

/// The PTY input channel of an input view, with the byte strings handed
/// to it so far (oldest first; whether the channel took each one is not
/// part of it). Only `try_send_bytes` sends, and it records what it sends.
pub struct PtySender {
    tx: Sender<Vec<u8>>,
    offered: Ghost<Seq<Seq<u8>>>,
}

impl PtySender {
    /// What has been handed to the channel through this sender.
    pub closed spec fn offered(&self) -> Seq<Seq<u8>> {
        self.offered@
    }

    /// A sender on `tx` that has sent nothing yet.
    pub fn new(tx: Sender<Vec<u8>>) -> (s: Self)
        ensures
            s.offered() == Seq::<Seq<u8>>::empty(),
    {
        PtySender { tx, offered: Ghost(Seq::empty()) }
    }
}

/// Calls `Sender::try_send` with `bytes`: they are what was handed to the
/// channel, and the record of the sender grows by them. The result (whether
/// they were queued) depends on the channel's state, full or closed, so
/// nothing is promised of it.
#[verifier::external_body]
fn try_send_bytes(sender: &mut PtySender, bytes: Vec<u8>) -> (queued: bool)
    ensures
        final(sender).offered() == old(sender).offered().push(bytes@),
{
    sender.tx.try_send(bytes).is_ok()
}

/// Location reported for "no marked text" (AppKit's `NSNotFound`).
pub const NOT_FOUND: usize = usize::MAX;

/// A character range of the marked text, as `markedRange` reports it.
#[derive(Debug, Clone, Copy, PartialEq, Eq, Structural)]
pub struct MarkedRange {
    pub location: usize,
    pub length: usize,
}

/// Composition state of the input view.
pub struct ImeState {
    preedit: String,
    selected_offset: usize,
    active: bool,
    pub write_tx: PtySender,
}

impl ImeState {
    /// The marked text.
    pub closed spec fn marked(&self) -> Seq<char> {
        self.preedit@
    }

    /// The caret offset inside the marked text.
    pub closed spec fn offset(&self) -> usize {
        self.selected_offset
    }

    /// Whether there is marked text.
    pub closed spec fn composing(&self) -> bool {
        self.active
    }

    /// The byte strings handed to the PTY channel so far, oldest first
    /// (whether the channel took each one is its own business).
    pub closed spec fn offered(&self) -> Seq<Seq<u8>> {
        self.write_tx.offered()
    }

    /// No composition in progress.
    pub open spec fn idle(&self) -> bool {
        &&& self.marked().len() == 0
        &&& !self.composing()
        &&& self.offset() == 0
    }

    /// A state with no marked text that commits into `write_tx`.
    pub fn new(write_tx: Sender<Vec<u8>>) -> (s: Self)
        ensures
            s.idle(),
            s.offered() == Seq::<Seq<u8>>::empty(),
    {
        ImeState { preedit: String::new(), selected_offset: 0, active: false, write_tx: PtySender::new(write_tx) }
    }

    /// `setMarkedText:` — shows `text` as marked text with the caret at
    /// `selected_offset`. Writes nothing to the PTY.
    pub fn set_preedit(&mut self, text: &str, selected_offset: usize)
        ensures
            final(self).marked() == text@,
            final(self).offset() == selected_offset,
            final(self).composing() == (text@.len() > 0),
            final(self).offered() == old(self).offered(),
    {
        self.preedit = String::from_str(text);
        self.selected_offset = selected_offset;
        self.active = text.unicode_len() > 0;
    }

    /// An IME preedit update from the window: empty text cancels the
    /// composition; otherwise `text` is marked with the caret at the start
    /// of `cursor_range` (at 0 when the IME gives none).
    pub fn handle_preedit(&mut self, text: &str, cursor_range: Option<(usize, usize)>)
        ensures
            text@.len() == 0 ==> final(self).idle(),
            text@.len() > 0 ==> {
                &&& final(self).marked() == text@
                &&& final(self).composing()
                &&& final(self).offset() == (match cursor_range { Some(r) => r.0, None => 0 })
            },
            final(self).offered() == old(self).offered(),
    {
        if text.unicode_len() == 0 {
            self.clear();
        } else {
            let offset = match cursor_range {
                Some((start, _)) => start,
                None => 0,
            };
            self.set_preedit(text, offset);
        }
    }

    /// `insertText:` — queues the UTF-8 bytes of `text` for the PTY and
    /// clears the marked text; returns whether the channel took the bytes.
    pub fn commit(&mut self, text: &str) -> (sent: bool)
        ensures
            final(self).idle(),
            final(self).offered() == old(self).offered().push(text.spec_bytes()),
    {
        let bytes = text.as_bytes_vec();
        let sent = try_send_bytes(&mut self.write_tx, bytes);
        self.preedit = String::new();
        self.active = false;
        self.selected_offset = 0;
        sent
    }

    /// `unmarkText` — drops the marked text without committing it.
    pub fn clear(&mut self)
        ensures
            final(self).idle(),
            final(self).offered() == old(self).offered(),
    {
        self.preedit = String::new();
        self.active = false;
        self.selected_offset = 0;
    }

    /// Whether there is marked text.
    pub fn is_active(&self) -> (b: bool)
        ensures
            b == self.composing(),
    {
        self.active
    }

    /// The marked text.
    pub fn preedit(&self) -> (s: &str)
        ensures
            s@ == self.marked(),
    {
        self.preedit.as_str()
    }

    /// The caret offset inside the marked text.
    pub fn selected_offset(&self) -> (o: usize)
        ensures
            o == self.offset(),
    {
        self.selected_offset
    }

    /// `markedRange` — the whole marked text, in characters, or
    /// `{NOT_FOUND, 0}` when nothing is marked.
    pub fn marked_range(&self) -> (r: MarkedRange)
        ensures
            r == (if self.composing() {
                MarkedRange { location: 0, length: self.marked().len() as usize }
            } else {
                MarkedRange { location: NOT_FOUND, length: 0 }
            }),
    {
        if self.active {
            MarkedRange { location: 0, length: self.preedit.as_str().unicode_len() }
        } else {
            MarkedRange { location: NOT_FOUND, length: 0 }
        }
    }
}

} // verus!
