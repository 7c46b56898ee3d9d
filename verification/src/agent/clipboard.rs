//! The clipboard of the desktop, as the viewer gets to know it.

use crate::clock::{self, MS};
use crate::text;
use vstd::prelude::*;

verus! {

/// How often the clipboard is looked at.
pub const CLIPBOARD_POLL: u64 = 500 * MS;

/// The text that the viewer was sent last, and when the clipboard was looked at.
pub struct ClipboardWatch {
    pub last: String,
    pub polled: u64,
}

impl ClipboardWatch {
    pub fn new(now: u64) -> (watch: ClipboardWatch)
        ensures
            watch.last@ == Seq::<char>::empty(),
            watch.polled == now,
    {
        ClipboardWatch { last: String::new(), polled: now }
    }

    /// Whether it is time to look again. If so, the time is taken from now.
    pub fn poll_due(&mut self, now: u64) -> (due: bool)
        ensures
            due == (clock::span(old(self).polled, now) > CLIPBOARD_POLL),
            final(self).polled == if due {
                now
            } else {
                old(self).polled
            },
            final(self).last == old(self).last,
    {
        if clock::elapsed(self.polled, now) > CLIPBOARD_POLL {
            self.polled = now;
            true
        } else {
            false
        }
    }

    /// The clipboard holds `found`: says whether to send it. Nothing is sent twice
    /// in a row, and an empty clipboard is not sent.
    pub fn on_text(&mut self, found: &str) -> (send: bool)
        ensures
            send == (found@.len() > 0 && found@ != old(self).last@),
            final(self).last@ == if send {
                found@
            } else {
                old(self).last@
            },
            final(self).polled == old(self).polled,
    {
        let chars: Vec<char> = text::chars_of(found);
        if chars.len() == 0 || text::same(found, self.last.as_str()) {
            return false;
        }
        self.last = text::copy(found);
        true
    }
}

/// The clipboard is looked at after more than half a second, and what it holds is sent
/// exactly if it holds something that was not sent last.
pub proof fn law_clipboard_is_sent_once(now: u64, found: &str)
    ensures
        forall|w: &mut ClipboardWatch, due: bool| #[trigger]
            call_ensures(ClipboardWatch::poll_due, (w, now), due) ==> {
                &&& due <==> now - (*w).polled > 500_000_000
                &&& due ==> (*final(w)).polled == now
                &&& !due ==> (*final(w)).polled == (*w).polled
                &&& (*final(w)).last@ == (*w).last@
            },
        forall|w: &mut ClipboardWatch, send: bool| #[trigger]
            call_ensures(ClipboardWatch::on_text, (w, found), send) ==> {
                &&& found@.len() == 0 ==> !send
                &&& found@ == (*w).last@ ==> !send
                &&& found@.len() > 0 && found@ != (*w).last@ ==> send
                &&& send ==> (*final(w)).last@ == found@
                &&& !send ==> (*final(w)).last@ == (*w).last@
            },
{
}

} // verus!
