//! Clipboard change detection.

use vstd::prelude::*;
use vstd::string::*;

verus! {

/// Remembers the last text seen on the clipboard or put there.
pub struct ClipboardManager {
    last_text: String,
}

impl View for ClipboardManager {
    type V = Seq<char>;

    closed spec fn view(&self) -> Seq<char> {
        self.last_text@
    }
}

impl ClipboardManager {
    /// Nothing seen yet.
    pub fn new() -> (manager: Self)
        ensures
            manager@ == Seq::<char>::empty(),
    {
        ClipboardManager { last_text: String::new() }
    }

    /// Takes note of text that was to be put on the clipboard, given how that
    /// went. A failure changes nothing.
    pub fn set_text(&mut self, text: &str, written: Result<(), String>) -> (res: Result<(), String>)
        ensures
            res == written,
            final(self)@ == if written is Ok {
                text@
            } else {
                old(self)@
            },
    {
        if written.is_ok() {
            self.last_text = text.to_owned();
        }
        written
    }

    /// Polls for changes, given the text that is now on the clipboard, if it
    /// holds any. Returns it if it changed since the last call, otherwise
    /// `None`.
    pub fn poll_change(&mut self, current: Option<String>) -> (change: Option<String>)
        ensures
            change == polled(old(self)@, current).0,
            current matches Some(text) ==> {
                &&& text@ != old(self)@ ==> change == current
                &&& text@ == old(self)@ ==> change is None
                &&& final(self)@ == text@
            },
            current is None ==> change is None && final(self)@ == old(self)@,
            final(self)@ == polled(old(self)@, current).1,
    {
        match current {
            Some(text) => {
                if text != self.last_text {
                    self.last_text = text.clone();
                    Some(text)
                } else {
                    None
                }
            },
            None => None,
        }
    }
}

/// What polling reports and then remembers, given the text it remembers so far
/// and the text that is now on the clipboard.
pub open spec fn polled(last: Seq<char>, current: Option<String>) -> (Option<String>, Seq<char>) {
    match current {
        Some(text) => (if text@ != last { Some(text) } else { None }, text@),
        None => (None, last),
    }
}

/// Text that was reported is not reported again as long as it stays on the
/// clipboard.
pub proof fn law_text_is_reported_once(last: Seq<char>, current: Option<String>)
    ensures
        polled(polled(last, current).1, current) == (None::<String>, polled(last, current).1),
{
}

/// Text that is new is reported, as it is, and remembered.
pub proof fn law_new_text_is_reported(last: Seq<char>, text: String)
    requires
        text@ != last,
    ensures
        polled(last, Some(text)) == (Some(text), text@),
{
}

/// A clipboard without text is no change, and what is remembered stays.
pub proof fn law_clipboard_without_text_is_no_change(last: Seq<char>)
    ensures
        polled(last, None) == (None::<String>, last),
{
}

/// Text that was put on the clipboard from here, and is remembered for that, is
/// not reported as a change.
pub proof fn law_own_text_is_not_reported(written: Seq<char>, current: Option<String>)
    requires
        current matches Some(text) && text@ == written,
    ensures
        polled(written, current) == (None::<String>, written),
{
}

} // verus!
