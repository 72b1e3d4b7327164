//! Typing into a single text, for applications that keep one text of their
//! own instead of a ledger.

use crate::events::{Keycode, PlatformEvent};
use vstd::prelude::*;
use vstd::string::{StrSliceExecFns, StringExecFns};

verus! {

/// Keyboard events read into a text and a capturing flag.
pub trait KeyboardInput {
    fn handle_keyboard_input(&mut self) -> (String, bool);
}

/// Text and capturing flag after the events from `from` on. Typed text is
/// appended, backspace removes the last character, return and escape end
/// the capture, and a quit ends the reading of events.
pub open spec fn typed_from(
    events: Seq<PlatformEvent>,
    text: Seq<char>,
    capturing: bool,
    from: int,
) -> (Seq<char>, bool)
    decreases events.len() - from,
{
    if from < 0 || from >= events.len() {
        (text, capturing)
    } else {
        match events[from] {
            PlatformEvent::TextInput { text: typed } => typed_from(
                events,
                text + typed@,
                capturing,
                from + 1,
            ),
            PlatformEvent::KeyDown { keycode: Some(Keycode::Backspace), .. } => typed_from(
                events,
                if text.len() > 0 {
                    text.drop_last()
                } else {
                    text
                },
                capturing,
                from + 1,
            ),
            PlatformEvent::KeyDown { keycode: Some(Keycode::Return), .. } => typed_from(
                events,
                text,
                false,
                from + 1,
            ),
            PlatformEvent::KeyDown { keycode: Some(Keycode::Escape), .. } => typed_from(
                events,
                text,
                false,
                from + 1,
            ),
            PlatformEvent::Quit => (text, capturing),
            _ => typed_from(events, text, capturing, from + 1),
        }
    }
}

impl KeyboardInput for (Vec<PlatformEvent>, String, bool) {
    /// Reads the events in order into the text and the capturing flag, and
    /// returns both. The events themselves are left as they are.
    fn handle_keyboard_input(&mut self) -> (result: (String, bool))
        ensures
            final(self).0 == old(self).0,
            (final(self).1@, final(self).2) == typed_from(
                old(self).0@,
                old(self).1@,
                old(self).2,
                0,
            ),
            result.0@ == final(self).1@,
            result.1 == final(self).2,
    {
        let mut i: usize = 0;
        while i < self.0.len()
            invariant
                i <= self.0.len(),
                self.0 == old(self).0,
                typed_from(old(self).0@, old(self).1@, old(self).2, 0) == typed_from(
                    self.0@,
                    self.1@,
                    self.2,
                    i as int,
                ),
            ensures
                (self.1@, self.2) == typed_from(old(self).0@, old(self).1@, old(self).2, 0),
                self.0 == old(self).0,
            decreases self.0.len() - i,
        {
            let mut stop = false;
            match &self.0[i] {
                PlatformEvent::TextInput { text } => {
                    let typed = text.clone();
                    self.1.append(typed.as_str());
                },
                PlatformEvent::KeyDown { keycode: Some(Keycode::Backspace), .. } => {
                    let len = self.1.as_str().unicode_len();
                    if len > 0 {
                        let shorter = String::from_str(self.1.as_str().substring_char(0, len - 1));
                        assert(shorter@ =~= self.1@.drop_last());
                        self.1 = shorter;
                    }
                },
                PlatformEvent::KeyDown { keycode: Some(Keycode::Return), .. } => {
                    self.2 = false;
                },
                PlatformEvent::KeyDown { keycode: Some(Keycode::Escape), .. } => {
                    self.2 = false;
                },
                PlatformEvent::Quit => {
                    stop = true;
                },
                _ => {},
            }
            if stop {
                break ;
            }
            i += 1;
        }
        (self.1.clone(), self.2)
    }
}

} // verus!
