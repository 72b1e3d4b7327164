//! Text editing on one string: caret, range selection, insertion and
//! deletion. Positions count characters, not bytes, and every operation
//! first brings stale positions back into the text.

use vstd::prelude::*;
use vstd::string::{StrSliceExecFns, StringExecFns};

verus! {

/// A text with its caret. `selection` is stored as (anchor, live end) and
/// may run in either direction; `cursor` and both ends may lie beyond the
/// text.
pub struct TextEdit {
    pub text: Seq<char>,
    pub cursor: int,
    pub selection: Option<(int, int)>,
}

/// A position brought into a text of `len` characters.
pub open spec fn clamped(position: int, len: int) -> int {
    if position > len {
        len
    } else if position < 0 {
        0
    } else {
        position
    }
}

/// The range that a selection covers in a text of `len` characters: its
/// ends put in order, each brought into the text.
pub open spec fn selection_span(selection: (int, int), len: int) -> (int, int) {
    if selection.0 <= selection.1 {
        (clamped(selection.0, len), clamped(selection.1, len))
    } else {
        (clamped(selection.1, len), clamped(selection.0, len))
    }
}

/// The text with the characters from `start` to `end` replaced.
pub open spec fn spliced(text: Seq<char>, start: int, end: int, inserted: Seq<char>) -> Seq<
    char,
> {
    text.subrange(0, start) + inserted + text.subrange(end, text.len() as int)
}

impl TextEdit {
    /// The range that the next edit replaces: the selection if it covers
    /// anything, else the empty range at the caret.
    pub open spec fn edit_range(self) -> (int, int) {
        let at = clamped(self.cursor, self.text.len() as int);
        match self.selection {
            Some(selection) => {
                let span = selection_span(selection, self.text.len() as int);
                if span.0 < span.1 {
                    span
                } else {
                    (at, at)
                }
            },
            None => (at, at),
        }
    }

    /// After typing or pasting `inserted`: it replaces the selection, or
    /// goes in at the caret; the caret ends up behind it and the selection
    /// is gone.
    pub open spec fn after_insert(self, inserted: Seq<char>) -> TextEdit {
        let (start, end) = self.edit_range();
        TextEdit {
            text: spliced(self.text, start, end, inserted),
            cursor: start + inserted.len(),
            selection: None,
        }
    }

    /// After backspace: a selection that covers anything is deleted and the
    /// caret moves to its start; an empty selection is only dropped; with no
    /// selection the character left of the caret is deleted, and nothing
    /// at position 0.
    pub open spec fn after_backspace(self) -> TextEdit {
        let len = self.text.len() as int;
        let at = clamped(self.cursor, len);
        match self.selection {
            Some(selection) => {
                let (start, end) = selection_span(selection, len);
                if start < end {
                    TextEdit {
                        text: spliced(self.text, start, end, Seq::empty()),
                        cursor: start,
                        selection: None,
                    }
                } else {
                    TextEdit { text: self.text, cursor: at, selection: None }
                }
            },
            None => if at > 0 {
                TextEdit {
                    text: spliced(self.text, at - 1, at, Seq::empty()),
                    cursor: at - 1,
                    selection: None,
                }
            } else {
                TextEdit { text: self.text, cursor: at, selection: None }
            },
        }
    }

    /// After delete-all: no text, caret at 0, no selection.
    pub open spec fn after_delete_all(self) -> TextEdit {
        TextEdit { text: Seq::empty(), cursor: 0, selection: None }
    }

    /// After select-all: everything selected, caret at the end.
    pub open spec fn after_select_all(self) -> TextEdit {
        TextEdit {
            text: self.text,
            cursor: self.text.len() as int,
            selection: Some((0, self.text.len() as int)),
        }
    }

    /// Where the caret goes by one step from where it stands.
    pub open spec fn stepped(self, move_right: bool) -> int {
        let len = self.text.len() as int;
        let at = clamped(self.cursor, len);
        if move_right {
            if at < len {
                at + 1
            } else {
                len
            }
        } else {
            if at > 0 {
                at - 1
            } else {
                0
            }
        }
    }

    /// After an arrow key. Without `extend` the selection is dropped and the
    /// caret takes one step. With `extend` a selection is begun at the caret
    /// if there is none, and its live end moves with the caret.
    pub open spec fn after_move(self, move_right: bool, extend: bool) -> TextEdit {
        let target = self.stepped(move_right);
        if extend {
            let anchor = match self.selection {
                Some(selection) => selection.0,
                None => clamped(self.cursor, self.text.len() as int),
            };
            TextEdit { text: self.text, cursor: target, selection: Some((anchor, target)) }
        } else {
            TextEdit { text: self.text, cursor: target, selection: None }
        }
    }

    /// What copy puts on the clipboard: the selected characters, if the
    /// selection covers any.
    pub open spec fn copied(self) -> Option<Seq<char>> {
        match self.selection {
            Some(selection) => {
                let (start, end) = selection_span(selection, self.text.len() as int);
                if start < end {
                    Some(self.text.subrange(start, end))
                } else {
                    None
                }
            },
            None => None,
        }
    }

    /// After cut: if anything was copied it is deleted, the caret moves to
    /// where it began and the selection is gone; else nothing changes.
    pub open spec fn after_cut(self) -> TextEdit {
        match self.selection {
            Some(selection) => {
                let (start, end) = selection_span(selection, self.text.len() as int);
                if start < end {
                    TextEdit {
                        text: spliced(self.text, start, end, Seq::empty()),
                        cursor: start,
                        selection: None,
                    }
                } else {
                    self
                }
            },
            None => self,
        }
    }
}

/// Selection normalization: which way a selection was grown makes no
/// difference. Insert, backspace, copy and cut work on the range from the
/// smaller to the larger end, each end brought into the text.
pub proof fn lemma_selection_direction(
    text: Seq<char>,
    cursor: int,
    anchor: int,
    live: int,
    inserted: Seq<char>,
)
    ensures
        ({
            let forward = TextEdit { text, cursor, selection: Some((anchor, live)) };
            let backward = TextEdit { text, cursor, selection: Some((live, anchor)) };
            let start = clamped(if anchor <= live { anchor } else { live }, text.len() as int);
            let end = clamped(if anchor <= live { live } else { anchor }, text.len() as int);
            &&& forward.after_insert(inserted) == backward.after_insert(inserted)
            &&& forward.after_backspace() == backward.after_backspace()
            &&& forward.copied() == backward.copied()
            &&& forward.after_cut().text == backward.after_cut().text
            &&& start < end ==> {
                &&& forward.after_insert(inserted).text == spliced(text, start, end, inserted)
                &&& forward.after_backspace().text == spliced(text, start, end, Seq::empty())
                &&& forward.copied() == Some(text.subrange(start, end))
                &&& forward.after_cut().text == spliced(text, start, end, Seq::empty())
                &&& forward.after_backspace().cursor == start
                &&& forward.after_cut().cursor == start
            }
        }),
{
}

/// A selection grown by arrow keys with `extend` has the caret as its
/// live end, and both of its ends lie in the text if its anchor did.
pub proof fn lemma_extended_selection(edit: TextEdit, move_right: bool)
    ensures
        ({
            let moved = edit.after_move(move_right, true);
            &&& moved.selection matches Some(selection)
            &&& selection.1 == moved.cursor
            &&& 0 <= selection.1 <= edit.text.len()
            &&& moved.text == edit.text
        }),
{
}

/// The number of characters in a string.
pub fn char_len(text: &String) -> (len: usize)
    ensures
        len == text@.len(),
{
    text.as_str().unicode_len()
}

fn clamp_to(position: usize, len: usize) -> (at: usize)
    ensures
        at == clamped(position as int, len as int),
{
    if position > len {
        len
    } else {
        position
    }
}

/// The selection's ends in order, each brought into a text of `len`
/// characters.
pub fn span_of(selection: (usize, usize), len: usize) -> (span: (usize, usize))
    ensures
        (span.0 as int, span.1 as int) == selection_span(
            (selection.0 as int, selection.1 as int),
            len as int,
        ),
        span.0 <= span.1 <= len,
{
    if selection.0 <= selection.1 {
        (clamp_to(selection.0, len), clamp_to(selection.1, len))
    } else {
        (clamp_to(selection.1, len), clamp_to(selection.0, len))
    }
}

/// The text with the characters from `start` to `end` replaced.
pub fn splice(text: &String, start: usize, end: usize, inserted: &str) -> (result: String)
    requires
        start <= end <= text@.len(),
    ensures
        result@ == spliced(text@, start as int, end as int, inserted@),
{
    let whole = text.as_str();
    let len = whole.unicode_len();
    let mut result = String::from_str(whole.substring_char(0, start));
    result.append(inserted);
    result.append(whole.substring_char(end, len));
    result
}

/// The text without the characters from `start` to `end`.
pub fn without(text: &String, start: usize, end: usize) -> (result: String)
    requires
        start <= end <= text@.len(),
    ensures
        result@ == spliced(text@, start as int, end as int, Seq::empty()),
{
    proof {
        reveal_strlit("");
    }
    assert(""@ =~= Seq::<char>::empty());
    splice(text, start, end, "")
}

/// The view of a caret as the editing model has it.
pub open spec fn edit_of(
    text: Seq<char>,
    cursor: usize,
    selection: Option<(usize, usize)>,
) -> TextEdit {
    TextEdit {
        text,
        cursor: cursor as int,
        selection: match selection {
            Some(s) => Some((s.0 as int, s.1 as int)),
            None => None,
        },
    }
}

/// Types `inserted` into the text; returns the new text and caret.
pub fn insert(
    text: &String,
    cursor: usize,
    selection: Option<(usize, usize)>,
    inserted: &str,
) -> (result: (String, usize))
    ensures
        result.0@ == edit_of(text@, cursor, selection).after_insert(inserted@).text,
        result.1 == edit_of(text@, cursor, selection).after_insert(inserted@).cursor,
{
    let len = char_len(text);
    let at = clamp_to(cursor, len);
    let (start, end) = match selection {
        Some(s) => {
            let span = span_of(s, len);
            if span.0 < span.1 {
                span
            } else {
                (at, at)
            }
        },
        None => (at, at),
    };
    let result = splice(text, start, end, inserted);
    let new_len = char_len(&result);
    let added = inserted.unicode_len();
    assert(result@.len() == start + inserted@.len() + (len - end));
    (result, start + added)
}

/// Applies backspace; returns the new text and caret.
pub fn backspace(text: &String, cursor: usize, selection: Option<(usize, usize)>) -> (result: (
    String,
    usize,
))
    ensures
        result.0@ == edit_of(text@, cursor, selection).after_backspace().text,
        result.1 == edit_of(text@, cursor, selection).after_backspace().cursor,
{
    let len = char_len(text);
    let at = clamp_to(cursor, len);
    match selection {
        Some(s) => {
            let (start, end) = span_of(s, len);
            if start < end {
                (without(text, start, end), start)
            } else {
                (text.clone(), at)
            }
        },
        None => {
            if at > 0 {
                (without(text, at - 1, at), at - 1)
            } else {
                (text.clone(), at)
            }
        },
    }
}

/// The selected characters, if the selection covers any.
pub fn selected_text(text: &String, selection: Option<(usize, usize)>) -> (result: Option<String>)
    ensures
        match result {
            Some(s) => edit_of(text@, 0, selection).copied() == Some(s@),
            None => edit_of(text@, 0, selection).copied() is None,
        },
{
    match selection {
        Some(s) => {
            let len = char_len(text);
            let (start, end) = span_of(s, len);
            if start < end {
                Some(String::from_str(text.as_str().substring_char(start, end)))
            } else {
                None
            }
        },
        None => None,
    }
}

/// Where the caret goes by one step.
pub fn step_caret(len: usize, cursor: usize, move_right: bool) -> (target: usize)
    ensures
        forall|text: Seq<char>, selection: Option<(int, int)>|
            text.len() == len ==> target == (#[trigger] TextEdit {
                text,
                cursor: cursor as int,
                selection,
            }.stepped(move_right)),
        target <= len,
{
    let at = clamp_to(cursor, len);
    if move_right {
        if at < len {
            at + 1
        } else {
            len
        }
    } else {
        if at > 0 {
            at - 1
        } else {
            0
        }
    }
}

} // verus!
