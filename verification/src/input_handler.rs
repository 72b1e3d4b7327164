//! The text editor over the active ledger entry, the undo stack, history
//! navigation and the dispatch of input events.

use crate::editing::{
    backspace, char_len, edit_of, insert, selected_text, span_of, step_caret, without, TextEdit,
};
use crate::events::{first_meaningful, meaning, translate, PlatformEvent};
use crate::history::stepped_cursor;
use crate::ledger::{entry_index, find_entry, ids_comparable, LedgerView};
use crate::page_system::PageData;
use crate::state::AppState;
use vstd::prelude::*;

verus! {

/// What the platform's events come to, one per frame.
#[derive(Debug, Clone, PartialEq)]
pub enum InputEvent {
    Click,
    Text(String),
    Backspace,
    Submit,
    Front,
    Back,
    Paste,
    Copy,
    Cut,
    Undo,
    SelectAll,
    DeleteAll,
    CursorLeft(bool),
    CursorRight(bool),
    ExitCapturingInput,
    Quit,
    Idle,
}

/// What a dispatched event leaves for the caller to do.
#[derive(Debug, Clone, PartialEq)]
pub enum InputAction<ButtonId> {
    /// Nothing is left to do.
    Nothing,
    /// A button was pressed: run its action, then call `finish_click`.
    PressButton(ButtonId),
    /// Put this text on the clipboard.
    SetClipboard(String),
    /// Leave the frame loop.
    Quit,
}

/// The caret and selection of the text being edited, the button under the
/// pointer, and the undo stack of ledger snapshots.
pub struct InputHandler<PageId, ButtonId> {
    pub button_selected: Option<ButtonId>,
    pub mouse_position: (i32, i32),
    pub cursor_position: usize,
    pub text_selection_range: Option<(usize, usize)>,
    pub enable_rollback_pages: bool,
    pub input_history_stack: Vec<Vec<(PageId, ButtonId, String)>>,
}

/// The ledger entry that keystrokes go to: the first entry of the current
/// page and the active button, if input is being captured and there is one.
pub open spec fn target_entry<PageId, ButtonId>(
    app_state: &AppState<PageId, ButtonId>,
    ledger: LedgerView<PageId, ButtonId>,
) -> Option<int> {
    if app_state.capturing_input.0 {
        match app_state.capturing_input.1 {
            Some(button) => {
                let k = entry_index(ledger, app_state.current_page, button);
                if k < ledger.len() {
                    Some(k)
                } else {
                    None
                }
            },
            None => None,
        }
    } else {
        None
    }
}

/// Whether keystrokes have a destination at all: input is being captured
/// for some button.
pub open spec fn is_editing<PageId, ButtonId>(app_state: &AppState<PageId, ButtonId>) -> bool {
    app_state.capturing_input.0 && app_state.capturing_input.1 is Some
}

impl<PageId: Copy + Eq, ButtonId: Copy + Eq> InputHandler<PageId, ButtonId> {
    /// The ledger snapshots that undo goes back through, oldest first.
    pub open spec fn undo_stack(&self) -> Seq<Seq<(PageId, ButtonId, String)>> {
        Seq::new(self.input_history_stack@.len(), |i: int| self.input_history_stack@[i]@)
    }

    /// Everything but caret and selection is as in `other`.
    pub open spec fn same_but_caret(&self, other: &Self) -> bool {
        &&& self.button_selected == other.button_selected
        &&& self.mouse_position == other.mouse_position
        &&& self.undo_stack() == other.undo_stack()
        &&& self.enable_rollback_pages == other.enable_rollback_pages
    }

    /// Caret and selection are as in `other`.
    pub open spec fn same_caret(&self, other: &Self) -> bool {
        &&& self.cursor_position == other.cursor_position
        &&& self.text_selection_range == other.text_selection_range
    }

    /// The editing state of a text under this handler's caret.
    pub open spec fn edit_of(&self, text: Seq<char>) -> TextEdit {
        edit_of(text, self.cursor_position, self.text_selection_range)
    }

    /// What an editing operation does to ledger and caret. Without a button
    /// that captures input nothing changes. Without a ledger entry for it,
    /// ledger and caret stay. Otherwise the entry's text and the caret
    /// become what `operation` makes of them. Where `renews` holds, the
    /// flattened texts are renewed whenever a button captures input.
    pub open spec fn edits_text(
        &self,
        after: &Self,
        app_state: &AppState<PageId, ButtonId>,
        data: &PageData<PageId, ButtonId>,
        data_after: &PageData<PageId, ButtonId>,
        operation: spec_fn(TextEdit) -> TextEdit,
        renews: bool,
    ) -> bool {
        &&& data_after.same_but_ledger(data)
        &&& if is_editing(app_state) && renews {
            data_after.texts_in_step()
        } else {
            data_after.vec_user_input_string == data.vec_user_input_string
        }
        &&& match target_entry(app_state, data.ledger()) {
            Some(k) => {
                let result = operation(self.edit_of(data.ledger()[k].2));
                &&& data_after.ledger() == data.ledger().update(
                    k,
                    (data.ledger()[k].0, data.ledger()[k].1, result.text),
                )
                &&& after.edit_of(result.text) == result
            },
            None => {
                &&& data_after.vec_user_input == data.vec_user_input
                &&& after.same_caret(self)
            },
        }
    }

    /// An editing operation that leaves everything else of the handler as
    /// it was.
    pub open spec fn edits(
        &self,
        after: &Self,
        app_state: &AppState<PageId, ButtonId>,
        data: &PageData<PageId, ButtonId>,
        data_after: &PageData<PageId, ButtonId>,
        operation: spec_fn(TextEdit) -> TextEdit,
        renews: bool,
    ) -> bool {
        &&& after.same_but_caret(self)
        &&& self.edits_text(after, app_state, data, data_after, operation, renews)
    }

    /// What an arrow key does to the caret: it moves as `after_move` says
    /// in the text of the active entry, or in an empty text if there is no
    /// such entry; nothing moves unless a button captures input.
    pub open spec fn moves_caret(
        &self,
        after: &Self,
        app_state: &AppState<PageId, ButtonId>,
        ledger: LedgerView<PageId, ButtonId>,
        move_right: bool,
        shift_held: bool,
    ) -> bool {
        if is_editing(app_state) {
            let text = Self::targeted_text(app_state, ledger);
            after.edit_of(text) == self.edit_of(text).after_move(move_right, shift_held)
        } else {
            after.same_caret(self)
        }
    }

    /// What undo does: the ledger goes back, whole, to the newest snapshot,
    /// which leaves the stack. With an empty stack nothing changes. Caret
    /// and selection stay.
    pub open spec fn undoes(
        &self,
        after: &Self,
        data: &PageData<PageId, ButtonId>,
        data_after: &PageData<PageId, ButtonId>,
    ) -> bool {
        &&& after.same_caret(self)
        &&& data_after.same_but_ledger(data)
        &&& if self.undo_stack().len() > 0 {
            &&& after.undo_stack() == self.undo_stack().drop_last()
            &&& data_after.vec_user_input@ == self.undo_stack().last()
            &&& data_after.texts_in_step()
        } else {
            &&& after.undo_stack() == self.undo_stack()
            &&& *data_after == *data
        }
    }

    /// What a step through the page history does. Only while no input is
    /// being captured and the history is not empty: the cursor is brought
    /// into range, moved by one and kept in range, and the page it then
    /// points at becomes the current page. No visit is recorded.
    pub open spec fn navigates(
        move_forward: bool,
        app_state: &AppState<PageId, ButtonId>,
        app_state_after: &AppState<PageId, ButtonId>,
        data: &PageData<PageId, ButtonId>,
        data_after: &PageData<PageId, ButtonId>,
    ) -> bool {
        &&& *data_after == (PageData {
            page_history: (data.page_history.0, data_after.page_history.1),
            ..*data
        })
        &&& *app_state_after == (AppState {
            current_page: app_state_after.current_page,
            ..*app_state
        })
        &&& if data.page_history.0@.len() > 0 && !app_state.capturing_input.0 {
            &&& data_after.page_history.1 == stepped_cursor(
                data.page_history.0@.len() as int,
                data.page_history.1 as int,
                move_forward,
            )
            &&& app_state_after.current_page == data.page_history.0@[data_after.page_history.1
                as int]
        } else {
            &&& data_after.page_history.1 == data.page_history.1
            &&& app_state_after.current_page == app_state.current_page
        }
    }

    /// What copy hands to the clipboard: the selected characters of the
    /// active entry, if there is such an entry and the selection covers any.
    pub open spec fn copies(
        &self,
        app_state: &AppState<PageId, ButtonId>,
        ledger: LedgerView<PageId, ButtonId>,
        clipboard_text: Option<String>,
    ) -> bool {
        match clipboard_text {
            Some(text) => target_entry(app_state, ledger) is Some && self.edit_of(
                Self::targeted_text(app_state, ledger),
            ).copied() == Some(text@),
            None => target_entry(app_state, ledger) is None || self.edit_of(
                Self::targeted_text(app_state, ledger),
            ).copied() is None,
        }
    }

    /// The operation of copy or cut on the text.
    pub open spec fn copy_operation(is_cut_operation: bool) -> spec_fn(TextEdit) -> TextEdit {
        |edit: TextEdit|
            if is_cut_operation {
                edit.after_cut()
            } else {
                edit
            }
    }

    /// What `push_state` does: a snapshot of the whole ledger goes on the
    /// undo stack and nothing else changes.
    pub open spec fn snapshots(&self, after: &Self, data: &PageData<PageId, ButtonId>) -> bool {
        &&& after.undo_stack() == self.undo_stack().push(data.vec_user_input@)
        &&& after.same_caret(self)
        &&& after.button_selected == self.button_selected
        &&& after.mouse_position == self.mouse_position
        &&& after.enable_rollback_pages == self.enable_rollback_pages
    }

    /// Undo round-trip: a snapshot, then any edit of the ledger's text,
    /// then undo, leaves the ledger exactly as it was when the snapshot was
    /// taken, and the undo stack as it was before. This holds for insert,
    /// paste, backspace, cut and delete-all alike, each being an edit.
    pub proof fn lemma_undo_round_trip(
        start: &Self,
        saved: &Self,
        edited: &Self,
        undone: &Self,
        app_state: &AppState<PageId, ButtonId>,
        data: &PageData<PageId, ButtonId>,
        data_edited: &PageData<PageId, ButtonId>,
        data_undone: &PageData<PageId, ButtonId>,
        operation: spec_fn(TextEdit) -> TextEdit,
    )
        requires
            start.snapshots(saved, data),
            saved.edits(edited, app_state, data, data_edited, operation, true),
            edited.undoes(undone, data_edited, data_undone),
        ensures
            data_undone.vec_user_input@ == data.vec_user_input@,
            data_undone.ledger() == data.ledger(),
            data_undone.texts_in_step(),
            data_undone.same_but_ledger(data),
            undone.undo_stack() == start.undo_stack(),
    {
        assert(saved.undo_stack().drop_last() =~= start.undo_stack());
    }

    /// A handler with the caret at 0, no selection and an empty undo stack.
    pub fn new(enable_rollback_pages: bool) -> (handler: Self)
        ensures
            handler.cursor_position == 0,
            handler.text_selection_range is None,
            handler.button_selected is None,
            handler.mouse_position == (0i32, 0i32),
            handler.undo_stack().len() == 0,
            handler.enable_rollback_pages == enable_rollback_pages,
    {
        Self {
            cursor_position: 0,
            text_selection_range: None,
            enable_rollback_pages,
            mouse_position: (0, 0),
            button_selected: None,
            input_history_stack: Vec::new(),
        }
    }

    fn target(
        app_state: &AppState<PageId, ButtonId>,
        page_data: &PageData<PageId, ButtonId>,
    ) -> (k: Option<usize>)
        requires
            ids_comparable::<PageId, ButtonId>(),
        ensures
            match k {
                Some(k) => target_entry(app_state, page_data.ledger()) == Some(k as int) && k
                    < page_data.vec_user_input@.len(),
                None => target_entry(app_state, page_data.ledger()) is None,
            },
    {
        if !app_state.capturing_input.0 {
            return None;
        }
        match app_state.capturing_input.1 {
            Some(active_button_id) => {
                let k = find_entry(
                    &page_data.vec_user_input,
                    app_state.current_page,
                    active_button_id,
                );
                if k < page_data.vec_user_input.len() {
                    Some(k)
                } else {
                    None
                }
            },
            None => None,
        }
    }

    /// Types or pastes text into the active entry: it replaces the
    /// selection if that covers anything, else it goes in at the caret; the
    /// caret ends up behind it and the selection is dropped.
    pub fn insert_text(
        &mut self,
        text_to_insert: &str,
        app_state: &AppState<PageId, ButtonId>,
        page_data: &mut PageData<PageId, ButtonId>,
        _is_paste: bool,
    )
        requires
            ids_comparable::<PageId, ButtonId>(),
        ensures
            old(self).edits(
                final(self),
                app_state,
                old(page_data),
                final(page_data),
                |edit: TextEdit| edit.after_insert(text_to_insert@),
                true,
            ),
    {
        if !app_state.capturing_input.0 || app_state.capturing_input.1.is_none() {
            return ;
        }
        if let Some(k) = Self::target(app_state, page_data) {
            let (text, cursor) = insert(
                &page_data.vec_user_input[k].2,
                self.cursor_position,
                self.text_selection_range,
                text_to_insert,
            );
            page_data.set_entry_text(k, text);
            self.cursor_position = cursor;
            self.text_selection_range = None;
        }
        page_data.update_vec_user_input_string();
    }

    /// Deletes the selection if it covers anything, else the character left
    /// of the caret.
    pub fn backspace(
        &mut self,
        app_state: &mut AppState<PageId, ButtonId>,
        page_data: &mut PageData<PageId, ButtonId>,
    )
        requires
            ids_comparable::<PageId, ButtonId>(),
        ensures
            *final(app_state) == *old(app_state),
            old(self).edits(
                final(self),
                old(app_state),
                old(page_data),
                final(page_data),
                |edit: TextEdit| edit.after_backspace(),
                true,
            ),
    {
        if !app_state.capturing_input.0 || app_state.capturing_input.1.is_none() {
            return ;
        }
        if let Some(k) = Self::target(app_state, page_data) {
            let (text, cursor) = backspace(
                &page_data.vec_user_input[k].2,
                self.cursor_position,
                self.text_selection_range,
            );
            page_data.set_entry_text(k, text);
            self.cursor_position = cursor;
            self.text_selection_range = None;
        }
        page_data.update_vec_user_input_string();
    }

    /// Selects the whole text of the active entry and puts the caret at its
    /// end.
    pub fn select_all(
        &mut self,
        app_state: &AppState<PageId, ButtonId>,
        page_data: &mut PageData<PageId, ButtonId>,
    )
        requires
            ids_comparable::<PageId, ButtonId>(),
        ensures
            *final(page_data) == *old(page_data),
            old(self).edits(
                final(self),
                app_state,
                old(page_data),
                final(page_data),
                |edit: TextEdit| edit.after_select_all(),
                false,
            ),
    {
        if let Some(k) = Self::target(app_state, page_data) {
            let len = char_len(&page_data.vec_user_input[k].2);
            self.text_selection_range = Some((0, len));
            self.cursor_position = len;
            assert(page_data.ledger() =~= page_data.ledger().update(
                k as int,
                page_data.ledger()[k as int],
            ));
        }
    }

    /// Clears the active entry, with the caret at 0 and no selection.
    pub fn delete_all(
        &mut self,
        app_state: &AppState<PageId, ButtonId>,
        page_data: &mut PageData<PageId, ButtonId>,
    )
        requires
            ids_comparable::<PageId, ButtonId>(),
        ensures
            old(self).edits(
                final(self),
                app_state,
                old(page_data),
                final(page_data),
                |edit: TextEdit| edit.after_delete_all(),
                true,
            ),
    {
        if !app_state.capturing_input.0 || app_state.capturing_input.1.is_none() {
            return ;
        }
        if let Some(k) = Self::target(app_state, page_data) {
            page_data.set_entry_text(k, String::new());
            self.cursor_position = 0;
            self.text_selection_range = None;
        }
        page_data.update_vec_user_input_string();
    }

    /// The text of the entry that keystrokes go to, or no text if there is
    /// no such entry.
    pub open spec fn targeted_text(
        app_state: &AppState<PageId, ButtonId>,
        ledger: LedgerView<PageId, ButtonId>,
    ) -> Seq<char> {
        match target_entry(app_state, ledger) {
            Some(k) => ledger[k].2,
            None => Seq::empty(),
        }
    }

    /// Copies the selected text of the active entry and returns it for the
    /// clipboard, if the selection covers anything. A cut also deletes it
    /// and moves the caret to where it began.
    pub fn copy(
        &mut self,
        app_state: &AppState<PageId, ButtonId>,
        page_data: &mut PageData<PageId, ButtonId>,
        is_cut_operation: bool,
    ) -> (clipboard_text: Option<String>)
        requires
            ids_comparable::<PageId, ButtonId>(),
        ensures
            old(self).edits(
                final(self),
                app_state,
                old(page_data),
                final(page_data),
                Self::copy_operation(is_cut_operation),
                true,
            ),
            old(self).copies(app_state, old(page_data).ledger(), clipboard_text),
    {
        if !app_state.capturing_input.0 || app_state.capturing_input.1.is_none() {
            return None;
        }
        let mut clipboard_text: Option<String> = None;
        if let Some(k) = Self::target(app_state, page_data) {
            let ghost ledger = page_data.ledger();
            assert(ledger =~= ledger.update(k as int, ledger[k as int]));
            clipboard_text =
            selected_text(&page_data.vec_user_input[k].2, self.text_selection_range);
            if clipboard_text.is_some() && is_cut_operation {
                if let Some(selection) = self.text_selection_range {
                    let len = char_len(&page_data.vec_user_input[k].2);
                    let (start, end) = span_of(selection, len);
                    let text = without(&page_data.vec_user_input[k].2, start, end);
                    page_data.set_entry_text(k, text);
                    self.cursor_position = start;
                    self.text_selection_range = None;
                }
            }
        }
        page_data.update_vec_user_input_string();
        clipboard_text
    }

    /// Moves the caret by one character, dropping the selection, or with
    /// `shift_held` growing or shrinking it. Without an entry for the
    /// active button the caret moves as in an empty text.
    pub fn move_cursor(
        &mut self,
        move_right: bool,
        shift_held: bool,
        app_state: &AppState<PageId, ButtonId>,
        page_data: &mut PageData<PageId, ButtonId>,
    )
        requires
            ids_comparable::<PageId, ButtonId>(),
        ensures
            *final(page_data) == *old(page_data),
            final(self).same_but_caret(old(self)),
            old(self).moves_caret(
                final(self),
                app_state,
                old(page_data).ledger(),
                move_right,
                shift_held,
            ),
    {
        if !app_state.capturing_input.0 || app_state.capturing_input.1.is_none() {
            return ;
        }
        let text_length = match Self::target(app_state, page_data) {
            Some(k) => char_len(&page_data.vec_user_input[k].2),
            None => 0,
        };
        let ghost text = Self::targeted_text(app_state, page_data.ledger());
        let ghost before = self.edit_of(text);
        let target = step_caret(text_length, self.cursor_position, move_right);
        assert(target == before.stepped(move_right));
        if shift_held {
            let anchor = match self.text_selection_range {
                Some(selection) => selection.0,
                None => if self.cursor_position > text_length {
                    text_length
                } else {
                    self.cursor_position
                },
            };
            self.text_selection_range = Some((anchor, target));
        } else {
            self.text_selection_range = None;
        }
        self.cursor_position = target;
    }

    /// Moves through the page history without recording a visit. Only while
    /// no input is being captured and the history is not empty: the cursor
    /// is brought into range, moved by one and kept in range, and the page
    /// it then points at becomes the current page.
    pub fn navigate_history(
        &self,
        move_forward: bool,
        app_state: &mut AppState<PageId, ButtonId>,
        page_data: &mut PageData<PageId, ButtonId>,
    )
        ensures
            Self::navigates(
                move_forward,
                old(app_state),
                final(app_state),
                old(page_data),
                final(page_data),
            ),
    {
        let len = page_data.page_history.0.len();
        if len > 0 && !app_state.capturing_input.0 {
            let start = if page_data.page_history.1 >= len {
                len - 1
            } else {
                page_data.page_history.1
            };
            let target = if move_forward {
                if start + 1 < len {
                    start + 1
                } else {
                    start
                }
            } else {
                if start > 0 {
                    start - 1
                } else {
                    0
                }
            };
            page_data.page_history.1 = target;
            app_state.current_page = page_data.page_history.0[target];
        }
    }

    /// Inserts what the clipboard held, exactly as typing it would. Without
    /// clipboard text nothing is inserted.
    pub fn paste(
        &mut self,
        clipboard_text: Option<&str>,
        app_state: &AppState<PageId, ButtonId>,
        page_data: &mut PageData<PageId, ButtonId>,
    )
        requires
            ids_comparable::<PageId, ButtonId>(),
        ensures
            match clipboard_text {
                Some(text) => old(self).edits(
                    final(self),
                    app_state,
                    old(page_data),
                    final(page_data),
                    |edit: TextEdit| edit.after_insert(text@),
                    true,
                ),
                None => *final(self) == *old(self) && *final(page_data) == *old(page_data),
            },
    {
        if let Some(text) = clipboard_text {
            self.insert_text(text, app_state, page_data, true);
        }
    }

    /// Pushes a snapshot of the whole ledger on the undo stack.
    pub fn push_state(&mut self, page_data: &PageData<PageId, ButtonId>)
        ensures
            old(self).snapshots(final(self), page_data),
    {
        let copy = page_data.snapshot();
        self.input_history_stack.push(copy);
        assert(self.undo_stack() =~= old(self).undo_stack().push(page_data.vec_user_input@));
    }

    /// Pops the most recent snapshot and restores the ledger to it, whole.
    /// With an empty stack nothing changes. Caret and selection stay.
    pub fn undo(&mut self, page_data: &mut PageData<PageId, ButtonId>)
        ensures
            final(self).button_selected == old(self).button_selected,
            final(self).mouse_position == old(self).mouse_position,
            final(self).enable_rollback_pages == old(self).enable_rollback_pages,
            old(self).undoes(final(self), old(page_data), final(page_data)),
    {
        if let Some(previous_input_state) = self.input_history_stack.pop() {
            page_data.restore(previous_input_state);
            assert(self.undo_stack() =~= old(self).undo_stack().drop_last());
        } else {
            assert(self.undo_stack() =~= old(self).undo_stack());
        }
    }

    /// Number of characters in the entry of the current page and the given
    /// button, or 0 if there is none.
    pub fn get_current_input_length(
        &self,
        app_state: &AppState<PageId, ButtonId>,
        page_data: &PageData<PageId, ButtonId>,
        button_id: ButtonId,
    ) -> (len: usize)
        requires
            ids_comparable::<PageId, ButtonId>(),
        ensures
            len == ({
                let k = entry_index(page_data.ledger(), app_state.current_page, button_id);
                if k < page_data.ledger().len() {
                    page_data.ledger()[k].2.len()
                } else {
                    0
                }
            }),
    {
        let k = find_entry(&page_data.vec_user_input, app_state.current_page, button_id);
        if k < page_data.vec_user_input.len() {
            char_len(&page_data.vec_user_input[k].2)
        } else {
            0
        }
    }

    /// The button that the frame's input is for: the button that captures
    /// input, if one is set, else the button under the pointer.
    pub open spec fn selects(
        app_state: &AppState<PageId, ButtonId>,
        data: &PageData<PageId, ButtonId>,
        mouse: (i32, i32),
    ) -> Option<ButtonId> {
        match app_state.capturing_input.1 {
            Some(active) => Some(active),
            None => data.button_at(mouse.0, mouse.1),
        }
    }

    /// The action that hands copied text to the clipboard.
    pub open spec fn clipboard_action(
        action: InputAction<ButtonId>,
        clipboard_text: Option<String>,
    ) -> bool {
        match clipboard_text {
            Some(text) => action == InputAction::<ButtonId>::SetClipboard(text),
            None => action is Nothing,
        }
    }

    /// The first of the raw events that comes to something, and how many
    /// events were taken to find it; `Idle` if none does. Events behind the
    /// first that counts are left for the next frame.
    pub fn poll(&self, events: &Vec<PlatformEvent>) -> (polled: (InputEvent, usize))
        ensures
            ({
                let k = first_meaningful(self.enable_rollback_pages, events@, 0);
                if k < events@.len() {
                    &&& Some(polled.0) == meaning(self.enable_rollback_pages, events@[k])
                    &&& polled.1 == k + 1
                } else {
                    &&& polled.0 is Idle
                    &&& polled.1 == events@.len()
                }
            }),
    {
        let mut i: usize = 0;
        while i < events.len()
            invariant
                i <= events.len(),
                first_meaningful(self.enable_rollback_pages, events@, 0) == first_meaningful(
                    self.enable_rollback_pages,
                    events@,
                    i as int,
                ),
            decreases events.len() - i,
        {
            if let Some(event) = translate(self.enable_rollback_pages, &events[i]) {
                return (event, i + 1);
            }
            i += 1;
        }
        (InputEvent::Idle, i)
    }

    /// After the action of a pressed button has run: if input is being
    /// captured now, the caret goes to the end of the button's text and the
    /// selection is dropped.
    pub fn finish_click(
        &mut self,
        app_state: &AppState<PageId, ButtonId>,
        page_data: &PageData<PageId, ButtonId>,
        button_id: ButtonId,
    )
        requires
            ids_comparable::<PageId, ButtonId>(),
        ensures
            final(self).same_but_caret(old(self)),
            if app_state.capturing_input.0 {
                &&& final(self).text_selection_range is None
                &&& final(self).cursor_position == ({
                    let k = entry_index(page_data.ledger(), app_state.current_page, button_id);
                    if k < page_data.ledger().len() {
                        page_data.ledger()[k].2.len()
                    } else {
                        0
                    }
                })
            } else {
                final(self).same_caret(old(self))
            },
    {
        if app_state.capturing_input.0 {
            self.cursor_position = self.get_current_input_length(app_state, page_data, button_id);
            self.text_selection_range = None;
        }
    }

    /// What `handle_input` does with each event, given the handler as it is
    /// once the button of the frame has been selected.
    pub open spec fn dispatches(
        &self,
        after: &Self,
        event: InputEvent,
        clipboard_text: Option<&str>,
        app_state: &AppState<PageId, ButtonId>,
        app_state_after: &AppState<PageId, ButtonId>,
        data: &PageData<PageId, ButtonId>,
        data_after: &PageData<PageId, ButtonId>,
        action: InputAction<ButtonId>,
    ) -> bool {
        let pushed = after.undo_stack() == self.undo_stack().push(data.vec_user_input@);
        let kept = after.undo_stack() == self.undo_stack();
        let released = *app_state_after == (AppState {
            capturing_input: (false, None),
            ..*app_state
        });
        match event {
            InputEvent::Click => {
                &&& kept
                &&& *data_after == *data
                &&& match self.button_selected {
                    Some(button) => {
                        &&& action == InputAction::PressButton(button)
                        &&& *app_state_after == *app_state
                        &&& after.same_caret(self)
                    },
                    None => {
                        &&& action is Nothing
                        &&& released
                        &&& after.cursor_position == self.cursor_position
                        &&& after.text_selection_range is None
                    },
                }
            },
            InputEvent::Text(text) => {
                &&& action is Nothing
                &&& *app_state_after == *app_state
                &&& pushed
                &&& self.edits_text(
                    after,
                    app_state,
                    data,
                    data_after,
                    |edit: TextEdit| edit.after_insert(text@),
                    true,
                )
            },
            InputEvent::Backspace => {
                &&& action is Nothing
                &&& *app_state_after == *app_state
                &&& pushed
                &&& self.edits_text(
                    after,
                    app_state,
                    data,
                    data_after,
                    |edit: TextEdit| edit.after_backspace(),
                    true,
                )
            },
            InputEvent::Paste => {
                &&& action is Nothing
                &&& *app_state_after == *app_state
                &&& pushed
                &&& match clipboard_text {
                    Some(text) => self.edits_text(
                        after,
                        app_state,
                        data,
                        data_after,
                        |edit: TextEdit| edit.after_insert(text@),
                        true,
                    ),
                    None => after.same_caret(self) && *data_after == *data,
                }
            },
            InputEvent::Cut => {
                &&& *app_state_after == *app_state
                &&& pushed
                &&& self.edits_text(
                    after,
                    app_state,
                    data,
                    data_after,
                    Self::copy_operation(true),
                    true,
                )
                &&& exists|copied: Option<String>|
                    #![trigger self.copies(app_state, data.ledger(), copied)]
                    self.copies(app_state, data.ledger(), copied) && Self::clipboard_action(
                        action,
                        copied,
                    )
            },
            InputEvent::Copy => {
                &&& *app_state_after == *app_state
                &&& kept
                &&& self.edits_text(
                    after,
                    app_state,
                    data,
                    data_after,
                    Self::copy_operation(false),
                    true,
                )
                &&& exists|copied: Option<String>|
                    #![trigger self.copies(app_state, data.ledger(), copied)]
                    self.copies(app_state, data.ledger(), copied) && Self::clipboard_action(
                        action,
                        copied,
                    )
            },
            InputEvent::DeleteAll => {
                &&& action is Nothing
                &&& *app_state_after == *app_state
                &&& pushed
                &&& self.edits_text(
                    after,
                    app_state,
                    data,
                    data_after,
                    |edit: TextEdit| edit.after_delete_all(),
                    true,
                )
            },
            InputEvent::SelectAll => {
                &&& action is Nothing
                &&& *app_state_after == *app_state
                &&& kept
                &&& *data_after == *data
                &&& self.edits_text(
                    after,
                    app_state,
                    data,
                    data_after,
                    |edit: TextEdit| edit.after_select_all(),
                    false,
                )
            },
            InputEvent::Undo => {
                &&& action is Nothing
                &&& *app_state_after == *app_state
                &&& self.undoes(after, data, data_after)
            },
            InputEvent::CursorLeft(shift_held) => {
                &&& action is Nothing
                &&& *app_state_after == *app_state
                &&& kept
                &&& *data_after == *data
                &&& self.moves_caret(after, app_state, data.ledger(), false, shift_held)
            },
            InputEvent::CursorRight(shift_held) => {
                &&& action is Nothing
                &&& *app_state_after == *app_state
                &&& kept
                &&& *data_after == *data
                &&& self.moves_caret(after, app_state, data.ledger(), true, shift_held)
            },
            InputEvent::Submit | InputEvent::ExitCapturingInput => {
                &&& action is Nothing
                &&& released
                &&& kept
                &&& *data_after == *data
                &&& after.same_caret(self)
            },
            InputEvent::Front => {
                &&& action is Nothing
                &&& kept
                &&& after.same_caret(self)
                &&& Self::navigates(true, app_state, app_state_after, data, data_after)
            },
            InputEvent::Back => {
                &&& action is Nothing
                &&& kept
                &&& after.same_caret(self)
                &&& Self::navigates(false, app_state, app_state_after, data, data_after)
            },
            InputEvent::Quit => {
                &&& action is Quit
                &&& *app_state_after == *app_state
                &&& kept
                &&& *data_after == *data
                &&& after.same_caret(self)
            },
            InputEvent::Idle => {
                &&& action is Nothing
                &&& *app_state_after == *app_state
                &&& kept
                &&& *data_after == *data
                &&& after.same_caret(self)
            },
        }
    }

    /// Dispatches one frame's input. The button of the frame is selected
    /// first: the one that captures input, else the one under the pointer.
    /// Then the event is carried out. Every operation that changes text
    /// first pushes a snapshot of the ledger for undo; caret movement, copy,
    /// select-all and undo push none. `clipboard_text` is what the
    /// clipboard held, for a paste. What the caller has to do afterwards is
    /// returned: run the pressed button's action, write to the clipboard,
    /// or quit.
    pub fn handle_input(
        &mut self,
        mouse: (i32, i32),
        event: InputEvent,
        clipboard_text: Option<&str>,
        page_data: &mut PageData<PageId, ButtonId>,
        app_state: &mut AppState<PageId, ButtonId>,
    ) -> (action: InputAction<ButtonId>)
        requires
            ids_comparable::<PageId, ButtonId>(),
        ensures
            final(self).button_selected == Self::selects(old(app_state), old(page_data), mouse),
            final(self).mouse_position == old(self).mouse_position,
            final(self).enable_rollback_pages == old(self).enable_rollback_pages,
            (InputHandler {
                button_selected: final(self).button_selected,
                ..*old(self)
            }).dispatches(
                final(self),
                event,
                clipboard_text,
                old(app_state),
                final(app_state),
                old(page_data),
                final(page_data),
                action,
            ),
    {
        self.button_selected = page_data.page_button_at(mouse.0, mouse.1);
        if let Some(active_button_id) = app_state.capturing_input.1 {
            self.button_selected = Some(active_button_id);
        }
        let ghost selected = *self;
        match event {
            InputEvent::Click => {
                match self.button_selected {
                    Some(button_id) => InputAction::PressButton(button_id),
                    None => {
                        app_state.capturing_input = (false, None);
                        self.text_selection_range = None;
                        InputAction::Nothing
                    },
                }
            },
            InputEvent::Text(text_input) => {
                self.push_state(page_data);
                self.insert_text(text_input.as_str(), app_state, page_data, false);
                InputAction::Nothing
            },
            InputEvent::Backspace => {
                self.push_state(page_data);
                self.backspace(app_state, page_data);
                InputAction::Nothing
            },
            InputEvent::Paste => {
                self.push_state(page_data);
                self.paste(clipboard_text, app_state, page_data);
                InputAction::Nothing
            },
            InputEvent::Cut => {
                self.push_state(page_data);
                let copied = self.copy(app_state, page_data, true);
                assert(selected.copies(app_state, old(page_data).ledger(), copied));
                match copied {
                    Some(text) => InputAction::SetClipboard(text),
                    None => InputAction::Nothing,
                }
            },
            InputEvent::DeleteAll => {
                self.push_state(page_data);
                self.delete_all(app_state, page_data);
                InputAction::Nothing
            },
            InputEvent::Copy => {
                let copied = self.copy(app_state, page_data, false);
                assert(selected.copies(app_state, old(page_data).ledger(), copied));
                match copied {
                    Some(text) => InputAction::SetClipboard(text),
                    None => InputAction::Nothing,
                }
            },
            InputEvent::SelectAll => {
                self.select_all(app_state, page_data);
                InputAction::Nothing
            },
            InputEvent::Undo => {
                self.undo(page_data);
                InputAction::Nothing
            },
            InputEvent::CursorLeft(shift_held) => {
                self.move_cursor(false, shift_held, app_state, page_data);
                InputAction::Nothing
            },
            InputEvent::CursorRight(shift_held) => {
                self.move_cursor(true, shift_held, app_state, page_data);
                InputAction::Nothing
            },
            InputEvent::Submit => {
                app_state.capturing_input = (false, None);
                InputAction::Nothing
            },
            InputEvent::Front => {
                self.navigate_history(true, app_state, page_data);
                InputAction::Nothing
            },
            InputEvent::Back => {
                self.navigate_history(false, app_state, page_data);
                InputAction::Nothing
            },
            InputEvent::ExitCapturingInput => {
                app_state.capturing_input = (false, None);
                InputAction::Nothing
            },
            InputEvent::Quit => InputAction::Quit,
            InputEvent::Idle => InputAction::Nothing,
        }
    }
}

} // verus!
