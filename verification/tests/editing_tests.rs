use rust_page_system::editing::{backspace, char_len, insert, selected_text, span_of, splice, step_caret, without};
use rust_page_system::input_handler::{InputAction, InputEvent, InputHandler};
use rust_page_system::page_system::{Page, PageData};
use rust_page_system::state::AppState;

#[derive(Clone, Copy, Debug, PartialEq, Eq)]
enum Pg {
    Page1,
    Page2,
}

#[derive(Clone, Copy, Debug, PartialEq, Eq)]
enum Btn {
    BtnA,
    BtnB,
}

type Handler = InputHandler<Pg, Btn>;

fn page_asking_for(required: Vec<(Pg, Btn)>) -> Page<Pg, Btn> {
    Page {
        has_persistent_elements: None,
        has_userinput: Some(required),
        id: Pg::Page1,
        background_color: None,
        rects: None,
        buttons: None,
        texts: None,
        images: None,
    }
}

fn editing(text: &str) -> (AppState<Pg, Btn>, PageData<Pg, Btn>, Handler) {
    let mut state = AppState::new(Pg::Page1, (1920, 1080));
    let mut data = PageData::new(&state);
    data.vec_user_input.push((Pg::Page1, Btn::BtnA, text.to_string()));
    data.update_vec_user_input_string();
    state.begin_capturing_input(Btn::BtnA);
    (state, data, InputHandler::new(false))
}

#[test]
fn scenario_insert_select_left_backspace() {
    let mut state: AppState<Pg, Btn> = AppState::new(Pg::Page1, (1920, 1080));
    let mut data = PageData::new(&state);
    let mut handler: Handler = InputHandler::new(false);
    assert!(data.vec_user_input.is_empty());

    data.push_vec_user_input_per_page(&mut page_asking_for(vec![(Pg::Page1, Btn::BtnA)]));
    assert_eq!(data.vec_user_input, vec![(Pg::Page1, Btn::BtnA, String::new())]);

    state.begin_capturing_input(Btn::BtnA);
    handler.insert_text("hi", &state, &mut data, false);
    assert_eq!(data.vec_user_input[0].2, "hi");
    assert_eq!(handler.cursor_position, 2);

    handler.move_cursor(false, true, &state, &mut data);
    assert_eq!(handler.text_selection_range, Some((2, 1)));
    assert_eq!(span_of(handler.text_selection_range.unwrap(), 2), (1, 2));
    assert_eq!(handler.cursor_position, 1);

    handler.backspace(&mut state, &mut data);
    assert_eq!(data.vec_user_input[0].2, "h");
    assert_eq!(handler.cursor_position, 1);
    assert_eq!(handler.text_selection_range, None);
    assert_eq!(data.vec_user_input_string, vec!["h"]);
}

#[test]
fn insert_goes_in_at_the_caret() {
    let (state, mut data, mut handler) = editing("held");
    handler.cursor_position = 3;
    handler.insert_text("lo wor", &state, &mut data, false);
    assert_eq!(data.vec_user_input[0].2, "hello word");
    assert_eq!(handler.cursor_position, 9);
    assert_eq!(handler.text_selection_range, None);
}

#[test]
fn insert_replaces_the_selection() {
    let (state, mut data, mut handler) = editing("abcdef");
    handler.cursor_position = 4;
    handler.text_selection_range = Some((1, 4));
    handler.insert_text("XY", &state, &mut data, false);
    assert_eq!(data.vec_user_input[0].2, "aXYef");
    assert_eq!(handler.cursor_position, 3);
    assert_eq!(handler.text_selection_range, None);
}

#[test]
fn selection_direction_makes_no_difference() {
    for selection in [(1usize, 4usize), (4usize, 1usize)] {
        let (state, mut data, mut handler) = editing("abcdef");
        handler.cursor_position = selection.1;
        handler.text_selection_range = Some(selection);
        handler.insert_text("-", &state, &mut data, false);
        assert_eq!(data.vec_user_input[0].2, "a-ef");
        assert_eq!(handler.cursor_position, 2);

        let (mut state, mut data, mut handler) = editing("abcdef");
        handler.cursor_position = selection.1;
        handler.text_selection_range = Some(selection);
        handler.backspace(&mut state, &mut data);
        assert_eq!(data.vec_user_input[0].2, "aef");
        assert_eq!(handler.cursor_position, 1);

        let (state, mut data, mut handler) = editing("abcdef");
        handler.cursor_position = selection.1;
        handler.text_selection_range = Some(selection);
        let copied = handler.copy(&state, &mut data, false);
        assert_eq!(copied, Some("bcd".to_string()));
        assert_eq!(data.vec_user_input[0].2, "abcdef");
        assert_eq!(handler.text_selection_range, Some(selection));
    }
}

#[test]
fn selection_grown_by_arrow_keys_in_both_directions() {
    let (state, mut data, mut handler) = editing("abcdef");
    handler.cursor_position = 3;
    handler.move_cursor(true, true, &state, &mut data);
    handler.move_cursor(true, true, &state, &mut data);
    assert_eq!(handler.text_selection_range, Some((3, 5)));
    assert_eq!(handler.cursor_position, 5);
    assert_eq!(handler.copy(&state, &mut data, false), Some("de".to_string()));

    let (state, mut data, mut handler) = editing("abcdef");
    handler.cursor_position = 5;
    handler.move_cursor(false, true, &state, &mut data);
    handler.move_cursor(false, true, &state, &mut data);
    assert_eq!(handler.text_selection_range, Some((5, 3)));
    assert_eq!(handler.cursor_position, 3);
    assert_eq!(handler.copy(&state, &mut data, false), Some("de".to_string()));
    handler.insert_text("!", &state, &mut data, false);
    assert_eq!(data.vec_user_input[0].2, "abc!f");
    assert_eq!(handler.cursor_position, 4);
}

#[test]
fn extending_a_selection_stops_at_both_ends() {
    let (state, mut data, mut handler) = editing("ab");
    handler.cursor_position = 2;
    handler.move_cursor(true, true, &state, &mut data);
    assert_eq!(handler.text_selection_range, Some((2, 2)));
    assert_eq!(handler.cursor_position, 2);
    handler.cursor_position = 0;
    handler.text_selection_range = None;
    handler.move_cursor(false, true, &state, &mut data);
    assert_eq!(handler.text_selection_range, Some((0, 0)));
    assert_eq!(handler.cursor_position, 0);
}

#[test]
fn backspace_at_position_zero_does_nothing() {
    let (mut state, mut data, mut handler) = editing("abc");
    handler.cursor_position = 0;
    handler.backspace(&mut state, &mut data);
    assert_eq!(data.vec_user_input[0].2, "abc");
    assert_eq!(handler.cursor_position, 0);
}

#[test]
fn backspace_with_an_empty_selection_only_drops_it() {
    let (mut state, mut data, mut handler) = editing("abc");
    handler.cursor_position = 2;
    handler.text_selection_range = Some((2, 2));
    handler.backspace(&mut state, &mut data);
    assert_eq!(data.vec_user_input[0].2, "abc");
    assert_eq!(handler.cursor_position, 2);
    assert_eq!(handler.text_selection_range, None);
}

#[test]
fn stale_positions_are_brought_into_the_text() {
    let (mut state, mut data, mut handler) = editing("abc");
    handler.cursor_position = 50;
    handler.backspace(&mut state, &mut data);
    assert_eq!(data.vec_user_input[0].2, "ab");
    assert_eq!(handler.cursor_position, 2);

    handler.cursor_position = 50;
    handler.insert_text("Z", &state, &mut data, false);
    assert_eq!(data.vec_user_input[0].2, "abZ");
    assert_eq!(handler.cursor_position, 3);

    handler.text_selection_range = Some((70, 1));
    handler.cursor_position = 70;
    handler.insert_text("-", &state, &mut data, false);
    assert_eq!(data.vec_user_input[0].2, "a-");
    assert_eq!(handler.cursor_position, 2);

    handler.cursor_position = 9;
    handler.move_cursor(false, false, &state, &mut data);
    assert_eq!(handler.cursor_position, 1);
    handler.cursor_position = 9;
    handler.move_cursor(true, false, &state, &mut data);
    assert_eq!(handler.cursor_position, 2);
}

#[test]
fn positions_count_characters_not_bytes() {
    let (mut state, mut data, mut handler) = editing("héllo wörld");
    assert_eq!(handler.get_current_input_length(&state, &data, Btn::BtnA), 11);
    handler.cursor_position = 2;
    handler.insert_text("ñ", &state, &mut data, false);
    assert_eq!(data.vec_user_input[0].2, "héñllo wörld");
    assert_eq!(handler.cursor_position, 3);
    handler.backspace(&mut state, &mut data);
    handler.backspace(&mut state, &mut data);
    assert_eq!(data.vec_user_input[0].2, "hllo wörld");
    assert_eq!(handler.cursor_position, 1);
    handler.select_all(&state, &mut data);
    assert_eq!(handler.text_selection_range, Some((0, 10)));
    assert_eq!(handler.cursor_position, 10);
    handler.text_selection_range = Some((6, 9));
    assert_eq!(handler.copy(&state, &mut data, true), Some("örl".to_string()));
    assert_eq!(data.vec_user_input[0].2, "hllo wd");
    assert_eq!(handler.cursor_position, 6);
    assert_eq!(handler.text_selection_range, None);
}

#[test]
fn select_all_then_delete_all() {
    let (state, mut data, mut handler) = editing("abc");
    handler.select_all(&state, &mut data);
    assert_eq!(handler.text_selection_range, Some((0, 3)));
    assert_eq!(handler.cursor_position, 3);
    handler.delete_all(&state, &mut data);
    assert_eq!(data.vec_user_input[0].2, "");
    assert_eq!(handler.cursor_position, 0);
    assert_eq!(handler.text_selection_range, None);
    assert_eq!(data.vec_user_input_string, vec![""]);
}

#[test]
fn copy_without_selection_copies_nothing() {
    let (state, mut data, mut handler) = editing("abc");
    assert_eq!(handler.copy(&state, &mut data, false), None);
    handler.text_selection_range = Some((1, 1));
    assert_eq!(handler.copy(&state, &mut data, true), None);
    assert_eq!(data.vec_user_input[0].2, "abc");
    assert_eq!(handler.text_selection_range, Some((1, 1)));
}

#[test]
fn paste_inserts_like_typing_and_a_failed_paste_inserts_nothing() {
    let (state, mut data, mut handler) = editing("ab");
    handler.cursor_position = 1;
    handler.paste(Some("XYZ"), &state, &mut data);
    assert_eq!(data.vec_user_input[0].2, "aXYZb");
    assert_eq!(handler.cursor_position, 4);
    handler.paste(None, &state, &mut data);
    assert_eq!(data.vec_user_input[0].2, "aXYZb");
    assert_eq!(handler.cursor_position, 4);
}

#[test]
fn nothing_is_edited_unless_input_is_captured() {
    let (mut state, mut data, mut handler) = editing("abc");
    state.stop_capturing_input();
    handler.cursor_position = 1;
    handler.insert_text("x", &state, &mut data, false);
    handler.backspace(&mut state, &mut data);
    handler.delete_all(&state, &mut data);
    handler.select_all(&state, &mut data);
    handler.move_cursor(true, true, &state, &mut data);
    assert_eq!(handler.copy(&state, &mut data, true), None);
    assert_eq!(data.vec_user_input[0].2, "abc");
    assert_eq!(handler.cursor_position, 1);
    assert_eq!(handler.text_selection_range, None);

    // a flag without a button edits nothing either
    state.capturing_input = (true, None);
    handler.insert_text("x", &state, &mut data, false);
    assert_eq!(data.vec_user_input[0].2, "abc");
}

#[test]
fn edits_go_to_the_entry_of_the_current_page_and_active_button() {
    let mut state: AppState<Pg, Btn> = AppState::new(Pg::Page2, (1920, 1080));
    let mut data = PageData::new(&state);
    data.push_vec_user_input_per_page(&mut page_asking_for(vec![
        (Pg::Page1, Btn::BtnA),
        (Pg::Page2, Btn::BtnA),
        (Pg::Page2, Btn::BtnB),
    ]));
    let mut handler: Handler = InputHandler::new(false);
    state.begin_capturing_input(Btn::BtnB);
    handler.insert_text("x", &state, &mut data, false);
    assert_eq!(data.vec_user_input_string, vec!["", "", "x"]);
    // without an entry for the pair nothing is edited and the caret stays
    state.current_page = Pg::Page1;
    handler.insert_text("y", &state, &mut data, false);
    assert_eq!(data.vec_user_input_string, vec!["", "", "x"]);
    assert_eq!(handler.cursor_position, 1);
    // but the caret moves as in an empty text
    handler.move_cursor(true, false, &state, &mut data);
    assert_eq!(handler.cursor_position, 0);
}

#[test]
fn undo_restores_the_ledger_after_each_kind_of_edit() {
    let events = vec![
        InputEvent::Text("xyz".to_string()),
        InputEvent::Backspace,
        InputEvent::DeleteAll,
        InputEvent::Paste,
        InputEvent::Cut,
    ];
    for event in events {
        let (mut state, mut data, mut handler) = editing("hello");
        data.vec_user_input.push((Pg::Page2, Btn::BtnB, "other".to_string()));
        data.update_vec_user_input_string();
        handler.cursor_position = 3;
        handler.text_selection_range = Some((1, 3));
        let before = data.vec_user_input.clone();
        handler.handle_input((0, 0), event.clone(), Some("pasted"), &mut data, &mut state);
        assert_ne!(data.vec_user_input, before);
        assert_eq!(handler.input_history_stack.len(), 1);
        handler.handle_input((0, 0), InputEvent::Undo, None, &mut data, &mut state);
        assert_eq!(data.vec_user_input, before);
        assert_eq!(data.vec_user_input_string, vec!["hello", "other"]);
        assert!(handler.input_history_stack.is_empty());
    }
}

#[test]
fn undo_with_an_empty_stack_changes_nothing() {
    let (_state, mut data, mut handler) = editing("hello");
    handler.undo(&mut data);
    assert_eq!(data.vec_user_input[0].2, "hello");
}

#[test]
fn snapshots_are_pushed_before_edits_only() {
    let (mut state, mut data, mut handler) = editing("hello");
    handler.text_selection_range = Some((0, 2));
    let quiet = vec![
        InputEvent::Copy,
        InputEvent::SelectAll,
        InputEvent::CursorLeft(false),
        InputEvent::CursorRight(true),
        InputEvent::Idle,
    ];
    for event in quiet {
        handler.handle_input((0, 0), event, None, &mut data, &mut state);
        assert!(handler.input_history_stack.is_empty());
    }
    handler.handle_input((0, 0), InputEvent::Text("a".to_string()), None, &mut data, &mut state);
    assert_eq!(handler.input_history_stack.len(), 1);
    handler.handle_input((0, 0), InputEvent::Paste, None, &mut data, &mut state);
    assert_eq!(handler.input_history_stack.len(), 2);
    assert_eq!(handler.input_history_stack[0][0].2, "hello");
}

#[test]
fn copy_and_cut_hand_text_to_the_clipboard() {
    let (mut state, mut data, mut handler) = editing("hello");
    handler.text_selection_range = Some((1, 3));
    let action = handler.handle_input((0, 0), InputEvent::Copy, None, &mut data, &mut state);
    assert_eq!(action, InputAction::SetClipboard("el".to_string()));
    assert_eq!(data.vec_user_input[0].2, "hello");
    let action = handler.handle_input((0, 0), InputEvent::Cut, None, &mut data, &mut state);
    assert_eq!(action, InputAction::SetClipboard("el".to_string()));
    assert_eq!(data.vec_user_input[0].2, "hlo");
    assert_eq!(handler.cursor_position, 1);
    let action = handler.handle_input((0, 0), InputEvent::Copy, None, &mut data, &mut state);
    assert_eq!(action, InputAction::Nothing);
}

#[test]
fn string_helpers_give_exact_results() {
    let text = "héllo".to_string();
    assert_eq!(char_len(&text), 5);
    assert_eq!(splice(&text, 1, 3, "EY"), "hEYlo");
    assert_eq!(splice(&text, 5, 5, "!"), "héllo!");
    assert_eq!(without(&text, 0, 2), "llo");
    assert_eq!(span_of((7, 2), 5), (2, 5));
    assert_eq!(span_of((2, 3), 5), (2, 3));
    assert_eq!(insert(&text, 9, None, "?"), ("héllo?".to_string(), 6));
    assert_eq!(insert(&text, 0, Some((4, 1)), ""), ("ho".to_string(), 1));
    assert_eq!(backspace(&text, 2, None), ("hllo".to_string(), 1));
    assert_eq!(backspace(&text, 0, None), ("héllo".to_string(), 0));
    assert_eq!(selected_text(&text, Some((3, 1))), Some("él".to_string()));
    assert_eq!(selected_text(&text, None), None);
    assert_eq!(step_caret(5, 5, true), 5);
    assert_eq!(step_caret(5, 4, true), 5);
    assert_eq!(step_caret(5, 0, false), 0);
    assert_eq!(step_caret(5, 8, false), 4);
}
