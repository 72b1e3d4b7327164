use rust_page_system::geometry::{Color, Rect};
use rust_page_system::input_handler::InputHandler;
use rust_page_system::page_system::{Button, Page, PageData};
use rust_page_system::renderer::{Renderer, RendererConfig};
use rust_page_system::state::AppState;

//
// ==========================================================
// Type scaffolding for tests
// ==========================================================
//

#[derive(Clone, Copy, Debug, PartialEq, Eq, Hash)]
enum TestPage {
    Home,
    Settings,
    Profile,
    Extra(u8),
}

#[derive(Clone, Copy, Debug, PartialEq, Eq, Hash)]
enum TestButton {
    A,
    B,
}

fn create_state() -> (AppState<TestPage, TestButton>, PageData<TestPage, TestButton>) {
    let application_state: AppState<TestPage, TestButton> =
        AppState::new(TestPage::Home, (1920, 1080));
    let page_data: PageData<TestPage, TestButton> = PageData::new(&application_state);
    (application_state, page_data)
}

fn create_input_handler() -> InputHandler<TestPage, TestButton> {
    InputHandler::new(false)
}

fn empty_page(id: TestPage) -> Page<TestPage, TestButton> {
    Page {
        has_persistent_elements: None,
        has_userinput: None,
        id,
        background_color: None,
        rects: None,
        buttons: None,
        texts: None,
        images: None,
    }
}

//
// ==========================================================
// AppState tests
// ==========================================================
//

#[test]
fn app_state_initialization_defaults() {
    let application_state: AppState<TestPage, TestButton> =
        AppState::new(TestPage::Home, (1920, 1080));

    assert_eq!(application_state.current_page, TestPage::Home);
    assert_eq!(application_state.capturing_input, (false, None));
}

#[test]
fn app_state_changes_page_and_updates_history() {
    let (mut application_state, mut page_data) = create_state();

    application_state.change_current_page(&mut page_data, TestPage::Settings, &TestButton::A);

    assert_eq!(application_state.current_page, TestPage::Settings);
    assert_eq!(page_data.page_history.0.back(), Some(&TestPage::Settings));
}

#[test]
fn app_state_prevents_duplicate_page_push() {
    let (mut application_state, mut page_data) = create_state();

    application_state.change_current_page(&mut page_data, TestPage::Home, &TestButton::A);
    application_state.change_current_page(&mut page_data, TestPage::Home, &TestButton::A);

    assert_eq!(page_data.page_history.0.len(), 1);
}

#[test]
fn app_state_tracks_multiple_page_transitions() {
    let (mut application_state, mut page_data) = create_state();

    application_state.change_current_page(&mut page_data, TestPage::Settings, &TestButton::A);
    application_state.change_current_page(&mut page_data, TestPage::Profile, &TestButton::A);

    assert_eq!(page_data.page_history.0.len(), 3);
    assert_eq!(page_data.page_history.0.back(), Some(&TestPage::Profile));
}

#[test]
fn app_state_window_size_can_be_updated() {
    let mut application_state: AppState<TestPage, TestButton> =
        AppState::new(TestPage::Profile, (1920, 1080));

    application_state.update_window_size(1920, 1080);

    assert_eq!(application_state.window_size, (1920, 1080));
}

//
// ==========================================================
// PageData tests
// ==========================================================
//

#[test]
fn page_data_initializes_with_empty_vectors_and_correct_history() {
    let (application_state, page_data) = create_state();

    assert!(page_data.vec_user_input.is_empty());
    assert!(page_data.vec_user_input_string.is_empty());
    assert_eq!(page_data.page_history.0.front(), Some(&application_state.current_page));
}

#[test]
fn page_data_adds_unique_user_inputs_without_duplicates() {
    let (_application_state, mut page_data) = create_state();

    let mut single_input_page = Page {
        has_persistent_elements: None,
        has_userinput: Some(vec![(TestPage::Home, TestButton::A)]),
        id: TestPage::Home,
        background_color: None,
        rects: None,
        buttons: None,
        texts: None,
        images: None,
    };

    page_data.push_vec_user_input_per_page(&mut single_input_page);
    assert_eq!(page_data.vec_user_input.len(), 1);

    // run again, no duplicates
    page_data.push_vec_user_input_per_page(&mut single_input_page);
    assert_eq!(page_data.vec_user_input.len(), 1);
}

#[test]
fn page_data_updates_vec_user_input_string_correctly() {
    let (_application_state, mut page_data) = create_state();

    page_data.vec_user_input.push((TestPage::Home, TestButton::A, "Hello".into()));
    page_data.vec_user_input.push((TestPage::Settings, TestButton::B, "World".into()));
    page_data.update_vec_user_input_string();

    assert_eq!(page_data.vec_user_input_string, vec!["Hello", "World"]);
}

#[test]
fn page_data_button_detection_within_bounds() {
    let (_application_state, mut page_data) = create_state();

    let clickable_button = Button {
        enabled: true,
        color: Color::RGB(255, 0, 0),
        rect: Rect::new(10, 10, 100, 50),
        radius: 4,
        id: TestButton::A,
        has_transition: None,
    };

    let page_with_button = Page {
        has_persistent_elements: None,
        has_userinput: None,
        id: TestPage::Home,
        background_color: None,
        rects: None,
        buttons: Some(vec![clickable_button]),
        texts: None,
        images: None,
    };

    page_data.page_to_render = Some(page_with_button);
    assert_eq!(page_data.page_button_at(50, 30), Some(TestButton::A));
}

#[test]
fn page_data_button_detection_out_of_bounds_returns_none() {
    let (_application_state, mut page_data) = create_state();

    let button = Button {
        enabled: true,
        color: Color::RGB(0, 0, 0),
        rect: Rect::new(10, 10, 40, 40),
        radius: 0,
        id: TestButton::A,
        has_transition: None,
    };

    let page = Page {
        has_persistent_elements: None,
        has_userinput: None,
        id: TestPage::Home,
        background_color: None,
        rects: None,
        buttons: Some(vec![button]),
        texts: None,
        images: None,
    };

    page_data.page_to_render = Some(page);
    assert_eq!(page_data.page_button_at(300, 300), None);
}

#[test]
fn page_data_page_history_truncates_to_ten() {
    let (mut application_state, mut page_data) = create_state();

    for i in 0..20 {
        application_state.change_current_page(&mut page_data, TestPage::Extra(i), &TestButton::A);
        page_data.create_current_page(&mut application_state, None);
    }

    assert!(page_data.page_history.0.len() <= 10);
}

//
// ==========================================================
// InputHandler tests
// ==========================================================
//

#[test]
fn input_handler_moves_cursor_right() {
    let (mut application_state, mut page_data) = create_state();

    page_data.vec_user_input.push((TestPage::Home, TestButton::A, "text".into()));
    application_state.capturing_input = (true, Some(TestButton::A));

    let mut input_handler = create_input_handler();

    input_handler.move_cursor(true, false, &application_state, &mut page_data);

    assert_eq!(input_handler.cursor_position, 1);
}

#[test]
fn input_handler_moves_cursor_left_without_underflow() {
    let (mut application_state, mut page_data) = create_state();

    page_data.vec_user_input.push((TestPage::Home, TestButton::A, "abc".into()));
    application_state.capturing_input = (true, Some(TestButton::A));

    let mut input_handler = create_input_handler();
    input_handler.cursor_position = 0;
    input_handler.move_cursor(false, false, &application_state, &mut page_data);

    assert_eq!(input_handler.cursor_position, 0);
}

#[test]
fn input_handler_creates_selection_with_shift_key() {
    let (mut application_state, mut page_data) = create_state();

    page_data.vec_user_input.push((TestPage::Home, TestButton::A, "abcdef".into()));
    application_state.capturing_input = (true, Some(TestButton::A));

    let mut input_handler = create_input_handler();
    input_handler.cursor_position = 2;
    input_handler.move_cursor(true, true, &application_state, &mut page_data);

    assert!(input_handler.text_selection_range.is_some());
}

#[test]
fn input_handler_clears_selection_when_shift_not_pressed() {
    let (mut application_state, mut page_data) = create_state();

    page_data.vec_user_input.push((TestPage::Home, TestButton::A, "abcdef".into()));
    application_state.capturing_input = (true, Some(TestButton::A));

    let mut input_handler = create_input_handler();
    input_handler.text_selection_range = Some((1, 3));
    input_handler.move_cursor(true, false, &application_state, &mut page_data);

    assert!(input_handler.text_selection_range.is_none());
}

#[test]
fn input_handler_len_of_current_input_returns_proper_values() {
    let (mut application_state, mut page_data) = create_state();

    page_data.vec_user_input.push((TestPage::Home, TestButton::A, "xyz".into()));
    application_state.capturing_input = (true, Some(TestButton::A));

    let input_handler = create_input_handler();
    let active_length =
        input_handler.get_current_input_length(&application_state, &page_data, TestButton::A);
    let missing_length =
        input_handler.get_current_input_length(&application_state, &page_data, TestButton::B);

    assert_eq!(active_length, 3);
    assert_eq!(missing_length, 0);
}

#[test]
fn input_handler_delete_all_removes_content_when_active() {
    let (mut application_state, mut page_data) = create_state();

    page_data.vec_user_input.push((TestPage::Home, TestButton::A, "abc".into()));
    application_state.capturing_input = (true, Some(TestButton::A));

    let mut input_handler = create_input_handler();
    input_handler.delete_all(&application_state, &mut page_data);

    assert_eq!(page_data.vec_user_input[0].2, "");
}

#[test]
fn input_handler_backspace_deletes_character_to_left_of_cursor() {
    let (mut application_state, mut page_data) = create_state();

    page_data.vec_user_input.push((TestPage::Home, TestButton::A, "abc".into()));
    application_state.capturing_input = (true, Some(TestButton::A));

    let mut input_handler = create_input_handler();
    input_handler.cursor_position = 3; // cursor at end of text
    input_handler.backspace(&mut application_state, &mut page_data);

    assert_eq!(page_data.vec_user_input[0].2, "ab");
}

#[test]
fn input_handler_insert_text_respects_cursor_positionition() {
    let (mut application_state, mut page_data) = create_state();

    page_data.vec_user_input.push((TestPage::Home, TestButton::A, "hi".into()));
    application_state.capturing_input = (true, Some(TestButton::A));

    let mut input_handler = create_input_handler();
    input_handler.cursor_position = 2; // after "hi"
    input_handler.insert_text(" there", &application_state, &mut page_data, false);

    assert_eq!(page_data.vec_user_input[0].2, "hi there");
}

//
// ==========================================================
// Renderer utilities (button matching)
// ==========================================================
//

#[test]
fn renderer_button_matches_returns_correct_boolean() {
    let test_button = Button {
        enabled: true,
        color: Color::RGB(255, 255, 255),
        rect: Rect::new(0, 0, 10, 10),
        radius: 0,
        id: TestButton::A,
        has_transition: None,
    };

    assert!(Renderer::<TestPage, TestButton>::button_matches(&test_button, TestButton::A));
    assert!(!Renderer::<TestPage, TestButton>::button_matches(&test_button, TestButton::B));
}

#[test]
fn renderer_find_active_input_text_returns_expected_value() {
    let (application_state, mut page_data) = create_state();
    let renderer: Renderer<TestPage, TestButton> = Renderer::new(RendererConfig {
        decrease_color_when_selected: None,
        selection_color: None,
    });

    page_data.vec_user_input.push((TestPage::Home, TestButton::A, "active".into()));
    let found_text =
        renderer.find_active_input_text(&page_data, &application_state, TestButton::A);

    assert_eq!(found_text, Some("active"));
}

#[test]
fn renderer_type_safety_instantiation_mock() {
    // The renderer type can be wrapped in an Option without further bounds.
    fn _compile_renderer_check() {
        let _optional_renderer: Option<Renderer<TestPage, TestButton>> = None;
        assert!(_optional_renderer.is_none());
    }

    _compile_renderer_check();
}

#[test]
fn empty_page_has_no_button_anywhere() {
    let (_application_state, mut page_data) = create_state();
    page_data.page_to_render = Some(empty_page(TestPage::Home));
    assert_eq!(page_data.page_button_at(0, 0), None);
}
