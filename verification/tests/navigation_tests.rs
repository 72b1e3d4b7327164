use rust_page_system::geometry::{Color, Rect};
use rust_page_system::history::{record_visit, trim_history};
use rust_page_system::input_handler::{InputAction, InputEvent, InputHandler};
use rust_page_system::page_system::{
    BuiltPage, Button, Page, PageData, PageFactory, PersistentElements,
};
use rust_page_system::scene_transition::{saturate_millis, SceneTransition, TransitionType};
use rust_page_system::state::AppState;
use std::collections::VecDeque;

#[derive(Clone, Copy, Debug, PartialEq, Eq)]
enum Pg {
    Page1,
    Page2,
    Page3,
    Bar,
    Numbered(u8),
}

#[derive(Clone, Copy, Debug, PartialEq, Eq)]
enum Btn {
    Plain,
    Fading,
    Sliding,
    Still,
}

fn button(id: Btn, has_transition: Option<TransitionType>) -> Button<Btn> {
    Button {
        enabled: true,
        color: Color::RGB(1, 2, 3),
        rect: Rect::new(0, 0, 10, 10),
        radius: 0,
        id,
        has_transition,
    }
}

fn page(id: Pg, buttons: Vec<Button<Btn>>) -> Page<Pg, Btn> {
    Page {
        has_persistent_elements: None,
        has_userinput: None,
        id,
        background_color: None,
        rects: None,
        buttons: Some(buttons),
        texts: None,
        images: None,
    }
}

fn overlay(id: Pg, buttons: Vec<Button<Btn>>) -> PersistentElements<Pg, Btn> {
    PersistentElements {
        id,
        background_color: None,
        rects: None,
        buttons: Some(buttons),
        texts: None,
        images: None,
    }
}

fn start() -> (AppState<Pg, Btn>, PageData<Pg, Btn>) {
    let state = AppState::new(Pg::Page1, (1920, 1080));
    let data = PageData::new(&state);
    (state, data)
}

fn pages_of(data: &PageData<Pg, Btn>) -> Vec<Pg> {
    data.page_history.0.iter().copied().collect()
}

#[test]
fn scenario_change_page_then_go_back() {
    let (mut state, mut data) = start();
    assert_eq!(pages_of(&data), vec![Pg::Page1]);
    data.page_to_render = Some(page(Pg::Page1, vec![button(Btn::Plain, None)]));

    state.change_current_page(&mut data, Pg::Page2, &Btn::Plain);
    assert_eq!(state.current_page, Pg::Page2);
    assert_eq!(pages_of(&data), vec![Pg::Page1, Pg::Page2]);
    assert_eq!(data.page_history.1, 1);
    assert!(state.scene_transition.is_none());

    let handler: InputHandler<Pg, Btn> = InputHandler::new(true);
    handler.navigate_history(false, &mut state, &mut data);
    assert_eq!(state.current_page, Pg::Page1);
    assert_eq!(pages_of(&data), vec![Pg::Page1, Pg::Page2]);
    assert_eq!(data.page_history.1, 0);
}

#[test]
fn history_keeps_the_ten_most_recent_pages_in_order() {
    let (mut state, mut data) = start();
    for i in 0..12u8 {
        state.change_current_page(&mut data, Pg::Numbered(i), &Btn::Plain);
        assert!(data.page_history.0.len() <= 10);
        assert_eq!(data.page_history.1, data.page_history.0.len() - 1);
    }
    let expected: Vec<Pg> = (2..12u8).map(Pg::Numbered).collect();
    assert_eq!(pages_of(&data), expected);
    assert_eq!(data.page_history.1, 9);
    assert_eq!(state.current_page, Pg::Numbered(11));
}

#[test]
fn a_page_may_return_to_the_history_but_not_twice_in_a_row() {
    let (mut state, mut data) = start();
    state.change_current_page(&mut data, Pg::Page2, &Btn::Plain);
    state.change_current_page(&mut data, Pg::Page1, &Btn::Plain);
    assert_eq!(pages_of(&data), vec![Pg::Page1, Pg::Page2, Pg::Page1]);

    // after going back, asking for the newest entry again pushes nothing
    let handler: InputHandler<Pg, Btn> = InputHandler::new(true);
    handler.navigate_history(false, &mut state, &mut data);
    assert_eq!(state.current_page, Pg::Page2);
    assert_eq!(data.page_history.1, 1);
    state.change_current_page(&mut data, Pg::Page1, &Btn::Plain);
    assert_eq!(state.current_page, Pg::Page1);
    assert_eq!(pages_of(&data), vec![Pg::Page1, Pg::Page2, Pg::Page1]);
    assert_eq!(data.page_history.1, 2);
}

#[test]
fn record_visit_and_trim_history_on_plain_values() {
    let mut history: (VecDeque<u32>, usize) = (VecDeque::new(), 0);
    record_visit(&mut history, 7);
    assert_eq!(history, (VecDeque::from(vec![7]), 0));
    record_visit(&mut history, 7);
    assert_eq!(history, (VecDeque::from(vec![7]), 0));
    for page in 0..15u32 {
        history.0.push_back(page);
    }
    history.1 = 12;
    trim_history(&mut history);
    assert_eq!(history.0, VecDeque::from((5..15u32).collect::<Vec<u32>>()));
    assert_eq!(history.1, 6);
    history.0.push_front(1);
    history.0.push_front(0);
    history.1 = 1;
    trim_history(&mut history);
    assert_eq!(history.0.len(), 10);
    assert_eq!(history.1, 0);
}

#[test]
fn history_navigation_is_clamped_and_records_nothing() {
    let (mut state, mut data) = start();
    state.change_current_page(&mut data, Pg::Page2, &Btn::Plain);
    state.change_current_page(&mut data, Pg::Page3, &Btn::Plain);
    let handler: InputHandler<Pg, Btn> = InputHandler::new(true);

    handler.navigate_history(true, &mut state, &mut data);
    assert_eq!((state.current_page, data.page_history.1), (Pg::Page3, 2));
    handler.navigate_history(false, &mut state, &mut data);
    assert_eq!((state.current_page, data.page_history.1), (Pg::Page2, 1));
    handler.navigate_history(false, &mut state, &mut data);
    handler.navigate_history(false, &mut state, &mut data);
    assert_eq!((state.current_page, data.page_history.1), (Pg::Page1, 0));
    handler.navigate_history(true, &mut state, &mut data);
    assert_eq!((state.current_page, data.page_history.1), (Pg::Page2, 1));
    assert_eq!(pages_of(&data), vec![Pg::Page1, Pg::Page2, Pg::Page3]);

    // a cursor beyond the history is brought back into it first
    data.page_history.1 = 40;
    handler.navigate_history(false, &mut state, &mut data);
    assert_eq!((state.current_page, data.page_history.1), (Pg::Page2, 1));
}

#[test]
fn history_navigation_is_refused_while_capturing_or_without_history() {
    let (mut state, mut data) = start();
    state.change_current_page(&mut data, Pg::Page2, &Btn::Plain);
    let handler: InputHandler<Pg, Btn> = InputHandler::new(true);
    state.begin_capturing_input(Btn::Plain);
    handler.navigate_history(false, &mut state, &mut data);
    assert_eq!((state.current_page, data.page_history.1), (Pg::Page2, 1));
    state.stop_capturing_input();
    data.page_history = (VecDeque::new(), 0);
    handler.navigate_history(false, &mut state, &mut data);
    assert_eq!((state.current_page, data.page_history.1), (Pg::Page2, 0));
}

#[test]
fn a_button_with_a_transition_defers_the_switch() {
    let (mut state, mut data) = start();
    data.page_to_render = Some(page(
        Pg::Page1,
        vec![button(Btn::Plain, None), button(Btn::Fading, Some(TransitionType::Fade(0)))],
    ));
    state.change_current_page(&mut data, Pg::Page2, &Btn::Fading);
    assert_eq!(state.current_page, Pg::Page1);
    assert_eq!(pages_of(&data), vec![Pg::Page1, Pg::Page2]);
    assert_eq!(data.page_history.1, 1);
    let transition = state.scene_transition.expect("a transition was started");
    assert!(transition.active);
    assert_eq!(transition.progress, 0);
    assert_eq!(transition.transition_type, TransitionType::Fade(0));
    assert!(!transition.is_second_stage);
    assert!(!transition.has_switched);
    assert_eq!(transition.duration_ms, 500);
    assert_eq!(transition.next_page, Some(Pg::Page2));
    assert!(state.is_transition_active());
}

#[test]
fn the_transition_is_looked_for_on_the_page_then_on_its_overlays() {
    let (mut state, mut data) = start();
    data.page_to_render = Some(page(Pg::Page1, vec![button(Btn::Sliding, None)]));
    data.persistent_elements_to_render = Some(vec![
        overlay(Pg::Bar, vec![button(Btn::Still, None)]),
        overlay(
            Pg::Bar,
            vec![
                button(Btn::Sliding, None),
                button(Btn::Sliding, Some(TransitionType::Slide(0, 2, 300))),
            ],
        ),
    ]);
    assert_eq!(
        AppState::transition_for(&data, Btn::Sliding),
        Some(TransitionType::Slide(0, 2, 300))
    );
    assert_eq!(AppState::transition_for(&data, Btn::Still), None);
    // forced overlays are not searched
    data.forced_persistent_elements = Some(vec![overlay(
        Pg::Bar,
        vec![button(Btn::Still, Some(TransitionType::Fade(0)))],
    )]);
    assert_eq!(AppState::transition_for(&data, Btn::Still), None);
    state.change_current_page(&mut data, Pg::Page2, &Btn::Still);
    assert_eq!(state.current_page, Pg::Page2);
}

#[test]
fn requests_during_a_transition_are_dropped() {
    let (mut state, mut data) = start();
    data.page_to_render = Some(page(
        Pg::Page1,
        vec![button(Btn::Plain, None), button(Btn::Fading, Some(TransitionType::Fade(0)))],
    ));
    state.change_current_page(&mut data, Pg::Page2, &Btn::Fading);
    state.change_current_page(&mut data, Pg::Page3, &Btn::Plain);
    assert_eq!(state.current_page, Pg::Page1);
    assert_eq!(pages_of(&data), vec![Pg::Page1, Pg::Page2]);
    assert_eq!(state.scene_transition.unwrap().next_page, Some(Pg::Page2));
}

#[test]
fn a_fade_switches_the_page_exactly_once_after_its_first_stage() {
    let (mut state, mut data) = start();
    data.page_to_render =
        Some(page(Pg::Page1, vec![button(Btn::Fading, Some(TransitionType::Fade(0)))]));
    state.change_current_page(&mut data, Pg::Page2, &Btn::Fading);

    assert_eq!(state.advance_transition(100), Some(TransitionType::Fade(400)));
    assert_eq!(state.current_page, Pg::Page1);
    assert_eq!(state.scene_transition.unwrap().progress, 400);
    assert_eq!(state.advance_transition(249), Some(TransitionType::Fade(996)));
    assert_eq!(state.current_page, Pg::Page1);
    assert!(!state.scene_transition.unwrap().is_second_stage);

    // the first stage reaches full progress: the stage flips, the page stays
    assert_eq!(state.advance_transition(250), Some(TransitionType::Fade(1000)));
    assert_eq!(state.current_page, Pg::Page1);
    let flipped = state.scene_transition.unwrap();
    assert!(flipped.is_second_stage);
    assert!(!flipped.has_switched);
    assert_eq!(flipped.progress, 0);

    // the next frame hands the page over
    assert_eq!(state.advance_transition(0), Some(TransitionType::Fade(1000)));
    assert_eq!(state.current_page, Pg::Page2);
    let handed = state.scene_transition.unwrap();
    assert!(handed.has_switched);
    assert_eq!(handed.next_page, None);

    assert_eq!(state.advance_transition(125), Some(TransitionType::Fade(500)));
    assert_eq!(state.current_page, Pg::Page2);
    assert_eq!(state.advance_transition(250), Some(TransitionType::Fade(0)));
    assert_eq!(state.current_page, Pg::Page2);
    assert!(state.scene_transition.is_none());
    assert!(!state.is_transition_active());
    assert_eq!(state.advance_transition(1000), None);
    assert_eq!(state.current_page, Pg::Page2);
}

#[test]
fn a_slide_hands_the_page_over_on_its_second_frame() {
    let (mut state, mut data) = start();
    data.page_to_render = Some(page(
        Pg::Page1,
        vec![button(Btn::Sliding, Some(TransitionType::Slide(0, 3, 200)))],
    ));
    state.change_current_page(&mut data, Pg::Page2, &Btn::Sliding);
    assert_eq!(state.advance_transition(100), Some(TransitionType::Slide(200, 3, 200)));
    assert_eq!(state.current_page, Pg::Page1);
    assert!(state.scene_transition.unwrap().is_second_stage);
    assert_eq!(state.advance_transition(250), Some(TransitionType::Slide(500, 3, 200)));
    assert_eq!(state.current_page, Pg::Page2);
    assert_eq!(state.advance_transition(500), Some(TransitionType::Slide(1000, 3, 200)));
    assert!(state.scene_transition.is_none());
    assert_eq!(state.current_page, Pg::Page2);
}

#[test]
fn a_transition_of_no_kind_ends_at_once_and_hands_nothing_over() {
    let mut transition: SceneTransition<Pg> =
        SceneTransition::new(TransitionType::Immediate, 500, Some(Pg::Page2));
    assert!(transition.advance(0));
    assert!(!transition.active);
    assert_eq!(transition.next_page, Some(Pg::Page2));
    // an inactive transition reports that it has finished and stays as it is
    assert!(transition.advance(10));
    assert!(transition.update());
}

#[test]
fn a_transition_without_duration_completes_each_stage_at_once() {
    let mut fade: SceneTransition<Pg> = SceneTransition::new(TransitionType::Fade(0), 0, None);
    assert!(!fade.advance(0));
    assert!(fade.is_second_stage);
    assert_eq!(fade.transition_type, TransitionType::Fade(1000));
    assert!(fade.advance(0));
    assert_eq!(fade.transition_type, TransitionType::Fade(0));
    let mut odd: SceneTransition<Pg> = SceneTransition::new(TransitionType::Fade(0), 5, None);
    assert!(!odd.advance(1));
    assert_eq!(odd.transition_type, TransitionType::Fade(400));
    assert!(!odd.advance(2));
    assert_eq!(odd.transition_type, TransitionType::Fade(800));
    assert!(!odd.advance(3));
    assert!(odd.is_second_stage);
    assert!(!odd.advance(u64::MAX - 1) || !odd.active);
}

#[test]
fn the_clock_driven_update_is_one_step() {
    let mut state: AppState<Pg, Btn> = AppState::new(Pg::Page1, (1920, 1080));
    assert_eq!(state.update_transition(), None);
    state.scene_transition = Some(SceneTransition::new(TransitionType::Fade(0), 0, Some(Pg::Page3)));
    assert_eq!(state.update_transition(), Some(TransitionType::Fade(1000)));
    assert_eq!(state.current_page, Pg::Page1);
    assert_eq!(state.update_transition(), Some(TransitionType::Fade(0)));
    assert_eq!(state.current_page, Pg::Page3);
    assert!(state.scene_transition.is_none());
    let mut transition: SceneTransition<Pg> =
        SceneTransition::new(TransitionType::Slide(0, 0, 1), 3_600_000, None);
    assert!(!transition.update());
    assert!(transition.stage_elapsed_ms() < 3_600_000);
    assert!(transition.progress < 1000);
}

#[test]
fn the_catalog_finds_plain_builders_before_builders_with_input() {
    let (_state, mut data) = start();
    assert_eq!(data.locate_factory(Pg::Page1), None);
    data.populate_rps_data(Some(vec![Pg::Page3, Pg::Page2]), Some(vec![Pg::Page1, Pg::Page2, Pg::Page1]));
    assert_eq!(data.locate_factory(Pg::Page3), Some(PageFactory::Plain(0)));
    assert_eq!(data.locate_factory(Pg::Page2), Some(PageFactory::Plain(1)));
    assert_eq!(data.locate_factory(Pg::Page1), Some(PageFactory::WithInput(0)));
    assert_eq!(data.locate_factory(Pg::Bar), None);
    data.populate_rps_data(None, Some(vec![Pg::Bar]));
    assert_eq!(data.page_linked, vec![Pg::Page3, Pg::Page2]);
    assert_eq!(data.locate_factory(Pg::Page1), None);
    assert_eq!(data.locate_factory(Pg::Bar), Some(PageFactory::WithInput(0)));
}

#[test]
fn creating_the_current_page_fills_ledger_and_overlays() {
    let (mut state, mut data) = start();
    data.populate_rps_data(Some(vec![Pg::Page1, Pg::Page2]), None);
    let mut first = page(Pg::Page1, vec![]);
    first.has_userinput = Some(vec![(Pg::Page1, Btn::Plain), (Pg::Page1, Btn::Still)]);
    first.has_persistent_elements = Some(vec![Pg::Bar]);
    let built = BuiltPage {
        page: first,
        persistent_elements: Some(vec![overlay(Pg::Bar, vec![button(Btn::Still, None)])]),
    };
    data.create_current_page(&mut state, Some(built));
    assert_eq!(data.page_to_render.as_ref().map(|p| p.id), Some(Pg::Page1));
    assert_eq!(data.vec_user_input.len(), 2);
    assert_eq!(data.vec_user_input_string, vec!["", ""]);
    assert_eq!(data.persistent_elements_to_render.as_ref().map(|l| l.len()), Some(1));

    // the text typed so far survives a rebuild
    data.vec_user_input[0].2 = "kept".to_string();
    let mut again = page(Pg::Page1, vec![]);
    again.has_userinput = Some(vec![(Pg::Page1, Btn::Plain), (Pg::Page1, Btn::Fading)]);
    data.create_current_page(&mut state, Some(BuiltPage { page: again, persistent_elements: None }));
    assert_eq!(data.vec_user_input_string, vec!["kept", "", ""]);
    // a page that names no overlays clears them
    assert!(data.persistent_elements_to_render.is_none());

    // a page without a builder leaves the screen without a page
    data.persistent_elements_to_render = Some(vec![]);
    state.current_page = Pg::Page3;
    let stray = BuiltPage { page: page(Pg::Page3, vec![]), persistent_elements: None };
    data.create_current_page(&mut state, Some(stray));
    assert!(data.page_to_render.is_none());
    assert!(data.persistent_elements_to_render.is_some());
    assert_eq!(data.vec_user_input.len(), 3);
}

#[test]
fn create_page_from_id_needs_a_registered_builder() {
    let (_state, mut data) = start();
    let built = BuiltPage { page: page(Pg::Page2, vec![]), persistent_elements: None };
    assert!(data.create_page_from_id(Pg::Page2, Some(built.clone())).is_none());
    data.populate_rps_data(None, Some(vec![Pg::Page2]));
    assert_eq!(data.create_page_from_id(Pg::Page2, Some(built)).map(|p| p.id), Some(Pg::Page2));
    assert!(data.create_page_from_id(Pg::Page2, None).is_none());
}

#[test]
fn ledger_entries_are_unique_and_never_reset() {
    let (_state, mut data) = start();
    let calls = vec![
        vec![(Pg::Page1, Btn::Plain), (Pg::Page1, Btn::Plain), (Pg::Page2, Btn::Plain)],
        vec![(Pg::Page2, Btn::Plain), (Pg::Page1, Btn::Still)],
        vec![],
        vec![(Pg::Page1, Btn::Still), (Pg::Page1, Btn::Plain), (Pg::Page3, Btn::Fading)],
    ];
    for (round, required) in calls.into_iter().enumerate() {
        let mut asking = page(Pg::Page1, vec![]);
        asking.has_userinput = Some(required);
        data.push_vec_user_input_per_page(&mut asking);
        if round == 0 {
            data.vec_user_input[1].2 = "typed".to_string();
        }
        for i in 0..data.vec_user_input.len() {
            for j in (i + 1)..data.vec_user_input.len() {
                let (a, b) = (&data.vec_user_input[i], &data.vec_user_input[j]);
                assert!(!(a.0 == b.0 && a.1 == b.1));
            }
        }
    }
    let keys: Vec<(Pg, Btn)> = data.vec_user_input.iter().map(|e| (e.0, e.1)).collect();
    assert_eq!(
        keys,
        vec![
            (Pg::Page1, Btn::Plain),
            (Pg::Page2, Btn::Plain),
            (Pg::Page1, Btn::Still),
            (Pg::Page3, Btn::Fading)
        ]
    );
    assert_eq!(data.vec_user_input_string, vec!["", "typed", "", ""]);
}

#[test]
fn entries_are_collected_from_a_list_of_pages() {
    let (_state, mut data) = start();
    let mut first = page(Pg::Page1, vec![]);
    first.has_userinput = Some(vec![(Pg::Page1, Btn::Plain)]);
    let second = page(Pg::Page2, vec![]);
    let mut third = page(Pg::Page3, vec![]);
    third.has_userinput = Some(vec![(Pg::Page1, Btn::Plain), (Pg::Page3, Btn::Still)]);
    let pages = vec![first, second, third];
    data.push_vec_user_input_per_vec(&pages);
    assert_eq!(data.vec_user_input.len(), 2);
    assert_eq!(data.vec_user_input_string, vec!["", ""]);
    // nothing new: the flattened texts are left alone
    data.vec_user_input[0].2 = "x".to_string();
    data.push_vec_user_input_per_vec(&pages);
    assert_eq!(data.vec_user_input_string, vec!["", ""]);
}

#[test]
fn snapshot_and_restore_replace_the_ledger_wholesale() {
    let (_state, mut data) = start();
    data.vec_user_input.push((Pg::Page1, Btn::Plain, "one".to_string()));
    data.update_vec_user_input_string();
    let saved = data.snapshot();
    data.vec_user_input[0].2 = "two".to_string();
    data.vec_user_input.push((Pg::Page2, Btn::Plain, "three".to_string()));
    data.restore(saved);
    assert_eq!(data.vec_user_input, vec![(Pg::Page1, Btn::Plain, "one".to_string())]);
    assert_eq!(data.vec_user_input_string, vec!["one"]);
}

#[test]
fn clicks_press_the_selected_button_or_release_the_capture() {
    let (mut state, mut data) = start();
    let mut plain = button(Btn::Plain, None);
    plain.rect = Rect::new(100, 100, 50, 20);
    data.page_to_render = Some(page(Pg::Page1, vec![plain]));
    data.vec_user_input.push((Pg::Page1, Btn::Still, "abcd".to_string()));
    let mut handler: InputHandler<Pg, Btn> = InputHandler::new(false);

    let action = handler.handle_input((120, 110), InputEvent::Click, None, &mut data, &mut state);
    assert_eq!(action, InputAction::PressButton(Btn::Plain));
    assert_eq!(handler.button_selected, Some(Btn::Plain));

    // while input is captured the capturing button is the selected one
    state.begin_capturing_input(Btn::Still);
    let action = handler.handle_input((120, 110), InputEvent::Click, None, &mut data, &mut state);
    assert_eq!(action, InputAction::PressButton(Btn::Still));
    handler.text_selection_range = Some((0, 1));
    handler.finish_click(&state, &data, Btn::Still);
    assert_eq!(handler.cursor_position, 4);
    assert_eq!(handler.text_selection_range, None);

    state.capturing_input = (true, None);
    handler.text_selection_range = Some((0, 1));
    let action = handler.handle_input((5, 5), InputEvent::Click, None, &mut data, &mut state);
    assert_eq!(action, InputAction::Nothing);
    assert_eq!(handler.button_selected, None);
    assert_eq!(state.capturing_input, (false, None));
    assert_eq!(handler.text_selection_range, None);
}

#[test]
fn escape_quit_and_history_events() {
    let (mut state, mut data) = start();
    state.change_current_page(&mut data, Pg::Page2, &Btn::Plain);
    let mut handler: InputHandler<Pg, Btn> = InputHandler::new(true);
    state.begin_capturing_input(Btn::Plain);
    handler.handle_input((0, 0), InputEvent::ExitCapturingInput, None, &mut data, &mut state);
    assert_eq!(state.capturing_input, (false, None));
    assert_eq!(
        handler.handle_input((0, 0), InputEvent::Quit, None, &mut data, &mut state),
        InputAction::Quit
    );
    handler.handle_input((0, 0), InputEvent::Back, None, &mut data, &mut state);
    assert_eq!(state.current_page, Pg::Page1);
    handler.handle_input((0, 0), InputEvent::Front, None, &mut data, &mut state);
    assert_eq!(state.current_page, Pg::Page2);
    assert_eq!(pages_of(&data), vec![Pg::Page1, Pg::Page2]);
}

#[test]
fn clock_readings_are_brought_into_64_bits() {
    assert_eq!(saturate_millis(0), 0);
    assert_eq!(saturate_millis(1234), 1234);
    assert_eq!(saturate_millis(u64::MAX as u128), u64::MAX);
    assert_eq!(saturate_millis(u64::MAX as u128 + 1), u64::MAX);
    assert_eq!(saturate_millis(u128::MAX), u64::MAX);
}
