//! What the renderer decides before it draws: colours, the overlays of a
//! frame, the span of the selection, and the frame of a running transition.
//! Drawing itself is left to the caller.

use crate::editing::{clamped, selection_span, span_of};
use crate::geometry::{Color, Rect};
use crate::input_handler::InputHandler;
use crate::ledger::{entry_index, find_entry, ids_comparable};
use crate::page_system::{buttons_of, Button, Buttons, Page, PageData, PersistentElements};
use crate::scene_transition::TransitionType;
use crate::state::{drawn_in_tick, running_view, tick, AppState};
use std::marker::PhantomData;
use vstd::laws_eq::obeys_concrete_eq;
use vstd::prelude::*;

verus! {

/// Progress, in thousandths, from which a slide no longer needs the
/// snapshot of the outgoing page.
pub const SLIDE_RELEASE: u32 = 990;

/// Colour of the selection highlight where none is configured.
pub open spec fn default_selection_color() -> Color {
    Color { r: 0, g: 0, b: 255, a: 125 }
}

/// The settings of a renderer.
#[derive(Clone, Copy, Debug, PartialEq, Eq)]
pub struct RendererConfig {
    pub decrease_color_when_selected: Option<(u8, u8, u8)>,
    pub selection_color: Option<(u8, u8, u8, u8)>,
}

/// The deciding half of a renderer: its settings, and whether it holds a
/// snapshot of the outgoing page for a slide.
#[derive(Debug)]
pub struct Renderer<PageId, ButtonId> {
    pub decrease_color_when_selected: Option<(u8, u8, u8)>,
    pub selection_color: Option<(u8, u8, u8, u8)>,
    pub holds_outgoing_page: bool,
    pub identifiers: PhantomData<(PageId, ButtonId)>,
}

/// What to draw in a frame.
#[derive(Clone, Copy, Debug, PartialEq, Eq, Structural)]
pub struct FramePlan {
    /// The colour the canvas is cleared with.
    pub background: Color,
    /// The forced overlays are drawn, in declaration order.
    pub with_forced: bool,
    /// The page's own overlays are drawn behind the forced ones.
    pub with_regular: bool,
    /// A snapshot of the page, as drawn in this frame, is to be kept as the
    /// outgoing page of the slide.
    pub keep_outgoing_page: bool,
    /// The transition to draw over the page, after its update.
    pub transition: Option<TransitionType>,
    /// The snapshot of the outgoing page is drawn at the slide's offset.
    pub draw_outgoing_page: bool,
    /// The snapshot of the outgoing page is no longer needed.
    pub release_outgoing_page: bool,
}

/// How close, in pixels, the top of a line of text must be to the top of the
/// active button to count as its text.
pub const INPUT_LINE_REACH: i32 = 10;

/// Whether a drawn line of text belongs to the button: it shares area with
/// the button, or its top is within `INPUT_LINE_REACH` of the button's top.
pub open spec fn line_belongs(line: Rect, button: Rect) -> bool {
    ||| line.has_intersection_spec(button)
    ||| -INPUT_LINE_REACH < line.y - button.y < INPUT_LINE_REACH
}

/// The first line from `from` on that belongs to the button.
pub open spec fn line_of_button(lines: Seq<Rect>, button: Rect, from: int) -> Option<Rect>
    decreases lines.len() - from,
{
    if from < 0 || from >= lines.len() {
        None
    } else if line_belongs(lines[from], button) {
        Some(lines[from])
    } else {
        line_of_button(lines, button, from + 1)
    }
}

/// The rectangle of the active button as seen with one overlay: that of the
/// first such button of the page, else of the overlay.
pub open spec fn active_rect<PageId, ButtonId>(
    page: &Page<PageId, ButtonId>,
    overlay: Option<&PersistentElements<PageId, ButtonId>>,
    active: ButtonId,
) -> Option<Rect> {
    if rect_of_button(buttons_of(page.buttons), active, 0) is Some {
        rect_of_button(buttons_of(page.buttons), active, 0)
    } else {
        match overlay {
            Some(overlay) => rect_of_button(buttons_of(overlay.buttons), active, 0),
            None => None,
        }
    }
}

/// The line that the overlays up to `upto` pick for the active button: each
/// overlay with which the button is found and has a line of its own
/// replaces the pick of those before it.
pub open spec fn line_picked<PageId, ButtonId>(
    page: &Page<PageId, ButtonId>,
    overlays: Seq<PersistentElements<PageId, ButtonId>>,
    active: ButtonId,
    lines: Seq<Rect>,
    upto: int,
) -> Option<Rect>
    decreases upto,
{
    if upto <= 0 || upto > overlays.len() {
        None
    } else {
        let here = match active_rect(page, Some(&overlays[upto - 1]), active) {
            Some(button) => line_of_button(lines, button, 0),
            None => None,
        };
        if here is Some {
            here
        } else {
            line_picked(page, overlays, active, lines, upto - 1)
        }
    }
}

/// The rectangle of the first button that carries `id`.
pub open spec fn rect_of_button<ButtonId>(
    buttons: Seq<Button<ButtonId>>,
    id: ButtonId,
    from: int,
) -> Option<Rect>
    decreases buttons.len() - from,
{
    if from < 0 || from >= buttons.len() {
        None
    } else if buttons[from].id == id {
        Some(buttons[from].rect)
    } else {
        rect_of_button(buttons, id, from + 1)
    }
}

fn find_button_rect<ButtonId: Copy + Eq>(buttons: &Buttons<ButtonId>, id: ButtonId) -> (found:
    Option<Rect>)
    requires
        obeys_concrete_eq::<ButtonId>(),
    ensures
        found == rect_of_button(buttons_of(*buttons), id, 0),
{
    if let Some(list) = buttons {
        let mut i: usize = 0;
        while i < list.len()
            invariant
                i <= list.len(),
                buttons_of(*buttons) == list@,
                obeys_concrete_eq::<ButtonId>(),
                rect_of_button(list@, id, 0) == rect_of_button(list@, id, i as int),
            decreases list.len() - i,
        {
            if Renderer::<ButtonId, ButtonId>::button_matches(&list[i], id) {
                return Some(list[i].rect);
            }
            i += 1;
        }
    }
    None
}

fn find_line(lines: &Vec<Rect>, button: Rect) -> (found: Option<Rect>)
    ensures
        found == line_of_button(lines@, button, 0),
{
    let mut i: usize = 0;
    while i < lines.len()
        invariant
            i <= lines.len(),
            line_of_button(lines@, button, 0) == line_of_button(lines@, button, i as int),
        decreases lines.len() - i,
    {
        let distance: i64 = lines[i].y as i64 - button.y as i64;
        if lines[i].has_intersection(button) || (-(INPUT_LINE_REACH as i64) < distance && distance
            < INPUT_LINE_REACH as i64) {
            return Some(lines[i]);
        }
        i += 1;
    }
    None
}

impl<PageId: Copy + Eq, ButtonId: Copy + Eq> Renderer<PageId, ButtonId> {
    /// A renderer with the given settings that holds no snapshot.
    pub fn new(render_config: RendererConfig) -> (renderer: Self)
        ensures
            renderer.decrease_color_when_selected == render_config.decrease_color_when_selected,
            renderer.selection_color == render_config.selection_color,
            !renderer.holds_outgoing_page,
    {
        Self {
            decrease_color_when_selected: render_config.decrease_color_when_selected,
            selection_color: render_config.selection_color,
            holds_outgoing_page: false,
            identifiers: PhantomData,
        }
    }

    /// Check if the button carries the given identifier.
    pub fn button_matches<T: Copy + Eq>(button: &Button<T>, a: T) -> (matches: bool)
        requires
            obeys_concrete_eq::<T>(),
        ensures
            matches == (button.id == a),
    {
        proof {
            reveal(obeys_concrete_eq);
        }
        button.id == a
    }

    /// The text of the ledger entry of the current page and the given
    /// button, if there is one.
    pub fn find_active_input_text<'p>(
        &self,
        data: &'p PageData<PageId, ButtonId>,
        app: &AppState<PageId, ButtonId>,
        button_active: ButtonId,
    ) -> (text: Option<&'p str>)
        requires
            ids_comparable::<PageId, ButtonId>(),
        ensures
            ({
                let k = entry_index(data.ledger(), app.current_page, button_active);
                match text {
                    Some(t) => k < data.ledger().len() && t@ == data.ledger()[k].2,
                    None => k == data.ledger().len(),
                }
            }),
    {
        let k = find_entry(&data.vec_user_input, app.current_page, button_active);
        if k < data.vec_user_input.len() {
            Some(data.vec_user_input[k].2.as_str())
        } else {
            None
        }
    }

    /// The rectangle of the active button: of the first button of the page
    /// that carries the identifier, else of the first such button of the
    /// overlay.
    pub fn find_active_button_rect(
        &self,
        page: &Page<PageId, ButtonId>,
        option_persistent_elements: Option<&PersistentElements<PageId, ButtonId>>,
        active: ButtonId,
    ) -> (rect: Option<Rect>)
        requires
            obeys_concrete_eq::<ButtonId>(),
        ensures
            rect == active_rect(page, option_persistent_elements, active),
    {
        let on_page = find_button_rect(&page.buttons, active);
        if on_page.is_some() {
            return on_page;
        }
        match option_persistent_elements {
            Some(overlay) => find_button_rect(&overlay.buttons, active),
            None => None,
        }
    }

    /// The drawn line of text over which caret and selection of the active
    /// button are shown. `lines` are the rectangles of the lines of one text
    /// label as drawn, and `shows_active_text` tells whether the label shows
    /// the text of the active entry. Without overlays nothing is shown.
    /// Otherwise the line is the one that the overlays pick for the button,
    /// the pick of a later overlay replacing that of an earlier one; if they
    /// pick none and the label shows the active text, it is the first line.
    pub fn caret_line(
        &self,
        page: &Page<PageId, ButtonId>,
        persistent_elements: Option<&Vec<PersistentElements<PageId, ButtonId>>>,
        active: ButtonId,
        lines: &Vec<Rect>,
        shows_active_text: bool,
    ) -> (line: Option<Rect>)
        requires
            obeys_concrete_eq::<ButtonId>(),
        ensures
            line == (match persistent_elements {
                None => None,
                Some(overlays) => {
                    let picked = line_picked(
                        page,
                        overlays@,
                        active,
                        lines@,
                        overlays@.len() as int,
                    );
                    if picked is Some {
                        picked
                    } else if shows_active_text && lines@.len() > 0 {
                        Some(lines@[0])
                    } else {
                        None
                    }
                },
            }),
    {
        let overlays = match persistent_elements {
            Some(overlays) => overlays,
            None => {
                return None;
            },
        };
        let mut i: usize = overlays.len();
        while i > 0
            invariant
                i <= overlays.len(),
                persistent_elements == Some(overlays),
                obeys_concrete_eq::<ButtonId>(),
                line_picked(page, overlays@, active, lines@, overlays@.len() as int)
                    == line_picked(page, overlays@, active, lines@, i as int),
            decreases i,
        {
            i -= 1;
            if let Some(button) = self.find_active_button_rect(page, Some(&overlays[i]), active) {
                let here = find_line(lines, button);
                if here.is_some() {
                    return here;
                }
            }
        }
        if shows_active_text && lines.len() > 0 {
            Some(lines[0])
        } else {
            None
        }
    }

    /// The colour a button is drawn in: darkened by the configured amount
    /// if it is the selected button, else its own.
    pub fn button_color(&self, button: &Button<ButtonId>, selected: Option<ButtonId>) -> (color:
        Color)
        requires
            obeys_concrete_eq::<ButtonId>(),
        ensures
            color == (match (selected, self.decrease_color_when_selected) {
                (Some(id), Some(amount)) if button.id == id => button.color.darkened_spec(amount),
                _ => button.color,
            }),
    {
        proof {
            reveal(obeys_concrete_eq);
        }
        if let Some(id) = selected {
            if let Some(amount) = self.decrease_color_when_selected {
                if button.id == id {
                    return button.color.darkened(amount);
                }
            }
        }
        button.color
    }

    /// The colour of the selection highlight.
    pub fn highlight_color(&self) -> (color: Color)
        ensures
            color == (match self.selection_color {
                Some(c) => Color { r: c.0, g: c.1, b: c.2, a: c.3 },
                None => default_selection_color(),
            }),
    {
        match self.selection_color {
            Some(c) => Color::RGBA(c.0, c.1, c.2, c.3),
            None => Color::RGBA(0, 0, 255, 125),
        }
    }

    /// The characters to highlight in a text of `total_chars`, as start and
    /// end: the selection with its ends in order and brought into the text,
    /// or the caret twice if there is none. Equal ends mean a caret.
    pub fn highlight_span(
        input_state: &InputHandler<PageId, ButtonId>,
        total_chars: usize,
    ) -> (span: (usize, usize))
        ensures
            span.0 <= span.1 <= total_chars,
            (span.0 as int, span.1 as int) == (match input_state.text_selection_range {
                Some(s) => selection_span((s.0 as int, s.1 as int), total_chars as int),
                None => (
                    clamped(input_state.cursor_position as int, total_chars as int),
                    clamped(input_state.cursor_position as int, total_chars as int),
                ),
            }),
    {
        match input_state.text_selection_range {
            Some(s) => span_of(s, total_chars),
            None => {
                let at = if input_state.cursor_position > total_chars {
                    total_chars
                } else {
                    input_state.cursor_position
                };
                (at, at)
            },
        }
    }

    /// What one frame draws, as a function of the state before it and the
    /// time that the running transition's stage has lasted.
    pub open spec fn planned(
        &self,
        data: &PageData<PageId, ButtonId>,
        app_state: &AppState<PageId, ButtonId>,
        elapsed: int,
    ) -> FramePlan {
        let keep = app_state.scene_transition matches Some(t) && t.transition_type is Slide
            && t.is_second_stage && !t.has_switched;
        let drawn = drawn_in_tick(running_view(app_state.scene_transition), elapsed);
        let after = tick(
            app_state.current_page,
            running_view(app_state.scene_transition),
            elapsed,
        ).1;
        FramePlan {
            background: match data.page_to_render {
                Some(Page { background_color: Some(color), .. }) => color,
                _ => Color { r: 0, g: 0, b: 0, a: 255 },
            },
            with_forced: data.forced_persistent_elements is Some,
            with_regular: data.page_to_render matches Some(page)
                && page.has_persistent_elements is Some
                && data.persistent_elements_to_render is Some,
            keep_outgoing_page: keep,
            transition: drawn,
            draw_outgoing_page: drawn matches Some(TransitionType::Slide(_, _, _)) && (keep
                || self.holds_outgoing_page),
            release_outgoing_page: drawn is Some && (after is None || (drawn matches Some(
                TransitionType::Slide(progress, _, _),
            ) && progress >= SLIDE_RELEASE)),
        }
    }

    /// Plans one frame for a transition stage that began `elapsed_ms`
    /// milliseconds ago, and moves the transition on by one `tick`.
    ///
    /// The canvas is cleared with the page's background, or black where the
    /// page has none or there is no page. The page is drawn with its own
    /// overlays, if it names any and they are there, and with the forced
    /// overlays in front. A slide keeps a
    /// snapshot of the page from the frame before its page is handed over
    /// and draws it at the slide's offset until the slide is nearly done.
    pub fn frame(
        &mut self,
        page_data: &PageData<PageId, ButtonId>,
        app_state: &mut AppState<PageId, ButtonId>,
        elapsed_ms: u64,
    ) -> (plan: FramePlan)
        ensures
            plan == old(self).planned(
                page_data,
                old(app_state),
                elapsed_ms as int,
            ),
            (final(app_state).current_page, running_view(final(app_state).scene_transition))
                == tick(
                old(app_state).current_page,
                running_view(old(app_state).scene_transition),
                elapsed_ms as int,
            ),
            final(app_state).current_transition_type == old(app_state).current_transition_type,
            final(app_state).window_size == old(app_state).window_size,
            final(app_state).capturing_input == old(app_state).capturing_input,
            final(self).holds_outgoing_page == ((old(self).holds_outgoing_page
                || plan.keep_outgoing_page) && !plan.release_outgoing_page),
            final(self).decrease_color_when_selected == old(self).decrease_color_when_selected,
            final(self).selection_color == old(self).selection_color,
    {
        let (background, names_overlays) = match &page_data.page_to_render {
            Some(page) => (
                match page.background_color {
                    Some(color) => color,
                    None => Color::RGB(0, 0, 0),
                },
                page.has_persistent_elements.is_some(),
            ),
            None => (Color::RGB(0, 0, 0), false),
        };
        let with_forced = page_data.forced_persistent_elements.is_some();
        let with_regular = names_overlays && page_data.persistent_elements_to_render.is_some();
        let keep = match &app_state.scene_transition {
            Some(t) => match t.transition_type {
                TransitionType::Slide(_, _, _) => t.is_second_stage && !t.has_switched,
                _ => false,
            },
            None => false,
        };
        if keep {
            self.holds_outgoing_page = true;
        }
        let drawn = app_state.advance_transition(elapsed_ms);
        let finished = app_state.scene_transition.is_none();
        let (sliding, nearly_done) = match drawn {
            Some(TransitionType::Slide(progress, _, _)) => (true, progress >= SLIDE_RELEASE),
            _ => (false, false),
        };
        let draw_outgoing_page = sliding && self.holds_outgoing_page;
        let release = drawn.is_some() && (finished || nearly_done);
        if release {
            self.holds_outgoing_page = false;
        }
        FramePlan {
            background,
            with_forced,
            with_regular,
            keep_outgoing_page: keep,
            transition: drawn,
            draw_outgoing_page,
            release_outgoing_page: release,
        }
    }

    /// Plans one frame, timed by the clock. Whatever the clock says, the
    /// outcome is that of `frame` for some elapsed time.
    pub fn render(
        &mut self,
        page_data: &PageData<PageId, ButtonId>,
        app_state: &mut AppState<PageId, ButtonId>,
    ) -> (plan: FramePlan)
        ensures
            exists|elapsed: u64|
                #![trigger old(self).planned(page_data, old(app_state), elapsed as int)]
                {
                    &&& plan == old(self).planned(page_data, old(app_state), elapsed as int)
                    &&& (final(app_state).current_page, running_view(
                        final(app_state).scene_transition,
                    )) == tick(
                        old(app_state).current_page,
                        running_view(old(app_state).scene_transition),
                        elapsed as int,
                    )
                },
            final(app_state).current_transition_type == old(app_state).current_transition_type,
            final(app_state).window_size == old(app_state).window_size,
            final(app_state).capturing_input == old(app_state).capturing_input,
            final(self).holds_outgoing_page == ((old(self).holds_outgoing_page
                || plan.keep_outgoing_page) && !plan.release_outgoing_page),
            final(self).decrease_color_when_selected == old(self).decrease_color_when_selected,
            final(self).selection_color == old(self).selection_color,
    {
        let elapsed_ms: u64 = match &app_state.scene_transition {
            Some(running) => running.stage_elapsed_ms(),
            None => 0,
        };
        let plan = self.frame(page_data, app_state, elapsed_ms);
        assert(plan == old(self).planned(page_data, old(app_state), elapsed_ms as int));
        plan
    }
}

} // verus!
