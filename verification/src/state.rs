//! The application state: current page, running transition and the
//! capturing-input mode.

use crate::history::{record_visit, recorded};
use crate::page_system::{buttons_of, Button, Buttons, PageData, PersistentElements};
use crate::scene_transition::{
    lemma_ramp_bounds, SceneTransition, TransitionModel, TransitionType, DEFAULT_TRANSITION_MS,
};
use vstd::laws_eq::obeys_concrete_eq;
use vstd::prelude::*;

verus! {

/// Global application state that holds page navigation, transitions and
/// user input tracking.
///
/// `capturing_input` is a flag and the button whose ledger entry receives
/// keystrokes; the operations of this type keep the button present exactly
/// when the flag is set.
#[derive(Debug)]
pub struct AppState<PageId, ButtonId> {
    pub current_page: PageId,
    pub scene_transition: Option<SceneTransition<PageId>>,
    pub current_transition_type: Option<TransitionType>,
    pub window_size: (u32, u32),
    pub capturing_input: (bool, Option<ButtonId>),
}

impl<PageId: Copy, ButtonId: Copy> Clone for AppState<PageId, ButtonId> {
    fn clone(&self) -> (copy: Self)
        ensures
            copy == *self,
    {
        Self {
            current_page: self.current_page,
            scene_transition: self.scene_transition,
            current_transition_type: self.current_transition_type,
            window_size: self.window_size,
            capturing_input: self.capturing_input,
        }
    }
}

impl<PageId: Copy, ButtonId: Copy> AppState<PageId, ButtonId> {
    /// The button that keystrokes go to, while input is being captured.
    pub open spec fn active_button(&self) -> Option<ButtonId> {
        if self.capturing_input.0 {
            self.capturing_input.1
        } else {
            None
        }
    }

    /// The button is present exactly when the flag is set.
    pub open spec fn capture_is_consistent(&self) -> bool {
        self.capturing_input.0 <==> self.capturing_input.1 is Some
    }

    /// Create a new app state with a starting page.
    pub fn new(start_page: PageId, window_size: (u32, u32)) -> (state: Self)
        ensures
            state.current_page == start_page,
            state.scene_transition is None,
            state.current_transition_type is None,
            state.window_size == window_size,
            state.capturing_input == (false, None::<ButtonId>),
            state.capture_is_consistent(),
    {
        Self {
            current_page: start_page,
            scene_transition: None,
            current_transition_type: None,
            window_size,
            capturing_input: (false, None),
        }
    }

    /// Returns whether a scene transition is currently active.
    pub fn is_transition_active(&self) -> (active: bool)
        ensures
            active == (self.scene_transition matches Some(t) && t.active),
    {
        match &self.scene_transition {
            Some(t) => t.active,
            None => false,
        }
    }

    /// Update window size (e.g., on resize events).
    pub fn update_window_size(&mut self, width: u32, height: u32)
        ensures
            *final(self) == (AppState { window_size: (width, height), ..*old(self) }),
    {
        self.window_size = (width, height);
    }

    /// Begin capturing user input for a specific button.
    pub fn begin_capturing_input(&mut self, button: ButtonId)
        ensures
            *final(self) == (AppState { capturing_input: (true, Some(button)), ..*old(self) }),
            final(self).capture_is_consistent(),
    {
        self.capturing_input = (true, Some(button));
    }

    /// Stop capturing user input.
    pub fn stop_capturing_input(&mut self)
        ensures
            *final(self) == (AppState { capturing_input: (false, None), ..*old(self) }),
            final(self).capture_is_consistent(),
    {
        self.capturing_input = (false, None);
    }

    /// Check if currently capturing input.
    pub fn is_capturing(&self) -> (capturing: bool)
        ensures
            capturing == self.capturing_input.0,
    {
        self.capturing_input.0
    }
}

/// The transition of the first button from `from` on that carries `id` and
/// declares one.
pub open spec fn transition_among<ButtonId>(
    buttons: Seq<Button<ButtonId>>,
    id: ButtonId,
    from: int,
) -> Option<TransitionType>
    decreases buttons.len() - from,
{
    if from < 0 || from >= buttons.len() {
        None
    } else if buttons[from].id == id && buttons[from].has_transition is Some {
        buttons[from].has_transition
    } else {
        transition_among(buttons, id, from + 1)
    }
}

/// The transition that the first overlay from `from` on declares for `id`.
pub open spec fn transition_in_overlays<PageId, ButtonId>(
    overlays: Seq<PersistentElements<PageId, ButtonId>>,
    id: ButtonId,
    from: int,
) -> Option<TransitionType>
    decreases overlays.len() - from,
{
    if from < 0 || from >= overlays.len() {
        None
    } else if transition_among(buttons_of(overlays[from].buttons), id, 0) is Some {
        transition_among(buttons_of(overlays[from].buttons), id, 0)
    } else {
        transition_in_overlays(overlays, id, from + 1)
    }
}

/// The transition that the pressed button declares: it is looked for on the
/// current page first, then on each overlay of the page in order.
pub open spec fn declared_transition<PageId, ButtonId>(
    page_data: &PageData<PageId, ButtonId>,
    id: ButtonId,
) -> Option<TransitionType> {
    let on_page = match page_data.page_to_render {
        Some(page) => transition_among(buttons_of(page.buttons), id, 0),
        None => None,
    };
    if on_page is Some {
        on_page
    } else {
        match page_data.persistent_elements_to_render {
            Some(list) => transition_in_overlays(list@, id, 0),
            None => None,
        }
    }
}

/// One frame of a running transition, as (page, transition) before and
/// after: a pending page that is due becomes the current page, then the
/// transition is updated, and a finished transition is dropped.
pub open spec fn tick<PageId>(
    current: PageId,
    running: Option<TransitionModel<PageId>>,
    elapsed: int,
) -> (PageId, Option<TransitionModel<PageId>>) {
    match running {
        None => (current, None),
        Some(t) => {
            let page = if t.swap_due() { t.next_page->0 } else { current };
            let handed = if t.swap_due() { t.swapped() } else { t };
            let (updated, finished) = handed.step(elapsed);
            (page, if finished { None } else { Some(updated) })
        },
    }
}

/// What is drawn over the page in a frame: the kind and progress of the
/// transition after its update, if one was running.
pub open spec fn drawn_in_tick<PageId>(
    running: Option<TransitionModel<PageId>>,
    elapsed: int,
) -> Option<TransitionType> {
    match running {
        None => None,
        Some(t) => {
            let handed = if t.swap_due() { t.swapped() } else { t };
            Some(handed.step(elapsed).0.transition_type)
        },
    }
}

/// The view of a transition that may be running.
pub open spec fn running_view<PageId>(running: Option<SceneTransition<PageId>>) -> Option<
    TransitionModel<PageId>,
> {
    match running {
        Some(t) => Some(t@),
        None => None,
    }
}

fn find_transition<ButtonId: Copy + Eq>(buttons: &Buttons<ButtonId>, id: ButtonId) -> (found:
    Option<TransitionType>)
    requires
        obeys_concrete_eq::<ButtonId>(),
    ensures
        found == transition_among(buttons_of(*buttons), id, 0),
{
    if let Some(list) = buttons {
        let mut i: usize = 0;
        while i < list.len()
            invariant
                i <= list.len(),
                buttons_of(*buttons) == list@,
                obeys_concrete_eq::<ButtonId>(),
                transition_among(list@, id, 0) == transition_among(list@, id, i as int),
            decreases list.len() - i,
        {
            proof {
                reveal(obeys_concrete_eq);
            }
            if list[i].id == id && list[i].has_transition.is_some() {
                return list[i].has_transition;
            }
            i += 1;
        }
    }
    None
}

fn find_overlay_transition<PageId, ButtonId: Copy + Eq>(
    overlays: &Vec<PersistentElements<PageId, ButtonId>>,
    id: ButtonId,
) -> (found: Option<TransitionType>)
    requires
        obeys_concrete_eq::<ButtonId>(),
    ensures
        found == transition_in_overlays(overlays@, id, 0),
{
    let mut i: usize = 0;
    while i < overlays.len()
        invariant
            i <= overlays.len(),
            obeys_concrete_eq::<ButtonId>(),
            transition_in_overlays(overlays@, id, 0) == transition_in_overlays(
                overlays@,
                id,
                i as int,
            ),
        decreases overlays.len() - i,
    {
        let in_overlay = find_transition(&overlays[i].buttons, id);
        if in_overlay.is_some() {
            return in_overlay;
        }
        i += 1;
    }
    None
}

impl<PageId: Copy + Eq, ButtonId: Copy + Eq> AppState<PageId, ButtonId> {
    /// The transition that pressing `button_id` starts, if any.
    pub fn transition_for(page_data: &PageData<PageId, ButtonId>, button_id: ButtonId) -> (found:
        Option<TransitionType>)
        requires
            obeys_concrete_eq::<ButtonId>(),
        ensures
            found == declared_transition(page_data, button_id),
    {
        if let Some(page) = &page_data.page_to_render {
            let on_page = find_transition(&page.buttons, button_id);
            if on_page.is_some() {
                return on_page;
            }
        }
        match &page_data.persistent_elements_to_render {
            Some(list) => find_overlay_transition(list, button_id),
            None => None,
        }
    }

    /// Change to a new page, optionally triggering a transition.
    ///
    /// Nothing happens if `next_page` is the current page, or while a
    /// transition is active: a running transition always completes, and
    /// requests that arrive meanwhile are dropped. Otherwise, if the pressed
    /// button declares a transition, one of `DEFAULT_TRANSITION_MS` is
    /// started toward `next_page` and the current page stays until the
    /// transition hands it over; if it declares none, the page is switched
    /// at once. Either way the visit is recorded in the history and the
    /// history cursor moves to its newest entry.
    pub fn change_current_page(
        &mut self,
        page_data: &mut PageData<PageId, ButtonId>,
        next_page: PageId,
        button_id: &ButtonId,
    )
        requires
            obeys_concrete_eq::<PageId>(),
            obeys_concrete_eq::<ButtonId>(),
        ensures
            final(self).current_transition_type == old(self).current_transition_type,
            final(self).window_size == old(self).window_size,
            final(self).capturing_input == old(self).capturing_input,
            *final(page_data) == (PageData {
                page_history: final(page_data).page_history,
                ..*old(page_data)
            }),
            next_page == old(self).current_page || (old(self).scene_transition matches Some(t)
                && t.active) ==> {
                &&& *final(self) == *old(self)
                &&& *final(page_data) == *old(page_data)
            },
            !(next_page == old(self).current_page || (old(self).scene_transition matches Some(t)
                && t.active)) ==> {
                &&& final(page_data).page_history.0@ == recorded(
                    old(page_data).page_history.0@,
                    next_page,
                )
                &&& final(page_data).page_history.1 == final(page_data).page_history.0@.len() - 1
                &&& match declared_transition(old(page_data), *button_id) {
                    Some(kind) => {
                        &&& final(self).current_page == old(self).current_page
                        &&& running_view(final(self).scene_transition) == Some(
                            TransitionModel::fresh(kind, DEFAULT_TRANSITION_MS, Some(next_page)),
                        )
                    },
                    None => {
                        &&& final(self).current_page == next_page
                        &&& final(self).scene_transition == old(self).scene_transition
                    },
                }
            },
    {
        proof {
            reveal(obeys_concrete_eq);
        }
        if next_page == self.current_page {
            return ;
        }
        if self.is_transition_active() {
            return ;
        }
        match Self::transition_for(page_data, *button_id) {
            Some(transition) => {
                self.scene_transition = Some(
                    SceneTransition::new(transition, DEFAULT_TRANSITION_MS, Some(next_page)),
                );
            },
            None => {
                self.current_page = next_page;
            },
        }
        record_visit(&mut page_data.page_history, next_page);
    }

    /// One frame of the running transition, for a stage that began
    /// `elapsed_ms` milliseconds ago: hands over the pending page once the
    /// second stage has begun, updates the transition and drops it when it
    /// has finished. Returns what is to be drawn over the page, if a
    /// transition was running.
    pub fn advance_transition(&mut self, elapsed_ms: u64) -> (drawn: Option<TransitionType>)
        ensures
            (final(self).current_page, running_view(final(self).scene_transition)) == tick(
                old(self).current_page,
                running_view(old(self).scene_transition),
                elapsed_ms as int,
            ),
            drawn == drawn_in_tick(running_view(old(self).scene_transition), elapsed_ms as int),
            final(self).current_transition_type == old(self).current_transition_type,
            final(self).window_size == old(self).window_size,
            final(self).capturing_input == old(self).capturing_input,
    {
        match self.scene_transition {
            Some(running) => {
                let mut transition = running;
                if !transition.has_switched && transition.is_second_stage {
                    if let Some(next_page) = transition.next_page {
                        transition.next_page = None;
                        transition.has_switched = true;
                        self.current_page = next_page;
                    }
                }
                let finished = transition.advance(elapsed_ms);
                let drawn = transition.transition_type;
                if finished {
                    self.scene_transition = None;
                } else {
                    self.scene_transition = Some(transition);
                }
                Some(drawn)
            },
            None => None,
        }
    }

    /// One frame of the running transition, timed by the clock. Whatever
    /// the clock says, the outcome is one `tick`.
    pub fn update_transition(&mut self) -> (drawn: Option<TransitionType>)
        ensures
            exists|elapsed: u64|
                #![trigger tick(
                    old(self).current_page,
                    running_view(old(self).scene_transition),
                    elapsed as int,
                )]
                {
                    &&& (final(self).current_page, running_view(final(self).scene_transition))
                        == tick(
                        old(self).current_page,
                        running_view(old(self).scene_transition),
                        elapsed as int,
                    )
                    &&& drawn == drawn_in_tick(
                        running_view(old(self).scene_transition),
                        elapsed as int,
                    )
                },
            final(self).current_transition_type == old(self).current_transition_type,
            final(self).window_size == old(self).window_size,
            final(self).capturing_input == old(self).capturing_input,
    {
        let elapsed_ms: u64 = match &self.scene_transition {
            Some(running) => running.stage_elapsed_ms(),
            None => 0,
        };
        let ghost page = self.current_page;
        let ghost running = running_view(self.scene_transition);
        let drawn = self.advance_transition(elapsed_ms);
        assert((self.current_page, running_view(self.scene_transition)) == tick(
            page,
            running,
            elapsed_ms as int,
        ));
        drawn
    }
}

/// Page and transition after the first `count` frames, each frame finding
/// the elapsed time given for it.
pub open spec fn after_ticks<PageId>(
    current: PageId,
    running: Option<TransitionModel<PageId>>,
    ticks: Seq<u64>,
    count: int,
) -> (PageId, Option<TransitionModel<PageId>>)
    decreases count,
{
    if count <= 0 {
        (current, running)
    } else {
        let before = after_ticks(current, running, ticks, count - 1);
        tick(before.0, before.1, ticks[count - 1] as int)
    }
}

/// One of the first `count` frames found the first half of the duration
/// gone: the first stage of a fade has reached full progress.
pub open spec fn first_stage_done(ticks: Seq<u64>, duration_ms: u32, count: int) -> bool {
    exists|i: int| 0 <= i < count && 2 * #[trigger] ticks[i] >= duration_ms
}

/// What holds of a fade toward `next` after some frames, by how far its
/// first stage had come one frame ago and now.
spec fn fade_on_course<PageId>(
    state: (PageId, Option<TransitionModel<PageId>>),
    current: PageId,
    next: PageId,
    duration_ms: u32,
    done_before: bool,
    done_now: bool,
) -> bool {
    if done_before {
        &&& state.0 == next
        &&& state.1 matches Some(t) ==> {
            &&& t.active
            &&& t.transition_type is Fade
            &&& t.is_second_stage
            &&& t.has_switched
            &&& t.duration_ms == duration_ms
        }
    } else {
        &&& state.0 == current
        &&& state.1 matches Some(t)
        &&& t.active
        &&& t.transition_type is Fade
        &&& t.is_second_stage == done_now
        &&& !t.has_switched
        &&& t.next_page == Some(next)
        &&& t.duration_ms == duration_ms
    }
}

proof fn lemma_fade_course<PageId>(
    current: PageId,
    next: PageId,
    opacity: u32,
    duration_ms: u32,
    ticks: Seq<u64>,
    count: int,
)
    requires
        0 <= count <= ticks.len(),
    ensures
        fade_on_course(
            after_ticks(
                current,
                Some(
                    TransitionModel::fresh(
                        TransitionType::Fade(opacity),
                        duration_ms,
                        Some(next),
                    ),
                ),
                ticks,
                count,
            ),
            current,
            next,
            duration_ms,
            first_stage_done(ticks, duration_ms, count - 1),
            first_stage_done(ticks, duration_ms, count),
        ),
    decreases count,
{
    if count > 0 {
        lemma_fade_course(current, next, opacity, duration_ms, ticks, count - 1);
        let elapsed = ticks[count - 1];
        lemma_ramp_bounds(2 * elapsed, duration_ms as int);
        if first_stage_done(ticks, duration_ms, count - 1) {
            let i = choose|i: int| 0 <= i < count - 1 && 2 * #[trigger] ticks[i] >= duration_ms;
            assert(0 <= i < count && 2 * ticks[i] >= duration_ms);
        }
        if first_stage_done(ticks, duration_ms, count) && !first_stage_done(
            ticks,
            duration_ms,
            count - 1,
        ) {
            let i = choose|i: int| 0 <= i < count && 2 * #[trigger] ticks[i] >= duration_ms;
            assert(i == count - 1);
        }
        if 2 * elapsed >= duration_ms {
            assert(0 <= count - 1 < count && 2 * ticks[count - 1] >= duration_ms);
        }
    }
}

/// Transition determinism: a fade toward `next`, drawn frame by frame,
/// switches the page exactly once. The page is `next` from the frame after
/// the one on which the first stage reached full progress, and the page it
/// started from until then, however many frames follow.
pub proof fn lemma_fade_swaps_once<PageId>(
    current: PageId,
    next: PageId,
    opacity: u32,
    duration_ms: u32,
    ticks: Seq<u64>,
    count: int,
)
    requires
        0 <= count <= ticks.len(),
    ensures
        after_ticks(
            current,
            Some(TransitionModel::fresh(TransitionType::Fade(opacity), duration_ms, Some(next))),
            ticks,
            count,
        ).0 == (if first_stage_done(ticks, duration_ms, count - 1) {
            next
        } else {
            current
        }),
{
    lemma_fade_course(current, next, opacity, duration_ms, ticks, count);
}

} // verus!
