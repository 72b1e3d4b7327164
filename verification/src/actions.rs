//! What the buttons of the demonstration application do.

use crate::history::recorded;
use crate::page_system::PageData;
use crate::scene_transition::{TransitionModel, DEFAULT_TRANSITION_MS};
use crate::state::{declared_transition, running_view, AppState};
use crate::ui::{lemma_ids_comparable, ButtonId, PageId};
use vstd::prelude::*;

verus! {

/// The page that a navigation button leads to; none for a button that
/// takes text.
pub open spec fn destination(button_id: ButtonId) -> Option<PageId> {
    match button_id {
        ButtonId::ButtonPage1 => Some(PageId::Page1),
        ButtonId::ButtonPage2 => Some(PageId::Page2),
        ButtonId::ButtonSubPage => Some(PageId::Page2SubPage),
        ButtonId::ButtonBack => Some(PageId::Page2),
        _ => None,
    }
}

/// Carries out a pressed button. While input is being captured a press does
/// nothing. A navigation button asks for its page as `change_current_page`
/// does; any other button begins to capture input.
pub fn button_action(
    app_state: &mut AppState<PageId, ButtonId>,
    button_id: &ButtonId,
    app_data: &mut PageData<PageId, ButtonId>,
)
    ensures
        old(app_state).capturing_input.0 ==> {
            &&& *final(app_state) == *old(app_state)
            &&& *final(app_data) == *old(app_data)
        },
        !old(app_state).capturing_input.0 ==> match destination(*button_id) {
            None => {
                &&& *final(app_state) == (AppState {
                    capturing_input: (true, Some(*button_id)),
                    ..*old(app_state)
                })
                &&& *final(app_data) == *old(app_data)
            },
            Some(page) => {
                &&& final(app_state).capturing_input == old(app_state).capturing_input
                &&& final(app_state).window_size == old(app_state).window_size
                &&& *final(app_data) == (PageData {
                    page_history: final(app_data).page_history,
                    ..*old(app_data)
                })
                &&& if page == old(app_state).current_page || (old(
                    app_state,
                ).scene_transition matches Some(t) && t.active) {
                    *final(app_state) == *old(app_state) && *final(app_data) == *old(app_data)
                } else {
                    &&& final(app_data).page_history.0@ == recorded(
                        old(app_data).page_history.0@,
                        page,
                    )
                    &&& final(app_data).page_history.1 == final(app_data).page_history.0@.len()
                        - 1
                    &&& match declared_transition(old(app_data), *button_id) {
                        Some(kind) => {
                            &&& final(app_state).current_page == old(app_state).current_page
                            &&& running_view(final(app_state).scene_transition) == Some(
                                TransitionModel::fresh(kind, DEFAULT_TRANSITION_MS, Some(page)),
                            )
                        },
                        None => {
                            &&& final(app_state).current_page == page
                            &&& final(app_state).scene_transition == old(app_state).scene_transition
                        },
                    }
                }
            },
        },
{
    proof {
        lemma_ids_comparable();
    }
    if !app_state.capturing_input.0 {
        match button_id {
            ButtonId::ButtonPage1 => {
                app_state.change_current_page(app_data, PageId::Page1, button_id);
            },
            ButtonId::ButtonPage2 => {
                app_state.change_current_page(app_data, PageId::Page2, button_id);
            },
            ButtonId::ButtonSubPage => {
                app_state.change_current_page(app_data, PageId::Page2SubPage, button_id);
            },
            ButtonId::ButtonBack => {
                app_state.change_current_page(app_data, PageId::Page2, button_id);
            },
            _ => {
                // Buttons without a page of their own take text.
                app_state.capturing_input = (true, Some(*button_id));
            },
        }
    }
}

} // verus!
