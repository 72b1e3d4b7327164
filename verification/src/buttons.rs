//! Button actions of the numbered variant of the demonstration, in which
//! pages and buttons are plain numbers.

use vstd::prelude::*;

verus! {

/// The page that a numbered button leads to, if it leads to one.
pub open spec fn page_of_button(button: usize) -> Option<u8> {
    if button == 1 {
        Some(1u8)
    } else if button == 2 {
        Some(2u8)
    } else if button == 4 {
        Some(3u8)
    } else if button == 5 {
        Some(2u8)
    } else {
        None
    }
}

/// The input slot that a numbered button fills, if it fills one.
pub open spec fn slot_of_button(button: usize) -> Option<usize> {
    if button == 3 {
        Some(0usize)
    } else if button == 6 {
        Some(1usize)
    } else {
        None
    }
}

/// Carries out a clicked button: buttons 1, 2, 4 and 5 switch the page to
/// render, buttons 3 and 6 begin to take input for their slot, and
/// anything else does nothing.
pub fn button_action(
    button_clicked: Option<usize>,
    get_user_input: &mut (bool, usize),
    page_to_render: &mut u8,
)
    ensures
        *final(page_to_render) == (match button_clicked {
            Some(button) => match page_of_button(button) {
                Some(page) => page,
                None => *old(page_to_render),
            },
            None => *old(page_to_render),
        }),
        *final(get_user_input) == (match button_clicked {
            Some(button) => match slot_of_button(button) {
                Some(slot) => (true, slot),
                None => *old(get_user_input),
            },
            None => *old(get_user_input),
        }),
{
    match button_clicked {
        Some(1) => {
            // PAGE 1 BUTTON (PERSISTENT PAGE)
            *page_to_render = 1;
        },
        Some(2) => {
            // PAGE 2 BUTTON (PERSISTENT PAGE)
            *page_to_render = 2;
        },
        Some(3) => {
            // PAGE 1 BUTTON (PAGE 1)
            *get_user_input = (true, 0);
        },
        Some(4) => {
            // PAGE 2 TO SUBPAGE_PAGE2 BUTTON (PAGE 2)
            *page_to_render = 3;
        },
        Some(5) => {
            // SUBPAGE_PAGE2 TO PAGE 2 BUTTON (PAGE 3)
            *page_to_render = 2;
        },
        Some(6) => {
            // PAGE 2 BUTTON (PAGE 2)
            *get_user_input = (true, 1);
        },
        _ => {},
    }
}

} // verus!
