//! Raw platform events as plain values, and what each comes to.

use crate::input_handler::InputEvent;
use vstd::prelude::*;

verus! {

/// Modifier bit of a key event: the left shift key is held.
pub const LSHIFTMOD: u16 = 0x0001;

/// Modifier bit of a key event: the right shift key is held.
pub const RSHIFTMOD: u16 = 0x0002;

/// Modifier bit of a key event: the left control key is held.
pub const LCTRLMOD: u16 = 0x0040;

/// Modifier bit of a key event: the right control key is held.
pub const RCTRLMOD: u16 = 0x0080;

/// A pointer button.
#[derive(Clone, Copy, Debug, PartialEq, Eq, Structural)]
pub enum MouseButton {
    Unknown,
    Left,
    Middle,
    Right,
    X1,
    X2,
}

/// The keys that the dispatcher tells apart.
#[derive(Clone, Copy, Debug, PartialEq, Eq, Structural)]
pub enum Keycode {
    Return,
    Backspace,
    Escape,
    Left,
    Right,
    A,
    C,
    V,
    X,
    Z,
    Other,
}

/// A raw event of the platform, reduced to what the dispatcher reads.
#[derive(Clone, Debug, PartialEq)]
pub enum PlatformEvent {
    MouseButtonDown { mouse_btn: MouseButton },
    TextInput { text: String },
    KeyDown { keycode: Option<Keycode>, keymod: u16 },
    Quit,
    Other,
}

/// Either control key is held.
pub open spec fn ctrl_held(keymod: u16) -> bool {
    keymod & (LCTRLMOD | RCTRLMOD) != 0
}

/// Either shift key is held.
pub open spec fn shift_held(keymod: u16) -> bool {
    keymod & (LSHIFTMOD | RSHIFTMOD) != 0
}

/// What a key press comes to. Control chords are recognised before
/// anything else; a letter without control comes to nothing.
pub open spec fn key_meaning(keycode: Keycode, keymod: u16) -> Option<InputEvent> {
    match keycode {
        Keycode::Return => Some(InputEvent::Submit),
        Keycode::Backspace => if ctrl_held(keymod) {
            Some(InputEvent::DeleteAll)
        } else {
            Some(InputEvent::Backspace)
        },
        Keycode::Z => if ctrl_held(keymod) {
            Some(InputEvent::Undo)
        } else {
            None
        },
        Keycode::C => if ctrl_held(keymod) {
            Some(InputEvent::Copy)
        } else {
            None
        },
        Keycode::X => if ctrl_held(keymod) {
            Some(InputEvent::Cut)
        } else {
            None
        },
        Keycode::V => if ctrl_held(keymod) {
            Some(InputEvent::Paste)
        } else {
            None
        },
        Keycode::A => if ctrl_held(keymod) {
            Some(InputEvent::SelectAll)
        } else {
            None
        },
        Keycode::Left => Some(InputEvent::CursorLeft(shift_held(keymod))),
        Keycode::Right => Some(InputEvent::CursorRight(shift_held(keymod))),
        Keycode::Escape => Some(InputEvent::ExitCapturingInput),
        Keycode::Other => None,
    }
}

/// What a raw event comes to, if anything. The pointer's side buttons move
/// through the page history only where `rollback` allows it.
pub open spec fn meaning(rollback: bool, event: PlatformEvent) -> Option<InputEvent> {
    match event {
        PlatformEvent::MouseButtonDown { mouse_btn } => match mouse_btn {
            MouseButton::Left => Some(InputEvent::Click),
            MouseButton::X1 => if rollback {
                Some(InputEvent::Back)
            } else {
                None
            },
            MouseButton::X2 => if rollback {
                Some(InputEvent::Front)
            } else {
                None
            },
            _ => None,
        },
        PlatformEvent::TextInput { text } => Some(InputEvent::Text(text)),
        PlatformEvent::KeyDown { keycode: Some(keycode), keymod } => key_meaning(keycode, keymod),
        PlatformEvent::KeyDown { keycode: None, keymod } => None,
        PlatformEvent::Quit => Some(InputEvent::Quit),
        PlatformEvent::Other => None,
    }
}

/// Index of the first event from `from` on that comes to something, or the
/// number of events if none does.
pub open spec fn first_meaningful(rollback: bool, events: Seq<PlatformEvent>, from: int) -> int
    decreases events.len() - from,
{
    if from < 0 || from >= events.len() {
        events.len() as int
    } else if meaning(rollback, events[from]) is Some {
        from
    } else {
        first_meaningful(rollback, events, from + 1)
    }
}

fn key_event(keycode: Keycode, keymod: u16) -> (event: Option<InputEvent>)
    ensures
        event == key_meaning(keycode, keymod),
{
    let ctrl = keymod & (LCTRLMOD | RCTRLMOD) != 0;
    let shift = keymod & (LSHIFTMOD | RSHIFTMOD) != 0;
    match keycode {
        Keycode::Return => Some(InputEvent::Submit),
        Keycode::Backspace => if ctrl {
            Some(InputEvent::DeleteAll)
        } else {
            Some(InputEvent::Backspace)
        },
        Keycode::Z => if ctrl {
            Some(InputEvent::Undo)
        } else {
            None
        },
        Keycode::C => if ctrl {
            Some(InputEvent::Copy)
        } else {
            None
        },
        Keycode::X => if ctrl {
            Some(InputEvent::Cut)
        } else {
            None
        },
        Keycode::V => if ctrl {
            Some(InputEvent::Paste)
        } else {
            None
        },
        Keycode::A => if ctrl {
            Some(InputEvent::SelectAll)
        } else {
            None
        },
        Keycode::Left => Some(InputEvent::CursorLeft(shift)),
        Keycode::Right => Some(InputEvent::CursorRight(shift)),
        Keycode::Escape => Some(InputEvent::ExitCapturingInput),
        Keycode::Other => None,
    }
}

/// What a raw event comes to, if anything.
pub fn translate(rollback: bool, event: &PlatformEvent) -> (translated: Option<InputEvent>)
    ensures
        translated == meaning(rollback, *event),
{
    match event {
        PlatformEvent::MouseButtonDown { mouse_btn } => match mouse_btn {
            MouseButton::Left => Some(InputEvent::Click),
            MouseButton::X1 => if rollback {
                Some(InputEvent::Back)
            } else {
                None
            },
            MouseButton::X2 => if rollback {
                Some(InputEvent::Front)
            } else {
                None
            },
            _ => None,
        },
        PlatformEvent::TextInput { text } => Some(InputEvent::Text(text.clone())),
        PlatformEvent::KeyDown { keycode, keymod } => match keycode {
            Some(keycode) => key_event(*keycode, *keymod),
            None => None,
        },
        PlatformEvent::Quit => Some(InputEvent::Quit),
        PlatformEvent::Other => None,
    }
}

} // verus!
