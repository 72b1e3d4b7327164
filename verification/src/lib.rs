//! A retained-mode page runtime: which screen is showing, which button is
//! under the pointer, in-place text editing with undo, history navigation and
//! staged screen transitions. Every function here is verified; rendering and
//! platform I/O live outside the library and exchange plain values with it.

pub mod actions;
pub mod animation;
pub mod buttons;
pub mod editing;
pub mod events;
pub mod geometry;
pub mod history;
pub mod input_handler;
pub mod keyboard;
pub mod ledger;
pub mod misc;
pub mod page_system;
pub mod pages;
pub mod renderer;
pub mod scene_transition;
pub mod state;
pub mod ui;
