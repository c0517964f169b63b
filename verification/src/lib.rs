//! A modal list manager for the terminal: two lists of text items, a cursor in
//! each, and Normal / Visual / Insert modes that interpret key codes.
//!
//! The crate holds the logic only. `app::App` is the state; `App::render`
//! lays out the labels of one screen with the frames of `ui` and `layout`,
//! and `App::handle_key` moves the state from one key press to the next.
//! Drawing the labels and reading keys is left to the caller.

pub mod action;
pub mod app;
pub mod category;
pub mod edit;
pub mod frame;
pub mod key_map;
pub mod layout;
pub mod mode;
pub mod selection;
pub mod status;
pub mod style;
pub mod ui;
pub mod vec2;
