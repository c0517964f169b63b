//! The key codes that the modes react to. Printable ASCII keys have their
//! character's code, from 32 to 126; the others are what a curses terminal
//! reports for them.

use vstd::prelude::*;

verus! {

/// `q`
pub const KEYMAP_QUIT: i32 = 113;

pub const KEYMAP_TAB: i32 = 9;

pub const KEYMAP_NEWLINE: i32 = 10;

pub const KEYMAP_ESC: i32 = 27;

pub const KEYMAP_V: i32 = 118;

pub const KEYMAP_J: i32 = 106;

pub const KEYMAP_K: i32 = 107;

pub const KEYMAP_G: i32 = 103;

pub const KEYMAP_D: i32 = 100;

pub const KEYMAP_O: i32 = 111;

pub const KEYMAP_SHIFT_A: i32 = 65;

pub const KEYMAP_SHIFT_G: i32 = 71;

pub const KEYMAP_SHIFT_I: i32 = 73;

pub const KEYMAP_SHIFT_J: i32 = 74;

pub const KEYMAP_SHIFT_K: i32 = 75;

pub const KEYMAP_SHIFT_O: i32 = 79;

/// The left arrow.
pub const KEYMAP_LEFT: i32 = 260;

/// The right arrow.
pub const KEYMAP_RIGHT: i32 = 261;

pub const KEYMAP_BACKSPACE: i32 = 263;

/// Forward delete.
pub const KEYMAP_DELETE: i32 = 330;

/// The first printable key, the space.
pub const KEYMAP_PRINTABLE_FIRST: i32 = 32;

/// The last printable key, the tilde.
pub const KEYMAP_PRINTABLE_LAST: i32 = 126;

} // verus!
