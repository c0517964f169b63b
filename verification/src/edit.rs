//! Editing the text of one item at a text cursor.
//!
//! A text is a sequence of characters and the text cursor is a position in
//! it, from 0 (before the first character) to the length (behind the last).
//! A cursor beyond the length makes every operation but `move_left` a no-op.

use vstd::prelude::*;
use vstd::string::StrSliceExecFns;
use vstd::string::StringExecFns;

verus! {

/// std's `String::push`: it appends the character to the end of the string.
pub assume_specification[ String::push ](s: &mut String, ch: char)
    ensures
        final(s)@ == old(s)@.push(ch),
;

/// The text and the cursor after `ch` is typed: the character goes in at the
/// cursor, and the cursor moves behind it.
pub open spec fn typed(text: Seq<char>, cursor: nat, ch: char) -> (Seq<char>, nat) {
    if cursor <= text.len() {
        (text.insert(cursor as int, ch), cursor + 1)
    } else {
        (text, cursor)
    }
}

/// The text and the cursor after a backspace: the character before the cursor
/// goes, and the cursor moves back by one.
pub open spec fn erased_back(text: Seq<char>, cursor: nat) -> (Seq<char>, nat) {
    if 0 < cursor <= text.len() {
        (text.remove(cursor - 1), (cursor - 1) as nat)
    } else {
        (text, cursor)
    }
}

/// The text after a forward delete: the character at the cursor goes.
pub open spec fn erased_forward(text: Seq<char>, cursor: nat) -> Seq<char> {
    if cursor < text.len() {
        text.remove(cursor as int)
    } else {
        text
    }
}

/// The cursor one step to the left, stopping at 0.
pub open spec fn stepped_left(cursor: nat) -> nat {
    if cursor > 0 {
        (cursor - 1) as nat
    } else {
        cursor
    }
}

/// The cursor one step to the right, stopping behind the last of `len`
/// characters.
pub open spec fn stepped_right(len: nat, cursor: nat) -> nat {
    if cursor < len {
        cursor + 1
    } else {
        cursor
    }
}

/// The number of characters in `text`.
pub fn char_count(text: &String) -> (n: usize)
    ensures
        n == text@.len(),
{
    text.as_str().unicode_len()
}

/// Types `ch` at the cursor.
pub fn type_char(text: &mut String, cursor: &mut usize, ch: char)
    ensures
        final(text)@ == typed(old(text)@, *old(cursor) as nat, ch).0,
        *final(cursor) == typed(old(text)@, *old(cursor) as nat, ch).1,
{
    let len = char_count(text);
    if *cursor <= len {
        let mut edited = String::from_str(text.as_str().substring_char(0, *cursor));
        edited.push(ch);
        edited.append(text.as_str().substring_char(*cursor, len));
        // The edited text is one longer than the old one and has a count in
        // `usize`, so the cursor can step behind the new character.
        let _ = char_count(&edited);
        *text = edited;
        *cursor = *cursor + 1;
    }
}

/// Removes the character before the cursor.
pub fn backspace(text: &mut String, cursor: &mut usize)
    ensures
        final(text)@ == erased_back(old(text)@, *old(cursor) as nat).0,
        *final(cursor) == erased_back(old(text)@, *old(cursor) as nat).1,
{
    let len = char_count(text);
    if 0 < *cursor && *cursor <= len {
        let mut edited = String::from_str(text.as_str().substring_char(0, *cursor - 1));
        edited.append(text.as_str().substring_char(*cursor, len));
        *text = edited;
        *cursor = *cursor - 1;
    }
}

/// Removes the character at the cursor.
pub fn delete_forward(text: &mut String, cursor: usize)
    ensures
        final(text)@ == erased_forward(old(text)@, cursor as nat),
{
    let len = char_count(text);
    if cursor < len {
        let mut edited = String::from_str(text.as_str().substring_char(0, cursor));
        edited.append(text.as_str().substring_char(cursor + 1, len));
        *text = edited;
    }
}

/// Moves the cursor one character to the left.
pub fn move_left(cursor: &mut usize)
    ensures
        *final(cursor) == stepped_left(*old(cursor) as nat),
{
    if *cursor > 0 {
        *cursor -= 1;
    }
}

/// Moves the cursor one character to the right, in a text of `len`
/// characters.
pub fn move_right(len: usize, cursor: &mut usize)
    ensures
        *final(cursor) == stepped_right(len as nat, *old(cursor) as nat),
{
    if *cursor < len {
        *cursor += 1;
    }
}

} // verus!
