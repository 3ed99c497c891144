//! What each key does to the document, under the writing mode in force.

use crate::area::{is_indent, Motion};
use crate::buffer::{Buffer, TAB_LEN};
use crate::config::WritingMode;
use vstd::prelude::*;

verus! {

/// A key press, as the input worker hands it over.
#[derive(Clone, Copy, Debug, PartialEq, Eq, Structural)]
pub enum Key {
    Char(char),
    Left,
    Right,
    Up,
    Down,
    Home,
    End,
    PageUp,
    PageDown,
    Backspace,
    Delete,
    Enter,
    Tab,
    Esc,
    /// Any other key, which does nothing.
    Other,
}

/// What the input worker does after a key.
#[derive(Clone, Copy, Debug, PartialEq, Eq, Structural)]
pub enum KeyOutcome {
    /// Wait for the next key.
    Continue,
    /// Stop the editor.
    Quit,
}

/// Rows that a page key moves the cursor by.
pub const PAGE_ROWS: usize = 10;

/// The cursor move of a navigation key.
pub open spec fn motion_of(key: Key) -> Option<Motion> {
    match key {
        Key::Left => Some(Motion::Back),
        Key::Right => Some(Motion::Forward),
        Key::Up => Some(Motion::Up),
        Key::Down => Some(Motion::Down),
        Key::Home => Some(Motion::Head),
        Key::End => Some(Motion::End),
        _ => None,
    }
}

/// Keys that Hemingway mode disables: deleting and all navigation.
pub open spec fn is_restricted(key: Key) -> bool {
    ||| motion_of(key) is Some
    ||| key is PageUp
    ||| key is PageDown
    ||| key is Backspace
    ||| key is Delete
}

/// The key does nothing to the document under `mode`.
pub open spec fn is_ignored(key: Key, mode: WritingMode) -> bool {
    ||| key is Other
    ||| key is Esc
    ||| (mode == WritingMode::Hemingway && is_restricted(key))
}

fn motion_for(key: Key) -> (m: Option<Motion>)
    ensures
        m == motion_of(key),
{
    match key {
        Key::Left => Some(Motion::Back),
        Key::Right => Some(Motion::Forward),
        Key::Up => Some(Motion::Up),
        Key::Down => Some(Motion::Down),
        Key::Home => Some(Motion::Head),
        Key::End => Some(Motion::End),
        _ => None,
    }
}

/// Applies `key` to the document under `mode`. Characters, line breaks and
/// indents are inserted and deletes applied, each marking the document
/// changed; navigation moves the cursor only, a page key by `PAGE_ROWS` rows; Hemingway mode leaves the
/// document untouched by deletes and navigation. Escape asks the editor to
/// stop and changes nothing.
pub fn handle_key(buffer: &mut Buffer, key: Key, mode: WritingMode) -> (r: KeyOutcome)
    ensures
        r == (if key is Esc {
            KeyOutcome::Quit
        } else {
            KeyOutcome::Continue
        }),
        is_ignored(key, mode) ==> *final(buffer) == *old(buffer),
        !is_ignored(key, mode) ==> match key {
            Key::Char(c) => final(buffer)@ == if c == '\n' {
                old(buffer)@.after_newline()
            } else {
                old(buffer)@.after_insert_char(c)
            },
            Key::Enter => final(buffer)@ == old(buffer)@.after_newline(),
            Key::Tab => exists|s: Seq<char>|
                is_indent(s, old(buffer)@.hard_tab, TAB_LEN as int) && final(buffer)@ == old(
                    buffer,
                )@.after_insert_text(s),
            Key::Backspace => final(buffer)@ == old(buffer)@.after_delete_char(),
            Key::Delete => final(buffer)@ == old(buffer)@.after_delete_next_char(),
            Key::PageUp => final(buffer)@ == old(buffer)@.after_moves(Motion::Up, PAGE_ROWS as nat),
            Key::PageDown => final(buffer)@ == old(buffer)@.after_moves(Motion::Down, PAGE_ROWS as nat),
            _ => final(buffer)@ == old(buffer)@.after_move(motion_of(key)->Some_0),
        },
{
    let restricted = match mode {
        WritingMode::Hemingway => true,
        WritingMode::Regular => false,
    };
    match key {
        Key::Char(c) => buffer.insert_char(c),
        Key::Enter => buffer.insert_newline(),
        Key::Tab => buffer.insert_tab(),
        Key::Esc => {
            return KeyOutcome::Quit;
        },
        Key::Other => {},
        _ => {
            if !restricted {
                match key {
                    Key::PageUp => buffer.move_cursor_times(Motion::Up, PAGE_ROWS),
                    Key::PageDown => buffer.move_cursor_times(Motion::Down, PAGE_ROWS),
                    Key::Backspace => buffer.delete_char(),
                    Key::Delete => buffer.delete_next_char(),
                    _ => {
                        if let Some(m) = motion_for(key) {
                            buffer.move_cursor(m);
                        }
                    },
                }
            }
        },
    }
    KeyOutcome::Continue
}

} // verus!
