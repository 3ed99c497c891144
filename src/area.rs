//! The text area that holds a document's lines and cursor: a `TextArea` of
//! the editing widget, held in a struct that is seen only through the names
//! below (its lines, its cursor, its tab length and whether a tab key
//! inserts `\t`), and changed only through the wrappers of this module.

use crate::text::{char_lines, no_breaks};
use tui_textarea::{CursorMove, TextArea};
use vstd::prelude::*;

verus! {

/// A `TextArea` of the editing widget, which a renderer reads through `area`.
#[verifier::external_body]
pub struct EditArea {
    pub area: TextArea<'static>,
}

/// The lines that a text area holds, each as its characters.
pub uninterp spec fn area_lines(t: EditArea) -> Seq<Seq<char>>;

/// The cursor of a text area: its row, and its column counted in characters.
pub uninterp spec fn area_cursor(t: EditArea) -> (int, int);

/// The tab length of a text area: the most spaces that a tab key inserts.
pub uninterp spec fn area_tab_len(t: EditArea) -> int;

/// Whether a tab key inserts `\t` into a text area, rather than spaces.
pub uninterp spec fn area_hard_tab(t: EditArea) -> bool;

/// `t2` has the tab settings of `t1`.
pub open spec fn same_tabs(t1: EditArea, t2: EditArea) -> bool {
    area_tab_len(t2) == area_tab_len(t1) && area_hard_tab(t2) == area_hard_tab(t1)
}

/// An indent that a tab key inserts: one `\t` where tabs are hard, else one
/// to `tab_len` spaces.
pub open spec fn is_indent(s: Seq<char>, hard: bool, tab_len: int) -> bool {
    if hard {
        s == seq!['\t']
    } else {
        &&& 1 <= s.len() <= tab_len
        &&& forall|i: int| 0 <= i < s.len() ==> #[trigger] s[i] == ' '
    }
}

/// `line` with `s` inserted at column `col`.
pub open spec fn insert_text(line: Seq<char>, col: int, s: Seq<char>) -> Seq<char> {
    line.take(col) + s + line.skip(col)
}

/// `cursor` stands on a line of `lines`, at most at its end (so there is at
/// least one line).
pub open spec fn cursor_in_text(lines: Seq<Seq<char>>, cursor: (int, int)) -> bool {
    &&& 0 <= cursor.0 < lines.len()
    &&& 0 <= cursor.1 <= lines[cursor.0].len()
}

/// The cursor of `t` stands within its text.
pub open spec fn area_ok(t: EditArea) -> bool {
    cursor_in_text(area_lines(t), area_cursor(t))
}

/// The cursor moves that key handling uses.
#[derive(Clone, Copy, Debug, PartialEq, Eq, Structural)]
pub enum Motion {
    Back,
    Forward,
    Up,
    Down,
    Head,
    End,
    Bottom,
}

/// Where a move takes the cursor, or `None` where it stays.
pub open spec fn motion_target(lines: Seq<Seq<char>>, cursor: (int, int), m: Motion) -> Option<
    (int, int),
> {
    let (row, col) = cursor;
    match m {
        Motion::Forward => if col >= lines[row].len() {
            if row + 1 < lines.len() {
                Some((row + 1, 0))
            } else {
                None
            }
        } else {
            Some((row, col + 1))
        },
        Motion::Back => if col == 0 {
            if row == 0 {
                None
            } else {
                Some((row - 1, lines[row - 1].len() as int))
            }
        } else {
            Some((row, col - 1))
        },
        Motion::Up => if row == 0 {
            None
        } else {
            Some((row - 1, fit_col(col, lines[row - 1])))
        },
        Motion::Down => if row + 1 < lines.len() {
            Some((row + 1, fit_col(col, lines[row + 1])))
        } else {
            None
        },
        Motion::Head => Some((row, 0)),
        Motion::End => Some((row, lines[row].len() as int)),
        Motion::Bottom => Some((lines.len() - 1, fit_col(col, lines[lines.len() - 1]))),
    }
}

/// A column moved onto `line`: no further than its end.
pub open spec fn fit_col(col: int, line: Seq<char>) -> int {
    if col <= line.len() {
        col
    } else {
        line.len() as int
    }
}

/// Relies on `TextArea::new`: the area holds the given lines, or one empty
/// line where none are given, with the cursor at the start.
#[verifier::external_body]
pub(crate) fn area_from_lines(lines: Vec<String>) -> (t: EditArea)
    ensures
        area_lines(t) == if lines@.len() == 0 {
            seq![Seq::<char>::empty()]
        } else {
            char_lines(lines@)
        },
        area_cursor(t) == (0int, 0int),
        area_tab_len(t) == 4,
        !area_hard_tab(t),
{
    EditArea { area: TextArea::new(lines) }
}

/// Relies on `TextArea::lines`: the lines that the area holds.
#[verifier::external_body]
pub(crate) fn area_text<'a>(t: &'a EditArea) -> (r: &'a [String])
    ensures
        char_lines(r@) == area_lines(*t),
{
    t.area.lines()
}

/// Relies on `TextArea::move_cursor`: the lines stay; the cursor goes where
/// the move takes it, or stays.
#[verifier::external_body]
pub(crate) fn area_move(t: &mut EditArea, m: Motion)
    requires
        area_ok(*old(t)),
    ensures
        area_ok(*final(t)),
        same_tabs(*old(t), *final(t)),
        area_lines(*final(t)) == area_lines(*old(t)),
        area_cursor(*final(t)) == match motion_target(
            area_lines(*old(t)),
            area_cursor(*old(t)),
            m,
        ) {
            Some(c) => c,
            None => area_cursor(*old(t)),
        },
    no_unwind
{
    t.area.move_cursor(
        match m {
            Motion::Back => CursorMove::Back,
            Motion::Forward => CursorMove::Forward,
            Motion::Up => CursorMove::Up,
            Motion::Down => CursorMove::Down,
            Motion::Head => CursorMove::Head,
            Motion::End => CursorMove::End,
            Motion::Bottom => CursorMove::Bottom,
        },
    )
}

/// The lines after the line at `row` is cut at column `col`.
pub open spec fn split_row(lines: Seq<Seq<char>>, row: int, col: int) -> Seq<Seq<char>> {
    lines.take(row) + seq![lines[row].take(col), lines[row].skip(col)] + lines.skip(row + 1)
}

/// The lines after the line at `row` and the one below it are made one.
pub open spec fn join_rows(lines: Seq<Seq<char>>, row: int) -> Seq<Seq<char>> {
    lines.take(row) + seq![lines[row] + lines[row + 1]] + lines.skip(row + 2)
}

/// Relies on `TextArea::set_hard_tab_indent`: only what a tab inserts changes.
#[verifier::external_body]
pub(crate) fn area_set_hard_tab(t: &mut EditArea, enabled: bool)
    ensures
        area_lines(*final(t)) == area_lines(*old(t)),
        area_cursor(*final(t)) == area_cursor(*old(t)),
        area_tab_len(*final(t)) == area_tab_len(*old(t)),
        area_hard_tab(*final(t)) == enabled,
    no_unwind
{
    t.area.set_hard_tab_indent(enabled)
}

/// Relies on `TextArea::insert_char`: `c` goes in at the cursor, which moves
/// past it.
#[verifier::external_body]
pub(crate) fn area_insert_char(t: &mut EditArea, c: char)
    requires
        area_ok(*old(t)),
    ensures
        same_tabs(*old(t), *final(t)),
        ({
            let (row, col) = area_cursor(*old(t));
            let lines = area_lines(*old(t));
            &&& area_lines(*final(t)) == lines.update(
                row,
                lines[row].insert(col, c),
            )
            &&& area_cursor(*final(t)) == (row, col + 1)
        }),
    no_unwind
{
    t.area.insert_char(c)
}

/// Relies on `TextArea::insert_newline`: the line at the cursor is cut there,
/// and the cursor goes to the start of the new line.
#[verifier::external_body]
pub(crate) fn area_insert_newline(t: &mut EditArea)
    requires
        area_ok(*old(t)),
    ensures
        same_tabs(*old(t), *final(t)),
        ({
            let (row, col) = area_cursor(*old(t));
            &&& area_lines(*final(t)) == split_row(area_lines(*old(t)), row, col)
            &&& area_cursor(*final(t)) == (row + 1, 0int)
        }),
    no_unwind
{
    t.area.insert_newline()
}

/// Relies on `TextArea::delete_char`: the character before the cursor goes, or
/// at the start of a line the line break before it; at the very start nothing
/// changes. The result tells whether something went.
#[verifier::external_body]
pub(crate) fn area_delete_char(t: &mut EditArea) -> (deleted: bool)
    requires
        area_ok(*old(t)),
    ensures
        same_tabs(*old(t), *final(t)),
        ({
            let (row, col) = area_cursor(*old(t));
            let lines = area_lines(*old(t));
            if col > 0 {
                &&& deleted
                &&& area_lines(*final(t)) == lines.update(
                    row,
                    lines[row].remove(col - 1),
                )
                &&& area_cursor(*final(t)) == (row, col - 1)
            } else if row > 0 {
                &&& deleted
                &&& area_lines(*final(t)) == join_rows(lines, row - 1)
                &&& area_cursor(*final(t)) == (row - 1, lines[row - 1].len() as int)
            } else {
                &&& !deleted
                &&& area_lines(*final(t)) == lines
                &&& area_cursor(*final(t)) == area_cursor(*old(t))
            }
        }),
    no_unwind
{
    t.area.delete_char()
}

/// Relies on `TextArea::delete_next_char`: the character after the cursor
/// goes, or at the end of a line the line break after it; at the very end
/// nothing changes. The cursor stays.
#[verifier::external_body]
pub(crate) fn area_delete_next_char(t: &mut EditArea) -> (deleted: bool)
    requires
        area_ok(*old(t)),
    ensures
        same_tabs(*old(t), *final(t)),
        area_cursor(*final(t)) == area_cursor(*old(t)),
        ({
            let (row, col) = area_cursor(*old(t));
            let lines = area_lines(*old(t));
            if col < lines[row].len() {
                &&& deleted
                &&& area_lines(*final(t)) == lines.update(row, lines[row].remove(col))
            } else if row + 1 < lines.len() {
                &&& deleted
                &&& area_lines(*final(t)) == join_rows(lines, row)
            } else {
                &&& !deleted
                &&& area_lines(*final(t)) == lines
            }
        }),
    no_unwind
{
    t.area.delete_next_char()
}

/// Relies on `TextArea::insert_tab`, which goes to `TextArea::insert_str`
/// (whose debug check wants no line break in the cursor's line): where the
/// tab length is above zero, an indent goes in at the cursor and the cursor
/// moves past it; else nothing changes. The result tells which.
#[verifier::external_body]
pub(crate) fn area_insert_tab(t: &mut EditArea) -> (inserted: bool)
    requires
        area_ok(*old(t)),
        forall|j: int|
            0 <= j < area_lines(*old(t))[area_cursor(*old(t)).0].len() ==> #[trigger] area_lines(
                *old(t),
            )[area_cursor(*old(t)).0][j] != '\n',
    ensures
        same_tabs(*old(t), *final(t)),
        inserted == (area_tab_len(*old(t)) > 0),
        ({
            let (row, col) = area_cursor(*old(t));
            let lines = area_lines(*old(t));
            if inserted {
                exists|s: Seq<char>|
                    {
                        &&& is_indent(s, area_hard_tab(*old(t)), area_tab_len(*old(t)))
                        &&& area_lines(*final(t)) == lines.update(row, insert_text(lines[row], col, s))
                        &&& area_cursor(*final(t)) == (row, col + s.len())
                    }
            } else {
                &&& area_lines(*final(t)) == lines
                &&& area_cursor(*final(t)) == (row, col)
            }
        }),
    no_unwind
{
    t.area.insert_tab()
}

} // verus!
