//! The document being written: its text and cursor, where it is saved, whether
//! it has unsaved changes, and a short-lived message for the user.

use std::time::Instant;

use crate::area::{
    area_cursor, area_delete_char, area_delete_next_char, area_from_lines, area_hard_tab,
    area_insert_char, area_insert_newline, area_insert_tab, area_lines, area_move, area_ok,
    area_set_hard_tab, area_tab_len, area_text, insert_text, is_indent, join_rows, motion_target,
    split_row, EditArea, Motion,
};
use crate::config::{backup_path_of, output_path_of, Config};
use crate::path::opt_view;
use crate::text::{
    join_lines, lemma_lines_have_no_breaks, lines_of, no_breaks, serialized, split_lines,
};
use vstd::prelude::*;

verus! {

/// An instant of the monotonic clock, carried as it is.
#[verifier::external_type_specification]
#[verifier::external_body]
pub struct ExInstant(Instant);

/// Relies on `Instant::now`: the clock's current instant, of which nothing
/// more is assumed.
pub assume_specification[ Instant::now ]() -> Instant;

/// Relies on `Instant::elapsed`: milliseconds since `start`, as the
/// monotonic clock reads them now.
#[verifier::external_body]
fn millis_since(start: &Instant) -> (ms: u128) {
    start.elapsed().as_millis()
}

/// The most spaces that a tab key inserts.
pub const TAB_LEN: u8 = 4;

/// How long a message stays visible, in milliseconds.
pub const MESSAGE_EXPIRY_MS: u128 = 3000;

/// What a buffer holds, as plain values.
pub struct BufferView {
    pub lines: Seq<Seq<char>>,
    pub cursor: (int, int),
    /// Changed since the last successful save to `path`.
    pub modified: bool,
    pub message: Option<Seq<char>>,
    /// When the message was set, in milliseconds of the buffer's clock.
    pub message_set_at: int,
    pub path: Seq<char>,
    pub back_path: Seq<char>,
    /// The output file existed when the buffer was opened.
    pub existed: bool,
    /// A tab key inserts `\t` rather than spaces.
    pub hard_tab: bool,
}

/// A message set at `set_at` is still shown at `now`.
pub open spec fn message_live(set_at: int, now: int) -> bool {
    now < set_at + MESSAGE_EXPIRY_MS
}

impl BufferView {
    /// The buffer after its message is replaced by `message` at `now`.
    pub open spec fn with_message(self, message: Option<Seq<char>>, now: int) -> BufferView {
        BufferView { message, message_set_at: now, ..self }
    }

    /// A read of the message at `now`: the buffer after it, and what it
    /// shows. An expired message is cleared.
    pub open spec fn read_message(self, now: int) -> (BufferView, Option<Seq<char>>) {
        match self.message {
            None => (self, None),
            Some(m) => if message_live(self.message_set_at, now) {
                (self, Some(m))
            } else {
                (BufferView { message: None, ..self }, None)
            },
        }
    }

    /// The buffer after `c` is inserted at the cursor.
    pub open spec fn after_insert_char(self, c: char) -> BufferView {
        let (row, col) = self.cursor;
        BufferView {
            lines: self.lines.update(row, self.lines[row].insert(col, c)),
            cursor: (row, col + 1),
            modified: dirty_after(self.modified, DocOp::Edit),
            ..self
        }
    }

    /// The buffer after its line is broken at the cursor.
    pub open spec fn after_newline(self) -> BufferView {
        let (row, col) = self.cursor;
        BufferView {
            lines: split_row(self.lines, row, col),
            cursor: (row + 1, 0int),
            modified: dirty_after(self.modified, DocOp::Edit),
            ..self
        }
    }

    /// The buffer after the character or line break before the cursor is
    /// deleted; at the very start only the flag changes.
    pub open spec fn after_delete_char(self) -> BufferView {
        let (row, col) = self.cursor;
        let lines = self.lines;
        let (new_lines, new_cursor) = if col > 0 {
            (lines.update(row, lines[row].remove(col - 1)), (row, col - 1))
        } else if row > 0 {
            (join_rows(lines, row - 1), (row - 1, lines[row - 1].len() as int))
        } else {
            (lines, (row, col))
        };
        BufferView {
            lines: new_lines,
            cursor: new_cursor,
            modified: dirty_after(self.modified, DocOp::Edit),
            ..self
        }
    }

    /// The buffer after the character or line break after the cursor is
    /// deleted; at the very end only the flag changes.
    pub open spec fn after_delete_next_char(self) -> BufferView {
        let (row, col) = self.cursor;
        let lines = self.lines;
        let new_lines = if col < lines[row].len() {
            lines.update(row, lines[row].remove(col))
        } else if row + 1 < lines.len() {
            join_rows(lines, row)
        } else {
            lines
        };
        BufferView { lines: new_lines, modified: dirty_after(self.modified, DocOp::Edit), ..self }
    }

    /// The buffer after the cursor moves by `m`.
    pub open spec fn after_move(self, m: Motion) -> BufferView {
        BufferView {
            cursor: match motion_target(self.lines, self.cursor, m) {
                Some(c) => c,
                None => self.cursor,
            },
            modified: dirty_after(self.modified, DocOp::Navigate),
            ..self
        }
    }

    /// The buffer after `text` is inserted at the cursor, which moves past it.
    pub open spec fn after_insert_text(self, text: Seq<char>) -> BufferView {
        let (row, col) = self.cursor;
        BufferView {
            lines: self.lines.update(row, insert_text(self.lines[row], col, text)),
            cursor: (row, col + text.len()),
            modified: dirty_after(self.modified, DocOp::Edit),
            ..self
        }
    }

    /// The buffer after `n` moves `m` of the cursor.
    pub open spec fn after_moves(self, m: Motion, n: nat) -> BufferView
        decreases n,
    {
        if n == 0 {
            self
        } else {
            self.after_moves(m, (n - 1) as nat).after_move(m)
        }
    }

    /// The write that saving asks for: the text to the output path, and only
    /// where there are unsaved changes.
    pub open spec fn save_write(self) -> Option<(Seq<char>, Seq<char>)> {
        if self.modified {
            Some((self.path, serialized(self.lines)))
        } else {
            None
        }
    }

    /// The write that a backup asks for: the text to the backup path.
    pub open spec fn backup_write(self) -> (Seq<char>, Seq<char>) {
        (self.back_path, serialized(self.lines))
    }
}

/// A kind of operation on a buffer, as it bears on unsaved changes.
#[derive(Clone, Copy, Debug, PartialEq, Eq, Structural)]
pub enum DocOp {
    /// A change of the text.
    Edit,
    /// A cursor movement or scroll.
    Navigate,
    /// A successful save to the output path.
    Saved,
    /// A save that failed.
    SaveFailed,
}

/// Whether there are unsaved changes after `op`, given `dirty` before it.
pub open spec fn dirty_after(dirty: bool, op: DocOp) -> bool {
    match op {
        DocOp::Edit => true,
        DocOp::Saved => false,
        DocOp::Navigate | DocOp::SaveFailed => dirty,
    }
}

/// Whether there are unsaved changes after all of `ops`, from `start`.
pub open spec fn dirty_after_all(start: bool, ops: Seq<DocOp>) -> bool
    decreases ops.len(),
{
    if ops.len() == 0 {
        start
    } else {
        dirty_after(dirty_after_all(start, ops.drop_last()), ops.last())
    }
}

/// No successful save among `ops` after position `i`.
pub open spec fn unsaved_after(ops: Seq<DocOp>, i: int) -> bool {
    forall|j: int| i < j < ops.len() ==> ops[j] != DocOp::Saved
}

/// The text changed since the last successful save: an edit among `ops`
/// with no successful save after it, or a change before `ops` (`start`) and
/// no successful save among them.
pub open spec fn changed_since_save(start: bool, ops: Seq<DocOp>) -> bool {
    ||| exists|i: int| 0 <= i < ops.len() && ops[i] == DocOp::Edit && unsaved_after(ops, i)
    ||| start && unsaved_after(ops, -1)
}

/// A write to a file: its path and the text that goes in it.
#[derive(Clone, Debug)]
pub struct WriteRequest {
    pub path: String,
    pub text: String,
}

/// What stands at the output path when the document is opened.
#[derive(Clone, Debug)]
pub enum OutputFile {
    /// Nothing.
    Missing,
    /// Something that is not a regular file.
    NotAFile,
    /// A file with this text.
    Contents(String),
}

/// Why a document could not be opened.
#[derive(Clone, Copy, Debug, PartialEq, Eq, Structural)]
pub enum OpenError {
    /// The output path exists but is not a regular file.
    NotAFile,
    /// The output path names no file, so it has no backup path.
    NoFileName,
}

/// The lines of a document opened on `file`.
pub open spec fn opened_lines(file: OutputFile) -> Seq<Seq<char>> {
    match file {
        OutputFile::Contents(s) => if lines_of(s@).len() > 0 {
            lines_of(s@)
        } else {
            seq![Seq::<char>::empty()]
        },
        _ => seq![Seq::<char>::empty()],
    }
}

/// The text being written, with what is needed to save it. Its fields are
/// private and every change goes through a `&mut self` method, so whoever
/// holds it sees it whole, never half-changed.
pub struct Buffer {
    text: EditArea,
    path: String,
    back_path: String,
    modified: bool,
    file_already_existed: bool,
    message: Option<String>,
    message_set_at: u128,
    opened_at: Instant,
}

impl View for Buffer {
    type V = BufferView;

    closed spec fn view(&self) -> BufferView {
        BufferView {
            lines: area_lines(self.text),
            cursor: area_cursor(self.text),
            modified: self.modified,
            message: opt_view(self.message),
            message_set_at: self.message_set_at as int,
            path: self.path@,
            back_path: self.back_path@,
            existed: self.file_already_existed,
            hard_tab: area_hard_tab(self.text),
        }
    }
}

impl Buffer {
    #[verifier::type_invariant]
    closed spec fn cursor_ok(self) -> bool {
        &&& area_ok(self.text)
        &&& no_breaks(area_lines(self.text))
        &&& area_tab_len(self.text) == TAB_LEN as int
    }

    /// Opens the document at the output path of `config`, which holds `file`.
    /// A file's text is loaded with the cursor at its end; without a file the
    /// document starts empty. Nothing is unsaved and no message is shown.
    pub fn new(config: &Config, file: OutputFile) -> (r: Result<Buffer, OpenError>)
        ensures
            ({
                let out = output_path_of(config.output_name@, config.output_dir@);
                match r {
                    Err(e) => if file is NotAFile {
                        e == OpenError::NotAFile
                    } else {
                        e == OpenError::NoFileName && backup_path_of(out) is None
                    },
                    Ok(b) => {
                        let lines = opened_lines(file);
                        &&& !(file is NotAFile)
                        &&& backup_path_of(out) == Some(b@.back_path)
                        &&& b@.path == out
                        &&& b@.lines == lines
                        &&& b@.cursor == if file is Contents {
                            (lines.len() - 1, lines.last().len() as int)
                        } else {
                            (0int, 0int)
                        }
                        &&& !b@.modified
                        &&& b@.message is None
                        &&& b@.existed == file is Contents
                        &&& b@.hard_tab == config.use_hard_indent
                    },
                }
            }),
    {
        let path = config.get_output_path();
        let existed = match &file {
            OutputFile::NotAFile => {
                return Err(OpenError::NotAFile);
            },
            OutputFile::Missing => false,
            OutputFile::Contents(_) => true,
        };
        let back_path = match config.get_bak_path() {
            Some(p) => p,
            None => {
                return Err(OpenError::NoFileName);
            },
        };
        let mut text = match &file {
            OutputFile::Contents(s) => {
                proof {
                    lemma_lines_have_no_breaks(s@);
                }
                let mut t = area_from_lines(split_lines(s.as_str()));
                area_move(&mut t, Motion::Bottom);
                area_move(&mut t, Motion::End);
                t
            },
            _ => area_from_lines(Vec::new()),
        };
        area_set_hard_tab(&mut text, config.use_hard_indent);
        Ok(Buffer {
            text,
            path,
            back_path,
            modified: false,
            file_already_existed: existed,
            message: None,
            message_set_at: 0,
            opened_at: Instant::now(),
        })
    }

    /// The time on the buffer's clock: milliseconds since it was opened.
    pub fn now(&self) -> (ms: u128) {
        millis_since(&self.opened_at)
    }

    /// Replaces the message with `message`, as set at `now`; `None` clears it.
    pub fn set_message_at(&mut self, message: Option<String>, now: u128)
        ensures
            final(self)@ == old(self)@.with_message(opt_view(message), now as int),
    {
        proof {
            use_type_invariant(&*self);
        }
        self.message = message;
        self.message_set_at = now;
    }

    /// Replaces the message with `message`, as set now; `None` clears it.
    pub fn set_message(&mut self, message: Option<String>)
        ensures
            final(self)@ == old(self)@.with_message(opt_view(message), final(self)@.message_set_at),
    {
        let now = self.now();
        self.set_message_at(message, now);
    }

    /// The message, as read at `now`: shown while it is younger than
    /// `MESSAGE_EXPIRY_MS`; once older it is cleared and none is shown.
    pub fn get_message_at(&mut self, now: u128) -> (r: Option<&String>)
        ensures
            (final(self)@, ref_view(r)) == old(self)@.read_message(now as int),
    {
        if !self.is_message_valid(now) {
            return None;
        }
        self.message.as_ref()
    }

    /// The message, as read now: see `get_message_at`.
    pub fn get_message(&mut self) -> (r: Option<&String>)
        ensures
            exists|now: int| (final(self)@, ref_view(r)) == old(self)@.read_message(now),
    {
        let now = self.now();
        self.get_message_at(now)
    }

    /// Whether a message is shown at `now`; an expired one is cleared.
    fn is_message_valid(&mut self, now: u128) -> (valid: bool)
        ensures
            final(self)@ == old(self)@.read_message(now as int).0,
            valid == old(self)@.read_message(now as int).1 is Some,
    {
        proof {
            use_type_invariant(&*self);
        }
        if self.message.is_none() {
            return false;
        }
        if now >= self.message_set_at && now - self.message_set_at >= MESSAGE_EXPIRY_MS {
            self.clear_message();
            false
        } else {
            true
        }
    }

    fn clear_message(&mut self)
        ensures
            final(self)@ == (BufferView { message: None, ..old(self)@ }),
    {
        proof {
            use_type_invariant(&*self);
        }
        self.message = None;
    }

    /// Whether the text changed since the last successful save.
    pub fn modified(&self) -> (r: bool)
        ensures
            r == self@.modified,
    {
        self.modified
    }

    /// Records a change of the text.
    pub fn mark_modified(&mut self)
        ensures
            final(self)@ == (BufferView {
                modified: dirty_after(old(self)@.modified, DocOp::Edit),
                ..old(self)@
            }),
    {
        proof {
            use_type_invariant(&*self);
        }
        self.modified = true;
    }

    /// Records a successful save to the output path.
    pub fn clear_modified(&mut self)
        ensures
            final(self)@ == (BufferView {
                modified: dirty_after(old(self)@.modified, DocOp::Saved),
                ..old(self)@
            }),
    {
        proof {
            use_type_invariant(&*self);
        }
        self.modified = false;
    }

    /// Records how a write of `save_request` to the output path went: a
    /// successful one clears the unsaved-changes flag, a failed one leaves it.
    pub fn record_save(&mut self, written: bool)
        ensures
            final(self)@ == (BufferView {
                modified: dirty_after(
                    old(self)@.modified,
                    if written {
                        DocOp::Saved
                    } else {
                        DocOp::SaveFailed
                    },
                ),
                ..old(self)@
            }),
    {
        if written {
            self.clear_modified();
        }
    }

    /// Moves the cursor `n` times by `m`; the text and the unsaved-changes
    /// flag stay.
    pub fn move_cursor_times(&mut self, m: Motion, n: usize)
        ensures
            final(self)@ == old(self)@.after_moves(m, n as nat),
    {
        let mut i: usize = 0;
        while i < n
            invariant
                i <= n,
                self@ == old(self)@.after_moves(m, i as nat),
            decreases n - i,
        {
            self.move_cursor(m);
            i = i + 1;
        }
    }

    /// Whether the output file existed when the buffer was opened.
    pub fn file_already_existed(&self) -> (r: bool)
        ensures
            r == self@.existed,
    {
        self.file_already_existed
    }

    /// The path that saving writes to.
    pub fn output_path(&self) -> (r: &String)
        ensures
            r@ == self@.path,
    {
        &self.path
    }

    /// The path that a backup writes to.
    pub fn backup_path(&self) -> (r: &String)
        ensures
            r@ == self@.back_path,
    {
        &self.back_path
    }

    /// The text area, for a renderer to draw.
    pub fn area(&self) -> (r: &EditArea)
        ensures
            area_lines(*r) == self@.lines,
            area_cursor(*r) == self@.cursor,
    {
        &self.text
    }

    /// The text as it is stored: each line followed by `\n`.
    pub fn contents(&self) -> (r: String)
        ensures
            r@ == serialized(self@.lines),
    {
        join_lines(area_text(&self.text))
    }

    /// The write that saving takes: the text to the output path where it
    /// changed since the last successful save, and none otherwise.
    pub fn save_request(&self) -> (r: Option<WriteRequest>)
        ensures
            request_view(r) == self@.save_write(),
    {
        if !self.modified {
            return None;
        }
        Some(WriteRequest { path: self.path.clone(), text: self.contents() })
    }

    /// The write that a backup takes: the text to the backup path, whether
    /// or not it changed.
    pub fn backup_request(&self) -> (r: WriteRequest)
        ensures
            (r.path@, r.text@) == self@.backup_write(),
    {
        WriteRequest { path: self.back_path.clone(), text: self.contents() }
    }

    /// Inserts `c` at the cursor, which moves past it; a `\n` breaks the
    /// line there instead, so that no line holds a line break.
    pub fn insert_char(&mut self, c: char)
        ensures
            final(self)@ == if c == '\n' {
                old(self)@.after_newline()
            } else {
                old(self)@.after_insert_char(c)
            },
    {
        if c == '\n' {
            self.insert_newline();
            return;
        }
        proof {
            use_type_invariant(&*self);
            lemma_update_no_breaks(
                area_lines(self.text),
                area_cursor(self.text).0,
                area_lines(self.text)[area_cursor(self.text).0].insert(area_cursor(self.text).1, c),
            );
        }
        area_insert_char(&mut self.text, c);
        self.modified = true;
    }

    /// Breaks the line at the cursor; the cursor goes to the start of the new
    /// line.
    pub fn insert_newline(&mut self)
        ensures
            final(self)@ == old(self)@.after_newline(),
    {
        proof {
            use_type_invariant(&*self);
            lemma_split_no_breaks(area_lines(self.text), area_cursor(self.text).0, area_cursor(self.text).1);
        }
        area_insert_newline(&mut self.text);
        self.modified = true;
    }

    /// Inserts an indent at the cursor, which moves past it: one `\t` where
    /// tabs are hard, else one to `TAB_LEN` spaces.
    pub fn insert_tab(&mut self)
        ensures
            exists|s: Seq<char>|
                is_indent(s, old(self)@.hard_tab, TAB_LEN as int) && final(self)@ == old(
                    self,
                )@.after_insert_text(s),
    {
        proof {
            use_type_invariant(&*self);
        }
        let ghost before = self.text;
        let ghost old_view = self@;
        area_insert_tab(&mut self.text);
        let ghost (row, col) = area_cursor(before);
        let ghost s = choose|s: Seq<char>|
            {
                &&& is_indent(s, area_hard_tab(before), area_tab_len(before))
                &&& area_lines(self.text) == area_lines(before).update(
                    row,
                    insert_text(area_lines(before)[row], col, s),
                )
                &&& area_cursor(self.text) == (row, col + s.len())
            };
        proof {
            lemma_indent_no_breaks(area_lines(before), row, col, s, area_hard_tab(before));
        }
        self.modified = true;
        assert(self@ == old_view.after_insert_text(s));
    }

    /// Deletes the character before the cursor, or at the start of a line
    /// the line break before it.
    pub fn delete_char(&mut self)
        ensures
            final(self)@ == old(self)@.after_delete_char(),
    {
        proof {
            use_type_invariant(&*self);
            lemma_delete_no_breaks(area_lines(self.text), area_cursor(self.text).0, area_cursor(self.text).1);
        }
        area_delete_char(&mut self.text);
        self.modified = true;
    }

    /// Deletes the character after the cursor, or at the end of a line the
    /// line break after it. The cursor stays.
    pub fn delete_next_char(&mut self)
        ensures
            final(self)@ == old(self)@.after_delete_next_char(),
    {
        proof {
            use_type_invariant(&*self);
            lemma_delete_no_breaks(area_lines(self.text), area_cursor(self.text).0, area_cursor(self.text).1);
        }
        area_delete_next_char(&mut self.text);
        self.modified = true;
    }

    /// Moves the cursor; the text and the unsaved-changes flag stay.
    pub fn move_cursor(&mut self, m: Motion)
        ensures
            final(self)@ == old(self)@.after_move(m),
    {
        proof {
            use_type_invariant(&*self);
        }
        area_move(&mut self.text, m);
    }
}

/// Replacing the line at `row` by one without line breaks keeps the lines
/// free of them.
proof fn lemma_update_no_breaks(lines: Seq<Seq<char>>, row: int, line: Seq<char>)
    requires
        no_breaks(lines),
        0 <= row < lines.len(),
        forall|j: int| 0 <= j < line.len() ==> #[trigger] line[j] != '\n',
    ensures
        no_breaks(lines.update(row, line)),
{
    let u = lines.update(row, line);
    assert forall|i: int, j: int| 0 <= i < u.len() && 0 <= j < u[i].len() implies #[trigger] u[i][j] != '\n' by {
        if i != row {
            assert(u[i] == lines[i]);
            assert(lines[i][j] != '\n');
        }
    }
}

/// The characters of `a + b` are those of `a` and of `b`.
proof fn lemma_concat_no_breaks(a: Seq<char>, b: Seq<char>)
    requires
        forall|j: int| 0 <= j < a.len() ==> #[trigger] a[j] != '\n',
        forall|j: int| 0 <= j < b.len() ==> #[trigger] b[j] != '\n',
    ensures
        forall|j: int| 0 <= j < (a + b).len() ==> #[trigger] (a + b)[j] != '\n',
{
    assert forall|j: int| 0 <= j < (a + b).len() implies #[trigger] (a + b)[j] != '\n' by {
        if j >= a.len() {
            assert((a + b)[j] == b[j - a.len()]);
        }
    }
}

/// Breaking a line keeps the lines free of line breaks.
proof fn lemma_split_no_breaks(lines: Seq<Seq<char>>, row: int, col: int)
    requires
        no_breaks(lines),
        0 <= row < lines.len(),
        0 <= col <= lines[row].len(),
    ensures
        no_breaks(split_row(lines, row, col)),
{
    let r = split_row(lines, row, col);
    assert forall|i: int, j: int| 0 <= i < r.len() && 0 <= j < r[i].len() implies #[trigger] r[i][j] != '\n' by {
        if i < row {
            assert(r[i] == lines[i]);
            assert(lines[i][j] != '\n');
        } else if i == row {
            assert(r[i] == lines[row].take(col));
            assert(lines[row][j] != '\n');
        } else if i == row + 1 {
            assert(r[i] == lines[row].skip(col));
            assert(lines[row][col + j] != '\n');
        } else {
            assert(r[i] == lines[i - 1]);
            assert(lines[i - 1][j] != '\n');
        }
    }
}

/// Removing a character from a line without line breaks leaves none.
proof fn lemma_remove_no_breaks(line: Seq<char>, k: int)
    requires
        0 <= k < line.len(),
        forall|j: int| 0 <= j < line.len() ==> #[trigger] line[j] != '\n',
    ensures
        forall|j: int| 0 <= j < line.remove(k).len() ==> #[trigger] line.remove(k)[j] != '\n',
{
    assert forall|j: int| 0 <= j < line.remove(k).len() implies #[trigger] line.remove(k)[j] != '\n' by {
        if j < k {
            assert(line.remove(k)[j] == line[j]);
        } else {
            assert(line.remove(k)[j] == line[j + 1]);
        }
    }
}

/// Deleting a character or joining two lines keeps the lines free of line
/// breaks.
proof fn lemma_delete_no_breaks(lines: Seq<Seq<char>>, row: int, col: int)
    requires
        no_breaks(lines),
        0 <= row < lines.len(),
        0 <= col <= lines[row].len(),
    ensures
        col > 0 ==> no_breaks(lines.update(row, lines[row].remove(col - 1))),
        col < lines[row].len() ==> no_breaks(lines.update(row, lines[row].remove(col))),
        row > 0 ==> no_breaks(join_rows(lines, row - 1)),
        row + 1 < lines.len() ==> no_breaks(join_rows(lines, row)),
{
    let line = lines[row];
    assert(forall|j: int| 0 <= j < line.len() ==> #[trigger] line[j] != '\n');
    if col > 0 {
        lemma_remove_no_breaks(line, col - 1);
    }
    if col < line.len() {
        lemma_remove_no_breaks(line, col);
    }
    if col > 0 {
        lemma_update_no_breaks(lines, row, line.remove(col - 1));
    }
    if col < line.len() {
        lemma_update_no_breaks(lines, row, line.remove(col));
    }
    assert forall|r: int| 0 <= r && r + 1 < lines.len() implies no_breaks(#[trigger] join_rows(lines, r)) by {
        let a = lines[r];
        let b = lines[r + 1];
        assert(forall|j: int| 0 <= j < a.len() ==> #[trigger] a[j] != '\n');
        assert(forall|j: int| 0 <= j < b.len() ==> #[trigger] b[j] != '\n');
        lemma_concat_no_breaks(a, b);
        let u = join_rows(lines, r);
        assert forall|i: int, j: int| 0 <= i < u.len() && 0 <= j < u[i].len() implies #[trigger] u[i][j] != '\n' by {
            if i < r {
                assert(u[i] == lines[i]);
                assert(lines[i][j] != '\n');
            } else if i == r {
                assert(u[i] == a + b);
            } else {
                assert(u[i] == lines[i + 1]);
                assert(lines[i + 1][j] != '\n');
            }
        }
    }
}

/// Inserting an indent keeps the lines free of line breaks.
proof fn lemma_indent_no_breaks(lines: Seq<Seq<char>>, row: int, col: int, s: Seq<char>, hard: bool)
    requires
        no_breaks(lines),
        0 <= row < lines.len(),
        0 <= col <= lines[row].len(),
        is_indent(s, hard, TAB_LEN as int),
    ensures
        no_breaks(lines.update(row, insert_text(lines[row], col, s))),
{
    let line = lines[row];
    assert(forall|j: int| 0 <= j < line.len() ==> #[trigger] line[j] != '\n');
    let pre = line.take(col);
    let post = line.skip(col);
    assert(forall|j: int| 0 <= j < pre.len() ==> #[trigger] pre[j] == line[j]);
    assert(forall|j: int| 0 <= j < post.len() ==> #[trigger] post[j] == line[col + j]);
    assert(forall|j: int| 0 <= j < s.len() ==> #[trigger] s[j] != '\n');
    lemma_concat_no_breaks(pre, s);
    lemma_concat_no_breaks(pre + s, post);
    lemma_update_no_breaks(lines, row, insert_text(line, col, s));
}

/// The text of an optional message.
pub open spec fn ref_view(r: Option<&String>) -> Option<Seq<char>> {
    match r {
        Some(s) => Some(s@),
        None => None,
    }
}

/// The path and text of an optional write.
pub open spec fn request_view(r: Option<WriteRequest>) -> Option<(Seq<char>, Seq<char>)> {
    match r {
        Some(w) => Some((w.path@, w.text@)),
        None => None,
    }
}

/// Saving writes exactly when the text changed since the last successful
/// save: after the operations `ops` on a buffer whose flag was `start`,
/// saving asks for one write if an edit came after the last successful save
/// (or, with none among `ops`, if the buffer had changes before), and for
/// none otherwise.
pub proof fn lemma_save_writes_iff_changed(start: bool, ops: Seq<DocOp>, after: BufferView)
    requires
        after.modified == dirty_after_all(start, ops),
    ensures
        after.save_write() is Some <==> changed_since_save(start, ops),
        after.save_write() is Some ==> after.save_write() == Some((after.path, serialized(after.lines))),
{
    lemma_dirty_iff_changed(start, ops);
}

proof fn lemma_dirty_iff_changed(start: bool, ops: Seq<DocOp>)
    ensures
        dirty_after_all(start, ops) == changed_since_save(start, ops),
    decreases ops.len(),
{
    if ops.len() > 0 {
        let prefix = ops.drop_last();
        let n = ops.len() - 1;
        lemma_dirty_iff_changed(start, prefix);
        assert(forall|j: int| 0 <= j < n ==> prefix[j] == ops[j]);
        if ops.last() == DocOp::Edit {
            assert(ops[n] == DocOp::Edit && unsaved_after(ops, n));
        } else if ops.last() == DocOp::Saved {
            assert(!unsaved_after(ops, -1));
            assert forall|i: int| 0 <= i < ops.len() && ops[i] == DocOp::Edit implies !unsaved_after(
                ops,
                i,
            ) by {
                assert(ops[n] == DocOp::Saved);
            }
        } else {
            assert(unsaved_after(ops, -1) == unsaved_after(prefix, -1));
            if changed_since_save(start, ops) {
                if exists|i: int| 0 <= i < ops.len() && ops[i] == DocOp::Edit && unsaved_after(ops, i) {
                    let i = choose|i: int|
                        0 <= i < ops.len() && ops[i] == DocOp::Edit && unsaved_after(ops, i);
                    assert(i < n);
                    assert(prefix[i] == DocOp::Edit && unsaved_after(prefix, i));
                }
            }
            if changed_since_save(start, prefix) {
                if exists|i: int|
                    0 <= i < prefix.len() && prefix[i] == DocOp::Edit && unsaved_after(prefix, i) {
                    let i = choose|i: int|
                        0 <= i < prefix.len() && prefix[i] == DocOp::Edit && unsaved_after(prefix, i);
                    assert(ops[i] == DocOp::Edit && unsaved_after(ops, i));
                }
            }
        }
    }
}

/// A message set at `t` is shown by every read before `t + MESSAGE_EXPIRY_MS`,
/// which leaves the buffer as it was, and by no read from then on. A read
/// from then on clears it, and a cleared message stays cleared and unshown
/// by every later read, until a message is set again.
pub proof fn lemma_message_expiry(v: BufferView, x: Seq<char>, t: int, now: int, later: int)
    ensures
        ({
            let set = v.with_message(Some(x), t);
            &&& now < t + MESSAGE_EXPIRY_MS ==> set.read_message(now) == (set, Some(x))
            &&& now >= t + MESSAGE_EXPIRY_MS ==> set.read_message(now).1 is None
            &&& now >= t + MESSAGE_EXPIRY_MS ==> set.read_message(now).0.message is None
        }),
        v.message is None ==> v.read_message(later) == (v, None::<Seq<char>>),
{
}

} // verus!
