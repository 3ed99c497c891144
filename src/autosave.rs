//! The autosave policy: each cycle saves a changed document, and where the
//! save fails tells the user and writes a backup instead. Failures never stop
//! the cycle.

use crate::buffer::{dirty_after, Buffer, BufferView, DocOp, WriteRequest};
use crate::text::serialized;
use vstd::prelude::*;

verus! {

/// The message shown when a background save fails.
pub const SAVE_FAILED_MESSAGE: &'static str = "Error when saving; saving to .bak file";

/// What happened since the last step of a cycle.
#[derive(Clone, Copy, Debug, PartialEq, Eq, Structural)]
pub enum AutosaveEvent {
    /// A new cycle starts.
    Tick,
    /// The output file was written.
    PrimaryWritten,
    /// Writing the output file failed.
    PrimaryFailed,
    /// The backup file was written.
    BackupWritten,
    /// Writing the backup file failed.
    BackupFailed,
}

/// What the autosave worker does next.
#[derive(Clone, Debug)]
pub enum AutosaveAction {
    /// Write the output file, then report how it went.
    WritePrimary(WriteRequest),
    /// Write the backup file, then report how it went.
    WriteBackup(WriteRequest),
    /// The cycle is over: wait for the next one.
    Wait,
}

/// The path and text of the write that an action asks for.
pub open spec fn action_write(a: AutosaveAction) -> Option<(Seq<char>, Seq<char>)> {
    match a {
        AutosaveAction::WritePrimary(w) => Some((w.path@, w.text@)),
        AutosaveAction::WriteBackup(w) => Some((w.path@, w.text@)),
        AutosaveAction::Wait => None,
    }
}

/// The buffer after a step on `ev`, a message set at `now` where one is set.
pub open spec fn autosave_next(v: BufferView, ev: AutosaveEvent, now: int) -> BufferView {
    match ev {
        AutosaveEvent::PrimaryWritten => BufferView {
            modified: dirty_after(v.modified, DocOp::Saved),
            ..v
        },
        AutosaveEvent::PrimaryFailed => v.with_message(Some(SAVE_FAILED_MESSAGE@), now),
        _ => v,
    }
}

/// The write that a step on `ev` asks for: at the start of a cycle, the save
/// of a changed document; after a failed save, the backup; else none.
pub open spec fn autosave_write(v: BufferView, ev: AutosaveEvent) -> Option<(Seq<char>, Seq<char>)> {
    match ev {
        AutosaveEvent::Tick => v.save_write(),
        AutosaveEvent::PrimaryFailed => Some(v.backup_write()),
        _ => None,
    }
}

/// One step of an autosave cycle: the worker reports `event` and is told
/// what to do next. A successful save clears the unsaved-changes flag; a
/// failed one leaves it, shows `SAVE_FAILED_MESSAGE` and asks for the backup.
pub fn autosave_step(buffer: &mut Buffer, event: AutosaveEvent) -> (r: AutosaveAction)
    ensures
        final(buffer)@ == autosave_next(old(buffer)@, event, final(buffer)@.message_set_at),
        action_write(r) == autosave_write(old(buffer)@, event),
        r is WritePrimary <==> (event is Tick && old(buffer)@.modified),
        r is WriteBackup <==> event is PrimaryFailed,
{
    match event {
        AutosaveEvent::Tick => match buffer.save_request() {
            Some(w) => AutosaveAction::WritePrimary(w),
            None => AutosaveAction::Wait,
        },
        AutosaveEvent::PrimaryWritten => {
            buffer.record_save(true);
            AutosaveAction::Wait
        },
        AutosaveEvent::PrimaryFailed => {
            buffer.set_message(Some(String::from_str(SAVE_FAILED_MESSAGE)));
            AutosaveAction::WriteBackup(buffer.backup_request())
        },
        AutosaveEvent::BackupWritten | AutosaveEvent::BackupFailed => AutosaveAction::Wait,
    }
}

/// Where the save of a changed document fails, the backup that follows holds
/// the text that the save was to write, and goes to the backup path; the
/// document keeps its text and its unsaved changes, and the user is told.
pub proof fn lemma_backup_after_failed_save(v: BufferView, now: int)
    requires
        v.modified,
    ensures
        ({
            let started = autosave_next(v, AutosaveEvent::Tick, now);
            let failed = autosave_next(started, AutosaveEvent::PrimaryFailed, now);
            let save = autosave_write(v, AutosaveEvent::Tick);
            let backup = autosave_write(started, AutosaveEvent::PrimaryFailed);
            &&& save == Some((v.path, serialized(v.lines)))
            &&& backup == Some((v.back_path, serialized(v.lines)))
            &&& failed.lines == v.lines
            &&& failed.modified
            &&& failed.message == Some(SAVE_FAILED_MESSAGE@)
        }),
{
}

} // verus!
