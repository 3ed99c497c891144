//! The state-coordination core of the hemm text editor: the command line and
//! configuration rules, the shared document buffer with its unsaved-changes
//! flag and expiring status message, the key handling of the input worker,
//! and the autosave policy with its backup fallback.

pub mod area;
pub mod autosave;
pub mod buffer;
pub mod cli;
pub mod config;
pub mod input;
pub mod path;
pub mod text;
