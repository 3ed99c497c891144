//! The options a user gives, on the command line or in a configuration file.

use vstd::prelude::*;

verus! {

/// Options and arguments that the user gives to the program. Each is absent
/// where the user left it out.
#[derive(Clone, Debug)]
pub struct Cli {
    /// Output file path. If the file exists, it is opened to resume editing.
    pub path: Option<String>,
    /// A custom configuration file path.
    pub config: Option<String>,
    /// Hemingway mode: no deleting and no cursor movement.
    pub hemingway: Option<bool>,
    /// Directory of the output file where the path given is not absolute.
    pub directory: Option<String>,
    /// Save in the background.
    pub autosave: Option<bool>,
    /// Seconds between background saves.
    pub autosave_interval: Option<u32>,
    /// Show the elapsed-time display.
    pub timer: Option<bool>,
    /// A tab key inserts `\t` rather than spaces.
    pub use_hard_indent: Option<bool>,
}

/// `preferred` where it is given, else `fallback`.
pub open spec fn prefer<T>(preferred: Option<T>, fallback: Option<T>) -> Option<T> {
    match preferred {
        Some(v) => Some(v),
        None => fallback,
    }
}

fn prefer_exec<T>(preferred: Option<T>, fallback: Option<T>) -> (r: Option<T>)
    ensures
        r == prefer(preferred, fallback),
{
    match preferred {
        Some(v) => Some(v),
        None => fallback,
    }
}

impl Cli {
    /// Every option given in `other` overrides the one in `self`; the others
    /// stay.
    pub fn merge(&mut self, other: Cli)
        ensures
            final(self).path == prefer(other.path, old(self).path),
            final(self).config == prefer(other.config, old(self).config),
            final(self).hemingway == prefer(other.hemingway, old(self).hemingway),
            final(self).directory == prefer(other.directory, old(self).directory),
            final(self).autosave == prefer(other.autosave, old(self).autosave),
            final(self).autosave_interval == prefer(
                other.autosave_interval,
                old(self).autosave_interval,
            ),
            final(self).timer == prefer(other.timer, old(self).timer),
            final(self).use_hard_indent == prefer(other.use_hard_indent, old(self).use_hard_indent),
    {
        self.path = prefer_exec(other.path, self.path.take());
        self.config = prefer_exec(other.config, self.config.take());
        self.hemingway = prefer_exec(other.hemingway, self.hemingway.take());
        self.directory = prefer_exec(other.directory, self.directory.take());
        self.autosave = prefer_exec(other.autosave, self.autosave.take());
        self.autosave_interval = prefer_exec(other.autosave_interval, self.autosave_interval.take());
        self.timer = prefer_exec(other.timer, self.timer.take());
        self.use_hard_indent = prefer_exec(other.use_hard_indent, self.use_hard_indent.take());
    }
}

} // verus!
