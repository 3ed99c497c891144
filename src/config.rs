//! The settings that the editor runs with, and how they are drawn from the
//! user's options and configuration file.

use crate::cli::{prefer, Cli};
use crate::path::{
    file_name_of, is_absolute_path, opt_view, parent_of, path_file_name, path_is_absolute,
    path_parent, path_push, pushed_path,
};
use vstd::prelude::*;

verus! {

/// How freely the user may edit.
#[derive(Clone, Copy, Debug, PartialEq, Eq, Structural)]
pub enum WritingMode {
    Regular,
    /// Deleting and cursor movement are disabled.
    Hemingway,
}

/// The settings of one run of the editor.
#[derive(Clone, Debug)]
pub struct Config {
    /// Hemingway mode disables deleting and navigation.
    pub writing_mode: WritingMode,
    /// Name of the output file.
    pub output_name: String,
    /// Directory of the output file, where its name is not absolute.
    pub output_dir: String,
    /// Save in the background; where a save fails, the text goes to a
    /// backup file beside the output file.
    pub use_autosave: bool,
    /// Seconds between background saves.
    pub autosave_interval: u32,
    /// Show the elapsed-time display.
    pub show_timer: bool,
    /// A tab key inserts `\t` rather than spaces.
    pub use_hard_indent: bool,
}

/// Seconds between background saves, unless the user says otherwise.
pub const DEFAULT_AUTOSAVE_INTERVAL: u32 = 15;

/// The settings where the user gives no option.
pub open spec fn is_default_config(c: Config) -> bool {
    &&& c.writing_mode == WritingMode::Regular
    &&& c.output_name@ == "output.txt"@
    &&& c.output_dir@ == "./"@
    &&& c.use_autosave
    &&& c.autosave_interval == DEFAULT_AUTOSAVE_INTERVAL
    &&& !c.show_timer
    &&& c.use_hard_indent
}

impl Default for Config {
    fn default() -> (c: Config)
        ensures
            is_default_config(c),
    {
        Config {
            writing_mode: WritingMode::Regular,
            output_name: String::from_str("output.txt"),
            output_dir: String::from_str("./"),
            use_autosave: true,
            autosave_interval: DEFAULT_AUTOSAVE_INTERVAL,
            show_timer: false,
            use_hard_indent: true,
        }
    }
}

/// A flag given by the user, else its default.
pub open spec fn flag_or(given: Option<bool>, default: bool) -> bool {
    match given {
        Some(b) => b,
        None => default,
    }
}

/// The writing mode that the Hemingway option asks for.
pub open spec fn mode_for(hemingway: Option<bool>) -> WritingMode {
    if flag_or(hemingway, false) {
        WritingMode::Hemingway
    } else {
        WritingMode::Regular
    }
}

/// The output path of a configuration: its name where that is absolute,
/// else the name adjoined to the directory.
pub open spec fn output_path_of(name: Seq<char>, dir: Seq<char>) -> Seq<char> {
    if is_absolute_path(name) {
        name
    } else {
        pushed_path(dir, name)
    }
}

/// The backup path for `output`: beside it, its file name with `.bak`
/// added; none where the output path has no parent or no file name.
pub open spec fn backup_path_of(output: Seq<char>) -> Option<Seq<char>> {
    match (parent_of(output), file_name_of(output)) {
        (Some(dir), Some(name)) => Some(pushed_path(dir, name + ".bak"@)),
        _ => None,
    }
}

/// `c` holds the settings that the options `cli` ask for, with the default
/// for each option left out.
pub open spec fn is_config_for(c: Config, cli: Cli) -> bool {
    &&& c.writing_mode == mode_for(cli.hemingway)
    &&& cli.path == Some(c.output_name)
    &&& c.output_dir@ == match cli.directory {
        Some(d) => d@,
        None => "./"@,
    }
    &&& c.use_autosave == flag_or(cli.autosave, true)
    &&& c.autosave_interval == match cli.autosave_interval {
        Some(n) => n,
        None => DEFAULT_AUTOSAVE_INTERVAL,
    }
    &&& c.show_timer == flag_or(cli.timer, false)
    &&& c.use_hard_indent == flag_or(cli.use_hard_indent, true)
}

impl Config {
    /// The settings that the options in `cli` ask for, with the default for
    /// each option left out. The output path must be given.
    pub fn new(cli: &Cli) -> (c: Config)
        requires
            cli.path is Some,
        ensures
            is_config_for(c, *cli),
    {
        let default = Config::default();
        let writing_mode = match cli.hemingway {
            Some(true) => WritingMode::Hemingway,
            Some(false) => WritingMode::Regular,
            None => default.writing_mode,
        };
        let output_name = match &cli.path {
            Some(p) => p.clone(),
            None => default.output_name,
        };
        let output_dir = match &cli.directory {
            Some(d) => d.clone(),
            None => default.output_dir,
        };
        Config {
            writing_mode,
            output_name,
            output_dir,
            use_autosave: match cli.autosave {
                Some(b) => b,
                None => default.use_autosave,
            },
            autosave_interval: match cli.autosave_interval {
                Some(n) => n,
                None => default.autosave_interval,
            },
            show_timer: match cli.timer {
                Some(b) => b,
                None => default.show_timer,
            },
            use_hard_indent: match cli.use_hard_indent {
                Some(b) => b,
                None => default.use_hard_indent,
            },
        }
    }

    /// The path of the output file: the name where it is absolute, else the
    /// name within the output directory.
    pub fn get_output_path(&self) -> (p: String)
        ensures
            p@ == output_path_of(self.output_name@, self.output_dir@),
    {
        if path_is_absolute(self.output_name.as_str()) {
            return self.output_name.clone();
        }
        path_push(self.output_dir.as_str(), self.output_name.as_str())
    }

    /// The path of the backup file: `<output file name>.bak` in the output
    /// file's directory. None where the output path names no file.
    pub fn get_bak_path(&self) -> (p: Option<String>)
        ensures
            opt_view(p) == backup_path_of(output_path_of(self.output_name@, self.output_dir@)),
    {
        let output_path = self.get_output_path();
        let parent_dir = path_parent(output_path.as_str());
        let file_name = path_file_name(output_path.as_str());
        match (parent_dir, file_name) {
            (Some(dir), Some(name)) => {
                let bak_name = name.concat(".bak");
                Some(path_push(dir.as_str(), bak_name.as_str()))
            },
            _ => None,
        }
    }
}

/// Why the configuration file could not be used.
#[derive(Clone, Copy, Debug, PartialEq, Eq, Structural)]
pub enum ConfigErrorType {
    InvalidConfigPath,
    FileReadError,
    DeserializationError,
}

/// The words that describe an error of type `t`.
pub open spec fn error_text(t: ConfigErrorType) -> Seq<char> {
    match t {
        ConfigErrorType::InvalidConfigPath => "Invalid config path"@,
        ConfigErrorType::FileReadError => "Failed to read config file"@,
        ConfigErrorType::DeserializationError => "Failed to parse config file"@,
    }
}

impl ConfigErrorType {
    /// The words that describe this error.
    pub fn message(&self) -> (r: &'static str)
        ensures
            r@ == error_text(*self),
    {
        match self {
            ConfigErrorType::InvalidConfigPath => "Invalid config path",
            ConfigErrorType::FileReadError => "Failed to read config file",
            ConfigErrorType::DeserializationError => "Failed to parse config file",
        }
    }
}

/// A configuration file that could not be used, and its path.
#[derive(Clone, Debug)]
pub struct ConfigError {
    pub error_type: ConfigErrorType,
    pub path: String,
}

impl ConfigError {
    /// The error as a line for the user: `<description>: <path>`.
    pub fn describe(&self) -> (r: String)
        ensures
            r@ == error_text(self.error_type) + ": "@ + self.path@,
    {
        let text = String::from_str(self.error_type.message());
        let text = text.concat(": ");
        text.concat(self.path.as_str())
    }
}

/// What stands at the configuration file's path.
#[derive(Clone, Debug)]
pub enum ConfigSource {
    /// No regular file.
    Missing,
    /// A file that could not be read.
    Unreadable,
    /// A file whose text does not hold options.
    Malformed,
    /// A file that holds these options.
    Options(Cli),
}

/// The configuration file that `hemm` reads from the user's configuration
/// directory `dir`.
pub open spec fn config_path_under(dir: Seq<char>) -> Seq<char> {
    pushed_path(pushed_path(dir, "hemm"@), "hemm.conf"@)
}

/// Relies on `dirs::config_dir`: the platform's configuration directory of
/// the user running the program, if it knows one.
#[verifier::external_body]
fn config_dir() -> (r: Option<String>)
{
    dirs::config_dir().map(|d| d.to_string_lossy().into_owned())
}

/// The default configuration file within the configuration directory `dir`.
pub fn default_config_path(dir: &str) -> (p: String)
    ensures
        p@ == config_path_under(dir@),
{
    let app_dir = path_push(dir, "hemm");
    path_push(app_dir.as_str(), "hemm.conf")
}

/// The configuration file to read: the one that `cli` names, else the
/// default one within the user's configuration directory; none where
/// neither is known.
pub fn config_file_path(cli: &Cli) -> (p: Option<String>)
    ensures
        cli.config is Some ==> p == cli.config,
        cli.config is None && p is Some ==> exists|dir: Seq<char>| p->Some_0@ == config_path_under(dir),
{
    match &cli.config {
        Some(c) => Some(c.clone()),
        None => match config_dir() {
            Some(dir) => Some(default_config_path(dir.as_str())),
            None => None,
        },
    }
}

/// The outcome of loading the configuration file at `config_path`, found
/// there as `found`, for the options `cli`.
pub open spec fn load_outcome(cli: Cli, found: ConfigSource) -> Result<Cli, ConfigErrorType> {
    match found {
        ConfigSource::Missing => if cli.config is Some {
            Err(ConfigErrorType::InvalidConfigPath)
        } else {
            Ok(cli)
        },
        ConfigSource::Unreadable => Err(ConfigErrorType::FileReadError),
        ConfigSource::Malformed => Err(ConfigErrorType::DeserializationError),
        ConfigSource::Options(file) => Ok(merged(cli, file)),
    }
}

/// Options where each option of `over` overrides the one of `base`.
pub open spec fn merged(base: Cli, over: Cli) -> Cli {
    Cli {
        path: prefer(over.path, base.path),
        config: prefer(over.config, base.config),
        hemingway: prefer(over.hemingway, base.hemingway),
        directory: prefer(over.directory, base.directory),
        autosave: prefer(over.autosave, base.autosave),
        autosave_interval: prefer(over.autosave_interval, base.autosave_interval),
        timer: prefer(over.timer, base.timer),
        use_hard_indent: prefer(over.use_hard_indent, base.use_hard_indent),
    }
}

/// The settings drawn from the command-line options `cli` and the
/// configuration file at `config_path`, as found there (`found`); the file's
/// options override those of the command line. A missing file is an error
/// only where `cli` names it. Where the outcome is a configuration, its
/// options must give the output path.
pub fn load_user_config(cli: Cli, config_path: String, found: ConfigSource) -> (r: Result<
    Config,
    ConfigError,
>)
    requires
        load_outcome(cli, found) matches Ok(opts) ==> opts.path is Some,
    ensures
        match load_outcome(cli, found) {
            Ok(opts) => r matches Ok(c) && is_config_for(c, opts),
            Err(t) => r matches Err(e) && e.error_type == t && e.path == config_path,
        },
{
    match found {
        ConfigSource::Missing => {
            if cli.config.is_some() {
                Err(ConfigError { error_type: ConfigErrorType::InvalidConfigPath, path: config_path })
            } else {
                Ok(Config::new(&cli))
            }
        },
        ConfigSource::Unreadable => Err(
            ConfigError { error_type: ConfigErrorType::FileReadError, path: config_path },
        ),
        ConfigSource::Malformed => Err(
            ConfigError { error_type: ConfigErrorType::DeserializationError, path: config_path },
        ),
        ConfigSource::Options(file) => {
            let mut cli = cli;
            cli.merge(file);
            Ok(Config::new(&cli))
        },
    }
}

} // verus!
