use hemm::cli::Cli;
use hemm::config::{
    default_config_path, load_user_config, Config, ConfigError, ConfigErrorType, ConfigSource,
    WritingMode,
};

fn no_options() -> Cli {
    Cli {
        path: None,
        config: None,
        hemingway: None,
        directory: None,
        autosave: None,
        autosave_interval: None,
        timer: None,
        use_hard_indent: None,
    }
}

fn with_path(path: &str) -> Cli {
    let mut cli = no_options();
    cli.path = Some(path.to_string());
    cli
}

#[test]
fn merge_prefers_given_options() {
    let mut base = with_path("a.txt");
    base.hemingway = Some(false);
    base.autosave_interval = Some(30);
    base.timer = Some(true);
    let mut over = no_options();
    over.hemingway = Some(true);
    over.directory = Some("/tmp".to_string());
    over.autosave_interval = Some(5);
    base.merge(over);
    assert_eq!(base.path, Some("a.txt".to_string()));
    assert_eq!(base.config, None);
    assert_eq!(base.hemingway, Some(true));
    assert_eq!(base.directory, Some("/tmp".to_string()));
    assert_eq!(base.autosave, None);
    assert_eq!(base.autosave_interval, Some(5));
    assert_eq!(base.timer, Some(true));
    assert_eq!(base.use_hard_indent, None);
}

#[test]
fn merge_with_nothing_keeps_everything() {
    let mut base = with_path("a.txt");
    base.config = Some("c.conf".to_string());
    base.use_hard_indent = Some(false);
    base.merge(no_options());
    assert_eq!(base.path, Some("a.txt".to_string()));
    assert_eq!(base.config, Some("c.conf".to_string()));
    assert_eq!(base.use_hard_indent, Some(false));
}

#[test]
fn default_config_values() {
    let c = Config::default();
    assert_eq!(c.writing_mode, WritingMode::Regular);
    assert_eq!(c.output_name, "output.txt");
    assert_eq!(c.output_dir, "./");
    assert!(c.use_autosave);
    assert_eq!(c.autosave_interval, 15);
    assert!(!c.show_timer);
    assert!(c.use_hard_indent);
}

#[test]
fn config_from_options_uses_defaults_for_missing() {
    let c = Config::new(&with_path("notes.txt"));
    assert_eq!(c.writing_mode, WritingMode::Regular);
    assert_eq!(c.output_name, "notes.txt");
    assert_eq!(c.output_dir, "./");
    assert!(c.use_autosave);
    assert_eq!(c.autosave_interval, 15);
    assert!(!c.show_timer);
    assert!(c.use_hard_indent);
}

#[test]
fn config_from_options_takes_given_values() {
    let mut cli = with_path("notes.txt");
    cli.hemingway = Some(true);
    cli.directory = Some("/home/u".to_string());
    cli.autosave = Some(false);
    cli.autosave_interval = Some(1);
    cli.timer = Some(true);
    cli.use_hard_indent = Some(false);
    let c = Config::new(&cli);
    assert_eq!(c.writing_mode, WritingMode::Hemingway);
    assert_eq!(c.output_dir, "/home/u");
    assert!(!c.use_autosave);
    assert_eq!(c.autosave_interval, 1);
    assert!(c.show_timer);
    assert!(!c.use_hard_indent);
}

#[test]
fn hemingway_false_is_regular() {
    let mut cli = with_path("n.txt");
    cli.hemingway = Some(false);
    assert_eq!(Config::new(&cli).writing_mode, WritingMode::Regular);
}

#[test]
fn output_path_joins_directory() {
    let mut cli = with_path("notes.txt");
    cli.directory = Some("/home/u".to_string());
    assert_eq!(Config::new(&cli).get_output_path(), "/home/u/notes.txt");
    assert_eq!(Config::new(&with_path("notes.txt")).get_output_path(), "./notes.txt");
}

#[test]
fn output_path_absolute_name_ignores_directory() {
    let mut cli = with_path("/var/notes.txt");
    cli.directory = Some("/home/u".to_string());
    assert_eq!(Config::new(&cli).get_output_path(), "/var/notes.txt");
}

#[test]
fn backup_path_beside_output() {
    let mut cli = with_path("notes.txt");
    cli.directory = Some("/home/u".to_string());
    assert_eq!(Config::new(&cli).get_bak_path(), Some("/home/u/notes.txt.bak".to_string()));
    assert_eq!(Config::new(&with_path("a/b.md")).get_bak_path(), Some("./a/b.md.bak".to_string()));
}

#[test]
fn backup_path_of_root_is_none() {
    assert_eq!(Config::new(&with_path("/")).get_bak_path(), None);
}

#[test]
fn error_messages() {
    assert_eq!(ConfigErrorType::InvalidConfigPath.message(), "Invalid config path");
    assert_eq!(ConfigErrorType::FileReadError.message(), "Failed to read config file");
    assert_eq!(ConfigErrorType::DeserializationError.message(), "Failed to parse config file");
    let e = ConfigError { error_type: ConfigErrorType::FileReadError, path: "/x/hemm.conf".to_string() };
    assert_eq!(e.describe(), "Failed to read config file: /x/hemm.conf");
}

#[test]
fn default_config_path_under_dir() {
    assert_eq!(default_config_path("/home/u/.config"), "/home/u/.config/hemm/hemm.conf");
}

#[test]
fn load_without_file_uses_options() {
    let r = load_user_config(with_path("n.txt"), "/c/hemm.conf".to_string(), ConfigSource::Missing);
    let c = r.unwrap();
    assert_eq!(c.output_name, "n.txt");
    assert_eq!(c.autosave_interval, 15);
}

#[test]
fn load_missing_named_file_is_invalid_path() {
    let mut cli = with_path("n.txt");
    cli.config = Some("/c/mine.conf".to_string());
    let e = load_user_config(cli, "/c/mine.conf".to_string(), ConfigSource::Missing).unwrap_err();
    assert_eq!(e.error_type, ConfigErrorType::InvalidConfigPath);
    assert_eq!(e.path, "/c/mine.conf");
}

#[test]
fn load_unreadable_and_malformed_files() {
    let e = load_user_config(with_path("n.txt"), "/c/h.conf".to_string(), ConfigSource::Unreadable)
        .unwrap_err();
    assert_eq!(e.error_type, ConfigErrorType::FileReadError);
    assert_eq!(e.path, "/c/h.conf");
    let e = load_user_config(with_path("n.txt"), "/c/h.conf".to_string(), ConfigSource::Malformed)
        .unwrap_err();
    assert_eq!(e.error_type, ConfigErrorType::DeserializationError);
}

#[test]
fn load_file_options_override_command_line() {
    let mut cli = with_path("n.txt");
    cli.autosave_interval = Some(20);
    cli.timer = Some(true);
    let mut file = no_options();
    file.autosave_interval = Some(1);
    file.hemingway = Some(true);
    let c = load_user_config(cli, "/c/h.conf".to_string(), ConfigSource::Options(file)).unwrap();
    assert_eq!(c.autosave_interval, 1);
    assert_eq!(c.writing_mode, WritingMode::Hemingway);
    assert!(c.show_timer);
    assert_eq!(c.output_name, "n.txt");
}

#[test]
fn config_file_path_prefers_given_file() {
    let mut cli = with_path("n.txt");
    cli.config = Some("/etc/my.conf".to_string());
    assert_eq!(hemm::config::config_file_path(&cli), Some("/etc/my.conf".to_string()));
}

#[test]
fn config_file_path_default_is_under_hemm() {
    if let Some(p) = hemm::config::config_file_path(&with_path("n.txt")) {
        assert!(p.ends_with("/hemm/hemm.conf"));
    }
}

#[test]
fn load_takes_output_path_from_file() {
    let mut file = no_options();
    file.path = Some("from_file.txt".to_string());
    let c = load_user_config(no_options(), "/c/h.conf".to_string(), ConfigSource::Options(file))
        .unwrap();
    assert_eq!(c.output_name, "from_file.txt");
}

#[test]
fn load_errors_need_no_output_path() {
    let mut cli = no_options();
    cli.config = Some("/c/mine.conf".to_string());
    let e = load_user_config(cli, "/c/mine.conf".to_string(), ConfigSource::Missing).unwrap_err();
    assert_eq!(e.error_type, ConfigErrorType::InvalidConfigPath);
    let e = load_user_config(no_options(), "/c/h.conf".to_string(), ConfigSource::Malformed)
        .unwrap_err();
    assert_eq!(e.error_type, ConfigErrorType::DeserializationError);
}
