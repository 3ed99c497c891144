use hemm::autosave::{autosave_step, AutosaveAction, AutosaveEvent, SAVE_FAILED_MESSAGE};
use hemm::buffer::{Buffer, OutputFile};
use hemm::cli::Cli;
use hemm::config::{Config, WritingMode};
use hemm::input::{handle_key, Key, KeyOutcome};

fn interval_one() -> Config {
    Config::new(&Cli {
        path: Some("out.txt".to_string()),
        config: None,
        hemingway: None,
        directory: Some("/work".to_string()),
        autosave: Some(true),
        autosave_interval: Some(1),
        timer: None,
        use_hard_indent: None,
    })
}

fn open() -> Buffer {
    Buffer::new(&interval_one(), OutputFile::Missing).unwrap()
}

#[test]
fn clean_buffer_tick_waits() {
    let mut b = open();
    assert!(matches!(autosave_step(&mut b, AutosaveEvent::Tick), AutosaveAction::Wait));
    assert!(!b.modified());
}

#[test]
fn changed_buffer_tick_writes_primary() {
    let mut b = open();
    b.insert_char('x');
    match autosave_step(&mut b, AutosaveEvent::Tick) {
        AutosaveAction::WritePrimary(w) => {
            assert_eq!(w.path, "/work/out.txt");
            assert_eq!(w.text, "x\n");
        }
        _ => panic!("expected a write of the output file"),
    }
    assert!(b.modified());
    assert!(matches!(autosave_step(&mut b, AutosaveEvent::PrimaryWritten), AutosaveAction::Wait));
    assert!(!b.modified());
    assert!(matches!(autosave_step(&mut b, AutosaveEvent::Tick), AutosaveAction::Wait));
}

#[test]
fn failed_save_falls_back_to_backup() {
    let mut b = open();
    b.insert_char('y');
    let primary = match autosave_step(&mut b, AutosaveEvent::Tick) {
        AutosaveAction::WritePrimary(w) => w,
        _ => panic!("expected a write of the output file"),
    };
    match autosave_step(&mut b, AutosaveEvent::PrimaryFailed) {
        AutosaveAction::WriteBackup(w) => {
            assert_eq!(w.path, "/work/out.txt.bak");
            assert_eq!(w.text, primary.text);
            assert_eq!(w.text, "y\n");
        }
        _ => panic!("expected a write of the backup file"),
    }
    assert!(b.modified());
    assert_eq!(b.get_message().cloned(), Some(SAVE_FAILED_MESSAGE.to_string()));
    assert!(matches!(autosave_step(&mut b, AutosaveEvent::BackupWritten), AutosaveAction::Wait));
    assert!(b.modified());
    assert!(matches!(autosave_step(&mut b, AutosaveEvent::BackupFailed), AutosaveAction::Wait));
    assert!(b.modified());
}

#[test]
fn failed_save_retries_next_cycle() {
    let mut b = open();
    b.insert_char('z');
    autosave_step(&mut b, AutosaveEvent::Tick);
    autosave_step(&mut b, AutosaveEvent::PrimaryFailed);
    autosave_step(&mut b, AutosaveEvent::BackupWritten);
    assert!(matches!(autosave_step(&mut b, AutosaveEvent::Tick), AutosaveAction::WritePrimary(_)));
}

#[test]
fn typing_then_autosave_then_quit() {
    let config = interval_one();
    assert_eq!(config.autosave_interval, 1);
    let mut b = open();
    handle_key(&mut b, Key::Char('h'), config.writing_mode);
    handle_key(&mut b, Key::Char('i'), WritingMode::Regular);
    match autosave_step(&mut b, AutosaveEvent::Tick) {
        AutosaveAction::WritePrimary(w) => assert_eq!(w.text, "hi\n"),
        _ => panic!("expected a write of the output file"),
    }
    autosave_step(&mut b, AutosaveEvent::PrimaryWritten);
    assert!(!b.modified());
    assert_eq!(handle_key(&mut b, Key::Esc, config.writing_mode), KeyOutcome::Quit);
    assert!(b.save_request().is_none());
}
