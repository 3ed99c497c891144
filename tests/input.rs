use hemm::buffer::{Buffer, OutputFile};
use hemm::config::{Config, WritingMode};
use hemm::input::{handle_key, Key, KeyOutcome};

fn open(text: &str) -> Buffer {
    Buffer::new(&Config::default(), OutputFile::Contents(text.to_string())).unwrap()
}

fn state(b: &Buffer) -> (Vec<String>, (usize, usize), bool) {
    (b.area().area.lines().to_vec(), b.area().area.cursor(), b.modified())
}

#[test]
fn hemingway_ignores_backspace_and_moves() {
    let mut b = open("abc\ndef");
    let before = state(&b);
    for key in [
        Key::Backspace,
        Key::Delete,
        Key::Left,
        Key::Right,
        Key::Up,
        Key::Down,
        Key::Home,
        Key::End,
        Key::PageUp,
        Key::PageDown,
    ] {
        assert_eq!(handle_key(&mut b, key, WritingMode::Hemingway), KeyOutcome::Continue);
        assert_eq!(state(&b), before);
    }
}

#[test]
fn hemingway_still_types_and_breaks_lines() {
    let mut b = open("abc");
    handle_key(&mut b, Key::Char('d'), WritingMode::Hemingway);
    assert_eq!(state(&b), (vec!["abcd".to_string()], (0, 4), true));
    handle_key(&mut b, Key::Enter, WritingMode::Hemingway);
    assert_eq!(state(&b), (vec!["abcd".to_string(), "".to_string()], (1, 0), true));
    handle_key(&mut b, Key::Tab, WritingMode::Hemingway);
    assert_eq!(b.area().area.lines()[1], "\t");
}

#[test]
fn regular_mode_deletes_and_moves() {
    let mut b = open("abc");
    handle_key(&mut b, Key::Left, WritingMode::Regular);
    assert_eq!(state(&b), (vec!["abc".to_string()], (0, 2), false));
    handle_key(&mut b, Key::Backspace, WritingMode::Regular);
    assert_eq!(state(&b), (vec!["ac".to_string()], (0, 1), true));
    handle_key(&mut b, Key::Delete, WritingMode::Regular);
    assert_eq!(state(&b), (vec!["a".to_string()], (0, 1), true));
    handle_key(&mut b, Key::Home, WritingMode::Regular);
    assert_eq!(b.area().area.cursor(), (0, 0));
    handle_key(&mut b, Key::End, WritingMode::Regular);
    assert_eq!(b.area().area.cursor(), (0, 1));
}

#[test]
fn up_and_down_keep_column_within_line() {
    let mut b = open("a\nlonger");
    handle_key(&mut b, Key::Up, WritingMode::Regular);
    assert_eq!(b.area().area.cursor(), (0, 1));
    handle_key(&mut b, Key::Down, WritingMode::Regular);
    assert_eq!(b.area().area.cursor(), (1, 1));
    handle_key(&mut b, Key::Right, WritingMode::Regular);
    assert_eq!(b.area().area.cursor(), (1, 2));
    assert!(!b.modified());
}

#[test]
fn escape_quits_without_change() {
    let mut b = open("abc");
    let before = state(&b);
    assert_eq!(handle_key(&mut b, Key::Esc, WritingMode::Regular), KeyOutcome::Quit);
    assert_eq!(state(&b), before);
}

#[test]
fn other_keys_do_nothing() {
    let mut b = open("abc");
    let before = state(&b);
    assert_eq!(handle_key(&mut b, Key::Other, WritingMode::Regular), KeyOutcome::Continue);
    assert_eq!(state(&b), before);
}

#[test]
fn page_keys_move_ten_rows() {
    let text: String = (0..30).map(|i| format!("line {}\n", i)).collect();
    let mut b = open(&text);
    assert_eq!(b.area().area.cursor(), (29, 7));
    handle_key(&mut b, Key::PageUp, WritingMode::Regular);
    assert_eq!(b.area().area.cursor(), (19, 7));
    handle_key(&mut b, Key::PageUp, WritingMode::Regular);
    handle_key(&mut b, Key::PageUp, WritingMode::Regular);
    assert_eq!(b.area().area.cursor(), (0, 6));
    handle_key(&mut b, Key::PageDown, WritingMode::Regular);
    assert_eq!(b.area().area.cursor(), (10, 6));
    assert!(!b.modified());
}

#[test]
fn typed_newline_then_tab_does_not_panic() {
    let mut b = open("abc");
    handle_key(&mut b, Key::Char('\n'), WritingMode::Regular);
    handle_key(&mut b, Key::Tab, WritingMode::Regular);
    assert_eq!(state(&b), (vec!["abc".to_string(), "\t".to_string()], (1, 1), true));
}
