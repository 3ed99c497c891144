use hemm::text::{join_lines, split_lines};

fn split(s: &str) -> Vec<String> {
    split_lines(s)
}

#[test]
fn split_plain_lines() {
    assert_eq!(split("hello\nworld"), vec!["hello", "world"]);
    assert_eq!(split("hello\nworld\n"), vec!["hello", "world"]);
}

#[test]
fn split_empty_and_blank() {
    assert!(split("").is_empty());
    assert_eq!(split("\n"), vec![""]);
    assert_eq!(split("a\n\nb"), vec!["a", "", "b"]);
}

#[test]
fn split_drops_carriage_return_before_newline_only() {
    assert_eq!(split("a\r\nb\r\n"), vec!["a", "b"]);
    assert_eq!(split("a\rb"), vec!["a\rb"]);
    assert_eq!(split("a\r"), vec!["a\r"]);
    assert_eq!(split("a\r\r\nb"), vec!["a\r", "b"]);
}

#[test]
fn split_matches_std_lines() {
    for s in ["x\ny\r\n\r\nz\r", "ünï\ncödé\n", "\r\n\r\n", "tail"] {
        let expected: Vec<String> = s.lines().map(|l| l.to_string()).collect();
        assert_eq!(split(s), expected);
    }
}

#[test]
fn join_terminates_every_line() {
    let lines = vec!["hi".to_string(), "".to_string(), "there".to_string()];
    assert_eq!(join_lines(&lines), "hi\n\nthere\n");
    assert_eq!(join_lines(&[]), "");
}

#[test]
fn join_then_split_round_trip() {
    let lines = vec!["one".to_string(), "two".to_string()];
    assert_eq!(split(&join_lines(&lines)), lines);
}
