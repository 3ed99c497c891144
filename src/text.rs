//! The on-disk form of a document: one line per record, each ended by `\n`.

use vstd::prelude::*;

verus! {

/// Relies on `String::push`: the character is appended at the end.
#[verifier::external_body]
fn push_char(s: &mut String, c: char)
    ensures
        final(s)@ == old(s)@.push(c),
{
    s.push(c)
}

/// Lines `rows` seen as characters.
pub open spec fn char_lines(rows: Seq<String>) -> Seq<Seq<char>> {
    rows.map_values(|l: String| l@)
}

/// No line of `lines` holds a line break.
pub open spec fn no_breaks(lines: Seq<Seq<char>>) -> bool {
    forall|i: int, j: int| 0 <= i < lines.len() && 0 <= j < lines[i].len() ==> #[trigger] lines[i][j] != '\n'
}

/// A line without the carriage return that ends it, if it has one.
pub open spec fn strip_cr(line: Seq<char>) -> Seq<char> {
    if line.len() > 0 && line.last() == '\r' {
        line.drop_last()
    } else {
        line
    }
}

/// Reading `text` from the left: the lines ended so far, and the characters
/// read since the last newline.
pub open spec fn split_state(text: Seq<char>) -> (Seq<Seq<char>>, Seq<char>)
    decreases text.len(),
{
    if text.len() == 0 {
        (seq![], seq![])
    } else {
        let (done, cur) = split_state(text.drop_last());
        if text.last() == '\n' {
            (done.push(strip_cr(cur)), seq![])
        } else {
            (done, cur.push(text.last()))
        }
    }
}

/// The lines of `text`: split at each `\n`, a `\r` right before a `\n` is
/// dropped with it, and the last line needs no terminator.
pub open spec fn lines_of(text: Seq<char>) -> Seq<Seq<char>> {
    let (done, cur) = split_state(text);
    if cur.len() == 0 {
        done
    } else {
        done.push(cur)
    }
}

/// The text that stores `lines`: each line followed by `\n`.
pub open spec fn serialized(lines: Seq<Seq<char>>) -> Seq<char>
    decreases lines.len(),
{
    if lines.len() == 0 {
        seq![]
    } else {
        serialized(lines.drop_last()) + lines.last() + seq!['\n']
    }
}

/// Splits file contents into lines, as they are read back into a document.
pub fn split_lines(text: &str) -> (lines: Vec<String>)
    ensures
        char_lines(lines@) == lines_of(text@),
{
    let mut lines: Vec<String> = Vec::new();
    let mut cur = String::new();
    let mut pending_cr = false;
    for c in it: text.chars()
        invariant
            it.seq() == text@,
            split_state(text@.take(it.index() as int)) == (
                lines@.map_values(|l: String| l@),
                if pending_cr { cur@.push('\r') } else { cur@ },
            ),
            !pending_cr ==> strip_cr(cur@) == cur@,
    {
        let ghost i = it.index() as int;
        proof {
            assert(text@.take(i + 1).drop_last() == text@.take(i));
            assert(text@.take(i + 1).last() == c);
        }
        if c == '\n' {
            assert(cur@.push('\r').drop_last() =~= cur@);
            let done = cur;
            cur = String::new();
            pending_cr = false;
            let ghost prev = lines@.map_values(|l: String| l@);
            let ghost ended = done@;
            lines.push(done);
            assert(lines@.map_values(|l: String| l@) =~= prev.push(ended));
        } else if c == '\r' {
            if pending_cr {
                push_char(&mut cur, '\r');
            }
            pending_cr = true;
        } else {
            if pending_cr {
                push_char(&mut cur, '\r');
            }
            push_char(&mut cur, c);
            pending_cr = false;
        }
    }
    assert(text@.take(text@.len() as int) == text@);
    if pending_cr {
        push_char(&mut cur, '\r');
    }
    if cur.as_str().unicode_len() > 0 {
        lines.push(cur);
    }
    lines
}

/// The text that stores `lines` on disk.
pub fn join_lines(lines: &[String]) -> (text: String)
    ensures
        text@ == serialized(char_lines(lines@)),
{
    let mut text = String::new();
    let mut i: usize = 0;
    while i < lines.len()
        invariant
            i <= lines@.len(),
            text@ == serialized(lines@.take(i as int).map_values(|l: String| l@)),
        decreases lines@.len() - i,
    {
        let ghost done = lines@.take(i as int).map_values(|l: String| l@);
        assert(lines@.take(i + 1).map_values(|l: String| l@) =~= done.push(lines@[i as int]@));
        assert(done.push(lines@[i as int]@).drop_last() =~= done);
        text.append(lines[i].as_str());
        proof {
            reveal_strlit("\n");
        }
        text.append("\n");
        assert(text@ =~= serialized(done) + lines@[i as int]@ + seq!['\n']);
        i = i + 1;
    }
    assert(lines@.take(lines@.len() as int) =~= lines@);
    text
}

/// No line that `split_state` gives, ended or not, holds a line break.
proof fn lemma_split_state_no_breaks(text: Seq<char>)
    ensures
        no_breaks(split_state(text).0),
        forall|j: int| 0 <= j < split_state(text).1.len() ==> #[trigger] split_state(text).1[j] != '\n',
    decreases text.len(),
{
    if text.len() > 0 {
        lemma_split_state_no_breaks(text.drop_last());
        let (done, cur) = split_state(text.drop_last());
        if text.last() == '\n' {
            let ended = strip_cr(cur);
            assert(forall|j: int| 0 <= j < ended.len() ==> ended[j] == cur[j]);
            let lines = done.push(ended);
            assert forall|i: int, j: int| 0 <= i < lines.len() && 0 <= j < lines[i].len() implies #[trigger] lines[i][j] != '\n' by {
                if i < done.len() {
                    assert(lines[i] == done[i]);
                } else {
                    assert(lines[i] == ended);
                }
            }
        } else {
            let next = cur.push(text.last());
            assert forall|j: int| 0 <= j < next.len() implies #[trigger] next[j] != '\n' by {
                if j < cur.len() {
                    assert(next[j] == cur[j]);
                }
            }
        }
    }
}

/// No line read back from a text holds a line break.
pub proof fn lemma_lines_have_no_breaks(text: Seq<char>)
    ensures
        no_breaks(lines_of(text)),
{
    lemma_split_state_no_breaks(text);
    let (done, cur) = split_state(text);
    if cur.len() > 0 {
        let lines = done.push(cur);
        assert forall|i: int, j: int| 0 <= i < lines.len() && 0 <= j < lines[i].len() implies #[trigger] lines[i][j] != '\n' by {
            if i < done.len() {
                assert(lines[i] == done[i]);
            } else {
                assert(lines[i] == cur);
            }
        }
    }
}

} // verus!
