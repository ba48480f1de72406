//! Splitting the text of a line-oriented body into its lines.

use vstd::prelude::*;
use vstd::std_specs::iter::IteratorSpec;

verus! {

/// The texts of a sequence of strings.
pub open spec fn texts(lines: Seq<String>) -> Seq<Seq<char>> {
    lines.map_values(|line: String| line@)
}

/// A line's content without the carriage return that may close it.
pub open spec fn without_cr(line: Seq<char>) -> Seq<char> {
    if line.len() > 0 && line.last() == '\r' {
        line.drop_last()
    } else {
        line
    }
}

/// The lines that are still to come when `pending` holds the characters of
/// the line being read and `rest` is what follows them.
///
/// A line feed closes a line, and a carriage return just before it belongs to
/// the line ending. What follows the last line feed is a line of its own
/// unless it is empty, and keeps a carriage return at its end.
pub open spec fn lines_after(pending: Seq<char>, rest: Seq<char>) -> Seq<Seq<char>>
    decreases rest.len(),
{
    if rest.len() == 0 {
        if pending.len() == 0 {
            Seq::empty()
        } else {
            seq![pending]
        }
    } else if rest[0] == '\n' {
        seq![without_cr(pending)] + lines_after(Seq::empty(), rest.drop_first())
    } else {
        lines_after(pending.push(rest[0]), rest.drop_first())
    }
}

/// The lines of a text.
pub open spec fn lines_of(text: Seq<char>) -> Seq<Seq<char>> {
    lines_after(Seq::empty(), text)
}

/// Splits a text into its lines, in order, without their line endings.
pub fn split_lines(text: &str) -> (lines: Vec<String>)
    ensures
        texts(lines@) == lines_of(text@),
{
    let total = text.unicode_len();
    let mut lines: Vec<String> = Vec::new();
    let mut chars = text.chars();
    let mut start: usize = 0;
    let mut at: usize = 0;
    let mut after_cr = false;
    assert(text@.subrange(0, 0) =~= Seq::<char>::empty());
    assert(text@.skip(0) =~= text@);
    assert(texts(lines@) =~= Seq::<Seq<char>>::empty());
    loop
        invariant
            total == text@.len(),
            start <= at <= total,
            chars.remaining() == text@.skip(at as int),
            after_cr == (start < at && text@[at - 1] == '\r'),
            lines_of(text@) == texts(lines@) + lines_after(
                text@.subrange(start as int, at as int),
                text@.skip(at as int),
            ),
        ensures
            at == total,
        decreases total - at,
    {
        let ghost pending = text@.subrange(start as int, at as int);
        let ghost rest = text@.skip(at as int);
        match chars.next() {
            None => {
                break ;
            },
            Some(c) => {
                assert(c == rest[0]);
                assert(rest.drop_first() =~= text@.skip(at + 1));
                if c == '\n' {
                    let end: usize = if after_cr {
                        at - 1
                    } else {
                        at
                    };
                    let line = text.substring_char(start, end).to_owned();
                    assert(line@ =~= without_cr(pending));
                    let ghost before = lines@;
                    lines.push(line);
                    assert(texts(lines@) =~= texts(before) + seq![without_cr(pending)]);
                    start = at + 1;
                    after_cr = false;
                    assert(text@.subrange(start as int, at + 1) =~= Seq::<char>::empty());
                } else {
                    after_cr = c == '\r';
                    assert(text@.subrange(start as int, at + 1) =~= pending.push(c));
                }
                at = at + 1;
            },
        }
    }
    if start < at {
        let line = text.substring_char(start, at).to_owned();
        let ghost before = lines@;
        lines.push(line);
        assert(texts(lines@) =~= texts(before) + seq![text@.subrange(start as int, at as int)]);
    }
    lines
}

} // verus!
