//! The board text format: rows of single characters, one row per line.

use vstd::prelude::*;
use vstd::std_specs::iter::IteratorSpec;

use crate::grid::rows_of;

verus! {

/// How many characters stand before the first line feed of `text`; the length
/// of `text` where it holds none.
pub open spec fn first_break(text: Seq<char>) -> nat
    decreases text.len(),
{
    if text.len() == 0 || text[0] == '\n' {
        0
    } else {
        1 + first_break(text.drop_first())
    }
}

/// A line without the carriage return that closed it, if one did.
pub open spec fn without_return(line: Seq<char>) -> Seq<char> {
    if line.len() > 0 && line.last() == '\r' {
        line.drop_last()
    } else {
        line
    }
}

/// The rows of a board text. Each line feed ends a row, and a carriage return
/// directly before it belongs to the line ending. Text after the last line
/// feed is a row of its own, kept as it stands; nothing after it is no row.
pub open spec fn board_rows(text: Seq<char>) -> Seq<Seq<char>>
    decreases text.len(),
{
    if text.len() == 0 {
        Seq::empty()
    } else {
        let end = first_break(text) as int;
        if end >= text.len() {
            seq![text]
        } else {
            seq![without_return(text.take(end))] + board_rows(text.skip(end + 1))
        }
    }
}

/// A position is the first break when a line feed (or the end) stands there
/// and none stands before it.
pub proof fn lemma_first_break(text: Seq<char>, end: int)
    requires
        0 <= end <= text.len(),
        forall|k: int| 0 <= k < end ==> text[k] != '\n',
        end == text.len() || text[end] == '\n',
    ensures
        first_break(text) == end,
    decreases end,
{
    if end > 0 {
        lemma_first_break(text.drop_first(), end - 1);
    }
}

/// The characters of `text`, in order.
pub fn chars_of(text: &str) -> (chars: Vec<char>)
    ensures
        chars@ == text@,
{
    broadcast use vstd::string::group_string_axioms;

    let mut chars: Vec<char> = Vec::new();
    let mut rest = text.chars();
    loop
        invariant
            rest.obeys_prophetic_iter_laws(),
            chars@ + rest.remaining() == text@,
        decreases text@.len() - chars@.len(),
    {
        let ghost before = rest.remaining();
        match rest.next() {
            Some(c) => {
                chars.push(c);
            },
            None => {
                return chars;
            },
        }
    }
}

/// Splits a board text into its rows.
pub fn split_rows(text: &str) -> (rows: Vec<Vec<char>>)
    ensures
        rows_of(rows@) == board_rows(text@),
{
    let chars = chars_of(text);
    let mut rows: Vec<Vec<char>> = Vec::new();
    let mut line: Vec<char> = Vec::new();
    let ghost mut start: int = 0;
    let mut at: usize = 0;
    proof {
        assert(chars@.skip(0) =~= chars@);
    }
    while at < chars.len()
        invariant
            chars@ == text@,
            0 <= start <= at <= chars.len(),
            line@ == chars@.subrange(start, at as int),
            forall|k: int| start <= k < at ==> chars@[k] != '\n',
            board_rows(chars@) == rows_of(rows@) + board_rows(chars@.skip(start)),
        decreases chars.len() - at,
    {
        let c = chars[at];
        if c == '\n' {
            let ghost tail = chars@.skip(start);
            let ghost whole = line@;
            if line.len() > 0 && line[line.len() - 1] == '\r' {
                line.pop();
            }
            proof {
                lemma_first_break(tail, at - start);
                assert(tail.take(at - start) =~= whole);
                assert(tail.skip(at - start + 1) =~= chars@.skip(at + 1));
            }
            rows.push(line);
            line = Vec::new();
            proof {
                start = at + 1;
            }
        } else {
            line.push(c);
        }
        at += 1;
    }
    if line.len() > 0 {
        proof {
            let tail = chars@.skip(start);
            lemma_first_break(tail, tail.len() as int);
        }
        rows.push(line);
    } else {
    }
    rows
}

} // verus!
