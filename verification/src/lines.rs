//! Cutting the worker's output into lines.

use vstd::prelude::*;

verus! {

/// The line between `start` and the line feed at `end`, without the carriage
/// return that may stand before the line feed.
pub open spec fn line_text(text: Seq<char>, start: int, end: int) -> Seq<char> {
    if start < end && text[end - 1] == '\r' {
        text.subrange(start, end - 1)
    } else {
        text.subrange(start, end)
    }
}

/// The lines still to come when the scan stands at `at` and the current line
/// began at `start`. Every line feed ends a line; what follows the last line
/// feed is a line of its own unless it is empty.
pub open spec fn lines_from(text: Seq<char>, start: int, at: int) -> Seq<Seq<char>>
    decreases text.len() - at,
{
    if at >= text.len() {
        if start < text.len() {
            seq![text.subrange(start, text.len() as int)]
        } else {
            Seq::empty()
        }
    } else if text[at] == '\n' {
        seq![line_text(text, start, at)] + lines_from(text, at + 1, at + 1)
    } else {
        lines_from(text, start, at + 1)
    }
}

/// The lines of a text.
pub open spec fn lines_of(text: Seq<char>) -> Seq<Seq<char>> {
    lines_from(text, 0, 0)
}

/// Mathematical value of a list of lines.
pub open spec fn lines_view(lines: Vec<String>) -> Seq<Seq<char>> {
    Seq::new(lines@.len(), |i: int| lines@[i]@)
}

/// Cuts a text into its lines, without their line endings.
///
/// Characters are reached by position, so the time taken grows with the
/// square of the text's length.
pub fn split_lines(output: &str) -> (r: Vec<String>)
    ensures
        lines_view(r) == lines_of(output@),
{
    let length = output.unicode_len();
    let mut lines: Vec<String> = Vec::new();
    let mut start: usize = 0;
    let mut at: usize = 0;
    while at < length
        invariant
            length == output@.len(),
            start <= at <= length,
            lines_of(output@) == lines_view(lines) + lines_from(output@, start as int, at as int),
        decreases length - at,
    {
        if output.get_char(at) == '\n' {
            let end = if start < at && output.get_char(at - 1) == '\r' {
                at - 1
            } else {
                at
            };
            let ghost before = lines_view(lines);
            lines.push(output.substring_char(start, end).to_owned());
            proof {
                assert(lines_view(lines) =~= before + seq![line_text(output@, start as int, at as int)]);
                assert(before + (seq![line_text(output@, start as int, at as int)] + lines_from(
                    output@,
                    at + 1,
                    at + 1,
                )) =~= lines_view(lines) + lines_from(output@, at + 1, at + 1));
            }
            start = at + 1;
        }
        at += 1;
    }
    if start < length {
        let ghost before = lines_view(lines);
        lines.push(output.substring_char(start, length).to_owned());
        proof {
            assert(lines_view(lines) =~= before + seq![output@.subrange(start as int, length as int)]);
        }
    } else {
        proof {
            assert(lines_view(lines) + Seq::<Seq<char>>::empty() =~= lines_view(lines));
        }
    }
    lines
}

} // verus!
