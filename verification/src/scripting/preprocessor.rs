//! Marking the lines of a script that give commands.
//!
//! Before a script runs, a call `__line(N);` is put in front of the first
//! command call of each line, `N` being the number of the line, so that the
//! engine reports where each command came from.

use vstd::prelude::*;
use vstd::string::*;
use vstd::utf8::encode_utf8;
use crate::text::{chars_of, decimal, decimal_chars, matches_at, occurs_at, push_all, string_of};

verus! {

/// Whether the name of a command function stands in `line` at index `i`.
pub open spec fn command_at(line: Seq<char>, i: int) -> bool {
    ||| occurs_at(line, "step_up"@, i)
    ||| occurs_at(line, "step_down"@, i)
    ||| occurs_at(line, "step_right"@, i)
    ||| occurs_at(line, "step_left"@, i)
}

/// The first index at or after `from` at which a command name stands in
/// `line`.
pub open spec fn first_command(line: Seq<char>, from: int) -> Option<int>
    decreases line.len() - from,
{
    if from < 0 || from >= line.len() {
        None
    } else if command_at(line, from) {
        Some(from)
    } else {
        first_command(line, from + 1)
    }
}

/// The line with the marker of line `number` put in front of its first
/// command call; the line itself where it calls no command.
pub open spec fn instrumented_line(line: Seq<char>, number: nat) -> Seq<char> {
    match first_command(line, 0) {
        Some(p) => line.subrange(0, p) + "__line("@ + decimal(number) + ");"@ + line.subrange(
            p,
            line.len() as int,
        ),
        None => line,
    }
}

/// The index of the first line feed at or after `from`, or the length of the
/// text where there is none.
pub open spec fn newline_from(text: Seq<char>, from: int) -> int
    decreases text.len() - from,
{
    if from < 0 || from >= text.len() {
        text.len() as int
    } else if text[from] == '\n' {
        from
    } else {
        newline_from(text, from + 1)
    }
}

/// The line that starts at index `start`, without its line ending: a line
/// feed, or a carriage return and a line feed.
pub open spec fn line_at(text: Seq<char>, start: int) -> Seq<char> {
    let end = newline_from(text, start);
    if end < text.len() && start < end && text[end - 1] == '\r' {
        text.subrange(start, end - 1)
    } else {
        text.subrange(start, end)
    }
}

/// The instrumented lines of the text from index `start` on, each followed
/// by a line feed; the line at `start` has the number `number`.
pub open spec fn instrumented_from(text: Seq<char>, start: int, number: nat) -> Seq<char>
    decreases text.len() + 1 - start,
    via instrumented_from_decreases
{
    if start < 0 || start >= text.len() {
        Seq::empty()
    } else {
        instrumented_line(line_at(text, start), number) + seq!['\n'] + instrumented_from(
            text,
            newline_from(text, start) + 1,
            number + 1,
        )
    }
}

#[via_fn]
proof fn instrumented_from_decreases(text: Seq<char>, start: int, number: nat) {
    if 0 <= start < text.len() {
        lemma_newline_bounds(text, start);
    }
}

/// The instrumented script: every line of `code`, numbered from 1, with its
/// marker where it calls a command, and a line feed after each line.
pub open spec fn instrumented(code: Seq<char>) -> Seq<char> {
    instrumented_from(code, 0, 1)
}

/// The line feed found from `from` on lies at or after `from`.
proof fn lemma_newline_bounds(text: Seq<char>, from: int)
    requires
        0 <= from <= text.len(),
    ensures
        from <= newline_from(text, from) <= text.len(),
    decreases text.len() - from,
{
    if from < text.len() && text[from] != '\n' {
        lemma_newline_bounds(text, from + 1);
    }
}

fn first_command_in(line: &Vec<char>) -> (r: Option<usize>)
    ensures
        match r {
            Some(p) => first_command(line@, 0) == Some(p as int) && p < line@.len(),
            None => first_command(line@, 0) is None,
        },
{
    let up = chars_of("step_up");
    let down = chars_of("step_down");
    let right = chars_of("step_right");
    let left = chars_of("step_left");
    let mut i: usize = 0;
    while i < line.len()
        invariant
            i <= line@.len(),
            up@ == "step_up"@,
            down@ == "step_down"@,
            right@ == "step_right"@,
            left@ == "step_left"@,
            first_command(line@, 0) == first_command(line@, i as int),
        decreases line@.len() - i,
    {
        if matches_at(line, &up, i) || matches_at(line, &down, i) || matches_at(line, &right, i)
            || matches_at(line, &left, i) {
            return Some(i);
        }
        i += 1;
    }
    None
}

/// Whether the line calls a command function.
pub fn contains_command_call(line: &str) -> (r: bool)
    ensures
        r == (first_command(line@, 0) is Some),
{
    let chars = chars_of(line);
    first_command_in(&chars).is_some()
}

/// The number of bytes that the first `p` characters of `line` take in the
/// line's UTF-8 text: the byte index of character `p`.
pub open spec fn byte_offset(line: Seq<char>, p: int) -> nat {
    encode_utf8(line.subrange(0, p)).len()
}

/// The byte index of the first command call of the line: the place where the
/// line's marker goes.
pub fn find_command_insert_position(line: &str) -> (r: Option<usize>)
    ensures
        match r {
            Some(b) => first_command(line@, 0) matches Some(p) && b == byte_offset(line@, p),
            None => first_command(line@, 0) is None,
        },
{
    let chars = chars_of(line);
    match first_command_in(&chars) {
        Some(p) => Some(line.substring_char(0, p).as_bytes().len()),
        None => None,
    }
}

/// Puts a call `__line(N);` in front of the first command call of each line
/// of `code`, `N` being the number of the line, counted from 1. Every line
/// of the result ends with a line feed.
pub fn instrument_code(code: &str) -> (r: String)
    ensures
        r@ == instrumented(code@),
{
    let text = chars_of(code);
    let opening = chars_of("__line(");
    let closing = chars_of(");");
    let mut out: Vec<char> = Vec::new();
    let mut start: usize = 0;
    let mut number: u128 = 1;
    while start < text.len()
        invariant
            start <= text@.len(),
            number <= start + 1,
            opening@ == "__line("@,
            closing@ == ");"@,
            out@ + instrumented_from(text@, start as int, number as nat) == instrumented(text@),
        decreases text@.len() - start,
    {
        let mut end: usize = start;
        while end < text.len() && text[end] != '\n'
            invariant
                start <= end <= text@.len(),
                newline_from(text@, start as int) == newline_from(text@, end as int),
            decreases text@.len() - end,
        {
            end += 1;
        }
        let mut stop: usize = end;
        if end < text.len() && start < end && text[end - 1] == '\r' {
            stop = end - 1;
        }
        let mut line: Vec<char> = Vec::new();
        let mut k: usize = start;
        while k < stop
            invariant
                start <= k <= stop <= text@.len(),
                line@ == text@.subrange(start as int, k as int),
            decreases stop - k,
        {
            line.push(text[k]);
            k += 1;
            assert(line@ =~= text@.subrange(start as int, k as int));
        }
        assert(line@ == line_at(text@, start as int));
        let ghost before = out@;
        match first_command_in(&line) {
            Some(p) => {
                let mut j: usize = 0;
                while j < p
                    invariant
                        j <= p < line@.len(),
                        out@ == before + line@.subrange(0, j as int),
                    decreases p - j,
                {
                    out.push(line[j]);
                    j += 1;
                    assert(out@ =~= before + line@.subrange(0, j as int));
                }
                push_all(&mut out, &opening);
                let numeral = decimal_chars(number);
                push_all(&mut out, &numeral);
                push_all(&mut out, &closing);
                let ghost head = out@;
                while j < line.len()
                    invariant
                        p <= j <= line@.len(),
                        out@ == head + line@.subrange(p as int, j as int),
                    decreases line@.len() - j,
                {
                    out.push(line[j]);
                    j += 1;
                    assert(out@ =~= head + line@.subrange(p as int, j as int));
                }
                assert(out@ =~= before + instrumented_line(line@, number as nat));
            },
            None => {
                push_all(&mut out, &line);
            },
        }
        out.push('\n');
        proof {
            assert(out@ =~= before + (instrumented_line(line@, number as nat) + seq!['\n']));
            lemma_newline_bounds(text@, start as int);
            assert(before + (instrumented_line(line@, number as nat) + seq!['\n'])
                + instrumented_from(text@, end + 1, (number + 1) as nat) =~= before + (
            instrumented_line(line@, number as nat) + seq!['\n'] + instrumented_from(
                text@,
                end + 1,
                (number + 1) as nat,
            )));
        }
        if end < text.len() {
            start = end + 1;
        } else {
            start = end;
        }
        number = number + 1;
    }
    assert(out@ =~= instrumented(text@));
    string_of(&out)
}

} // verus!
