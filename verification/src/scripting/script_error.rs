//! Errors of a script, with the place in the script that they point at.

use vstd::prelude::*;
use vstd::string::*;
use crate::text::{chars_of, find_from, first_occurrence};

verus! {

/// An error that the script engine reported.
#[derive(Debug)]
pub struct ScriptError {
    pub message: String,
    /// The line that the message points at, or -1.
    pub line: i32,
    /// The column that the message points at, or -1.
    pub col: i32,
}

/// Whether `c` is one of the digits `0` to `9`.
pub open spec fn is_digit(c: char) -> bool {
    48 <= c as u32 <= 57
}

/// The end of the run of digits that starts at `from`.
pub open spec fn digits_end(s: Seq<char>, from: int) -> int
    decreases s.len() - from,
{
    if from < 0 || from >= s.len() || !is_digit(s[from]) {
        from
    } else {
        digits_end(s, from + 1)
    }
}

/// The number that the digits `s[from..to]` spell.
pub open spec fn digits_value(s: Seq<char>, from: int, to: int) -> nat
    decreases to - from,
{
    if to <= from {
        0
    } else {
        (digits_value(s, from, to - 1) * 10 + (s[to - 1] as u32 - 48)) as nat
    }
}

/// The number spelled by the run of digits that starts at `from`, with the
/// index at which the run ends. `None` where no digit stands at `from`, or
/// where the number does not fit in 32 bits.
pub open spec fn number_at(s: Seq<char>, from: int) -> Option<(u32, int)> {
    let end = digits_end(s, from);
    if end <= from || digits_value(s, from, end) > u32::MAX {
        None
    } else {
        Some((digits_value(s, from, end) as u32, end))
    }
}

/// The 32-bit number read as a signed number.
pub open spec fn as_signed(v: u32) -> i32 {
    if v <= i32::MAX {
        v as i32
    } else {
        (v - 0x1_0000_0000) as i32
    }
}

/// The position that the message of a syntax error gives: the number after
/// the first `at line `, and the number after the next `col `.
pub open spec fn syntax_position(s: Seq<char>) -> Option<(i32, i32)> {
    match first_occurrence(s, "at line "@, 0) {
        Some(i) => match number_at(s, i + "at line "@.len()) {
            Some((line, rest)) => match first_occurrence(s, "col "@, rest) {
                Some(j) => match number_at(s, j + "col "@.len()) {
                    Some((col, _)) => Some((as_signed(line), as_signed(col))),
                    None => None,
                },
                None => None,
            },
            None => None,
        },
        None => None,
    }
}

/// The position that a backtrace entry gives, if one starts at index `i`:
/// a colon, the line, a colon, the column and a closing bracket.
pub open spec fn backtrace_at(s: Seq<char>, i: int) -> Option<(i32, i32)> {
    if 0 <= i < s.len() && s[i] == ':' {
        match number_at(s, i + 1) {
            Some((line, colon)) => if colon < s.len() && s[colon] == ':' {
                match number_at(s, colon + 1) {
                    Some((col, bracket)) => if bracket < s.len() && s[bracket] == ')' {
                        Some((as_signed(line), as_signed(col)))
                    } else {
                        None
                    },
                    None => None,
                }
            } else {
                None
            },
            None => None,
        }
    } else {
        None
    }
}

/// The position of the first backtrace entry that starts at or after `from`.
pub open spec fn backtrace_position(s: Seq<char>, from: int) -> Option<(i32, i32)>
    decreases s.len() - from,
{
    if from < 0 || from >= s.len() {
        None
    } else {
        match backtrace_at(s, from) {
            Some(position) => Some(position),
            None => backtrace_position(s, from + 1),
        }
    }
}

/// The line and column that a message points at: those of a syntax error
/// where the message has that form, else those of its first backtrace
/// entry, else `(-1, -1)`.
pub open spec fn position_in(s: Seq<char>) -> (i32, i32) {
    match syntax_position(s) {
        Some(position) => position,
        None => match backtrace_position(s, 0) {
            Some(position) => position,
            None => (-1i32, -1i32),
        },
    }
}

/// Extending a run of digits by one digit multiplies the number by ten and
/// adds the digit; the number never shrinks.
proof fn lemma_digits_grow(s: Seq<char>, from: int, to: int)
    requires
        0 <= from <= to < s.len(),
        is_digit(s[to]),
    ensures
        digits_value(s, from, to + 1) == digits_value(s, from, to) * 10 + (s[to] as u32 - 48),
        digits_value(s, from, to + 1) >= digits_value(s, from, to),
{
}

fn number_from(s: &Vec<char>, from: usize) -> (r: Option<(u32, usize)>)
    requires
        from <= s@.len(),
    ensures
        match r {
            Some((v, end)) => number_at(s@, from as int) == Some((v, end as int)) && from < end
                <= s@.len(),
            None => number_at(s@, from as int) is None,
        },
{
    let mut end: usize = from;
    let mut value: u64 = 0;
    let mut too_large: bool = false;
    while end < s.len() && 48 <= s[end] as u32 && s[end] as u32 <= 57
        invariant
            from <= end <= s@.len(),
            digits_end(s@, from as int) == digits_end(s@, end as int),
            !too_large ==> value == digits_value(s@, from as int, end as int) && value <= u32::MAX,
            too_large ==> digits_value(s@, from as int, end as int) > u32::MAX,
        decreases s@.len() - end,
    {
        proof {
            lemma_digits_grow(s@, from as int, end as int);
        }
        if !too_large {
            value = value * 10 + (s[end] as u32 - 48) as u64;
            if value > 0xffff_ffff {
                too_large = true;
            }
        }
        end += 1;
    }
    if end == from || too_large {
        None
    } else {
        Some((value as u32, end))
    }
}

fn signed(v: u32) -> (r: i32)
    ensures
        r == as_signed(v),
{
    if v <= 0x7fff_ffff {
        v as i32
    } else {
        (v as i64 - 0x1_0000_0000) as i32
    }
}

fn syntax_position_in(s: &Vec<char>) -> (r: Option<(i32, i32)>)
    ensures
        r == syntax_position(s@),
{
    let at_line = chars_of("at line ");
    let col_word = chars_of("col ");
    let i = match find_from(s, &at_line, 0) {
        Some(i) => i,
        None => {
            return None;
        },
    };
    let len: usize = s.len();
    let (line, rest) = match number_from(s, i + at_line.len()) {
        Some(found) => found,
        None => {
            return None;
        },
    };
    let j = match find_from(s, &col_word, rest) {
        Some(j) => j,
        None => {
            return None;
        },
    };
    match number_from(s, j + col_word.len()) {
        Some((col, _)) => Some((signed(line), signed(col))),
        None => None,
    }
}

fn backtrace_position_at(s: &Vec<char>, i: usize) -> (r: Option<(i32, i32)>)
    requires
        i < s@.len(),
    ensures
        r == backtrace_at(s@, i as int),
{
    let len: usize = s.len();
    if s[i] != ':' {
        return None;
    }
    let (line, colon) = match number_from(s, i + 1) {
        Some(found) => found,
        None => {
            return None;
        },
    };
    if colon >= s.len() || s[colon] != ':' {
        return None;
    }
    let (col, bracket) = match number_from(s, colon + 1) {
        Some(found) => found,
        None => {
            return None;
        },
    };
    if bracket >= s.len() || s[bracket] != ')' {
        return None;
    }
    Some((signed(line), signed(col)))
}

/// Reads the line and column out of an error message of the script engine.
/// A syntax error names them as `at line 4, col 9`; a run-time error has a
/// backtrace whose entries end in `:8:27)`. Returns `(-1, -1)` where the
/// message has neither.
pub fn parse_position(s: &str) -> (r: (i32, i32))
    ensures
        r == position_in(s@),
{
    let chars = chars_of(s);
    match syntax_position_in(&chars) {
        Some(position) => {
            return position;
        },
        None => {},
    }
    let mut i: usize = 0;
    while i < chars.len()
        invariant
            i <= chars@.len(),
            chars@ == s@,
            syntax_position(chars@) is None,
            backtrace_position(chars@, 0) == backtrace_position(chars@, i as int),
        decreases chars@.len() - i,
    {
        match backtrace_position_at(&chars, i) {
            Some(position) => {
                return position;
            },
            None => {},
        }
        i += 1;
    }
    (-1, -1)
}

/// Reads the number that `s` starts with. Returns it with the rest of the
/// text, or `None` where `s` starts with no digit or the number does not
/// fit in 32 bits.
pub fn parse_u32<'a>(s: &'a str) -> (r: Option<(u32, &'a str)>)
    ensures
        match r {
            Some((v, rest)) => number_at(s@, 0) matches Some((value, end)) && value == v && rest@
                == s@.subrange(end, s@.len() as int),
            None => number_at(s@, 0) is None,
        },
{
    let chars = chars_of(s);
    match number_from(&chars, 0) {
        Some((v, end)) => Some((v, s.substring_char(end, chars.len()))),
        None => None,
    }
}

impl ScriptError {
    /// The error with the given message, and the position that the message
    /// points at.
    pub fn from_message(message: String) -> (r: Self)
        ensures
            r.message == message,
            (r.line, r.col) == position_in(message@),
    {
        let (line, col) = parse_position(message.as_str());
        Self { message, line, col }
    }

    /// The message of the error.
    pub fn to_string(&self) -> (r: String)
        ensures
            r@ == self.message@,
    {
        self.message.clone()
    }
}

} // verus!
