use crate::game::Move;
use vstd::prelude::*;
use vstd::string::StrSliceExecFns;
use vstd::utf8::is_ascii_chars;

verus! {

/// Text that does not name a move.
#[derive(Debug, Clone, PartialEq, Eq)]
pub struct InvalidMove(pub String);

pub open spec fn row_of(c: char) -> Option<usize> {
    if c == '1' {
        Some(0usize)
    } else if c == '2' {
        Some(1usize)
    } else if c == '3' {
        Some(2usize)
    } else {
        None
    }
}

pub open spec fn col_of(c: char) -> Option<usize> {
    if c == 'A' || c == 'a' {
        Some(0usize)
    } else if c == 'B' || c == 'b' {
        Some(1usize)
    } else if c == 'C' || c == 'c' {
        Some(2usize)
    } else {
        None
    }
}

pub open spec fn digit_of(c: char) -> Option<usize> {
    if '0' <= c <= '9' {
        Some((c as u32 - '0' as u32) as usize)
    } else {
        None
    }
}

/// A move written as row digit (1-3), column letter (A-C, either case) and
/// size digit, as in "1A1". The error carries the whole text, or only the
/// column letter when that is what is wrong.
pub open spec fn parse_spec(s: Seq<char>) -> Result<Move, Seq<char>> {
    if !(s.len() == 3 && is_ascii_chars(s)) {
        Err(s)
    } else if row_of(s[0]) is None {
        Err(s)
    } else if col_of(s[1]) is None {
        Err(seq![s[1]])
    } else if digit_of(s[2]) is None {
        Err(s)
    } else {
        Ok((row_of(s[0]).unwrap(), col_of(s[1]).unwrap(), digit_of(s[2]).unwrap()))
    }
}

pub open spec fn parse_view(r: Result<Move, InvalidMove>) -> Result<Move, Seq<char>> {
    match r {
        Ok(m) => Ok(m),
        Err(e) => Err(e.0@),
    }
}

fn row_digit(c: char) -> (r: Option<usize>)
    ensures
        r == row_of(c),
{
    match c {
        '1' => Some(0),
        '2' => Some(1),
        '3' => Some(2),
        _ => None,
    }
}

fn col_letter(c: char) -> (r: Option<usize>)
    ensures
        r == col_of(c),
{
    match c {
        'A' | 'a' => Some(0),
        'B' | 'b' => Some(1),
        'C' | 'c' => Some(2),
        _ => None,
    }
}

fn size_digit(c: char) -> (r: Option<usize>)
    ensures
        r == digit_of(c),
{
    match c {
        '0' => Some(0),
        '1' => Some(1),
        '2' => Some(2),
        '3' => Some(3),
        '4' => Some(4),
        '5' => Some(5),
        '6' => Some(6),
        '7' => Some(7),
        '8' => Some(8),
        '9' => Some(9),
        _ => None,
    }
}

/// Reads a move such as "1A1" (row, column, size) into 0-based coordinates.
pub fn parse_move(input: &str) -> (r: Result<Move, InvalidMove>)
    ensures
        parse_view(r) == parse_spec(input@),
{
    if input.unicode_len() != 3 || !input.is_ascii() {
        return Err(InvalidMove(input.to_owned()));
    }
    let row = match row_digit(input.get_char(0)) {
        Some(x) => x,
        None => {
            return Err(InvalidMove(input.to_owned()));
        },
    };
    let col = match col_letter(input.get_char(1)) {
        Some(x) => x,
        None => {
            let invalid = input.substring_ascii(1, 2);
            assert(invalid@ =~= seq![input@[1]]);
            return Err(InvalidMove(invalid.to_owned()));
        },
    };
    let size = match size_digit(input.get_char(2)) {
        Some(x) => x,
        None => {
            return Err(InvalidMove(input.to_owned()));
        },
    };
    Ok((row, col, size))
}

} // verus!
