//! Date/time strings and the formats they are written in.
//!
//! A format is a pattern of letters as Java's `DateTimeFormatter` reads
//! them: `yyyy-MM-dd`, `HH:mm:ss.SSS`. The contract engine's own parser
//! decides whether a string is written in a format. That parser holds a
//! year in sixteen bits when it checks a day of the month against it, and
//! raises ten to the number of letters of a fraction of a second. It is
//! asked about every value and format but those on which one of the two
//! could go wrong; of those the library says nothing.

use vstd::prelude::*;
use vstd::string::StrSliceExecFns;
use crate::bindings::{date_time_parses, parses_as_date_time};

verus! {

/// A class of characters: one letter, or the ten digits.
#[derive(Clone, Copy, Debug)]
pub enum CharClass {
    Letter(char),
    Digit,
}

/// Whether `c` is of class `class`.
pub open spec fn in_class(class: CharClass, c: char) -> bool {
    match class {
        CharClass::Letter(letter) => c == letter,
        CharClass::Digit => 48 <= c as u32 && c as u32 <= 57,
    }
}

/// Whether `length` characters of class `class` stand in a row from place
/// `at` of `text` on.
pub open spec fn run_at(text: Seq<char>, class: CharClass, length: nat, at: int) -> bool {
    &&& 0 <= at
    &&& at + length <= text.len()
    &&& forall|k: int| at <= k < at + length ==> in_class(class, #[trigger] text[k])
}

/// Whether `length` characters of class `class` stand in a row somewhere in
/// `text`.
pub open spec fn has_run(text: Seq<char>, class: CharClass, length: nat) -> bool {
    exists|at: int| run_at(text, class, length, at)
}

/// Whether `format` asks for a year of five or more digits.
pub open spec fn long_year(format: Seq<char>) -> bool {
    ||| has_run(format, CharClass::Letter('y'), 5)
    ||| has_run(format, CharClass::Letter('Y'), 5)
    ||| has_run(format, CharClass::Letter('u'), 5)
}

/// The number that the `length` characters from place `at` of `text` on
/// write, read as decimal digits.
pub open spec fn number_at(text: Seq<char>, at: int, length: nat) -> int
    decreases length,
{
    if length == 0 {
        0
    } else {
        number_at(text, at, (length - 1) as nat) * 10 + (text[at + length - 1] as u32 - 48)
    }
}

/// Whether the `length` characters from place `at` of `text` on are digits
/// that write a number beyond sixteen bits.
pub open spec fn big_number_at(text: Seq<char>, at: int, length: nat) -> bool {
    run_at(text, CharClass::Digit, length, at) && number_at(text, at, length) > 32767
}

/// Whether digits in a row somewhere in `text` write a number beyond sixteen
/// bits.
pub open spec fn has_big_number(text: Seq<char>) -> bool {
    exists|at: int, length: nat| big_number_at(text, at, length)
}

/// Whether the parser could go wrong on `value` in `format`: the format asks
/// for a fraction of a second of ten or more digits; or it asks for a year of
/// five or more digits and for a day of the month, and the value holds digits
/// that could be read as a year beyond sixteen bits.
pub open spec fn beyond_parser(value: Seq<char>, format: Seq<char>) -> bool {
    ||| has_run(format, CharClass::Letter('S'), 10)
    ||| (long_year(format) && has_run(format, CharClass::Letter('d'), 1) && has_big_number(value))
}

/// What the library can say on whether `value` is a date or time written in
/// `format`: what the engine's parser says, where it can be asked, and
/// nothing where the two are beyond it.
pub open spec fn parser_says(value: Seq<char>, format: Seq<char>) -> Option<bool> {
    if beyond_parser(value, format) {
        None
    } else {
        Some(date_time_parses(value, format))
    }
}

/// Digits that write a number beyond sixteen bits are five or more.
pub proof fn lemma_big_number_is_long(text: Seq<char>, at: int, length: nat)
    requires
        run_at(text, CharClass::Digit, length, at),
    ensures
        length == 0 ==> number_at(text, at, length) == 0,
        length == 1 ==> number_at(text, at, length) <= 9,
        length == 2 ==> number_at(text, at, length) <= 99,
        length == 3 ==> number_at(text, at, length) <= 999,
        length == 4 ==> number_at(text, at, length) <= 9999,
        0 <= number_at(text, at, length),
    decreases length,
{
    if length > 0 {
        assert(in_class(CharClass::Digit, text[at + length - 1]));
        assert(run_at(text, CharClass::Digit, (length - 1) as nat, at));
        lemma_big_number_is_long(text, at, (length - 1) as nat);
    }
}

/// The parser is asked wherever it can be: on every value in a format that
/// asks for no fraction of a second of ten or more digits, and for no year of
/// five or more digits beside a day of the month; and in any other format
/// without such a fraction on a value without five digits in a row.
pub proof fn law_parser_is_asked_within_its_reach(value: Seq<char>, format: Seq<char>)
    ensures
        !has_run(format, CharClass::Letter('S'), 10) && (!long_year(format) || !has_run(
            format,
            CharClass::Letter('d'),
            1,
        ) || !has_run(value, CharClass::Digit, 5)) ==> parser_says(value, format) == Some(
            date_time_parses(value, format),
        ),
{
    if !has_run(value, CharClass::Digit, 5) {
        assert forall|at: int, length: nat| !big_number_at(value, at, length) by {
            if run_at(value, CharClass::Digit, length, at) {
                if length >= 5 {
                    assert(run_at(value, CharClass::Digit, 5, at));
                } else {
                    lemma_big_number_is_long(value, at, length);
                }
            }
        }
    }
}

/// Whether `c` is of class `class`.
pub fn is_in_class(class: CharClass, c: char) -> (r: bool)
    ensures
        r == in_class(class, c),
{
    match class {
        CharClass::Letter(letter) => c == letter,
        CharClass::Digit => {
            let code: u32 = c as u32;
            48 <= code && code <= 57
        },
    }
}

/// Whether `length` characters of class `class` stand in a row somewhere in
/// `text`.
pub fn contains_run(text: &str, class: CharClass, length: usize) -> (r: bool)
    ensures
        r == has_run(text@, class, length as nat),
{
    if length == 0 {
        assert(run_at(text@, class, 0, 0));
        return true;
    }
    let len = text.unicode_len();
    let mut i: usize = 0;
    let mut run: usize = 0;
    while i < len
        invariant
            len == text@.len(),
            i <= len,
            run <= i,
            run < length,
            forall|k: int| i - run <= k < i ==> in_class(class, #[trigger] text@[k]),
            run < i ==> !in_class(class, text@[i - run - 1]),
            forall|at: int| at + length <= i ==> !run_at(text@, class, length as nat, at),
        decreases len - i,
    {
        let ghost before = run;
        if is_in_class(class, text.get_char(i)) {
            run += 1;
            if run == length {
                assert(run_at(text@, class, length as nat, i + 1 - length));
                return true;
            }
        } else {
            run = 0;
        }
        assert forall|at: int| at + length <= i + 1 implies !run_at(text@, class, length as nat, at) by {
            if at + length == i + 1 && 0 <= at {
                if run == 0 {
                    assert(!in_class(class, text@[i as int]));
                } else {
                    assert(!in_class(class, text@[i - before - 1]));
                }
            }
        }
        i += 1;
    }
    false
}

/// Whether digits in a row somewhere in `text` write a number beyond sixteen
/// bits.
pub fn contains_big_number(text: &str) -> (r: bool)
    ensures
        r == has_big_number(text@),
{
    let len = text.unicode_len();
    let mut at: usize = 0;
    while at < len
        invariant
            len == text@.len(),
            at <= len,
            forall|start: int, length: nat| start < at ==> !big_number_at(text@, start, length),
        decreases len - at,
    {
        let mut end: usize = at;
        let mut number: u32 = 0;
        let mut digits: bool = true;
        while digits && end < len
            invariant
                len == text@.len(),
                at <= end <= len,
                number == number_at(text@, at as int, (end - at) as nat),
                run_at(text@, CharClass::Digit, (end - at) as nat, at as int),
                forall|length: nat| length <= end - at ==> number_at(text@, at as int, length) <= 32767,
                !digits ==> end < len && !in_class(CharClass::Digit, text@[end as int]),
            decreases len - end + if digits {
                    1int
                } else {
                    0int
                },
        {
            let c = text.get_char(end);
            if is_in_class(CharClass::Digit, c) {
                let digit: u32 = c as u32 - 48;
                let longer: u32 = number * 10 + digit;
                proof {
                    assert(run_at(text@, CharClass::Digit, (end + 1 - at) as nat, at as int));
                    assert(number_at(text@, at as int, (end + 1 - at) as nat) == longer);
                }
                if longer > 32767 {
                    assert(big_number_at(text@, at as int, (end + 1 - at) as nat));
                    return true;
                }
                number = longer;
                end += 1;
            } else {
                digits = false;
            }
        }
        assert forall|length: nat| !big_number_at(text@, at as int, length) by {
            if length > end - at && run_at(text@, CharClass::Digit, length, at as int) {
                assert(in_class(CharClass::Digit, text@[end as int]));
            }
        }
        at += 1;
    }
    assert forall|start: int, length: nat| !big_number_at(text@, start, length) by {
        if start >= len && run_at(text@, CharClass::Digit, length, start) {
            assert(length == 0);
        }
    }
    false
}

/// Whether the parser could go wrong on `value` in `format`.
pub fn is_beyond_parser(value: &str, format: &str) -> (r: bool)
    ensures
        r == beyond_parser(value@, format@),
{
    contains_run(format, CharClass::Letter('S'), 10) || ((contains_run(format, CharClass::Letter('y'), 5)
        || contains_run(format, CharClass::Letter('Y'), 5) || contains_run(
        format,
        CharClass::Letter('u'),
        5,
    )) && contains_run(format, CharClass::Letter('d'), 1) && contains_big_number(value))
}

/// Whether `value` is a date or time written in `format`, as the engine's
/// parser says it; `None` where the two are beyond the parser, so that the
/// question stays open.
pub fn is_date_time(value: &str, format: &str) -> (r: Option<bool>)
    ensures
        r == parser_says(value@, format@),
{
    if is_beyond_parser(value, format) {
        None
    } else {
        Some(parses_as_date_time(value, format))
    }
}

} // verus!
