//! From what a player typed to a cell of the board: which lines are
//! accepted, how a number is read, and how a row and a column counted
//! from one become coordinates counted from zero.

use vstd::prelude::*;
use vstd::string::StrSliceExecFns;

verus! {

/// Why a text is not a number.
#[derive(Clone, Copy, PartialEq, Eq, Structural, Debug)]
pub enum ParseError {
    /// The text is empty.
    Empty,
    /// A character is not a decimal digit, or no digit follows the sign.
    InvalidDigit,
    /// The number does not fit in a `usize`.
    Overflow,
}

/// One of the ten decimal digits.
pub open spec fn is_digit(c: char) -> bool {
    '0' <= c && c <= '9'
}

/// The value of a decimal digit.
pub open spec fn digit_value(c: char) -> nat {
    (c as u32 - '0' as u32) as nat
}

/// The number that a string of decimal digits writes.
pub open spec fn decimal(digits: Seq<char>) -> nat
    decreases digits.len(),
{
    if digits.len() == 0 {
        0
    } else {
        10 * decimal(digits.drop_last()) + digit_value(digits.last())
    }
}

/// Reading digits from the left: the first character that is no digit, or
/// the first digit with which the number grows beyond `usize`, ends the
/// reading with its error.
pub open spec fn scan(digits: Seq<char>) -> Result<usize, ParseError>
    decreases digits.len(),
{
    if digits.len() == 0 {
        Ok(0)
    } else {
        match scan(digits.drop_last()) {
            Err(error) => Err(error),
            Ok(value) => if !is_digit(digits.last()) {
                Err(ParseError::InvalidDigit)
            } else if 10 * value + digit_value(digits.last()) > usize::MAX {
                Err(ParseError::Overflow)
            } else {
                Ok((10 * value + digit_value(digits.last())) as usize)
            },
        }
    }
}

/// The text without a leading plus sign.
pub open spec fn unsigned_part(text: Seq<char>) -> Seq<char> {
    if text.len() > 0 && text[0] == '+' {
        text.skip(1)
    } else {
        text
    }
}

/// What a text reads as: a number is an optional plus sign and then one or
/// more decimal digits, with nothing before, between or after them.
pub open spec fn parse_spec(text: Seq<char>) -> Result<usize, ParseError> {
    if text.len() == 0 {
        Err(ParseError::Empty)
    } else if unsigned_part(text).len() == 0 {
        Err(ParseError::InvalidDigit)
    } else {
        scan(unsigned_part(text))
    }
}

/// An error in a prefix of the digits is the error of the whole.
proof fn lemma_scan_error_stays(digits: Seq<char>, n: int)
    requires
        0 <= n <= digits.len(),
        scan(digits.take(n)) is Err,
    ensures
        scan(digits) == scan(digits.take(n)),
    decreases digits.len(),
{
    if n < digits.len() {
        assert(digits.drop_last().take(n) == digits.take(n));
        lemma_scan_error_stays(digits.drop_last(), n);
    } else {
        assert(digits.take(n) == digits);
    }
}

/// Reads a number written in decimal digits, with or without a plus sign.
pub fn parse_number(text: &str) -> (result: Result<usize, ParseError>)
    ensures
        result == parse_spec(text@),
{
    let len = text.unicode_len();
    if len == 0 {
        return Err(ParseError::Empty);
    }
    let start: usize = if text.get_char(0) == '+' {
        1
    } else {
        0
    };
    if start == len {
        assert(unsigned_part(text@).len() == 0);
        return Err(ParseError::InvalidDigit);
    }
    let ghost digits = unsigned_part(text@);
    let mut value: usize = 0;
    let mut i: usize = start;
    assert(digits.take(0) == Seq::<char>::empty());
    while i < len
        invariant
            start <= i <= len,
            len == text@.len(),
            digits == unsigned_part(text@),
            digits.len() == len - start,
            forall|j: int| 0 <= j < digits.len() ==> digits[j] == text@[start + j],
            scan(digits.take(i - start)) == Ok::<usize, ParseError>(value),
        decreases len - i,
    {
        let c = text.get_char(i);
        let ghost read = digits.take(i - start + 1);
        proof {
            assert(read.drop_last() == digits.take(i - start));
            assert(read.last() == c);
        }
        if !(c >= '0' && c <= '9') {
            proof {
                lemma_scan_error_stays(digits, i - start + 1);
            }
            return Err(ParseError::InvalidDigit);
        }
        let digit = (c as u32 - '0' as u32) as usize;
        let next = match value.checked_mul(10) {
            Some(tens) => tens.checked_add(digit),
            None => None,
        };
        match next {
            Some(sum) => {
                value = sum;
            },
            None => {
                proof {
                    lemma_scan_error_stays(digits, i - start + 1);
                }
                return Err(ParseError::Overflow);
            },
        }
        i += 1;
    }
    assert(digits.take(len - start) == digits);
    Ok(value)
}

/// The lines that are accepted as a row or a column: "1", "2" and "3".
pub open spec fn is_valid_text(text: Seq<char>) -> bool {
    text == "1"@ || text == "2"@ || text == "3"@
}

/// Whether a line that a player typed names a row or a column.
pub fn is_valid_input(line: &str) -> (valid: bool)
    ensures
        valid == is_valid_text(line@),
{
    proof {
        reveal_strlit("1");
        reveal_strlit("2");
        reveal_strlit("3");
    }
    if line.unicode_len() != 1 {
        return false;
    }
    let c = line.get_char(0);
    proof {
        if c == '1' {
            assert(line@ =~= "1"@);
        }
        if c == '2' {
            assert(line@ =~= "2"@);
        }
        if c == '3' {
            assert(line@ =~= "3"@);
        }
    }
    c == '1' || c == '2' || c == '3'
}

/// Reads the row and the column as numbers, the row first: the first text
/// that is no number gives its error.
pub fn parse_row_and_column_strings(input: (String, String)) -> (result: Result<
    (usize, usize),
    ParseError,
>)
    ensures
        result == match (parse_spec(input.0@), parse_spec(input.1@)) {
            (Err(error), _) => Err::<(usize, usize), ParseError>(error),
            (Ok(_), Err(error)) => Err(error),
            (Ok(row), Ok(column)) => Ok((row, column)),
        },
{
    let row = match parse_number(input.0.as_str()) {
        Ok(row) => row,
        Err(error) => {
            return Err(error);
        },
    };
    let column = match parse_number(input.1.as_str()) {
        Ok(column) => column,
        Err(error) => {
            return Err(error);
        },
    };
    Ok((row, column))
}

/// The coordinate, counted from zero, that a text names by a number from
/// 1 to 3; none where the text is no number or the number is out of range.
pub open spec fn coordinate(text: Seq<char>) -> Option<usize> {
    match parse_spec(text) {
        Ok(number) => if 1 <= number <= 3 {
            Some((number - 1) as usize)
        } else {
            None
        },
        Err(_) => None,
    }
}

/// The cell that a typed row and column name: both are read as numbers
/// from 1 to 3 and counted down to coordinates from 0 to 2. Anything else
/// is refused.
pub fn get_row_and_column(strings: (String, String)) -> (result: Result<(usize, usize), ()>)
    ensures
        result == match (coordinate(strings.0@), coordinate(strings.1@)) {
            (Some(row), Some(column)) => Ok::<(usize, usize), ()>((row, column)),
            _ => Err(()),
        },
        result is Ok ==> result->Ok_0.0 < 3 && result->Ok_0.1 < 3,
{
    let numbers = match parse_row_and_column_strings(strings) {
        Ok(numbers) => numbers,
        Err(_) => {
            return Err(());
        },
    };
    if numbers.0 < 1 || numbers.0 > 3 || numbers.1 < 1 || numbers.1 > 3 {
        return Err(());
    }
    Ok((numbers.0 - 1, numbers.1 - 1))
}

/// Every character of the text is a decimal digit.
pub open spec fn all_digits(digits: Seq<char>) -> bool {
    forall|i: int| 0 <= i < digits.len() ==> is_digit(#[trigger] digits[i])
}

/// Digits are read as the number they write: the reading succeeds exactly
/// when every character is a digit and the number fits in a `usize`, and
/// then gives that number.
pub proof fn lemma_scan_reads_decimal(digits: Seq<char>)
    ensures
        scan(digits) is Ok <==> all_digits(digits) && decimal(digits) <= usize::MAX,
        scan(digits) is Ok ==> scan(digits)->Ok_0 == decimal(digits),
    decreases digits.len(),
{
    if digits.len() > 0 {
        let front = digits.drop_last();
        lemma_scan_reads_decimal(front);
        if all_digits(digits) {
            assert forall|i: int| 0 <= i < front.len() implies is_digit(#[trigger] front[i]) by {
                assert(front[i] == digits[i]);
            }
            assert(is_digit(digits[digits.len() - 1]));
        }
        if scan(digits) is Ok {
            assert forall|i: int| 0 <= i < digits.len() implies is_digit(#[trigger] digits[i]) by {
                if i < front.len() {
                    assert(digits[i] == front[i]);
                }
            }
        }
    }
}

/// Every accepted line names a cell: "1", "2" and "3" are read as the
/// numbers 1, 2 and 3 and give the coordinates 0, 1 and 2.
pub proof fn lemma_valid_input_is_a_coordinate(text: Seq<char>)
    requires
        is_valid_text(text),
    ensures
        text == "1"@ ==> parse_spec(text) == Ok::<usize, ParseError>(1) && coordinate(text) == Some(
            0usize,
        ),
        text == "2"@ ==> parse_spec(text) == Ok::<usize, ParseError>(2) && coordinate(text) == Some(
            1usize,
        ),
        text == "3"@ ==> parse_spec(text) == Ok::<usize, ParseError>(3) && coordinate(text) == Some(
            2usize,
        ),
{
    reveal_strlit("1");
    reveal_strlit("2");
    reveal_strlit("3");
    reveal_with_fuel(scan, 3);
    assert(text.drop_last().len() == 0);
}

} // verus!
