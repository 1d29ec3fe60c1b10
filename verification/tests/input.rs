use tic_tac_toe::input::{
    get_row_and_column, is_valid_input, parse_number, parse_row_and_column_strings, ParseError,
};

fn pair(row: &str, column: &str) -> (String, String) {
    (row.to_string(), column.to_string())
}

#[test]
fn valid_inputs_are_one_two_three() {
    assert!(is_valid_input("1"));
    assert!(is_valid_input("2"));
    assert!(is_valid_input("3"));
    assert!(!is_valid_input("0"));
    assert!(!is_valid_input("4"));
    assert!(!is_valid_input(""));
    assert!(!is_valid_input("11"));
    assert!(!is_valid_input(" 1"));
    assert!(!is_valid_input("1 "));
    assert!(!is_valid_input("+1"));
    assert!(!is_valid_input("x"));
    assert!(!is_valid_input("١"));
}

#[test]
fn parse_number_reads_decimal() {
    assert_eq!(parse_number("0"), Ok(0));
    assert_eq!(parse_number("1"), Ok(1));
    assert_eq!(parse_number("3"), Ok(3));
    assert_eq!(parse_number("42"), Ok(42));
    assert_eq!(parse_number("007"), Ok(7));
    assert_eq!(parse_number("+5"), Ok(5));
    assert_eq!(parse_number("1234567890"), Ok(1234567890));
}

#[test]
fn parse_number_reads_the_largest_usize() {
    assert_eq!(parse_number(&usize::MAX.to_string()), Ok(usize::MAX));
    assert_eq!(parse_number(&format!("000{}", usize::MAX)), Ok(usize::MAX));
}

#[test]
fn parse_number_empty() {
    assert_eq!(parse_number(""), Err(ParseError::Empty));
}

#[test]
fn parse_number_invalid_digit() {
    assert_eq!(parse_number("+"), Err(ParseError::InvalidDigit));
    assert_eq!(parse_number("-"), Err(ParseError::InvalidDigit));
    assert_eq!(parse_number("-1"), Err(ParseError::InvalidDigit));
    assert_eq!(parse_number("++1"), Err(ParseError::InvalidDigit));
    assert_eq!(parse_number("1+"), Err(ParseError::InvalidDigit));
    assert_eq!(parse_number(" 1"), Err(ParseError::InvalidDigit));
    assert_eq!(parse_number("1 "), Err(ParseError::InvalidDigit));
    assert_eq!(parse_number("1_000"), Err(ParseError::InvalidDigit));
    assert_eq!(parse_number("12a"), Err(ParseError::InvalidDigit));
    assert_eq!(parse_number("١"), Err(ParseError::InvalidDigit));
    assert_eq!(parse_number("2é"), Err(ParseError::InvalidDigit));
}

#[test]
fn parse_number_overflow() {
    let max = usize::MAX.to_string();
    assert_eq!(parse_number(&format!("{}0", max)), Err(ParseError::Overflow));
    assert_eq!(parse_number("99999999999999999999999999999999"), Err(ParseError::Overflow));
    let mut above = max.into_bytes();
    let last = above.len() - 1;
    above[last] += 1;
    assert_eq!(parse_number(&String::from_utf8(above).unwrap()), Err(ParseError::Overflow));
}

#[test]
fn parse_number_first_fault_from_the_left_decides() {
    assert_eq!(parse_number("99999999999999999999999999999999x"), Err(ParseError::Overflow));
    assert_eq!(parse_number("9x9999999999999999999999999999999"), Err(ParseError::InvalidDigit));
}

#[test]
fn parse_number_agrees_with_std() {
    let max = usize::MAX.to_string();
    let over = format!("{}1", max);
    let late_fault = format!("{}x", over);
    let samples = [
        "", "+", "-", "0", "1", "2", "3", "9", "10", "+0", "+3", "-0", "-3", "++3", "+-3", "3+",
        "03", "0003", " 3", "3 ", "3\n", "3.0", "1e3", "0x10", "1_0", "a", "١٢", "３",
        "18446744073709551615", "18446744073709551616", "4294967295", "4294967296",
        max.as_str(), over.as_str(), late_fault.as_str(),
    ];
    for text in samples {
        let expected = match text.parse::<usize>() {
            Ok(number) => Ok(number),
            Err(error) => Err(match error.kind() {
                std::num::IntErrorKind::Empty => ParseError::Empty,
                std::num::IntErrorKind::PosOverflow => ParseError::Overflow,
                _ => ParseError::InvalidDigit,
            }),
        };
        assert_eq!(parse_number(text), expected, "text {:?}", text);
    }
}

#[test]
fn parse_row_and_column_strings_reads_both() {
    assert_eq!(parse_row_and_column_strings(pair("1", "3")), Ok((1, 3)));
    assert_eq!(parse_row_and_column_strings(pair("2", "2")), Ok((2, 2)));
    assert_eq!(parse_row_and_column_strings(pair("0", "17")), Ok((0, 17)));
}

#[test]
fn parse_row_and_column_strings_reports_first_error() {
    assert_eq!(parse_row_and_column_strings(pair("", "x")), Err(ParseError::Empty));
    assert_eq!(parse_row_and_column_strings(pair("x", "")), Err(ParseError::InvalidDigit));
    assert_eq!(parse_row_and_column_strings(pair("1", "")), Err(ParseError::Empty));
    assert_eq!(
        parse_row_and_column_strings(pair("2", "99999999999999999999999999")),
        Err(ParseError::Overflow)
    );
}

#[test]
fn get_row_and_column_counts_from_zero() {
    assert_eq!(get_row_and_column(pair("1", "1")), Ok((0, 0)));
    assert_eq!(get_row_and_column(pair("1", "3")), Ok((0, 2)));
    assert_eq!(get_row_and_column(pair("3", "2")), Ok((2, 1)));
    assert_eq!(get_row_and_column(pair("2", "+3")), Ok((1, 2)));
}

#[test]
fn get_row_and_column_covers_every_cell() {
    let names = ["1", "2", "3"];
    for row in 0..3 {
        for column in 0..3 {
            assert_eq!(get_row_and_column(pair(names[row], names[column])), Ok((row, column)));
        }
    }
}

#[test]
fn get_row_and_column_refuses_the_rest() {
    assert_eq!(get_row_and_column(pair("0", "1")), Err(()));
    assert_eq!(get_row_and_column(pair("1", "0")), Err(()));
    assert_eq!(get_row_and_column(pair("4", "1")), Err(()));
    assert_eq!(get_row_and_column(pair("1", "4")), Err(()));
    assert_eq!(get_row_and_column(pair("", "1")), Err(()));
    assert_eq!(get_row_and_column(pair("1", "x")), Err(()));
    assert_eq!(get_row_and_column(pair("1", "99999999999999999999999999")), Err(()));
}

#[test]
fn accepted_lines_play_a_move() {
    let mut game = tic_tac_toe::Game::new();
    assert!(is_valid_input("2") && is_valid_input("3"));
    let (row, column) = get_row_and_column(pair("2", "3")).unwrap();
    assert_eq!(game.play(row, column), Ok(tic_tac_toe::GameStatus::Continue));
    assert_eq!(
        game.board.get(1, 2),
        tic_tac_toe::BoardValue::Filled(tic_tac_toe::Player::X)
    );
}
