use matryoshka_tic_tac_toe::io::{parse_move, InvalidMove};

#[test]
fn parses_row_column_size() {
    assert_eq!(parse_move("1A1"), Ok((0, 0, 1)));
    assert_eq!(parse_move("3c9"), Ok((2, 2, 9)));
    assert_eq!(parse_move("2b0"), Ok((1, 1, 0)));
}

#[test]
fn rejects_wrong_length() {
    assert_eq!(parse_move("1A"), Err(InvalidMove("1A".to_string())));
    assert_eq!(parse_move("1A12"), Err(InvalidMove("1A12".to_string())));
    assert_eq!(parse_move(""), Err(InvalidMove("".to_string())));
}

#[test]
fn rejects_bad_row_column_or_size() {
    assert_eq!(parse_move("4A1"), Err(InvalidMove("4A1".to_string())));
    assert_eq!(parse_move("1D1"), Err(InvalidMove("D".to_string())));
    assert_eq!(parse_move("1Ax"), Err(InvalidMove("1Ax".to_string())));
    assert_eq!(parse_move("1é"), Err(InvalidMove("1é".to_string())));
}
