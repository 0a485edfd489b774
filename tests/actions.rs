use chess_notation::actions::{parse_capture, CheckType, ParseCheckTypeErr};

#[test]
fn capture_marker_is_a_lone_x() {
    assert!(parse_capture("x"));
    assert!(!parse_capture("X"));
    assert!(!parse_capture(""));
    assert!(!parse_capture("xx"));
    assert!(!parse_capture(" x"));
}

#[test]
fn check_markers() {
    assert_eq!(Ok(CheckType::Check), CheckType::from_str("+"));
    assert_eq!(Ok(CheckType::Checkmate), CheckType::from_str("#"));
}

#[test]
fn check_marker_errors() {
    assert_eq!(Err(ParseCheckTypeErr::EmptyString), CheckType::from_str(""));
    assert_eq!(Err(ParseCheckTypeErr::UnknownCheck), CheckType::from_str("++"));
    assert_eq!(Err(ParseCheckTypeErr::UnknownCheck), CheckType::from_str("x"));
    assert_eq!(Ok(CheckType::Checkmate), "#".parse::<CheckType>());
}
