use chess_notation::actions::CheckType;
use chess_notation::grammar::split_move;
use chess_notation::moves::{Move, MoveParseErr};
use chess_notation::pieces::{ParsePieceErr, Piece};
use chess_notation::positions::{Destiny, ParsePositionErr, Source};
use chess_notation::actions::ParseCheckTypeErr;

#[test]
fn moves_parse_empty_string() {
    assert_eq!(Err(MoveParseErr::EmptyString), Move::from_str(""))
}

#[test]
fn parse_incorrect_format() {
    assert_eq!(Err(MoveParseErr::IncorrectFormat), Move::from_str("a"));
    assert_eq!(Err(MoveParseErr::IncorrectFormat), Move::from_str("a3x43"));
}

#[test]
fn parse_full_move() {
    let expected = Move {
        piece: Some(Piece::Rook),
        source: Some(Source { column: 'a', row: Some(1) }),
        capture: true,
        destiny: Destiny { column: 'b', row: 1 },
        check: Some(CheckType::Checkmate),
    };

    assert_eq!(expected, Move::from_str("Ra1xb1#").unwrap());
}

#[test]
fn parse_ambiguous_source() {
    let expected = Move {
        piece: Some(Piece::Rook),
        source: Some(Source { column: 'a', row: Some(1) }),
        capture: false,
        destiny: Destiny { column: 'b', row: 1 },
        check: None,
    };

    assert_eq!(expected, Move::from_str("Ra1b1").unwrap());
}

#[test]
fn parse_pawn_capture() {
    let expected = Move {
        piece: None,
        source: Some(Source { column: 'f', row: None }),
        capture: true,
        destiny: Destiny { column: 'e', row: 4 },
        check: None,
    };

    assert_eq!(expected, Move::from_str("fxe4").unwrap());
}

#[test]
fn parse_only_destiny() {
    let expected = Move {
        piece: None,
        source: None,
        capture: false,
        destiny: Destiny { column: 'a', row: 1 },
        check: None,
    };

    assert_eq!(expected, Move::from_str("a1").unwrap());
}

#[test]
fn single_characters_are_malformed() {
    for s in ["f", "K", "x", "+", "1", " "] {
        assert_eq!(Err(MoveParseErr::IncorrectFormat), Move::from_str(s));
    }
}

#[test]
fn strings_outside_the_grammar_are_malformed() {
    for s in [
        "a3x43", "Ra1xb1#+", "Pa1", "a0", "a9", "i1", "A1", "1a", "xx1", "Ka1b1c1", " a1",
        "a1 ", "Rb1x", "b1#x", "Qa12b3", "e4e",
    ] {
        assert_eq!(Err(MoveParseErr::IncorrectFormat), Move::from_str(s), "{}", s);
    }
}

#[test]
fn moves_with_check_markers() {
    let expected = Move {
        piece: Some(Piece::Queen),
        source: None,
        capture: false,
        destiny: Destiny { column: 'h', row: 5 },
        check: Some(CheckType::Check),
    };
    assert_eq!(Ok(expected), Move::from_str("Qh5+"));
    let expected = Move {
        piece: None,
        source: None,
        capture: false,
        destiny: Destiny { column: 'g', row: 7 },
        check: Some(CheckType::Checkmate),
    };
    assert_eq!(Ok(expected), Move::from_str("g7#"));
}

#[test]
fn capture_without_source() {
    let expected = Move {
        piece: Some(Piece::Knight),
        source: None,
        capture: true,
        destiny: Destiny { column: 'c', row: 3 },
        check: None,
    };
    assert_eq!(Ok(expected), Move::from_str("Nxc3"));
    let expected = Move {
        piece: None,
        source: None,
        capture: true,
        destiny: Destiny { column: 'd', row: 8 },
        check: Some(CheckType::Check),
    };
    assert_eq!(Ok(expected), Move::from_str("xd8+"));
}

#[test]
fn source_with_row_only_before_destiny() {
    let expected = Move {
        piece: Some(Piece::Bishop),
        source: Some(Source { column: 'c', row: None }),
        capture: false,
        destiny: Destiny { column: 'e', row: 2 },
        check: None,
    };
    assert_eq!(Ok(expected), Move::from_str("Bce2"));
    let expected = Move {
        piece: Some(Piece::King),
        source: Some(Source { column: 'h', row: Some(8) }),
        capture: true,
        destiny: Destiny { column: 'g', row: 8 },
        check: Some(CheckType::Checkmate),
    };
    assert_eq!(Ok(expected), Move::from_str("Kh8xg8#"));
}

#[test]
fn parsing_twice_gives_the_same_result() {
    for s in ["Ra1xb1#", "a1", "fxe4", "", "a3x43", "f"] {
        assert_eq!(Move::from_str(s), Move::from_str(s));
    }
}

#[test]
fn move_through_std_parse() {
    assert_eq!(Move::from_str("Ra1b1"), "Ra1b1".parse::<Move>());
}

#[test]
fn field_errors_are_wrapped() {
    assert_eq!(
        MoveParseErr::IncorrectPosition(ParsePositionErr::UnknownRow),
        MoveParseErr::from(ParsePositionErr::UnknownRow)
    );
    assert_eq!(
        MoveParseErr::IncorrectPiece(ParsePieceErr::UnknownPiece),
        MoveParseErr::from(ParsePieceErr::UnknownPiece)
    );
    assert_eq!(
        MoveParseErr::IncorrectCheck(ParseCheckTypeErr::EmptyString),
        MoveParseErr::from(ParseCheckTypeErr::EmptyString)
    );
}

#[test]
fn split_move_gives_the_five_fields() {
    let f = split_move("Ra1xb1#").unwrap();
    assert_eq!(
        ("R", "a1", "x", "b1", "#"),
        (f.piece, f.source, f.capture, f.destiny, f.check)
    );
    let f = split_move("e4").unwrap();
    assert_eq!(("", "", "", "e4", ""), (f.piece, f.source, f.capture, f.destiny, f.check));
    let f = split_move("gxh3+").unwrap();
    assert_eq!(("", "g", "x", "h3", "+"), (f.piece, f.source, f.capture, f.destiny, f.check));
    assert!(split_move("a3x43").is_none());
    assert!(split_move("").is_none());
}
