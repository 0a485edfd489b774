use chess_notation::pieces::{ParsePieceErr, Piece};
use std::collections::HashMap;

#[test]
fn pieces_parse_empty_string() {
    assert_eq!(Err(ParsePieceErr::EmptyString), Piece::from_str(""))
}

#[test]
fn parse_unknown_piece() {
    assert_eq!(Err(ParsePieceErr::UnknownPiece), Piece::from_str("X"))
}

#[test]
fn parse_pieces() {
    let pieces = HashMap::from([
        ("K", Piece::King),
        ("Q", Piece::Queen),
        ("B", Piece::Bishop),
        ("N", Piece::Knight),
        ("R", Piece::Rook),
        ("P", Piece::Pawn),
    ]);

    pieces.iter().for_each(|(k, v)| {
        assert_eq!(Piece::from_str(k).unwrap(), *v)
    });
}

#[test]
fn parse_piece_rejects_lower_case_and_longer_strings() {
    assert_eq!(Err(ParsePieceErr::UnknownPiece), Piece::from_str("k"));
    assert_eq!(Err(ParsePieceErr::UnknownPiece), Piece::from_str("KQ"));
    assert_eq!(Err(ParsePieceErr::UnknownPiece), Piece::from_str(" K"));
}

#[test]
fn parse_piece_through_std_parse() {
    assert_eq!(Ok(Piece::Knight), "N".parse::<Piece>());
}
