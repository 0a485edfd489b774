//! Piece letters.
use vstd::prelude::*;

verus! {

/// The kinds of chess pieces.
#[derive(PartialEq, Eq, Structural, Debug, Clone, Copy)]
pub enum Piece {
    King,
    Queen,
    Bishop,
    Knight,
    Rook,
    Pawn,
}

#[derive(PartialEq, Eq, Structural, Debug, Clone, Copy)]
pub enum ParsePieceErr {
    /// No letter was given.
    EmptyString,
    /// The string is not one of the piece letters.
    UnknownPiece,
}

/// The letters that name a piece: `K Q B N R P`.
pub open spec fn is_piece_letter(c: char) -> bool {
    c == 'K' || c == 'Q' || c == 'B' || c == 'N' || c == 'R' || c == 'P'
}

/// The piece that a letter names.
pub open spec fn piece_of_letter(c: char) -> Piece
    recommends
        is_piece_letter(c),
{
    if c == 'K' {
        Piece::King
    } else if c == 'Q' {
        Piece::Queen
    } else if c == 'B' {
        Piece::Bishop
    } else if c == 'N' {
        Piece::Knight
    } else if c == 'R' {
        Piece::Rook
    } else {
        Piece::Pawn
    }
}

/// A piece is written as exactly one of its letters.
pub open spec fn piece_spec(s: Seq<char>) -> Result<Piece, ParsePieceErr> {
    if s.len() == 0 {
        Err(ParsePieceErr::EmptyString)
    } else if s.len() == 1 && is_piece_letter(s[0]) {
        Ok(piece_of_letter(s[0]))
    } else {
        Err(ParsePieceErr::UnknownPiece)
    }
}

impl Piece {
    /// Reads a piece letter.
    pub fn from_str(s: &str) -> (r: Result<Piece, ParsePieceErr>)
        ensures
            r == piece_spec(s@),
    {
        let n = s.unicode_len();
        if n == 0 {
            return Err(ParsePieceErr::EmptyString);
        }
        if n != 1 {
            return Err(ParsePieceErr::UnknownPiece);
        }
        match s.get_char(0) {
            'K' => Ok(Piece::King),
            'Q' => Ok(Piece::Queen),
            'B' => Ok(Piece::Bishop),
            'N' => Ok(Piece::Knight),
            'R' => Ok(Piece::Rook),
            'P' => Ok(Piece::Pawn),
            _ => Err(ParsePieceErr::UnknownPiece),
        }
    }
}

impl std::str::FromStr for Piece {
    type Err = ParsePieceErr;

    fn from_str(s: &str) -> Result<Piece, ParsePieceErr> {
        Piece::from_str(s)
    }
}

} // verus!
