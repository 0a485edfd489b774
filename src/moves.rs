//! Whole moves: the grammar's fields read by their own parsers and put
//! together.
use vstd::prelude::*;
use crate::actions::{CheckType, ParseCheckTypeErr, parse_capture};
use crate::grammar::{MoveSplit, in_grammar, splits, split_move, lemma_split_unique};
use crate::pieces::{Piece, ParsePieceErr, piece_of_letter};
use crate::positions::{Source, Destiny, ParsePositionErr, row_value, lemma_trimmed_plain};

verus! {

/// Why a move string was rejected.
#[derive(PartialEq, Eq, Structural, Debug, Clone, Copy)]
pub enum MoveParseErr {
    /// The move string is empty.
    EmptyString,
    /// The move string does not fit the grammar as a whole.
    IncorrectFormat,
    /// The grammar matched but gave no destiny.
    MissingDestiny,
    /// The source or destiny field was rejected.
    IncorrectPosition(ParsePositionErr),
    /// The piece field was rejected.
    IncorrectPiece(ParsePieceErr),
    /// The check field was rejected.
    IncorrectCheck(ParseCheckTypeErr),
}

impl From<ParsePositionErr> for MoveParseErr {
    fn from(e: ParsePositionErr) -> (r: MoveParseErr) {
        MoveParseErr::IncorrectPosition(e)
    }
}

impl vstd::std_specs::convert::FromSpecImpl<ParsePositionErr> for MoveParseErr {
    open spec fn obeys_from_spec() -> bool {
        true
    }

    open spec fn from_spec(e: ParsePositionErr) -> MoveParseErr {
        MoveParseErr::IncorrectPosition(e)
    }
}

impl From<ParsePieceErr> for MoveParseErr {
    fn from(e: ParsePieceErr) -> (r: MoveParseErr) {
        MoveParseErr::IncorrectPiece(e)
    }
}

impl vstd::std_specs::convert::FromSpecImpl<ParsePieceErr> for MoveParseErr {
    open spec fn obeys_from_spec() -> bool {
        true
    }

    open spec fn from_spec(e: ParsePieceErr) -> MoveParseErr {
        MoveParseErr::IncorrectPiece(e)
    }
}

impl From<ParseCheckTypeErr> for MoveParseErr {
    fn from(e: ParseCheckTypeErr) -> (r: MoveParseErr) {
        MoveParseErr::IncorrectCheck(e)
    }
}

impl vstd::std_specs::convert::FromSpecImpl<ParseCheckTypeErr> for MoveParseErr {
    open spec fn obeys_from_spec() -> bool {
        true
    }

    open spec fn from_spec(e: ParseCheckTypeErr) -> MoveParseErr {
        MoveParseErr::IncorrectCheck(e)
    }
}

/// A move: which piece moves (none written means a pawn), the square it
/// leaves as far as it is written, whether it captures, the square it goes
/// to, and whether it gives check or checkmate.
#[derive(PartialEq, Eq, Debug, Clone, Copy)]
pub struct Move {
    pub piece: Option<Piece>,
    pub source: Option<Source>,
    pub capture: bool,
    pub destiny: Destiny,
    pub check: Option<CheckType>,
}

impl Move {
    pub open spec fn wf(&self) -> bool {
        &&& self.source matches Some(src) ==> src.wf()
        &&& self.destiny.wf()
    }
}

/// The move that the fields of a move string describe.
pub open spec fn move_of(f: MoveSplit) -> Move {
    Move {
        piece: if f.piece.len() == 0 {
            None
        } else {
            Some(piece_of_letter(f.piece[0]))
        },
        source: if f.source.len() == 0 {
            None
        } else {
            Some(
                Source {
                    column: f.source[0],
                    row: if f.source.len() == 2 {
                        Some(row_value(f.source[1]))
                    } else {
                        None
                    },
                },
            )
        },
        capture: f.capture.len() > 0,
        destiny: Destiny { column: f.destiny[0], row: row_value(f.destiny[1]) },
        check: if f.check.len() == 0 {
            None
        } else if f.check[0] == '+' {
            Some(CheckType::Check)
        } else {
            Some(CheckType::Checkmate)
        },
    }
}

/// What a move string reads as: empty strings and strings outside the
/// grammar are rejected, any other string is the move its fields describe.
pub open spec fn move_spec(s: Seq<char>) -> Result<Move, MoveParseErr> {
    if s.len() == 0 {
        Err(MoveParseErr::EmptyString)
    } else if !in_grammar(s) {
        Err(MoveParseErr::IncorrectFormat)
    } else {
        Ok(move_of(choose|f: MoveSplit| splits(s, f)))
    }
}

/// A string that splits into fields reads as the move those fields describe.
pub proof fn lemma_move_of_split(s: Seq<char>, f: MoveSplit)
    requires
        splits(s, f),
    ensures
        move_spec(s) == Ok::<Move, MoveParseErr>(move_of(f)),
        move_of(f).wf(),
{
    let g = choose|g: MoveSplit| splits(s, g);
    lemma_split_unique(s, f, g);
}

/// A string with fewer than two characters is never a move: the destiny
/// alone takes two.
pub proof fn lemma_too_short(s: Seq<char>)
    requires
        0 < s.len() < 2,
    ensures
        move_spec(s) == Err::<Move, MoveParseErr>(MoveParseErr::IncorrectFormat),
{
    if in_grammar(s) {
        let f = choose|f: MoveSplit| splits(s, f);
        assert(f.joined().len() >= 2);
    }
}

/// Reading a move depends on the characters of the string alone, so reading
/// the same string twice gives the same result.
pub proof fn lemma_parse_deterministic(a: Seq<char>, b: Seq<char>)
    requires
        a == b,
    ensures
        move_spec(a) == move_spec(b),
{
}

impl Move {
    /// Reads a move written in algebraic notation.
    pub fn from_str(input: &str) -> (r: Result<Move, MoveParseErr>)
        ensures
            r == move_spec(input@),
            input@.len() == 0 ==> r == Err::<Move, MoveParseErr>(MoveParseErr::EmptyString),
            input@.len() > 0 && !in_grammar(input@) ==> r == Err::<Move, MoveParseErr>(
                MoveParseErr::IncorrectFormat,
            ),
            0 < input@.len() < 2 ==> r == Err::<Move, MoveParseErr>(MoveParseErr::IncorrectFormat),
            r matches Ok(m) ==> m.wf(),
    {
        if input.unicode_len() == 0 {
            return Err(MoveParseErr::EmptyString);
        }
        proof {
            if input@.len() < 2 {
                lemma_too_short(input@);
            }
        }
        let fields = match split_move(input) {
            Some(f) => f,
            None => return Err(MoveParseErr::IncorrectFormat),
        };
        let ghost f = fields@;
        proof {
            lemma_move_of_split(input@, f);
            lemma_trimmed_plain(f.destiny);
            lemma_trimmed_plain(f.source);
        }
        if fields.destiny.unicode_len() == 0 {
            return Err(MoveParseErr::MissingDestiny);
        }
        let destiny = match Destiny::from_str(fields.destiny) {
            Ok(d) => d,
            Err(e) => return Err(MoveParseErr::from(e)),
        };
        let piece = if fields.piece.unicode_len() == 0 {
            None
        } else {
            match Piece::from_str(fields.piece) {
                Ok(p) => Some(p),
                Err(e) => return Err(MoveParseErr::from(e)),
            }
        };
        let source = if fields.source.unicode_len() == 0 {
            None
        } else {
            match Source::from_str(fields.source) {
                Ok(src) => Some(src),
                Err(e) => return Err(MoveParseErr::from(e)),
            }
        };
        let check = if fields.check.unicode_len() == 0 {
            None
        } else {
            proof {
                if f.check[0] == '+' {
                    assert(f.check =~= seq!['+']);
                } else {
                    assert(f.check =~= seq!['#']);
                }
            }
            match CheckType::from_str(fields.check) {
                Ok(c) => Some(c),
                Err(e) => return Err(MoveParseErr::from(e)),
            }
        };
        let capture = if fields.capture.unicode_len() == 0 {
            false
        } else {
            parse_capture(fields.capture)
        };
        let m = Move { piece, source, capture, destiny, check };
        assert(m == move_of(f));
        Ok(m)
    }
}

impl std::str::FromStr for Move {
    type Err = MoveParseErr;

    fn from_str(s: &str) -> Result<Move, MoveParseErr> {
        Move::from_str(s)
    }
}

} // verus!
