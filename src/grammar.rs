//! The shape of a whole move string.
//!
//! A move is written, with no separators, as
//!
//! ```text
//! move    := piece? source? capture? destiny check?
//! piece   := "K" | "Q" | "B" | "N" | "R"
//! source  := column row?
//! destiny := column row
//! column  := "a".."h"
//! row     := "1".."8"
//! capture := "x"
//! check   := "+" | "#"
//! ```
//!
//! The grammar is unambiguous, so a string that fits it splits into its five
//! fields in exactly one way.
use vstd::prelude::*;
use crate::positions::{is_column, is_row, column_of, row_of};

verus! {

/// The five fields of a move string, each a slice of it and each possibly
/// empty but the destiny.
#[derive(Debug, Clone, Copy)]
pub struct MoveFields<'a> {
    pub piece: &'a str,
    pub source: &'a str,
    pub capture: &'a str,
    pub destiny: &'a str,
    pub check: &'a str,
}

/// The characters of the five fields of a move.
pub struct MoveSplit {
    pub piece: Seq<char>,
    pub source: Seq<char>,
    pub capture: Seq<char>,
    pub destiny: Seq<char>,
    pub check: Seq<char>,
}

impl<'a> View for MoveFields<'a> {
    type V = MoveSplit;

    open spec fn view(&self) -> MoveSplit {
        MoveSplit {
            piece: self.piece@,
            source: self.source@,
            capture: self.capture@,
            destiny: self.destiny@,
            check: self.check@,
        }
    }
}

/// The piece letters that a move may start with (a pawn is never written).
pub open spec fn is_piece_mark(c: char) -> bool {
    c == 'K' || c == 'Q' || c == 'B' || c == 'N' || c == 'R'
}

pub open spec fn is_check_mark(c: char) -> bool {
    c == '+' || c == '#'
}

impl MoveSplit {
    /// Each field has the form that the grammar gives it.
    pub open spec fn fits(self) -> bool {
        &&& self.piece.len() == 0 || (self.piece.len() == 1 && is_piece_mark(self.piece[0]))
        &&& self.source.len() <= 2
        &&& self.source.len() >= 1 ==> is_column(self.source[0])
        &&& self.source.len() == 2 ==> is_row(self.source[1])
        &&& self.capture.len() == 0 || self.capture == seq!['x']
        &&& self.destiny.len() == 2
        &&& is_column(self.destiny[0])
        &&& is_row(self.destiny[1])
        &&& self.check.len() == 0 || (self.check.len() == 1 && is_check_mark(self.check[0]))
    }

    /// The move string that the fields make up.
    pub open spec fn joined(self) -> Seq<char> {
        self.piece + self.source + self.capture + self.destiny + self.check
    }
}

/// `f` is a way of reading `s` by the grammar.
pub open spec fn splits(s: Seq<char>, f: MoveSplit) -> bool {
    f.fits() && f.joined() == s
}

/// `s` is a move string by the grammar.
pub open spec fn in_grammar(s: Seq<char>) -> bool {
    exists|f: MoveSplit| #[trigger] splits(s, f)
}

/// Where the fields of a split lie, read from the string alone: the check
/// mark is its last character if that is `+` or `#`; the destiny takes the two
/// characters before; an `x` before them is the capture; a piece letter at
/// the start is the piece; the source is what remains.
proof fn lemma_split_shape(s: Seq<char>, f: MoveSplit)
    requires
        splits(s, f),
    ensures
        ({
            let n = s.len() as int;
            let lk = f.check.len() as int;
            let lc = f.capture.len() as int;
            let lp = f.piece.len() as int;
            &&& n - lk >= 2
            &&& lk == (if is_check_mark(s[n - 1]) { 1int } else { 0 })
            &&& lc == (if n - lk - 3 >= 0 && s[n - lk - 3] == 'x' { 1int } else { 0 })
            &&& lp == (if n - lk - lc - 2 > 0 && is_piece_mark(s[0]) { 1int } else { 0 })
            &&& f.piece == s.subrange(0, lp)
            &&& f.source == s.subrange(lp, n - lk - lc - 2)
            &&& f.capture == s.subrange(n - lk - lc - 2, n - lk - 2)
            &&& f.destiny == s.subrange(n - lk - 2, n - lk)
            &&& f.check == s.subrange(n - lk, n)
        }),
{
    let a = f.piece;
    let b = f.source;
    let c = f.capture;
    let d = f.destiny;
    let e = f.check;
    let s1 = a + b;
    let s2 = s1 + c;
    let s3 = s2 + d;
    let o1 = a.len() as int;
    let o2 = s1.len() as int;
    let o3 = s2.len() as int;
    let o4 = s3.len() as int;
    let n = s.len() as int;
    assert(s == s3 + e);
    assert(s.subrange(0, o4) =~= s3);
    assert(s.subrange(o4, n) =~= e);
    assert(s.subrange(0, o3) =~= s2);
    assert(s.subrange(o3, o4) =~= d);
    assert(s.subrange(0, o2) =~= s1);
    assert(s.subrange(o2, o3) =~= c);
    assert(s.subrange(0, o1) =~= a);
    assert(s.subrange(o1, o2) =~= b);
    // The last character: a check mark, or the destiny's row.
    if e.len() == 0 {
        assert(s[n - 1] == d[1]);
    } else {
        assert(s[n - 1] == e[0]);
    }
    // The character before the destiny: the capture mark, or the end of the
    // source, or the piece letter.
    if c.len() == 1 {
        assert(s[o3 - 1] == c[0]);
    } else if b.len() > 0 {
        assert(s[o2 - 1] == b[b.len() - 1]);
    } else if a.len() > 0 {
        assert(s[o1 - 1] == a[0]);
    }
    // The first character: the piece letter, or the source's column.
    if a.len() == 1 {
        assert(s[0] == a[0]);
    } else if b.len() > 0 {
        assert(s[0] == b[0]);
    }
}

/// The grammar is unambiguous: a string splits into its fields in at most one
/// way.
pub proof fn lemma_split_unique(s: Seq<char>, f: MoveSplit, g: MoveSplit)
    requires
        splits(s, f),
        splits(s, g),
    ensures
        f == g,
{
    lemma_split_shape(s, f);
    lemma_split_shape(s, g);
}

fn is_piece_mark_char(c: char) -> (r: bool)
    ensures
        r == is_piece_mark(c),
{
    c == 'K' || c == 'Q' || c == 'B' || c == 'N' || c == 'R'
}

/// Splits a move string into its five fields, or `None` when it does not
/// fit the grammar as a whole.
#[verifier::rlimit(50)]
pub fn split_move(s: &str) -> (r: Option<MoveFields<'_>>)
    ensures
        match r {
            Some(f) => splits(s@, f@),
            None => !in_grammar(s@),
        },
{
    let n = s.unicode_len();
    if n < 2 {
        proof {
            if in_grammar(s@) {
                lemma_split_shape(s@, choose|f: MoveSplit| splits(s@, f));
            }
        }
        return None;
    }
    let last = s.get_char(n - 1);
    let lk: usize = if last == '+' || last == '#' { 1 } else { 0 };
    let end = n - lk;
    if end < 2 || column_of(s.get_char(end - 2)).is_err() || row_of(s.get_char(end - 1)).is_err() {
        proof {
            if in_grammar(s@) {
                let f = choose|f: MoveSplit| splits(s@, f);
                lemma_split_shape(s@, f);
                assert(f.destiny[0] == s@[end - 2]);
                assert(f.destiny[1] == s@[end - 1]);
            }
        }
        return None;
    }
    let lc: usize = if end >= 3 && s.get_char(end - 3) == 'x' { 1 } else { 0 };
    let send = end - 2 - lc;
    let lp: usize = if send > 0 && is_piece_mark_char(s.get_char(0)) { 1 } else { 0 };
    let ls = send - lp;
    if ls > 2 || (ls >= 1 && column_of(s.get_char(lp)).is_err()) || (ls == 2 && row_of(
        s.get_char(lp + 1),
    ).is_err()) {
        proof {
            if in_grammar(s@) {
                let f = choose|f: MoveSplit| splits(s@, f);
                lemma_split_shape(s@, f);
                if ls >= 1 {
                    assert(f.source[0] == s@[lp as int]);
                }
                if ls == 2 {
                    assert(f.source[1] == s@[lp + 1]);
                }
            }
        }
        return None;
    }
    let fields = MoveFields {
        piece: s.substring_char(0, lp),
        source: s.substring_char(lp, send),
        capture: s.substring_char(send, end - 2),
        destiny: s.substring_char(end - 2, end),
        check: s.substring_char(end, n),
    };
    proof {
        let f = fields@;
        if lc == 1 {
            assert(f.capture =~= seq!['x']);
        }
        assert(f.joined() =~= s@);
    }
    Some(fields)
}

} // verus!
