//! Squares of the board as they are written in a move: a column letter
//! `a`..`h` and a row digit `1`..`8`.
use vstd::prelude::*;

verus! {

/// The square a piece leaves, as far as the player wrote it: the column is
/// always given, the row may be left out.
#[derive(PartialEq, Eq, Structural, Debug, Clone, Copy)]
pub struct Source {
    pub column: char,
    pub row: Option<u8>,
}

/// The square a piece moves to: column and row are both given.
#[derive(PartialEq, Eq, Structural, Debug, Clone, Copy)]
pub struct Destiny {
    pub column: char,
    pub row: u8,
}

#[derive(PartialEq, Eq, Structural, Debug, Clone, Copy)]
pub enum ParsePositionErr {
    /// Nothing but white space was given.
    EmptyString,
    /// The row is not a digit `1`..`8`.
    UnknownRow,
    /// The column is not a letter `a`..`h`.
    UnknownColumn,
    /// The square has too many characters, or a destiny lacks its row.
    UnknownPosition,
}

/// The characters of the Unicode property White_Space.
pub open spec fn is_white_space(c: char) -> bool {
    let v = c as u32;
    ||| 0x9 <= v <= 0xd
    ||| v == 0x20
    ||| v == 0x85
    ||| v == 0xa0
    ||| v == 0x1680
    ||| 0x2000 <= v <= 0x200a
    ||| v == 0x2028
    ||| v == 0x2029
    ||| v == 0x202f
    ||| v == 0x205f
    ||| v == 0x3000
}

pub open spec fn all_white_space(s: Seq<char>) -> bool {
    forall|i: int| 0 <= i < s.len() ==> is_white_space(#[trigger] s[i])
}

/// `s` without its leading white space.
pub open spec fn trim_start(s: Seq<char>) -> Seq<char>
    decreases s.len(),
{
    if s.len() > 0 && is_white_space(s[0]) {
        trim_start(s.drop_first())
    } else {
        s
    }
}

/// `s` without its trailing white space.
pub open spec fn trim_end(s: Seq<char>) -> Seq<char>
    decreases s.len(),
{
    if s.len() > 0 && is_white_space(s.last()) {
        trim_end(s.drop_last())
    } else {
        s
    }
}

/// `s` without its leading and trailing white space.
pub open spec fn trimmed(s: Seq<char>) -> Seq<char> {
    trim_end(trim_start(s))
}

/// Relies on `str::trim`: the slice without leading and trailing characters
/// of the Unicode property White_Space.
#[verifier::external_body]
pub(crate) fn trim_white_space(s: &str) -> (r: &str)
    ensures
        r@ == trimmed(s@),
{
    s.trim()
}

pub open spec fn is_column(c: char) -> bool {
    'a' as u32 <= c as u32 <= 'h' as u32
}

pub open spec fn is_row(c: char) -> bool {
    '1' as u32 <= c as u32 <= '8' as u32
}

/// The number that a row digit stands for.
pub open spec fn row_value(c: char) -> u8
    recommends
        is_row(c),
{
    (c as u32 - '0' as u32) as u8
}

impl Source {
    pub open spec fn wf(&self) -> bool {
        &&& is_column(self.column)
        &&& self.row matches Some(r) ==> 1 <= r <= 8
    }
}

impl Destiny {
    pub open spec fn wf(&self) -> bool {
        &&& is_column(self.column)
        &&& 1 <= self.row <= 8
    }
}

/// A source square: once surrounding white space is dropped, a column
/// optionally followed by a row.
pub open spec fn source_spec(s: Seq<char>) -> Result<Source, ParsePositionErr> {
    let t = trimmed(s);
    if t.len() == 0 {
        Err(ParsePositionErr::EmptyString)
    } else if t.len() > 2 {
        Err(ParsePositionErr::UnknownPosition)
    } else if !is_column(t[0]) {
        Err(ParsePositionErr::UnknownColumn)
    } else if t.len() == 1 {
        Ok(Source { column: t[0], row: None })
    } else if !is_row(t[1]) {
        Err(ParsePositionErr::UnknownRow)
    } else {
        Ok(Source { column: t[0], row: Some(row_value(t[1])) })
    }
}

/// A destiny square: once surrounding white space is dropped, exactly a
/// column followed by a row.
pub open spec fn destiny_spec(s: Seq<char>) -> Result<Destiny, ParsePositionErr> {
    let t = trimmed(s);
    if t.len() == 0 {
        Err(ParsePositionErr::EmptyString)
    } else if t.len() != 2 {
        Err(ParsePositionErr::UnknownPosition)
    } else if !is_column(t[0]) {
        Err(ParsePositionErr::UnknownColumn)
    } else if !is_row(t[1]) {
        Err(ParsePositionErr::UnknownRow)
    } else {
        Ok(Destiny { column: t[0], row: row_value(t[1]) })
    }
}

pub(crate) fn column_of(c: char) -> (r: Result<char, ParsePositionErr>)
    ensures
        r == (if is_column(c) {
            Ok(c)
        } else {
            Err(ParsePositionErr::UnknownColumn)
        }),
{
    let v = c as u32;
    if 'a' as u32 <= v && v <= 'h' as u32 {
        Ok(c)
    } else {
        Err(ParsePositionErr::UnknownColumn)
    }
}

pub(crate) fn row_of(c: char) -> (r: Result<u8, ParsePositionErr>)
    ensures
        r == (if is_row(c) {
            Ok(row_value(c))
        } else {
            Err(ParsePositionErr::UnknownRow)
        }),
{
    let v = c as u32;
    if '1' as u32 <= v && v <= '8' as u32 {
        Ok((v - '0' as u32) as u8)
    } else {
        Err(ParsePositionErr::UnknownRow)
    }
}

impl Source {
    /// Reads a source square, ignoring surrounding white space.
    pub fn from_str(s: &str) -> (r: Result<Source, ParsePositionErr>)
        ensures
            r == source_spec(s@),
            r matches Ok(src) ==> src.wf(),
    {
        let t = trim_white_space(s);
        let n = t.unicode_len();
        if n == 0 {
            return Err(ParsePositionErr::EmptyString);
        }
        if n > 2 {
            return Err(ParsePositionErr::UnknownPosition);
        }
        let column = match column_of(t.get_char(0)) {
            Ok(c) => c,
            Err(e) => return Err(e),
        };
        if n == 1 {
            return Ok(Source { column, row: None });
        }
        match row_of(t.get_char(1)) {
            Ok(row) => Ok(Source { column, row: Some(row) }),
            Err(e) => Err(e),
        }
    }
}

impl Destiny {
    /// Reads a destiny square, ignoring surrounding white space.
    pub fn from_str(s: &str) -> (r: Result<Destiny, ParsePositionErr>)
        ensures
            r == destiny_spec(s@),
            r matches Ok(d) ==> d.wf(),
    {
        let t = trim_white_space(s);
        let n = t.unicode_len();
        if n == 0 {
            return Err(ParsePositionErr::EmptyString);
        }
        if n != 2 {
            return Err(ParsePositionErr::UnknownPosition);
        }
        let column = match column_of(t.get_char(0)) {
            Ok(c) => c,
            Err(e) => return Err(e),
        };
        match row_of(t.get_char(1)) {
            Ok(row) => Ok(Destiny { column, row }),
            Err(e) => Err(e),
        }
    }
}

proof fn lemma_trim_start_skips(w: Seq<char>, s: Seq<char>)
    requires
        all_white_space(w),
    ensures
        trim_start(w + s) == trim_start(s),
    decreases w.len(),
{
    if w.len() == 0 {
        assert(w + s =~= s);
    } else {
        assert((w + s)[0] == w[0]);
        assert((w + s).drop_first() =~= w.drop_first() + s);
        lemma_trim_start_skips(w.drop_first(), s);
    }
}

proof fn lemma_trim_end_skips(s: Seq<char>, w: Seq<char>)
    requires
        all_white_space(w),
    ensures
        trim_end(s + w) == trim_end(s),
    decreases w.len(),
{
    if w.len() == 0 {
        assert(s + w =~= s);
    } else {
        assert((s + w).last() == w.last());
        assert((s + w).drop_last() =~= s + w.drop_last());
        lemma_trim_end_skips(s, w.drop_last());
    }
}

proof fn lemma_trimmed_drops_tail(s: Seq<char>, w: Seq<char>)
    requires
        all_white_space(w),
    ensures
        trimmed(s + w) == trimmed(s),
    decreases s.len(),
{
    if s.len() == 0 {
        assert(s + w =~= w);
        assert(w =~= w + s);
        lemma_trim_start_skips(w, s);
    } else if is_white_space(s[0]) {
        assert((s + w)[0] == s[0]);
        assert((s + w).drop_first() =~= s.drop_first() + w);
        lemma_trimmed_drops_tail(s.drop_first(), w);
    } else {
        assert((s + w)[0] == s[0]);
        lemma_trim_end_skips(s, w);
    }
}

/// Dropping white space before and after a string does not change what it
/// trims to.
pub proof fn lemma_trimmed_ignores_white_space(w1: Seq<char>, s: Seq<char>, w2: Seq<char>)
    requires
        all_white_space(w1),
        all_white_space(w2),
    ensures
        trimmed(w1 + s + w2) == trimmed(s),
{
    assert(w1 + s + w2 =~= w1 + (s + w2));
    lemma_trim_start_skips(w1, s + w2);
    lemma_trimmed_drops_tail(s, w2);
}

/// Squares tolerate white space around them: a square surrounded by white
/// space reads exactly as the bare square, for sources and destinies alike.
pub proof fn lemma_square_ignores_white_space(w1: Seq<char>, s: Seq<char>, w2: Seq<char>)
    requires
        all_white_space(w1),
        all_white_space(w2),
    ensures
        source_spec(w1 + s + w2) == source_spec(s),
        destiny_spec(w1 + s + w2) == destiny_spec(s),
{
    lemma_trimmed_ignores_white_space(w1, s, w2);
}

/// A column alone is a source square with no row, but not a destiny square:
/// a destiny needs its row.
pub proof fn lemma_lone_column(c: char)
    requires
        is_column(c),
    ensures
        source_spec(seq![c]) == Ok::<Source, ParsePositionErr>(Source { column: c, row: None }),
        destiny_spec(seq![c]) == Err::<Destiny, ParsePositionErr>(ParsePositionErr::UnknownPosition),
{
    let s = seq![c];
    assert(!is_white_space(s[0]));
    assert(trim_start(s) == s);
    assert(s.last() == c);
    assert(trim_end(s) == s);
}

/// A string that neither starts nor ends with white space trims to itself.
pub proof fn lemma_trimmed_plain(s: Seq<char>)
    requires
        s.len() > 0 ==> !is_white_space(s[0]) && !is_white_space(s.last()),
    ensures
        trimmed(s) == s,
{
    assert(trim_start(s) == s);
    assert(trim_end(s) == s);
}

impl std::str::FromStr for Source {
    type Err = ParsePositionErr;

    fn from_str(s: &str) -> Result<Source, ParsePositionErr> {
        Source::from_str(s)
    }
}

impl std::str::FromStr for Destiny {
    type Err = ParsePositionErr;

    fn from_str(s: &str) -> Result<Destiny, ParsePositionErr> {
        Destiny::from_str(s)
    }
}

} // verus!
