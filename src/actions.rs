//! Capture and check markers.
use vstd::prelude::*;

verus! {

/// Whether a move string marks a capture: exactly the single letter `x`.
pub open spec fn is_capture_marker(s: Seq<char>) -> bool {
    s == seq!['x']
}

/// `true` exactly when `c` is the capture marker `x`.
pub fn parse_capture(c: &str) -> (r: bool)
    ensures
        r == is_capture_marker(c@),
{
    if c.unicode_len() != 1 {
        return false;
    }
    let ch = c.get_char(0);
    proof {
        if ch == 'x' {
            assert(c@ =~= seq!['x']);
        }
    }
    ch == 'x'
}

/// The annotation that follows a move giving check or checkmate.
#[derive(PartialEq, Eq, Structural, Debug, Clone, Copy)]
pub enum CheckType {
    Check,
    Checkmate,
}

#[derive(PartialEq, Eq, Structural, Debug, Clone, Copy)]
pub enum ParseCheckTypeErr {
    /// No marker was given.
    EmptyString,
    /// The string is neither `+` nor `#`.
    UnknownCheck,
}

/// The marker `+` stands for check, `#` for checkmate.
pub open spec fn check_spec(s: Seq<char>) -> Result<CheckType, ParseCheckTypeErr> {
    if s.len() == 0 {
        Err(ParseCheckTypeErr::EmptyString)
    } else if s == seq!['+'] {
        Ok(CheckType::Check)
    } else if s == seq!['#'] {
        Ok(CheckType::Checkmate)
    } else {
        Err(ParseCheckTypeErr::UnknownCheck)
    }
}

impl CheckType {
    /// Reads a check marker: `+` or `#`.
    pub fn from_str(s: &str) -> (r: Result<CheckType, ParseCheckTypeErr>)
        ensures
            r == check_spec(s@),
    {
        let n = s.unicode_len();
        if n == 0 {
            return Err(ParseCheckTypeErr::EmptyString);
        }
        if n == 1 {
            let ch = s.get_char(0);
            if ch == '+' {
                assert(s@ =~= seq!['+']);
                return Ok(CheckType::Check);
            }
            if ch == '#' {
                assert(s@ =~= seq!['#']);
                return Ok(CheckType::Checkmate);
            }
        }
        Err(ParseCheckTypeErr::UnknownCheck)
    }
}

impl std::str::FromStr for CheckType {
    type Err = ParseCheckTypeErr;

    fn from_str(s: &str) -> Result<CheckType, ParseCheckTypeErr> {
        CheckType::from_str(s)
    }
}

} // verus!
