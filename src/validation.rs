use vstd::prelude::*;

verus! {

/// Why a text was refused as an identifier payload.
#[derive(Clone, Copy, Debug, PartialEq, Eq, Structural)]
pub enum ValidationError {
    /// The text holds no characters at all.
    Empty,
    /// Every character of the text is white space.
    Whitespace,
}

/// The Unicode `White_Space` property, as `char::is_whitespace` reports it.
pub open spec fn is_white_space(c: char) -> bool {
    let u = c as u32;
    ||| 0x09 <= u <= 0x0d
    ||| u == 0x20
    ||| u == 0x85
    ||| u == 0xa0
    ||| u == 0x1680
    ||| 0x2000 <= u <= 0x200a
    ||| u == 0x2028
    ||| u == 0x2029
    ||| u == 0x202f
    ||| u == 0x205f
    ||| u == 0x3000
}

/// Every character of `s` is white space (vacuously true of the empty text).
pub open spec fn all_white_space(s: Seq<char>) -> bool {
    forall|i: int| 0 <= i < s.len() ==> is_white_space(#[trigger] s[i])
}

/// The outcome of validating `s` as an identifier payload.
pub open spec fn validate(s: Seq<char>) -> Result<(), ValidationError> {
    if s.len() == 0 {
        Err(ValidationError::Empty)
    } else if all_white_space(s) {
        Err(ValidationError::Whitespace)
    } else {
        Ok(())
    }
}

/// `s` may be the payload of an identifier: it is neither empty nor blank.
pub open spec fn is_valid_text(s: Seq<char>) -> bool {
    validate(s) is Ok
}

/// Tells whether `c` is white space in the sense of Unicode's `White_Space`.
pub fn char_is_white_space(c: char) -> (r: bool)
    ensures
        r == is_white_space(c),
{
    let u = c as u32;
    (0x09 <= u && u <= 0x0d) || u == 0x20 || u == 0x85 || u == 0xa0 || u == 0x1680 || (0x2000
        <= u && u <= 0x200a) || u == 0x2028 || u == 0x2029 || u == 0x202f || u == 0x205f || u
        == 0x3000
}

/// Checks that `s` is fit to be an identifier payload.
pub fn check_valid_string(s: &str) -> (r: Result<(), ValidationError>)
    ensures
        r == validate(s@),
{
    if s.is_empty() {
        return Err(ValidationError::Empty);
    }
    let mut blank = true;
    for c in it: s.chars()
        invariant
            it.seq() == s@,
            blank == (forall|i: int| 0 <= i < it.index() ==> is_white_space(#[trigger] it.seq()[i])),
    {
        if !char_is_white_space(c) {
            blank = false;
        }
    }
    if blank {
        Err(ValidationError::Whitespace)
    } else {
        Ok(())
    }
}

} // verus!
