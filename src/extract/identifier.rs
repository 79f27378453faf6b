use vstd::prelude::*;
use vstd::string::*;
use vstd::utf8::is_ascii_chars;

use crate::error::view_ok;

verus! {

/// Computer Reservation System code of a station.
#[derive(Debug, Clone)]
pub struct Crs(String);

/// Why text is not a valid [`Crs`].
#[derive(Debug, Clone, Copy, PartialEq, Eq, Structural)]
pub enum CrsParsingError {
    /// A CRS code must be at most 3 characters long.
    InvalidLength,
    /// A CRS code must be ASCII.
    NonAsciiCharacters,
}

impl View for Crs {
    type V = Seq<char>;

    closed spec fn view(&self) -> Seq<char> {
        self.0@
    }
}

/// The [`Crs`] that `s` stands for: its text, kept as it is, once it is ASCII
/// and at most 3 characters long.
pub open spec fn spec_crs(s: Seq<char>) -> Result<Seq<char>, CrsParsingError> {
    if !is_ascii_chars(s) {
        Err(CrsParsingError::NonAsciiCharacters)
    } else if s.len() > 3 {
        Err(CrsParsingError::InvalidLength)
    } else {
        Ok(s)
    }
}

impl Crs {
    pub fn from_str(s: &str) -> (r: Result<Crs, CrsParsingError>)
        ensures
            view_ok(r) == spec_crs(s@),
    {
        if !s.is_ascii() {
            return Err(CrsParsingError::NonAsciiCharacters);
        }
        if s.unicode_len() > 3 {
            return Err(CrsParsingError::InvalidLength);
        }
        Ok(Crs(s.to_owned()))
    }

    pub fn as_str(&self) -> (r: &str)
        ensures
            r@ == self@,
    {
        self.0.as_str()
    }
}

} // verus!
