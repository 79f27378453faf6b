use vstd::prelude::*;
use vstd::string::*;
use vstd::utf8::is_ascii_chars;

use crate::error::{view_ok, RecordParsingError, RecordParsingErrorView};
use crate::extract::{spec_frame, strip_identity, RecordTag};

verus! {

/// National Location Code.
#[derive(Debug, Clone)]
pub struct Nalco(String);

/// Why text is not a valid [`Nalco`].
#[derive(Debug, Clone, Copy, PartialEq, Eq, Structural)]
pub enum NalcoParsingError {
    /// A NALCO must be at most 6 characters long.
    InvalidLength,
    /// A NALCO must be ASCII.
    NonAsciiCharacters,
}

impl View for Nalco {
    type V = Seq<char>;

    closed spec fn view(&self) -> Seq<char> {
        self.0@
    }
}

/// The [`Nalco`] that `s` stands for: its text, kept as it is, once it is ASCII
/// and at most 6 characters long.
pub open spec fn spec_nalco(s: Seq<char>) -> Result<Seq<char>, NalcoParsingError> {
    if !is_ascii_chars(s) {
        Err(NalcoParsingError::NonAsciiCharacters)
    } else if s.len() > 6 {
        Err(NalcoParsingError::InvalidLength)
    } else {
        Ok(s)
    }
}

impl Nalco {
    pub fn from_str(s: &str) -> (r: Result<Nalco, NalcoParsingError>)
        ensures
            view_ok(r) == spec_nalco(s@),
    {
        if !s.is_ascii() {
            return Err(NalcoParsingError::NonAsciiCharacters);
        }
        if s.unicode_len() > 6 {
            return Err(NalcoParsingError::InvalidLength);
        }
        Ok(Nalco(s.to_owned()))
    }

    pub fn as_str(&self) -> (r: &str)
        ensures
            r@ == self@,
    {
        self.0.as_str()
    }
}

/// Timing Point Location code.
#[derive(Debug, Clone)]
pub struct Tiploc(String);

/// Why text is not a valid [`Tiploc`].
#[derive(Debug, Clone, Copy, PartialEq, Eq, Structural)]
pub enum TiplocParsingError {
    /// A TIPLOC must be at most 7 characters long.
    InvalidLength,
    /// A TIPLOC must be ASCII.
    NonAsciiCharacters,
}

impl View for Tiploc {
    type V = Seq<char>;

    closed spec fn view(&self) -> Seq<char> {
        self.0@
    }
}

/// The [`Tiploc`] that `s` stands for: its text, kept as it is, once it is ASCII
/// and at most 7 characters long.
pub open spec fn spec_tiploc(s: Seq<char>) -> Result<Seq<char>, TiplocParsingError> {
    if !is_ascii_chars(s) {
        Err(TiplocParsingError::NonAsciiCharacters)
    } else if s.len() > 7 {
        Err(TiplocParsingError::InvalidLength)
    } else {
        Ok(s)
    }
}

impl Tiploc {
    pub fn from_str(s: &str) -> (r: Result<Tiploc, TiplocParsingError>)
        ensures
            view_ok(r) == spec_tiploc(s@),
    {
        if !s.is_ascii() {
            return Err(TiplocParsingError::NonAsciiCharacters);
        }
        if s.unicode_len() > 7 {
            return Err(TiplocParsingError::InvalidLength);
        }
        Ok(Tiploc(s.to_owned()))
    }

    pub fn as_str(&self) -> (r: &str)
        ensures
            r@ == self@,
    {
        self.0.as_str()
    }
}

/// TOPS location code; `00000` stands for no location.
#[derive(Debug, Clone)]
pub struct Stanox(String);

/// Why text is not a valid [`Stanox`].
#[derive(Debug, Clone, Copy, PartialEq, Eq, Structural)]
pub enum StanoxParsingError {
    /// A STANOX must be exactly 5 characters long.
    InvalidLength,
    /// A STANOX must be ASCII.
    NonAsciiCharacters,
}

impl View for Stanox {
    type V = Seq<char>;

    closed spec fn view(&self) -> Seq<char> {
        self.0@
    }
}

/// The [`Stanox`] that `s` stands for: its text, kept as it is, once it is ASCII
/// and exactly 5 characters long.
pub open spec fn spec_stanox(s: Seq<char>) -> Result<Seq<char>, StanoxParsingError> {
    if !is_ascii_chars(s) {
        Err(StanoxParsingError::NonAsciiCharacters)
    } else if s.len() != 5 {
        Err(StanoxParsingError::InvalidLength)
    } else {
        Ok(s)
    }
}

impl Stanox {
    pub fn from_str(s: &str) -> (r: Result<Stanox, StanoxParsingError>)
        ensures
            view_ok(r) == spec_stanox(s@),
    {
        if !s.is_ascii() {
            return Err(StanoxParsingError::NonAsciiCharacters);
        }
        if s.unicode_len() != 5 {
            return Err(StanoxParsingError::InvalidLength);
        }
        Ok(Stanox(s.to_owned()))
    }

    pub fn as_str(&self) -> (r: &str)
        ensures
            r@ == self@,
    {
        self.0.as_str()
    }
}

/// Post Office location code; `0000` and `   0` stand for none.
#[derive(Debug, Clone)]
pub struct PoMcpCode(String);

/// Why text is not a valid [`PoMcpCode`].
#[derive(Debug, Clone, Copy, PartialEq, Eq, Structural)]
pub enum PoMcpCodeParsingError {
    /// A PO MCP code must be at most 4 characters long.
    InvalidLength,
    /// A PO MCP code must be ASCII.
    NonAsciiCharacters,
}

impl View for PoMcpCode {
    type V = Seq<char>;

    closed spec fn view(&self) -> Seq<char> {
        self.0@
    }
}

/// The [`PoMcpCode`] that `s` stands for: its text, kept as it is, once it is ASCII
/// and at most 4 characters long.
pub open spec fn spec_pomcpcode(s: Seq<char>) -> Result<Seq<char>, PoMcpCodeParsingError> {
    if !is_ascii_chars(s) {
        Err(PoMcpCodeParsingError::NonAsciiCharacters)
    } else if s.len() > 4 {
        Err(PoMcpCodeParsingError::InvalidLength)
    } else {
        Ok(s)
    }
}

impl PoMcpCode {
    pub fn from_str(s: &str) -> (r: Result<PoMcpCode, PoMcpCodeParsingError>)
        ensures
            view_ok(r) == spec_pomcpcode(s@),
    {
        if !s.is_ascii() {
            return Err(PoMcpCodeParsingError::NonAsciiCharacters);
        }
        if s.unicode_len() > 4 {
            return Err(PoMcpCodeParsingError::InvalidLength);
        }
        Ok(PoMcpCode(s.to_owned()))
    }

    pub fn as_str(&self) -> (r: &str)
        ensures
            r@ == self@,
    {
        self.0.as_str()
    }
}

/// Whether a STANOX text is the sentinel `00000`, which stands for no location.
pub open spec fn is_no_stanox(v: Seq<char>) -> bool {
    v == seq!['0', '0', '0', '0', '0']
}

/// Every five-digit numeral decodes as a STANOX, kept as it is; it stands for
/// no location exactly when it is `00000`.
pub proof fn lemma_stanox_numeral(s: Seq<char>)
    requires
        s.len() == 5,
        forall|i: int| 0 <= i < 5 ==> '0' <= #[trigger] s[i] <= '9',
    ensures
        spec_stanox(s) == Ok::<Seq<char>, StanoxParsingError>(s),
        is_no_stanox(s) <==> s == "00000"@,
{
    reveal_strlit("00000");
    assert(is_ascii_chars(s));
    assert("00000"@ =~= seq!['0', '0', '0', '0', '0']);
}

impl Stanox {
    pub open spec fn spec_is_empty(self) -> bool {
        is_no_stanox(self@)
    }

    pub fn is_empty(&self) -> (r: bool)
        ensures
            r == self.spec_is_empty(),
    {
        let s = self.as_str();
        if s.unicode_len() != 5 {
            return false;
        }
        let mut i: usize = 0;
        while i < 5
            invariant
                s@ == self@,
                s@.len() == 5,
                0 <= i <= 5,
                forall|j: int| 0 <= j < i ==> s@[j] == '0',
            decreases 5 - i,
        {
            if s.get_char(i) != '0' {
                return false;
            }
            i = i + 1;
        }
        assert(s@ =~= seq!['0', '0', '0', '0', '0']);
        true
    }
}

impl PoMcpCode {
    /// Whether this is one of the sentinels `0000` and `   0`, which stand for no code.
    pub open spec fn spec_is_empty(self) -> bool {
        self@ == seq!['0', '0', '0', '0'] || self@ == seq![' ', ' ', ' ', '0']
    }

    pub fn is_empty(&self) -> (r: bool)
        ensures
            r == self.spec_is_empty(),
    {
        let s = self.as_str();
        if s.unicode_len() != 4 || s.get_char(3) != '0' {
            return false;
        }
        let a = s.get_char(0);
        let b = s.get_char(1);
        let c = s.get_char(2);
        if a == '0' && b == '0' && c == '0' {
            assert(s@ =~= seq!['0', '0', '0', '0']);
            true
        } else if a == ' ' && b == ' ' && c == ' ' {
            assert(s@ =~= seq![' ', ' ', ' ', '0']);
            true
        } else {
            false
        }
    }
}

/// Origin location record, which opens the calling points of a train.
#[derive(Debug, Clone)]
pub struct OriginLocation {
    scheduled_departure_time: String,
}

impl View for OriginLocation {
    type V = Seq<char>;

    /// The scheduled departure time, as written.
    closed spec fn view(&self) -> Seq<char> {
        self.scheduled_departure_time@
    }
}

/// The scheduled departure time `[8,13)` of an origin location line's body.
pub open spec fn spec_origin_location(line: Seq<char>) -> Result<
    Seq<char>,
    RecordParsingErrorView,
> {
    match spec_frame(line, RecordTag::LO) {
        Err(e) => Err(e),
        Ok(b) => Ok(b.subrange(8, 13)),
    }
}

impl OriginLocation {
    pub fn from_str(s: &str) -> (r: Result<OriginLocation, RecordParsingError>)
        ensures
            match r {
                Ok(o) => spec_origin_location(s@) == Ok::<Seq<char>, RecordParsingErrorView>(o@),
                Err(e) => spec_origin_location(s@) == Err::<Seq<char>, RecordParsingErrorView>(e@),
            },
    {
        match strip_identity(s, RecordTag::LO) {
            Ok(body) => Ok(
                OriginLocation { scheduled_departure_time: body.substring_ascii(8, 13).to_owned() },
            ),
            Err(e) => Err(e),
        }
    }

    pub fn scheduled_departure_time(&self) -> (r: &str)
        ensures
            r@ == self@,
    {
        self.scheduled_departure_time.as_str()
    }
}

/// Intermediate location record; its fields are not decoded.
#[derive(Debug, Clone, Copy, PartialEq, Eq, Structural)]
pub struct IntermediateLocation;

impl IntermediateLocation {
    pub fn from_str(s: &str) -> (r: Result<IntermediateLocation, RecordParsingError>)
        ensures
            match r {
                Ok(_) => spec_frame(s@, RecordTag::LI) is Ok,
                Err(e) => spec_frame(s@, RecordTag::LI) == Err::<Seq<char>, RecordParsingErrorView>(
                    e@,
                ),
            },
    {
        match strip_identity(s, RecordTag::LI) {
            Ok(_) => Ok(IntermediateLocation),
            Err(e) => Err(e),
        }
    }
}

/// Terminating location record; its fields are not decoded.
#[derive(Debug, Clone, Copy, PartialEq, Eq, Structural)]
pub struct TerminatingLocation;

impl TerminatingLocation {
    pub fn from_str(s: &str) -> (r: Result<TerminatingLocation, RecordParsingError>)
        ensures
            match r {
                Ok(_) => spec_frame(s@, RecordTag::LT) is Ok,
                Err(e) => spec_frame(s@, RecordTag::LT) == Err::<Seq<char>, RecordParsingErrorView>(
                    e@,
                ),
            },
    {
        match strip_identity(s, RecordTag::LT) {
            Ok(_) => Ok(TerminatingLocation),
            Err(e) => Err(e),
        }
    }
}

} // verus!
