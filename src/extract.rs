pub mod calendar;
pub mod header;
pub mod identifier;
pub mod location;
pub mod schedule;
pub mod tiploc;

pub use calendar::{Date, DateTime, Weekday, WeekdaySet};
pub use header::{ExtractType, ExtractTypeError, Header};
pub use identifier::{Crs, CrsParsingError};
pub use location::{
    IntermediateLocation, Nalco, NalcoParsingError, OriginLocation, PoMcpCode,
    PoMcpCodeParsingError, Stanox, StanoxParsingError, TerminatingLocation, Tiploc,
    TiplocParsingError,
};
pub use schedule::{BasicSchedule, BasicScheduleExtra, StpIndicator};
pub use tiploc::{TiplocAmend, TiplocDelete, TiplocInsert};

use vstd::prelude::*;
use vstd::string::*;
use vstd::utf8::is_ascii_chars;

use crate::error::{view_result, Error, ErrorView, RecordParsingError, RecordParsingErrorView};
use crate::extract::header::{spec_header, HeaderView};
use crate::extract::location::spec_origin_location;
use crate::extract::schedule::{spec_basic_schedule, BasicScheduleView};
use crate::extract::tiploc::{spec_tiploc_insert, TiplocInsertView};

verus! {

/// How a record relates to an earlier instance of the same record: a
/// [`TransactionType::Delete`] removes what a [`TransactionType::New`] added.
#[derive(Debug, Clone, Copy, PartialEq, Eq, Structural)]
pub enum TransactionType {
    /// Code `N`.
    New,
    /// Code `R`.
    Revise,
    /// Code `D`.
    Delete,
}

impl TransactionType {
    pub open spec fn spec_from_code(c: char) -> Option<TransactionType> {
        match c {
            'N' => Some(TransactionType::New),
            'R' => Some(TransactionType::Revise),
            'D' => Some(TransactionType::Delete),
            _ => None,
        }
    }

    pub fn from_code(c: char) -> (r: Option<TransactionType>)
        ensures
            r == Self::spec_from_code(c),
    {
        match c {
            'N' => Some(TransactionType::New),
            'R' => Some(TransactionType::Revise),
            'D' => Some(TransactionType::Delete),
            _ => None,
        }
    }
}

/// The two-character identity that opens every record line.
#[derive(Debug, Clone, Copy, PartialEq, Eq, Structural)]
pub enum RecordTag {
    HD,
    TI,
    TA,
    TD,
    AA,
    BS,
    BX,
    TN,
    LO,
    LI,
    CR,
    LT,
    LN,
    ZZ,
}

impl RecordTag {
    /// The two characters that spell the tag.
    pub open spec fn spec_chars(self) -> (char, char) {
        match self {
            RecordTag::HD => ('H', 'D'),
            RecordTag::TI => ('T', 'I'),
            RecordTag::TA => ('T', 'A'),
            RecordTag::TD => ('T', 'D'),
            RecordTag::AA => ('A', 'A'),
            RecordTag::BS => ('B', 'S'),
            RecordTag::BX => ('B', 'X'),
            RecordTag::TN => ('T', 'N'),
            RecordTag::LO => ('L', 'O'),
            RecordTag::LI => ('L', 'I'),
            RecordTag::CR => ('C', 'R'),
            RecordTag::LT => ('L', 'T'),
            RecordTag::LN => ('L', 'N'),
            RecordTag::ZZ => ('Z', 'Z'),
        }
    }

    /// The tag spelt by two characters, if any.
    pub open spec fn spec_from_chars(a: char, b: char) -> Option<RecordTag> {
        match (a, b) {
            ('H', 'D') => Some(RecordTag::HD),
            ('T', 'I') => Some(RecordTag::TI),
            ('T', 'A') => Some(RecordTag::TA),
            ('T', 'D') => Some(RecordTag::TD),
            ('A', 'A') => Some(RecordTag::AA),
            ('B', 'S') => Some(RecordTag::BS),
            ('B', 'X') => Some(RecordTag::BX),
            ('T', 'N') => Some(RecordTag::TN),
            ('L', 'O') => Some(RecordTag::LO),
            ('L', 'I') => Some(RecordTag::LI),
            ('C', 'R') => Some(RecordTag::CR),
            ('L', 'T') => Some(RecordTag::LT),
            ('L', 'N') => Some(RecordTag::LN),
            ('Z', 'Z') => Some(RecordTag::ZZ),
            _ => None,
        }
    }

    pub fn chars(self) -> (r: (char, char))
        ensures
            r == self.spec_chars(),
    {
        match self {
            RecordTag::HD => ('H', 'D'),
            RecordTag::TI => ('T', 'I'),
            RecordTag::TA => ('T', 'A'),
            RecordTag::TD => ('T', 'D'),
            RecordTag::AA => ('A', 'A'),
            RecordTag::BS => ('B', 'S'),
            RecordTag::BX => ('B', 'X'),
            RecordTag::TN => ('T', 'N'),
            RecordTag::LO => ('L', 'O'),
            RecordTag::LI => ('L', 'I'),
            RecordTag::CR => ('C', 'R'),
            RecordTag::LT => ('L', 'T'),
            RecordTag::LN => ('L', 'N'),
            RecordTag::ZZ => ('Z', 'Z'),
        }
    }

    pub fn from_chars(a: char, b: char) -> (r: Option<RecordTag>)
        ensures
            r == Self::spec_from_chars(a, b),
    {
        match (a, b) {
            ('H', 'D') => Some(RecordTag::HD),
            ('T', 'I') => Some(RecordTag::TI),
            ('T', 'A') => Some(RecordTag::TA),
            ('T', 'D') => Some(RecordTag::TD),
            ('A', 'A') => Some(RecordTag::AA),
            ('B', 'S') => Some(RecordTag::BS),
            ('B', 'X') => Some(RecordTag::BX),
            ('T', 'N') => Some(RecordTag::TN),
            ('L', 'O') => Some(RecordTag::LO),
            ('L', 'I') => Some(RecordTag::LI),
            ('C', 'R') => Some(RecordTag::CR),
            ('L', 'T') => Some(RecordTag::LT),
            ('L', 'N') => Some(RecordTag::LN),
            ('Z', 'Z') => Some(RecordTag::ZZ),
            _ => None,
        }
    }
}

/// The length of a record body.
pub const BODY_LEN: usize = 78;

/// The length of a record line that starts with its tag.
pub const TAGGED_LEN: usize = 80;

/// Checks a record line as a decoder expecting `tag` does, and yields its
/// 78-character body: first the length, then ASCII, then the tag of a tagged line.
pub open spec fn spec_frame(line: Seq<char>, tag: RecordTag) -> Result<
    Seq<char>,
    RecordParsingErrorView,
> {
    if line.len() != 78 && line.len() != 80 {
        Err(RecordParsingErrorView::InvalidLength)
    } else if !is_ascii_chars(line) {
        Err(RecordParsingErrorView::NonAscii)
    } else if line.len() == 80 {
        if line[0] != tag.spec_chars().0 || line[1] != tag.spec_chars().1 {
            Err(RecordParsingErrorView::UnexpectedRecordIdentity(tag))
        } else {
            Ok(line.subrange(2, 80))
        }
    } else {
        Ok(line)
    }
}

/// Applies the checks of [`spec_frame`] to `s`, returning the record body.
pub fn strip_identity<'a>(s: &'a str, tag: RecordTag) -> (r: Result<&'a str, RecordParsingError>)
    ensures
        match r {
            Ok(body) => spec_frame(s@, tag) == Ok::<Seq<char>, RecordParsingErrorView>(body@)
                && body.is_ascii() && body@.len() == 78,
            Err(e) => spec_frame(s@, tag) == Err::<Seq<char>, RecordParsingErrorView>(e@),
        },
{
    let n = s.unicode_len();
    if n != TAGGED_LEN && n != BODY_LEN {
        return Err(RecordParsingError::InvalidLength);
    }
    if !s.is_ascii() {
        return Err(RecordParsingError::NonAscii);
    }
    if n == TAGGED_LEN {
        let (a, b) = tag.chars();
        if s.get_char(0) != a || s.get_char(1) != b {
            return Err(RecordParsingError::UnexpectedRecordIdentity(tag));
        }
        Ok(s.substring_ascii(2, TAGGED_LEN))
    } else {
        Ok(s)
    }
}

/// One record of an extract, by its tag. The header, TIPLOC insert, basic
/// schedule and origin location records are decoded field by field; the
/// others keep the text after their tag, or nothing.
#[derive(Debug, Clone)]
pub enum Record {
    /// Header
    HD(Header),
    /// TIPLOC insert
    TI(TiplocInsert),
    /// TIPLOC amend
    TA(String),
    /// TIPLOC delete
    TD(String),
    /// Association
    AA,
    /// Basic schedule
    BS(BasicSchedule),
    /// Basic schedule extra details
    BX(String),
    /// Train specific note
    TN(String),
    /// Origin location
    LO(OriginLocation),
    /// Intermediate location
    LI(IntermediateLocation),
    /// Changes en route
    CR(String),
    /// Terminating location
    LT(TerminatingLocation),
    /// Location specific note
    LN(String),
    /// Trailer
    ZZ,
}

/// The mathematical value of a [`Record`].
pub enum RecordView {
    HD(HeaderView),
    TI(TiplocInsertView),
    TA(Seq<char>),
    TD(Seq<char>),
    AA,
    BS(BasicScheduleView),
    BX(Seq<char>),
    TN(Seq<char>),
    LO(Seq<char>),
    LI,
    CR(Seq<char>),
    LT,
    LN(Seq<char>),
    ZZ,
}

impl View for Record {
    type V = RecordView;

    open spec fn view(&self) -> RecordView {
        match self {
            Record::HD(h) => RecordView::HD(h@),
            Record::TI(t) => RecordView::TI(t@),
            Record::TA(s) => RecordView::TA(s@),
            Record::TD(s) => RecordView::TD(s@),
            Record::AA => RecordView::AA,
            Record::BS(b) => RecordView::BS(b@),
            Record::BX(s) => RecordView::BX(s@),
            Record::TN(s) => RecordView::TN(s@),
            Record::LO(o) => RecordView::LO(o@),
            Record::LI(_) => RecordView::LI,
            Record::CR(s) => RecordView::CR(s@),
            Record::LT(_) => RecordView::LT,
            Record::LN(s) => RecordView::LN(s@),
            Record::ZZ => RecordView::ZZ,
        }
    }
}

impl RecordView {
    pub open spec fn tag(self) -> RecordTag {
        match self {
            RecordView::HD(_) => RecordTag::HD,
            RecordView::TI(_) => RecordTag::TI,
            RecordView::TA(_) => RecordTag::TA,
            RecordView::TD(_) => RecordTag::TD,
            RecordView::AA => RecordTag::AA,
            RecordView::BS(_) => RecordTag::BS,
            RecordView::BX(_) => RecordTag::BX,
            RecordView::TN(_) => RecordTag::TN,
            RecordView::LO(_) => RecordTag::LO,
            RecordView::LI => RecordTag::LI,
            RecordView::CR(_) => RecordTag::CR,
            RecordView::LT => RecordTag::LT,
            RecordView::LN(_) => RecordTag::LN,
            RecordView::ZZ => RecordTag::ZZ,
        }
    }
}

/// A decoder's result as a record, or as the error of the line at `position`.
pub open spec fn spec_lift<T>(
    r: Result<T, RecordParsingErrorView>,
    record: RecordView,
    position: nat,
) -> Result<RecordView, ErrorView> {
    match r {
        Ok(_) => Ok(record),
        Err(e) => Err(ErrorView::InvalidRecord { position, error: e }),
    }
}

/// The record that the line at `position` holds: its first two characters pick
/// the decoder, which is handed the whole line.
pub open spec fn spec_record(line: Seq<char>, position: nat) -> Result<RecordView, ErrorView> {
    if line.len() < 2 {
        Err(ErrorView::UnknownRecordType { position, tag: line })
    } else {
        let rest = line.subrange(2, line.len() as int);
        match RecordTag::spec_from_chars(line[0], line[1]) {
            None => Err(ErrorView::UnknownRecordType { position, tag: line.subrange(0, 2) }),
            Some(tag) => match tag {
                RecordTag::HD => {
                    let r = spec_header(line);
                    spec_lift(r, RecordView::HD(r->Ok_0), position)
                },
                RecordTag::TI => {
                    let r = spec_tiploc_insert(line);
                    spec_lift(r, RecordView::TI(r->Ok_0), position)
                },
                RecordTag::BS => {
                    let r = spec_basic_schedule(line);
                    spec_lift(r, RecordView::BS(r->Ok_0), position)
                },
                RecordTag::LO => {
                    let r = spec_origin_location(line);
                    spec_lift(r, RecordView::LO(r->Ok_0), position)
                },
                RecordTag::LI => spec_lift(spec_frame(line, tag), RecordView::LI, position),
                RecordTag::LT => spec_lift(spec_frame(line, tag), RecordView::LT, position),
                RecordTag::TA => Ok(RecordView::TA(rest)),
                RecordTag::TD => Ok(RecordView::TD(rest)),
                RecordTag::AA => Ok(RecordView::AA),
                RecordTag::BX => Ok(RecordView::BX(rest)),
                RecordTag::TN => Ok(RecordView::TN(rest)),
                RecordTag::CR => Ok(RecordView::CR(rest)),
                RecordTag::LN => Ok(RecordView::LN(rest)),
                RecordTag::ZZ => Ok(RecordView::ZZ),
            },
        }
    }
}

impl Record {
    pub fn tag(&self) -> (r: RecordTag)
        ensures
            r == self@.tag(),
    {
        match self {
            Record::HD(_) => RecordTag::HD,
            Record::TI(_) => RecordTag::TI,
            Record::TA(_) => RecordTag::TA,
            Record::TD(_) => RecordTag::TD,
            Record::AA => RecordTag::AA,
            Record::BS(_) => RecordTag::BS,
            Record::BX(_) => RecordTag::BX,
            Record::TN(_) => RecordTag::TN,
            Record::LO(_) => RecordTag::LO,
            Record::LI(_) => RecordTag::LI,
            Record::CR(_) => RecordTag::CR,
            Record::LT(_) => RecordTag::LT,
            Record::LN(_) => RecordTag::LN,
            Record::ZZ => RecordTag::ZZ,
        }
    }

    /// Decodes the line at `position` with the decoder that its tag names.
    pub fn from_line(line: &str, position: usize) -> (r: Result<Record, Error>)
        ensures
            view_result(r) == spec_record(line@, position as nat),
    {
        let n = line.unicode_len();
        if n < 2 {
            return Err(Error::UnknownRecordType { position, tag: line.to_owned() });
        }
        let tag = match RecordTag::from_chars(line.get_char(0), line.get_char(1)) {
            Some(t) => t,
            None => {
                return Err(
                    Error::UnknownRecordType { position, tag: line.substring_char(0, 2).to_owned() },
                )
            },
        };
        let record = match tag {
            RecordTag::HD => match Header::from_str(line) {
                Ok(h) => Record::HD(h),
                Err(error) => return Err(Error::InvalidRecord { position, error }),
            },
            RecordTag::TI => match TiplocInsert::from_str(line) {
                Ok(t) => Record::TI(t),
                Err(error) => return Err(Error::InvalidRecord { position, error }),
            },
            RecordTag::BS => match BasicSchedule::from_str(line) {
                Ok(b) => Record::BS(b),
                Err(error) => return Err(Error::InvalidRecord { position, error }),
            },
            RecordTag::LO => match OriginLocation::from_str(line) {
                Ok(o) => Record::LO(o),
                Err(error) => return Err(Error::InvalidRecord { position, error }),
            },
            RecordTag::LI => match IntermediateLocation::from_str(line) {
                Ok(l) => Record::LI(l),
                Err(error) => return Err(Error::InvalidRecord { position, error }),
            },
            RecordTag::LT => match TerminatingLocation::from_str(line) {
                Ok(l) => Record::LT(l),
                Err(error) => return Err(Error::InvalidRecord { position, error }),
            },
            RecordTag::TA => Record::TA(line.substring_char(2, n).to_owned()),
            RecordTag::TD => Record::TD(line.substring_char(2, n).to_owned()),
            RecordTag::AA => Record::AA,
            RecordTag::BX => Record::BX(line.substring_char(2, n).to_owned()),
            RecordTag::TN => Record::TN(line.substring_char(2, n).to_owned()),
            RecordTag::CR => Record::CR(line.substring_char(2, n).to_owned()),
            RecordTag::LN => Record::LN(line.substring_char(2, n).to_owned()),
            RecordTag::ZZ => Record::ZZ,
        };
        Ok(record)
    }
}

/// A line whose length is neither 78 nor 80 fails every record decoder with
/// `InvalidLength`, whatever characters it holds.
pub proof fn lemma_wrong_length_fails(line: Seq<char>)
    requires
        line.len() != 78 && line.len() != 80,
    ensures
        forall|tag: RecordTag|
            #[trigger] spec_frame(line, tag) == Err::<Seq<char>, RecordParsingErrorView>(
                RecordParsingErrorView::InvalidLength,
            ),
        spec_header(line) == Err::<HeaderView, RecordParsingErrorView>(
            RecordParsingErrorView::InvalidLength,
        ),
        spec_tiploc_insert(line) == Err::<TiplocInsertView, RecordParsingErrorView>(
            RecordParsingErrorView::InvalidLength,
        ),
        spec_basic_schedule(line) == Err::<BasicScheduleView, RecordParsingErrorView>(
            RecordParsingErrorView::InvalidLength,
        ),
        spec_origin_location(line) == Err::<Seq<char>, RecordParsingErrorView>(
            RecordParsingErrorView::InvalidLength,
        ),
{
}

/// A line of 78 or 80 characters that holds a character outside ASCII fails
/// every record decoder with `NonAscii`, before its tag or any field is read.
pub proof fn lemma_non_ascii_fails(line: Seq<char>)
    requires
        line.len() == 78 || line.len() == 80,
        !is_ascii_chars(line),
    ensures
        forall|tag: RecordTag|
            #[trigger] spec_frame(line, tag) == Err::<Seq<char>, RecordParsingErrorView>(
                RecordParsingErrorView::NonAscii,
            ),
        spec_header(line) == Err::<HeaderView, RecordParsingErrorView>(
            RecordParsingErrorView::NonAscii,
        ),
        spec_tiploc_insert(line) == Err::<TiplocInsertView, RecordParsingErrorView>(
            RecordParsingErrorView::NonAscii,
        ),
        spec_basic_schedule(line) == Err::<BasicScheduleView, RecordParsingErrorView>(
            RecordParsingErrorView::NonAscii,
        ),
        spec_origin_location(line) == Err::<Seq<char>, RecordParsingErrorView>(
            RecordParsingErrorView::NonAscii,
        ),
{
}

} // verus!
