use vstd::prelude::*;
use vstd::string::*;

use crate::error::{RecordParsingError, RecordParsingErrorView};
use crate::extract::calendar::{datetime_from_ddmmyyhhmm, parse_ddmmyyhhmm, DateTime};
use crate::extract::{spec_frame, strip_identity, RecordTag};

verus! {

/// The character of a header that is not `U` or `F`.
#[derive(Debug, Clone, Copy, PartialEq, Eq, Structural)]
pub enum ExtractTypeError {
    InvalidCharacter,
}

/// Whether an extract updates an earlier one or stands alone.
#[derive(Debug, Clone, Copy, PartialEq, Eq, Structural)]
pub enum ExtractType {
    /// Code `U`.
    Update,
    /// Code `F`.
    Full,
}

/// The extract type that a one-character text names.
pub open spec fn spec_extract_type(s: Seq<char>) -> Result<ExtractType, ExtractTypeError> {
    if s == seq!['U'] {
        Ok(ExtractType::Update)
    } else if s == seq!['F'] {
        Ok(ExtractType::Full)
    } else {
        Err(ExtractTypeError::InvalidCharacter)
    }
}

impl ExtractType {
    pub fn from_str(s: &str) -> (r: Result<ExtractType, ExtractTypeError>)
        ensures
            r == spec_extract_type(s@),
    {
        if s.unicode_len() != 1 {
            return Err(ExtractTypeError::InvalidCharacter);
        }
        let c = s.get_char(0);
        if c == 'U' {
            assert(s@ =~= seq!['U']);
            Ok(ExtractType::Update)
        } else if c == 'F' {
            assert(s@ =~= seq!['F']);
            Ok(ExtractType::Full)
        } else {
            Err(ExtractTypeError::InvalidCharacter)
        }
    }
}

/// The header record, which opens an extract.
#[derive(Debug, Clone)]
pub struct Header {
    pub file_mainframe_identity: String,
    pub datetime_of_extract: DateTime,
    pub current_file_ref: String,
    pub extract_type: ExtractType,
    pub last_file_ref: String,
    pub version: String,
    pub extract_start_date: String,
    pub extract_end_date: String,
}

/// The mathematical value of a [`Header`].
pub struct HeaderView {
    pub file_mainframe_identity: Seq<char>,
    pub datetime_of_extract: DateTime,
    pub current_file_ref: Seq<char>,
    pub extract_type: ExtractType,
    pub last_file_ref: Seq<char>,
    pub version: Seq<char>,
    pub extract_start_date: Seq<char>,
    pub extract_end_date: Seq<char>,
}

impl View for Header {
    type V = HeaderView;

    open spec fn view(&self) -> HeaderView {
        HeaderView {
            file_mainframe_identity: self.file_mainframe_identity@,
            datetime_of_extract: self.datetime_of_extract,
            current_file_ref: self.current_file_ref@,
            extract_type: self.extract_type,
            last_file_ref: self.last_file_ref@,
            version: self.version@,
            extract_start_date: self.extract_start_date@,
            extract_end_date: self.extract_end_date@,
        }
    }
}

/// The header that a line holds, sliced by the fixed columns of its body:
/// identity `[0,20)`, date and time `[20,30)`, current file `[30,37)`, last file
/// `[37,44)`, extract type `[44,45)`, version `[45,46)`, start `[46,52)` and end
/// `[52,58)` of the extract. The date and time is read before the extract type.
pub open spec fn spec_header(line: Seq<char>) -> Result<HeaderView, RecordParsingErrorView> {
    match spec_frame(line, RecordTag::HD) {
        Err(e) => Err(e),
        Ok(b) => match datetime_from_ddmmyyhhmm(b.subrange(20, 30)) {
            None => Err(
                RecordParsingErrorView::InvalidField(
                    "Date and Time of Extract"@,
                    b.subrange(20, 30),
                ),
            ),
            Some(datetime) => match spec_extract_type(b.subrange(44, 45)) {
                Err(_) => Err(RecordParsingErrorView::InvalidField("Extract Type"@, b.subrange(44, 45))),
                Ok(extract_type) => Ok(
                    HeaderView {
                        file_mainframe_identity: b.subrange(0, 20),
                        datetime_of_extract: datetime,
                        current_file_ref: b.subrange(30, 37),
                        extract_type,
                        last_file_ref: b.subrange(37, 44),
                        version: b.subrange(45, 46),
                        extract_start_date: b.subrange(46, 52),
                        extract_end_date: b.subrange(52, 58),
                    },
                ),
            },
        },
    }
}

impl Header {
    pub fn from_str(s: &str) -> (r: Result<Header, RecordParsingError>)
        ensures
            match r {
                Ok(h) => spec_header(s@) == Ok::<HeaderView, RecordParsingErrorView>(h@)
                    && h.datetime_of_extract.wf(),
                Err(e) => spec_header(s@) == Err::<HeaderView, RecordParsingErrorView>(e@),
            },
    {
        let body = match strip_identity(s, RecordTag::HD) {
            Ok(b) => b,
            Err(e) => return Err(e),
        };
        let datetime_field = body.substring_ascii(20, 30);
        let datetime_of_extract = match parse_ddmmyyhhmm(datetime_field) {
            Some(t) => t,
            None => {
                return Err(
                    RecordParsingError::InvalidField(
                        "Date and Time of Extract",
                        datetime_field.to_owned(),
                    ),
                );
            },
        };
        let extract_type_field = body.substring_ascii(44, 45);
        let extract_type = match ExtractType::from_str(extract_type_field) {
            Ok(t) => t,
            Err(_) => {
                return Err(
                    RecordParsingError::InvalidField("Extract Type", extract_type_field.to_owned()),
                );
            },
        };
        Ok(
            Header {
                file_mainframe_identity: body.substring_ascii(0, 20).to_owned(),
                datetime_of_extract,
                current_file_ref: body.substring_ascii(30, 37).to_owned(),
                extract_type,
                last_file_ref: body.substring_ascii(37, 44).to_owned(),
                version: body.substring_ascii(45, 46).to_owned(),
                extract_start_date: body.substring_ascii(46, 52).to_owned(),
                extract_end_date: body.substring_ascii(52, 58).to_owned(),
            },
        )
    }
}

} // verus!
