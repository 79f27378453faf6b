use vstd::prelude::*;

use crate::extract::RecordTag;

verus! {

/// Why a single record line could not be decoded.
#[derive(Debug, Clone)]
pub enum RecordParsingError {
    /// The line is neither 78 nor 80 characters long.
    InvalidLength,
    /// A field failed its own validation: the field's name and its raw text.
    InvalidField(&'static str, String),
    /// The line holds a character outside ASCII.
    NonAscii,
    /// An 80-character line does not start with the tag of the decoder used.
    UnexpectedRecordIdentity(RecordTag),
}

/// The mathematical value of a [`RecordParsingError`].
pub enum RecordParsingErrorView {
    InvalidLength,
    InvalidField(Seq<char>, Seq<char>),
    NonAscii,
    UnexpectedRecordIdentity(RecordTag),
}

impl View for RecordParsingError {
    type V = RecordParsingErrorView;

    open spec fn view(&self) -> RecordParsingErrorView {
        match self {
            RecordParsingError::InvalidLength => RecordParsingErrorView::InvalidLength,
            RecordParsingError::InvalidField(name, raw) => RecordParsingErrorView::InvalidField(
                name@,
                raw@,
            ),
            RecordParsingError::NonAscii => RecordParsingErrorView::NonAscii,
            RecordParsingError::UnexpectedRecordIdentity(tag) => {
                RecordParsingErrorView::UnexpectedRecordIdentity(*tag)
            },
        }
    }
}

/// Why an extract could not be decoded. Positions count records from 0.
#[derive(Debug, Clone)]
pub enum Error {
    /// The line at `position` does not start with a known record tag; `tag`
    /// holds its first two characters, or fewer on a shorter line.
    UnknownRecordType { position: usize, tag: String },
    /// The line at `position` has a known tag but does not decode.
    InvalidRecord { position: usize, error: RecordParsingError },
    /// The record at `position` breaks the order of a timetable: `expected`
    /// names the record that could stand there, `observed` the one that does;
    /// `None` stands for the end of the input on either side.
    UnexpectedRecord { position: usize, expected: Option<RecordTag>, observed: Option<RecordTag> },
}

/// The mathematical value of an [`Error`].
pub enum ErrorView {
    UnknownRecordType { position: nat, tag: Seq<char> },
    InvalidRecord { position: nat, error: RecordParsingErrorView },
    UnexpectedRecord { position: nat, expected: Option<RecordTag>, observed: Option<RecordTag> },
}

impl View for Error {
    type V = ErrorView;

    open spec fn view(&self) -> ErrorView {
        match self {
            Error::UnknownRecordType { position, tag } => ErrorView::UnknownRecordType {
                position: *position as nat,
                tag: tag@,
            },
            Error::InvalidRecord { position, error } => ErrorView::InvalidRecord {
                position: *position as nat,
                error: error@,
            },
            Error::UnexpectedRecord { position, expected, observed } => {
                ErrorView::UnexpectedRecord {
                    position: *position as nat,
                    expected: *expected,
                    observed: *observed,
                }
            },
        }
    }
}

/// The view of a `Result` whose two sides both have views.
pub open spec fn view_result<T: View, E: View>(r: Result<T, E>) -> Result<T::V, E::V> {
    match r {
        Ok(t) => Ok(t@),
        Err(e) => Err(e@),
    }
}

/// The view of a `Result` whose error is its own value.
pub open spec fn view_ok<T: View, E>(r: Result<T, E>) -> Result<T::V, E> {
    match r {
        Ok(t) => Ok(t@),
        Err(e) => Err(e),
    }
}

} // verus!
