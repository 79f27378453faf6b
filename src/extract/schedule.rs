use vstd::prelude::*;
use vstd::string::*;

use crate::error::{RecordParsingError, RecordParsingErrorView};
use crate::extract::calendar::{
    date_from_ddmmyy, parse_ddmmyy, spec_weekdays, Date, Weekday, WeekdaySet,
};
use crate::extract::{spec_frame, strip_identity, RecordTag, TransactionType};

verus! {

/// Short Term Planning indicator: how a schedule relates to the permanent timetable.
#[derive(Debug, Clone, Copy, PartialEq, Eq, Structural)]
pub enum StpIndicator {
    /// Code `C`.
    Cancellation,
    /// Code `N`.
    New,
    /// Code `O`.
    Overlay,
    /// Code `P`.
    Permanent,
}

impl StpIndicator {
    pub open spec fn spec_from_code(c: char) -> Option<StpIndicator> {
        match c {
            'C' => Some(StpIndicator::Cancellation),
            'N' => Some(StpIndicator::New),
            'O' => Some(StpIndicator::Overlay),
            'P' => Some(StpIndicator::Permanent),
            _ => None,
        }
    }

    pub fn from_code(c: char) -> (r: Option<StpIndicator>)
        ensures
            r == Self::spec_from_code(c),
    {
        match c {
            'C' => Some(StpIndicator::Cancellation),
            'N' => Some(StpIndicator::New),
            'O' => Some(StpIndicator::Overlay),
            'P' => Some(StpIndicator::Permanent),
            _ => None,
        }
    }
}

/// Basic schedule record, which opens the records of one train schedule.
#[derive(Debug, Clone)]
pub struct BasicSchedule {
    pub transaction_type: TransactionType,
    pub train_uid: String,
    pub from: Date,
    pub to: Date,
    pub days: WeekdaySet,
    pub stp_indicator: StpIndicator,
}

/// The mathematical value of a [`BasicSchedule`].
pub struct BasicScheduleView {
    pub transaction_type: TransactionType,
    pub train_uid: Seq<char>,
    pub from: Date,
    pub to: Date,
    pub days: Set<Weekday>,
    pub stp_indicator: StpIndicator,
}

impl View for BasicSchedule {
    type V = BasicScheduleView;

    open spec fn view(&self) -> BasicScheduleView {
        BasicScheduleView {
            transaction_type: self.transaction_type,
            train_uid: self.train_uid@,
            from: self.from,
            to: self.to,
            days: self.days@,
            stp_indicator: self.stp_indicator,
        }
    }
}

/// The basic schedule that a line holds, sliced by the fixed columns of its body:
/// transaction type `[0,1)`, train UID `[1,7)`, first day `[7,13)`, last day
/// `[13,19)`, days run `[19,26)` and STP indicator `[77,78)`. The fields are
/// checked in the order first day, last day, transaction type, days run, STP
/// indicator. Nothing relates the first day to the last.
pub open spec fn spec_basic_schedule(line: Seq<char>) -> Result<
    BasicScheduleView,
    RecordParsingErrorView,
> {
    match spec_frame(line, RecordTag::BS) {
        Err(e) => Err(e),
        Ok(b) => match date_from_ddmmyy(b.subrange(7, 13)) {
            None => Err(RecordParsingErrorView::InvalidField("Date Runs From"@, b.subrange(7, 13))),
            Some(from) => match date_from_ddmmyy(b.subrange(13, 19)) {
                None => Err(RecordParsingErrorView::InvalidField("Date Runs To"@, b.subrange(13, 19))),
                Some(to) => match TransactionType::spec_from_code(b[0]) {
                    None => Err(
                        RecordParsingErrorView::InvalidField("Transaction Type"@, b.subrange(0, 1)),
                    ),
                    Some(transaction_type) => match spec_weekdays(b.subrange(19, 26)) {
                        None => Err(
                            RecordParsingErrorView::InvalidField("Days Run"@, b.subrange(19, 26)),
                        ),
                        Some(days) => match StpIndicator::spec_from_code(b[77]) {
                            None => Err(
                                RecordParsingErrorView::InvalidField(
                                    "STP Indicator"@,
                                    b.subrange(77, 78),
                                ),
                            ),
                            Some(stp_indicator) => Ok(
                                BasicScheduleView {
                                    transaction_type,
                                    train_uid: b.subrange(1, 7),
                                    from,
                                    to,
                                    days,
                                    stp_indicator,
                                },
                            ),
                        },
                    },
                },
            },
        },
    }
}

impl BasicSchedule {
    pub fn from_str(s: &str) -> (r: Result<BasicSchedule, RecordParsingError>)
        ensures
            match r {
                Ok(t) => spec_basic_schedule(s@) == Ok::<BasicScheduleView, RecordParsingErrorView>(
                    t@,
                ) && t.from.wf() && t.to.wf(),
                Err(e) => spec_basic_schedule(s@) == Err::<
                    BasicScheduleView,
                    RecordParsingErrorView,
                >(e@),
            },
    {
        let body = match strip_identity(s, RecordTag::BS) {
            Ok(b) => b,
            Err(e) => return Err(e),
        };
        let from_field = body.substring_ascii(7, 13);
        let from = match parse_ddmmyy(from_field) {
            Some(d) => d,
            None => {
                return Err(RecordParsingError::InvalidField("Date Runs From", from_field.to_owned()))
            },
        };
        let to_field = body.substring_ascii(13, 19);
        let to = match parse_ddmmyy(to_field) {
            Some(d) => d,
            None => {
                return Err(RecordParsingError::InvalidField("Date Runs To", to_field.to_owned()))
            },
        };
        let transaction_type = match TransactionType::from_code(body.get_char(0)) {
            Some(t) => t,
            None => {
                return Err(
                    RecordParsingError::InvalidField(
                        "Transaction Type",
                        body.substring_ascii(0, 1).to_owned(),
                    ),
                )
            },
        };
        let days_field = body.substring_ascii(19, 26);
        let days = match WeekdaySet::from_str(days_field) {
            Some(d) => d,
            None => {
                return Err(RecordParsingError::InvalidField("Days Run", days_field.to_owned()))
            },
        };
        let stp_indicator = match StpIndicator::from_code(body.get_char(77)) {
            Some(t) => t,
            None => {
                return Err(
                    RecordParsingError::InvalidField(
                        "STP Indicator",
                        body.substring_ascii(77, 78).to_owned(),
                    ),
                )
            },
        };
        Ok(
            BasicSchedule {
                transaction_type,
                train_uid: body.substring_ascii(1, 7).to_owned(),
                from,
                to,
                days,
                stp_indicator,
            },
        )
    }
}

/// Basic schedule extra details record; its fields are not decoded.
#[derive(Debug, Clone, Copy, PartialEq, Eq, Structural)]
pub struct BasicScheduleExtra;

/// A basic schedule whose fields are each valid decodes, with the dates as
/// read, whichever of its first and last day comes first.
pub proof fn lemma_dates_in_any_order(line: Seq<char>)
    requires
        spec_frame(line, RecordTag::BS) is Ok,
        ({
            let b = spec_frame(line, RecordTag::BS)->Ok_0;
            &&& date_from_ddmmyy(b.subrange(7, 13)) is Some
            &&& date_from_ddmmyy(b.subrange(13, 19)) is Some
            &&& TransactionType::spec_from_code(b[0]) is Some
            &&& spec_weekdays(b.subrange(19, 26)) is Some
            &&& StpIndicator::spec_from_code(b[77]) is Some
        }),
    ensures
        ({
            let b = spec_frame(line, RecordTag::BS)->Ok_0;
            &&& spec_basic_schedule(line) is Ok
            &&& spec_basic_schedule(line)->Ok_0.from == date_from_ddmmyy(b.subrange(7, 13))->Some_0
            &&& spec_basic_schedule(line)->Ok_0.to == date_from_ddmmyy(b.subrange(13, 19))->Some_0
        }),
{
}

} // verus!
