use vstd::prelude::*;
use vstd::string::*;

verus! {

/// A calendar date as year, month (1 to 12) and day of the month (1 to 31).
#[derive(Debug, Clone, Copy, PartialEq, Eq, Structural)]
pub struct Date {
    pub year: i32,
    pub month: u32,
    pub day: u32,
}

impl Date {
    pub open spec fn wf(self) -> bool {
        1 <= self.month <= 12 && 1 <= self.day <= 31
    }
}

/// A date with a time of day to the minute.
#[derive(Debug, Clone, Copy, PartialEq, Eq, Structural)]
pub struct DateTime {
    pub date: Date,
    pub hour: u32,
    pub minute: u32,
}

impl DateTime {
    pub open spec fn wf(self) -> bool {
        self.date.wf() && self.hour < 24 && self.minute < 60
    }
}

/// The date that a `DDMMYY` text reads as, if it is one.
pub uninterp spec fn date_from_ddmmyy(s: Seq<char>) -> Option<Date>;

/// The date and time that a `DDMMYYHHMM` text reads as, if it is one.
pub uninterp spec fn datetime_from_ddmmyyhhmm(s: Seq<char>) -> Option<DateTime>;

/// Relies on chrono's `NaiveDate::parse_from_str` with the format `%d%m%y`: its
/// result depends on the text alone, and a `NaiveDate` has a month from 1 to 12
/// and a day from 1 to 31.
#[verifier::external_body]
pub(crate) fn parse_ddmmyy(s: &str) -> (r: Option<Date>)
    ensures
        r == date_from_ddmmyy(s@),
        r matches Some(d) ==> d.wf(),
{
    match chrono::NaiveDate::parse_from_str(s, "%d%m%y") {
        Ok(d) => Some(
            Date {
                year: chrono::Datelike::year(&d),
                month: chrono::Datelike::month(&d),
                day: chrono::Datelike::day(&d),
            },
        ),
        Err(_) => None,
    }
}

/// Relies on chrono's `NaiveDateTime::parse_from_str` with the format
/// `%d%m%y%H%M`: its result depends on the text alone, a `NaiveDate` has a month
/// from 1 to 12 and a day from 1 to 31, and a time an hour below 24 and a minute
/// below 60.
#[verifier::external_body]
pub(crate) fn parse_ddmmyyhhmm(s: &str) -> (r: Option<DateTime>)
    ensures
        r == datetime_from_ddmmyyhhmm(s@),
        r matches Some(t) ==> t.wf(),
{
    match chrono::NaiveDateTime::parse_from_str(s, "%d%m%y%H%M") {
        Ok(t) => Some(
            DateTime {
                date: Date {
                    year: chrono::Datelike::year(&t),
                    month: chrono::Datelike::month(&t),
                    day: chrono::Datelike::day(&t),
                },
                hour: chrono::Timelike::hour(&t),
                minute: chrono::Timelike::minute(&t),
            },
        ),
        Err(_) => None,
    }
}

/// A day of the week.
#[derive(Debug, Clone, Copy, PartialEq, Eq, Structural)]
pub enum Weekday {
    Mon,
    Tue,
    Wed,
    Thu,
    Fri,
    Sat,
    Sun,
}

impl Weekday {
    /// The position of the day in a week that starts on Monday.
    pub open spec fn index(self) -> int {
        match self {
            Weekday::Mon => 0,
            Weekday::Tue => 1,
            Weekday::Wed => 2,
            Weekday::Thu => 3,
            Weekday::Fri => 4,
            Weekday::Sat => 5,
            Weekday::Sun => 6,
        }
    }

    pub fn position(self) -> (r: usize)
        ensures
            r == self.index(),
    {
        match self {
            Weekday::Mon => 0,
            Weekday::Tue => 1,
            Weekday::Wed => 2,
            Weekday::Thu => 3,
            Weekday::Fri => 4,
            Weekday::Sat => 5,
            Weekday::Sun => 6,
        }
    }
}

/// The days of the week on which something happens.
#[derive(Debug, Clone)]
pub struct WeekdaySet {
    runs: Vec<bool>,
}

/// The set of days that a 7-character run of `0`/`1` flags, Monday first, names.
pub open spec fn spec_weekdays(s: Seq<char>) -> Option<Set<Weekday>> {
    if s.len() == 7 && forall|i: int| 0 <= i < 7 ==> s[i] == '0' || s[i] == '1' {
        Some(Set::new(|d: Weekday| s[d.index()] == '1'))
    } else {
        None
    }
}

impl View for WeekdaySet {
    type V = Set<Weekday>;

    closed spec fn view(&self) -> Set<Weekday> {
        Set::new(|d: Weekday| d.index() < self.runs@.len() && self.runs@[d.index()])
    }
}

impl WeekdaySet {
    /// Reads a run of seven `0`/`1` flags, Monday first; `None` when the text is
    /// anything else.
    pub fn from_str(s: &str) -> (r: Option<WeekdaySet>)
        ensures
            r matches Some(w) ==> spec_weekdays(s@) == Some(w@),
            r is None ==> spec_weekdays(s@) is None,
    {
        if s.unicode_len() != 7 {
            return None;
        }
        let mut runs: Vec<bool> = Vec::new();
        let mut i: usize = 0;
        while i < 7
            invariant
                s@.len() == 7,
                0 <= i <= 7,
                runs@.len() == i,
                forall|j: int| 0 <= j < i ==> (s@[j] == '0' || s@[j] == '1'),
                forall|j: int| 0 <= j < i ==> runs@[j] == (s@[j] == '1'),
            decreases 7 - i,
        {
            let c = s.get_char(i);
            if c == '1' {
                runs.push(true);
            } else if c == '0' {
                runs.push(false);
            } else {
                return None;
            }
            i = i + 1;
        }
        let w = WeekdaySet { runs };
        assert(w@ =~= Set::new(|d: Weekday| s@[d.index()] == '1'));
        Some(w)
    }

    pub fn contains(&self, d: Weekday) -> (r: bool)
        ensures
            r == self@.contains(d),
    {
        let i = d.position();
        i < self.runs.len() && self.runs[i]
    }
}

} // verus!
