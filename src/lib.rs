//! Decoding of CIF timetable extracts: fixed-width, line-oriented records
//! that are checked field by field and then nested into a timetable.

pub mod error;
pub mod extract;
pub mod lines;
pub mod timetable;

pub use timetable::{Timetable, TrainSchedule};

use vstd::prelude::*;
use vstd::string::*;

use crate::error::{Error, ErrorView};
use crate::extract::{spec_record, Record, RecordTag, RecordView};
use crate::lines::{lemma_lines_len, lemma_split_lines, spec_lines, split_line};
use crate::timetable::{assemble, lemma_assemble_done, spec_timetable, AssemblyState, TimetableView};

verus! {

/// A forward-only cursor over the lines of an extract that yields one decoded
/// record per line.
pub struct Deserializer<'de> {
    input: &'de str,
    position: usize,
}

impl<'de> Deserializer<'de> {
    /// The lines still to be read.
    pub closed spec fn remaining(&self) -> Seq<Seq<char>> {
        spec_lines(self.input@)
    }

    /// The position of the next record, counted from 0.
    pub closed spec fn position(&self) -> nat {
        self.position as nat
    }

    pub closed spec fn wf(&self) -> bool {
        self.position + spec_lines(self.input@).len() <= usize::MAX
    }

    pub fn from_str(input: &'de str) -> (r: Self)
        ensures
            r.wf(),
            r.remaining() == spec_lines(input@),
            r.position() == 0,
    {
        // The count of characters fits in a usize, and so does the count of lines.
        let _chars = input.unicode_len();
        proof {
            lemma_lines_len(input@);
        }
        Deserializer { input, position: 0 }
    }

    pub fn record_position(&self) -> (r: usize)
        ensures
            r == self.position(),
    {
        self.position
    }

    /// Reads the next line and decodes it; `Ok(None)` once no line is left.
    pub fn next_record(&mut self) -> (r: Result<Option<Record>, Error>)
        requires
            old(self).wf(),
        ensures
            final(self).wf(),
            old(self).remaining().len() == 0 ==> {
                &&& r matches Ok(None)
                &&& final(self).remaining() == old(self).remaining()
                &&& final(self).position() == old(self).position()
            },
            old(self).remaining().len() > 0 ==> {
                &&& final(self).remaining() == old(self).remaining().drop_first()
                &&& final(self).position() == old(self).position() + 1
                &&& match spec_record(old(self).remaining()[0], old(self).position()) {
                    Ok(v) => (r matches Ok(Some(rec)) && rec@ == v),
                    Err(ev) => (r matches Err(e) && e@ == ev),
                }
            },
    {
        if self.input.is_empty() {
            proof {
                assert(self.input@.len() == 0);
            }
            return Ok(None);
        }
        let (line, rest) = match split_line(self.input) {
            Some(parts) => parts,
            None => (self.input, self.input.substring_char(0, 0)),
        };
        proof {
            lemma_split_lines(self.input@, line@, rest@);
        }
        self.input = rest;
        let position = self.position;
        self.position = position + 1;
        match Record::from_line(line, position) {
            Ok(rec) => Ok(Some(rec)),
            Err(e) => Err(e),
        }
    }
}

/// The records that `lines` hold, the first at `position`, or the error of the
/// first line that does not decode.
pub open spec fn spec_decode_lines(lines: Seq<Seq<char>>, position: nat) -> Result<
    Seq<RecordView>,
    ErrorView,
>
    decreases lines.len(),
{
    if lines.len() == 0 {
        Ok(seq![])
    } else {
        match spec_record(lines[0], position) {
            Err(e) => Err(e),
            Ok(r) => match spec_decode_lines(lines.drop_first(), position + 1) {
                Err(e) => Err(e),
                Ok(rs) => Ok(seq![r] + rs),
            },
        }
    }
}

/// `done` followed by what `rest` holds, if it holds records.
pub open spec fn spec_prepend(done: Seq<RecordView>, rest: Result<Seq<RecordView>, ErrorView>) -> Result<
    Seq<RecordView>,
    ErrorView,
> {
    match rest {
        Ok(rs) => Ok(done + rs),
        Err(e) => Err(e),
    }
}

/// Decoded records mirror the lines one for one, in order, each with the tag
/// that opens its line.
pub proof fn lemma_records_mirror_lines(lines: Seq<Seq<char>>, position: nat)
    ensures
        spec_decode_lines(lines, position) matches Ok(rs) ==> {
            &&& rs.len() == lines.len()
            &&& forall|i: int|
                0 <= i < rs.len() ==> lines[i].len() >= 2 && Some(#[trigger] rs[i].tag())
                    == RecordTag::spec_from_chars(lines[i][0], lines[i][1])
        },
    decreases lines.len(),
{
    if lines.len() > 0 {
        lemma_records_mirror_lines(lines.drop_first(), position + 1);
        if let Ok(rs) = spec_decode_lines(lines, position) {
            let r = spec_record(lines[0], position)->Ok_0;
            let tail = spec_decode_lines(lines.drop_first(), position + 1)->Ok_0;
            assert(rs == seq![r] + tail);
            assert forall|i: int| 0 <= i < rs.len() implies lines[i].len() >= 2 && Some(
                #[trigger] rs[i].tag(),
            ) == RecordTag::spec_from_chars(lines[i][0], lines[i][1]) by {
                if i > 0 {
                    assert(rs[i] == tail[i - 1]);
                    assert(lines[i] == lines.drop_first()[i - 1]);
                }
            }
        }
    }
}

/// Decodes every line of `input` into a record, in order; the first line that
/// does not decode fails the whole input.
pub fn records_from_str(input: &str) -> (r: Result<Vec<Record>, Error>)
    ensures
        match r {
            Ok(v) => spec_decode_lines(spec_lines(input@), 0) == Ok::<Seq<RecordView>, ErrorView>(
                v@.map_values(|x: Record| x@),
            ),
            Err(e) => spec_decode_lines(spec_lines(input@), 0) == Err::<Seq<RecordView>, ErrorView>(
                e@,
            ),
        },
{
    let mut de = Deserializer::from_str(input);
    let mut records: Vec<Record> = Vec::new();
    loop
        invariant
            de.wf(),
            spec_decode_lines(spec_lines(input@), 0) == spec_prepend(
                records@.map_values(|x: Record| x@),
                spec_decode_lines(de.remaining(), de.position()),
            ),
        decreases de.remaining().len(),
    {
        let ghost before = records@.map_values(|x: Record| x@);
        match de.next_record() {
            Ok(Some(rec)) => {
                records.push(rec);
                assert(records@.map_values(|x: Record| x@) =~= before.push(rec@));
                proof {
                    let tail = spec_decode_lines(de.remaining(), de.position());
                    if let Ok(rs) = tail {
                        assert(before + (seq![rec@] + rs) =~= before.push(rec@) + rs);
                    }
                }
            },
            Ok(None) => {
                assert(before + seq![] =~= before);
                return Ok(records);
            },
            Err(e) => return Err(e),
        }
    }
}

/// Decodes a whole extract into a timetable: a header, the TIPLOC inserts,
/// amends and deletes, the train schedules, and the trailer. The trailer `ZZ`
/// is required: an input that ends without it fails, reporting `ZZ` as
/// expected where the input ends.
pub fn from_str(input: &str) -> (r: Result<Timetable, Error>)
    ensures
        match r {
            Ok(t) => spec_timetable(input@) == Ok::<TimetableView, ErrorView>(t@),
            Err(e) => spec_timetable(input@) == Err::<TimetableView, ErrorView>(e@),
        },
{
    match assemble(input, false) {
        Ok(a) => {
            proof {
                lemma_assemble_done(AssemblyState::initial(false), spec_lines(input@), 0);
            }
            Ok(a.into_timetable())
        },
        Err(e) => Err(e),
    }
}

} // verus!
