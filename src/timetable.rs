use vstd::prelude::*;

use crate::error::{Error, ErrorView};
use crate::extract::header::{Header, HeaderView};
use crate::extract::location::{IntermediateLocation, OriginLocation, TerminatingLocation};
use crate::extract::schedule::{BasicSchedule, BasicScheduleExtra, BasicScheduleView};
use crate::extract::tiploc::{TiplocAmend, TiplocDelete, TiplocInsert, TiplocInsertView};
use crate::extract::{spec_record, Record, RecordTag, RecordView};
use crate::lines::spec_lines;
use crate::Deserializer;

verus! {

/// The records of one train: a basic schedule, its extra details, the origin,
/// the intermediate locations and the terminating location, in that order.
#[derive(Debug, Clone)]
pub struct TrainSchedule {
    pub bs: BasicSchedule,
    pub bsx: BasicScheduleExtra,
    pub origin_location: OriginLocation,
    pub intermediate_locations: Vec<IntermediateLocation>,
    pub terminating_location: TerminatingLocation,
}

/// The mathematical value of a [`TrainSchedule`].
pub struct TrainScheduleView {
    pub bs: BasicScheduleView,
    pub bsx: BasicScheduleExtra,
    pub origin_location: Seq<char>,
    pub intermediate_locations: Seq<IntermediateLocation>,
    pub terminating_location: TerminatingLocation,
}

impl View for TrainSchedule {
    type V = TrainScheduleView;

    open spec fn view(&self) -> TrainScheduleView {
        TrainScheduleView {
            bs: self.bs@,
            bsx: self.bsx,
            origin_location: self.origin_location@,
            intermediate_locations: self.intermediate_locations@,
            terminating_location: self.terminating_location,
        }
    }
}

/// A whole extract: one header, the TIPLOC inserts, amends and deletes, and
/// the train schedules, each group in the order of the input.
#[derive(Debug, Clone)]
pub struct Timetable {
    pub header: Header,
    pub tiploc_inserts: Vec<TiplocInsert>,
    pub tiploc_amends: Vec<TiplocAmend>,
    pub tiploc_deletes: Vec<TiplocDelete>,
    pub train_schedules: Vec<TrainSchedule>,
}

/// The mathematical value of a [`Timetable`].
pub struct TimetableView {
    pub header: HeaderView,
    pub tiploc_inserts: Seq<TiplocInsertView>,
    pub tiploc_amends: Seq<TiplocAmend>,
    pub tiploc_deletes: Seq<TiplocDelete>,
    pub train_schedules: Seq<TrainScheduleView>,
}

impl View for Timetable {
    type V = TimetableView;

    open spec fn view(&self) -> TimetableView {
        TimetableView {
            header: self.header@,
            tiploc_inserts: self.tiploc_inserts@.map_values(|t: TiplocInsert| t@),
            tiploc_amends: self.tiploc_amends@,
            tiploc_deletes: self.tiploc_deletes@,
            train_schedules: self.train_schedules@.map_values(|t: TrainSchedule| t@),
        }
    }
}

/// Where the assembly of records stands: what the next record may be.
#[derive(Debug, Clone, Copy, PartialEq, Eq, Structural)]
pub enum Stage {
    /// Before the header.
    Header,
    /// Among the TIPLOC inserts.
    TiplocInserts,
    /// Among the TIPLOC amends.
    TiplocAmends,
    /// Among the TIPLOC deletes.
    TiplocDeletes,
    /// Between train schedules.
    Schedules,
    /// After a basic schedule.
    AfterBasic,
    /// After a basic schedule's extra details.
    AfterExtra,
    /// After an origin location, among the intermediate locations.
    Locations,
    /// After the trailer, or after the single train schedule asked for.
    Done,
}

/// The records taken so far, grouped, and the stage reached.
pub struct AssemblyState {
    pub stage: Stage,
    /// Whether a single train schedule is assembled, rather than a timetable.
    pub single: bool,
    pub header: Option<HeaderView>,
    pub tiploc_inserts: Seq<TiplocInsertView>,
    pub tiploc_amends: Seq<TiplocAmend>,
    pub tiploc_deletes: Seq<TiplocDelete>,
    pub train_schedules: Seq<TrainScheduleView>,
    /// The open train schedule's basic schedule, origin and intermediate locations.
    pub basic: Option<BasicScheduleView>,
    pub origin: Option<Seq<char>>,
    pub intermediates: Seq<IntermediateLocation>,
}

impl AssemblyState {
    /// The state before any record: a timetable starts with its header; a
    /// single train schedule with its basic schedule.
    pub open spec fn initial(single: bool) -> AssemblyState {
        AssemblyState {
            stage: if single {
                Stage::Schedules
            } else {
                Stage::Header
            },
            single,
            header: None,
            tiploc_inserts: seq![],
            tiploc_amends: seq![],
            tiploc_deletes: seq![],
            train_schedules: seq![],
            basic: None,
            origin: None,
            intermediates: seq![],
        }
    }

    pub open spec fn wf(self) -> bool {
        &&& (self.single ==> self.stage != Stage::Header)
        &&& (!self.single && self.stage != Stage::Header ==> self.header is Some)
        &&& (self.stage == Stage::AfterBasic || self.stage == Stage::AfterExtra || self.stage
            == Stage::Locations ==> self.basic is Some)
        &&& (self.stage == Stage::Locations ==> self.origin is Some)
        &&& (self.single ==> self.train_schedules.len() == if self.stage == Stage::Done {
            1int
        } else {
            0int
        })
    }

    /// The record that is reported as expected when the input ends here.
    pub open spec fn expected_at_end(self) -> Option<RecordTag> {
        match self.stage {
            Stage::Header => Some(RecordTag::HD),
            Stage::AfterBasic => Some(RecordTag::BX),
            Stage::AfterExtra => Some(RecordTag::LO),
            Stage::Locations => Some(RecordTag::LT),
            Stage::Done => None,
            _ => if self.single {
                Some(RecordTag::BS)
            } else {
                Some(RecordTag::ZZ)
            },
        }
    }

    /// The timetable that a completed assembly holds.
    pub open spec fn timetable(self) -> TimetableView {
        TimetableView {
            header: self.header->Some_0,
            tiploc_inserts: self.tiploc_inserts,
            tiploc_amends: self.tiploc_amends,
            tiploc_deletes: self.tiploc_deletes,
            train_schedules: self.train_schedules,
        }
    }
}

/// Takes one record: `Err` holds the record that was expected instead (`None`
/// for the end of the input). The TIPLOC groups come in the order inserts,
/// amends, deletes, each possibly empty; a train schedule is `BS BX LO LI* LT`;
/// the trailer `ZZ` closes a timetable. Where neither a TIPLOC record nor the
/// trailer fits, a basic schedule is what is expected.
pub open spec fn spec_step(a: AssemblyState, r: RecordView) -> Result<AssemblyState, Option<RecordTag>> {
    match a.stage {
        Stage::Header => match r {
            RecordView::HD(h) => Ok(AssemblyState { stage: Stage::TiplocInserts, header: Some(h), ..a }),
            _ => Err(Some(RecordTag::HD)),
        },
        Stage::AfterBasic => match r {
            RecordView::BX(_) => Ok(AssemblyState { stage: Stage::AfterExtra, ..a }),
            _ => Err(Some(RecordTag::BX)),
        },
        Stage::AfterExtra => match r {
            RecordView::LO(o) => Ok(AssemblyState { stage: Stage::Locations, origin: Some(o), ..a }),
            _ => Err(Some(RecordTag::LO)),
        },
        Stage::Locations => match r {
            RecordView::LI => Ok(
                AssemblyState { intermediates: a.intermediates.push(IntermediateLocation), ..a },
            ),
            RecordView::LT => Ok(
                AssemblyState {
                    stage: if a.single {
                        Stage::Done
                    } else {
                        Stage::Schedules
                    },
                    train_schedules: a.train_schedules.push(
                        TrainScheduleView {
                            bs: a.basic->Some_0,
                            bsx: BasicScheduleExtra,
                            origin_location: a.origin->Some_0,
                            intermediate_locations: a.intermediates,
                            terminating_location: TerminatingLocation,
                        },
                    ),
                    basic: None,
                    origin: None,
                    intermediates: seq![],
                    ..a
                },
            ),
            _ => Err(Some(RecordTag::LT)),
        },
        Stage::Done => Err(None),
        _ => match r {
            RecordView::TI(t) => if a.stage == Stage::TiplocInserts {
                Ok(AssemblyState { tiploc_inserts: a.tiploc_inserts.push(t), ..a })
            } else {
                Err(Some(RecordTag::BS))
            },
            RecordView::TA(_) => if a.stage == Stage::TiplocInserts || a.stage
                == Stage::TiplocAmends {
                Ok(
                    AssemblyState {
                        stage: Stage::TiplocAmends,
                        tiploc_amends: a.tiploc_amends.push(TiplocAmend),
                        ..a
                    },
                )
            } else {
                Err(Some(RecordTag::BS))
            },
            RecordView::TD(_) => if a.stage != Stage::Schedules {
                Ok(
                    AssemblyState {
                        stage: Stage::TiplocDeletes,
                        tiploc_deletes: a.tiploc_deletes.push(TiplocDelete),
                        ..a
                    },
                )
            } else {
                Err(Some(RecordTag::BS))
            },
            RecordView::BS(b) => Ok(AssemblyState { stage: Stage::AfterBasic, basic: Some(b), ..a }),
            RecordView::ZZ => if !a.single {
                Ok(AssemblyState { stage: Stage::Done, ..a })
            } else {
                Err(Some(RecordTag::BS))
            },
            _ => Err(Some(RecordTag::BS)),
        },
    }
}

/// Decodes `lines`, the first at `position`, and takes each record in turn from
/// state `a`: the first line that does not decode, or the first record out of
/// order, fails the whole; at the end the assembly must be done.
pub open spec fn spec_assemble(a: AssemblyState, lines: Seq<Seq<char>>, position: nat) -> Result<
    AssemblyState,
    ErrorView,
>
    decreases lines.len(),
{
    if lines.len() == 0 {
        if a.stage == Stage::Done {
            Ok(a)
        } else {
            Err(
                ErrorView::UnexpectedRecord {
                    position,
                    expected: a.expected_at_end(),
                    observed: None,
                },
            )
        }
    } else {
        match spec_record(lines[0], position) {
            Err(e) => Err(e),
            Ok(r) => match spec_step(a, r) {
                Err(expected) => Err(
                    ErrorView::UnexpectedRecord { position, expected, observed: Some(r.tag()) },
                ),
                Ok(next) => spec_assemble(next, lines.drop_first(), position + 1),
            },
        }
    }
}

/// A completed assembly has reached [`Stage::Done`], in the mode it started in.
pub proof fn lemma_assemble_done(a: AssemblyState, lines: Seq<Seq<char>>, position: nat)
    ensures
        spec_assemble(a, lines, position) matches Ok(b) ==> b.stage == Stage::Done && b.single
            == a.single,
    decreases lines.len(),
{
    if lines.len() > 0 {
        if let Ok(r) = spec_record(lines[0], position) {
            if let Ok(next) = spec_step(a, r) {
                lemma_assemble_done(next, lines.drop_first(), position + 1);
            }
        }
    }
}

/// Past its first record, an assembly keeps the header it has.
pub proof fn lemma_assemble_keeps_header(a: AssemblyState, lines: Seq<Seq<char>>, position: nat)
    requires
        a.stage != Stage::Header,
    ensures
        spec_assemble(a, lines, position) matches Ok(b) ==> b.header == a.header,
    decreases lines.len(),
{
    if lines.len() > 0 {
        if let Ok(r) = spec_record(lines[0], position) {
            if let Ok(next) = spec_step(a, r) {
                lemma_assemble_keeps_header(next, lines.drop_first(), position + 1);
            }
        }
    }
}

/// The timetable that an extract holds.
pub open spec fn spec_timetable(input: Seq<char>) -> Result<TimetableView, ErrorView> {
    match spec_assemble(AssemblyState::initial(false), spec_lines(input), 0) {
        Ok(a) => Ok(a.timetable()),
        Err(e) => Err(e),
    }
}

/// A timetable's header is the record of its first line.
pub proof fn lemma_timetable_header_first(input: Seq<char>)
    ensures
        spec_timetable(input) matches Ok(t) ==> {
            &&& spec_lines(input).len() > 0
            &&& spec_record(spec_lines(input)[0], 0) == Ok::<RecordView, ErrorView>(
                RecordView::HD(t.header),
            )
        },
{
    let lines = spec_lines(input);
    let a = AssemblyState::initial(false);
    if let Ok(t) = spec_timetable(input) {
        assert(lines.len() > 0);
        let r = spec_record(lines[0], 0)->Ok_0;
        let next = spec_step(a, r)->Ok_0;
        lemma_assemble_keeps_header(next, lines.drop_first(), 1);
    }
}

/// The single train schedule that a text holds.
pub open spec fn spec_train_schedule(input: Seq<char>) -> Result<TrainScheduleView, ErrorView> {
    match spec_assemble(AssemblyState::initial(true), spec_lines(input), 0) {
        Ok(a) => Ok(a.train_schedules[0]),
        Err(e) => Err(e),
    }
}

/// The executable counterpart of [`AssemblyState`].
pub(crate) struct Assembler {
    stage: Stage,
    single: bool,
    header: Option<Header>,
    tiploc_inserts: Vec<TiplocInsert>,
    tiploc_amends: Vec<TiplocAmend>,
    tiploc_deletes: Vec<TiplocDelete>,
    train_schedules: Vec<TrainSchedule>,
    basic: Option<BasicSchedule>,
    origin: Option<OriginLocation>,
    intermediates: Vec<IntermediateLocation>,
}

impl View for Assembler {
    type V = AssemblyState;

    closed spec fn view(&self) -> AssemblyState {
        AssemblyState {
            stage: self.stage,
            single: self.single,
            header: match self.header {
                Some(h) => Some(h@),
                None => None,
            },
            tiploc_inserts: self.tiploc_inserts@.map_values(|t: TiplocInsert| t@),
            tiploc_amends: self.tiploc_amends@,
            tiploc_deletes: self.tiploc_deletes@,
            train_schedules: self.train_schedules@.map_values(|t: TrainSchedule| t@),
            basic: match self.basic {
                Some(b) => Some(b@),
                None => None,
            },
            origin: match self.origin {
                Some(o) => Some(o@),
                None => None,
            },
            intermediates: self.intermediates@,
        }
    }
}

impl Assembler {
    pub(crate) fn new(single: bool) -> (r: Assembler)
        ensures
            r@ == AssemblyState::initial(single),
    {
        let r = Assembler {
            stage: if single {
                Stage::Schedules
            } else {
                Stage::Header
            },
            single,
            header: None,
            tiploc_inserts: Vec::new(),
            tiploc_amends: Vec::new(),
            tiploc_deletes: Vec::new(),
            train_schedules: Vec::new(),
            basic: None,
            origin: None,
            intermediates: Vec::new(),
        };
        assert(r@.tiploc_inserts =~= seq![]);
        assert(r@.train_schedules =~= seq![]);
        r
    }

    /// The timetable of a timetable assembly that is done.
    pub(crate) fn into_timetable(self) -> (r: Timetable)
        requires
            self@.wf(),
            !self@.single,
            self@.stage == Stage::Done,
        ensures
            r@ == self@.timetable(),
    {
        Timetable {
            header: self.header.unwrap(),
            tiploc_inserts: self.tiploc_inserts,
            tiploc_amends: self.tiploc_amends,
            tiploc_deletes: self.tiploc_deletes,
            train_schedules: self.train_schedules,
        }
    }

    pub(crate) fn expected_at_end(&self) -> (r: Option<RecordTag>)
        ensures
            r == self@.expected_at_end(),
    {
        match self.stage {
            Stage::Header => Some(RecordTag::HD),
            Stage::AfterBasic => Some(RecordTag::BX),
            Stage::AfterExtra => Some(RecordTag::LO),
            Stage::Locations => Some(RecordTag::LT),
            Stage::Done => None,
            _ => if self.single {
                Some(RecordTag::BS)
            } else {
                Some(RecordTag::ZZ)
            },
        }
    }

    pub(crate) fn step(self, r: Record) -> (res: Result<Assembler, Option<RecordTag>>)
        requires
            self@.wf(),
        ensures
            match res {
                Ok(a) => spec_step(self@, r@) == Ok::<AssemblyState, Option<RecordTag>>(a@)
                    && a@.wf(),
                Err(e) => spec_step(self@, r@) == Err::<AssemblyState, Option<RecordTag>>(e),
            },
    {
        let ghost old_a = self@;
        let mut a = self;
        match a.stage {
            Stage::Header => match r {
                Record::HD(h) => {
                    a.header = Some(h);
                    a.stage = Stage::TiplocInserts;
                    Ok(a)
                },
                _ => Err(Some(RecordTag::HD)),
            },
            Stage::AfterBasic => match r {
                Record::BX(_) => {
                    a.stage = Stage::AfterExtra;
                    Ok(a)
                },
                _ => Err(Some(RecordTag::BX)),
            },
            Stage::AfterExtra => match r {
                Record::LO(o) => {
                    a.origin = Some(o);
                    a.stage = Stage::Locations;
                    Ok(a)
                },
                _ => Err(Some(RecordTag::LO)),
            },
            Stage::Locations => match r {
                Record::LI(l) => {
                    a.intermediates.push(l);
                    Ok(a)
                },
                Record::LT(t) => {
                    let Assembler {
                        stage: _,
                        single,
                        header,
                        tiploc_inserts,
                        tiploc_amends,
                        tiploc_deletes,
                        mut train_schedules,
                        basic,
                        origin,
                        intermediates,
                    } = a;
                    let schedule = TrainSchedule {
                        bs: basic.unwrap(),
                        bsx: BasicScheduleExtra,
                        origin_location: origin.unwrap(),
                        intermediate_locations: intermediates,
                        terminating_location: t,
                    };
                    let ghost before = train_schedules@;
                    train_schedules.push(schedule);
                    assert(train_schedules@.map_values(|t: TrainSchedule| t@) =~= before.map_values(
                        |t: TrainSchedule| t@,
                    ).push(schedule@));
                    let next = Assembler {
                        stage: if single {
                            Stage::Done
                        } else {
                            Stage::Schedules
                        },
                        single,
                        header,
                        tiploc_inserts,
                        tiploc_amends,
                        tiploc_deletes,
                        train_schedules,
                        basic: None,
                        origin: None,
                        intermediates: Vec::new(),
                    };
                    assert(next@.intermediates =~= seq![]);
                    Ok(next)
                },
                _ => Err(Some(RecordTag::LT)),
            },
            Stage::Done => Err(None),
            _ => match r {
                Record::TI(t) => {
                    if a.stage == Stage::TiplocInserts {
                        let ghost before = a.tiploc_inserts@;
                        a.tiploc_inserts.push(t);
                        assert(a.tiploc_inserts@.map_values(|t: TiplocInsert| t@) =~= before.map_values(
                            |t: TiplocInsert| t@,
                        ).push(t@));
                        Ok(a)
                    } else {
                        Err(Some(RecordTag::BS))
                    }
                },
                Record::TA(_) => {
                    if a.stage == Stage::TiplocInserts || a.stage == Stage::TiplocAmends {
                        a.tiploc_amends.push(TiplocAmend);
                        a.stage = Stage::TiplocAmends;
                        Ok(a)
                    } else {
                        Err(Some(RecordTag::BS))
                    }
                },
                Record::TD(_) => {
                    if a.stage != Stage::Schedules {
                        a.tiploc_deletes.push(TiplocDelete);
                        a.stage = Stage::TiplocDeletes;
                        Ok(a)
                    } else {
                        Err(Some(RecordTag::BS))
                    }
                },
                Record::BS(b) => {
                    a.basic = Some(b);
                    a.stage = Stage::AfterBasic;
                    Ok(a)
                },
                Record::ZZ => {
                    if !a.single {
                        a.stage = Stage::Done;
                        Ok(a)
                    } else {
                        Err(Some(RecordTag::BS))
                    }
                },
                _ => Err(Some(RecordTag::BS)),
            },
        }
    }
}

/// Reads the records of `input` one at a time and assembles them, starting
/// from [`AssemblyState::initial`].
pub(crate) fn assemble(input: &str, single: bool) -> (r: Result<Assembler, Error>)
    ensures
        match r {
            Ok(a) => spec_assemble(AssemblyState::initial(single), spec_lines(input@), 0) == Ok::<
                AssemblyState,
                ErrorView,
            >(a@) && a@.wf(),
            Err(e) => spec_assemble(AssemblyState::initial(single), spec_lines(input@), 0) == Err::<
                AssemblyState,
                ErrorView,
            >(e@),
        },
{
    let mut de = Deserializer::from_str(input);
    let mut a = Assembler::new(single);
    loop
        invariant
            de.wf(),
            a@.wf(),
            spec_assemble(AssemblyState::initial(single), spec_lines(input@), 0) == spec_assemble(
                a@,
                de.remaining(),
                de.position(),
            ),
        decreases de.remaining().len(),
    {
        let position = de.record_position();
        match de.next_record() {
            Ok(None) => {
                if a.stage == Stage::Done {
                    return Ok(a);
                } else {
                    return Err(
                        Error::UnexpectedRecord {
                            position,
                            expected: a.expected_at_end(),
                            observed: None,
                        },
                    );
                }
            },
            Ok(Some(rec)) => {
                let tag = rec.tag();
                match a.step(rec) {
                    Ok(next) => {
                        a = next;
                    },
                    Err(expected) => {
                        return Err(
                            Error::UnexpectedRecord { position, expected, observed: Some(tag) },
                        );
                    },
                }
            },
            Err(e) => return Err(e),
        }
    }
}

impl TrainSchedule {
    /// Decodes a text that holds exactly one train schedule.
    pub fn from_str(input: &str) -> (r: Result<TrainSchedule, Error>)
        ensures
            match r {
                Ok(t) => spec_train_schedule(input@) == Ok::<TrainScheduleView, ErrorView>(t@),
                Err(e) => spec_train_schedule(input@) == Err::<TrainScheduleView, ErrorView>(e@),
            },
    {
        match assemble(input, true) {
            Ok(a) => {
                proof {
                    lemma_assemble_done(AssemblyState::initial(true), spec_lines(input@), 0);
                }
                let mut schedules = a.train_schedules;
                let ghost before = schedules@;
                assert(before.map_values(|t: TrainSchedule| t@).len() == 1);
                let t = schedules.pop().unwrap();
                assert(before.map_values(|t: TrainSchedule| t@)[0] == t@);
                Ok(t)
            },
            Err(e) => Err(e),
        }
    }
}

} // verus!
