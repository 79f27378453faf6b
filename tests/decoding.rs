use cify::error::{Error, RecordParsingError};
use cify::extract::{
    BasicSchedule, Crs, CrsParsingError, Date, ExtractType, Header, Nalco, NalcoParsingError,
    OriginLocation, PoMcpCode, Record, RecordTag, Stanox, StanoxParsingError, StpIndicator,
    Tiploc, TiplocInsert, TiplocParsingError, TransactionType, Weekday, WeekdaySet,
};
use cify::{from_str, records_from_str, Deserializer, TrainSchedule};

const HEADER_BODY: &str =
    "TPS.UDFROC1.PD2502282802252154DFROC1B       FA280225280226                    ";
const TIPLOC_LINE: &str =
    "TIAACHEN 00081601LAACHEN                    00005   0                           ";
const ALL_DAYS: [Weekday; 7] = [
    Weekday::Mon,
    Weekday::Tue,
    Weekday::Wed,
    Weekday::Thu,
    Weekday::Fri,
    Weekday::Sat,
    Weekday::Sun,
];

/// `text` padded with spaces to `len` characters.
fn padded(text: &str, len: usize) -> String {
    let mut s = text.to_string();
    while s.chars().count() < len {
        s.push(' ');
    }
    s
}

fn header_line() -> String {
    format!("HD{}", HEADER_BODY)
}

/// A basic schedule line with the given dates, days and codes.
fn schedule_line(tt: char, from: &str, to: &str, days: &str, stp: char) -> String {
    let start = format!("BS{}C12345{}{}{}", tt, from, to, days);
    let mut line = padded(&start, 79);
    line.push(stp);
    line
}

fn days_of(set: &WeekdaySet) -> Vec<Weekday> {
    ALL_DAYS.iter().copied().filter(|d| set.contains(*d)).collect()
}

fn timetable_text(lines: &[String]) -> String {
    lines.join("\n")
}

#[test]
fn wrong_length_fails_with_length_error() {
    for len in [0usize, 1, 2, 77, 79, 81, 160] {
        let line = padded("HD", len);
        let line = if len < 2 { "H".repeat(len) } else { line };
        assert!(matches!(Header::from_str(&line), Err(RecordParsingError::InvalidLength)));
        assert!(matches!(TiplocInsert::from_str(&line), Err(RecordParsingError::InvalidLength)));
        assert!(matches!(BasicSchedule::from_str(&line), Err(RecordParsingError::InvalidLength)));
        assert!(matches!(OriginLocation::from_str(&line), Err(RecordParsingError::InvalidLength)));
    }
    // Content does not matter, not even characters outside ASCII.
    let odd = padded("HDé", 79);
    assert!(matches!(Header::from_str(&odd), Err(RecordParsingError::InvalidLength)));
}

#[test]
fn non_ascii_fails_with_encoding_error() {
    let body78 = format!("é{}", &HEADER_BODY[1..]);
    assert_eq!(body78.chars().count(), 78);
    assert!(matches!(Header::from_str(&body78), Err(RecordParsingError::NonAscii)));
    let tagged = format!("HD{}", body78);
    assert!(matches!(Header::from_str(&tagged), Err(RecordParsingError::NonAscii)));
    // The tag is not read before the encoding is checked.
    let wrong_tag = format!("XX{}", body78);
    assert!(matches!(TiplocInsert::from_str(&wrong_tag), Err(RecordParsingError::NonAscii)));
    assert!(matches!(BasicSchedule::from_str(&wrong_tag), Err(RecordParsingError::NonAscii)));
}

#[test]
fn stanox_sentinel() {
    assert!(Stanox::from_str("00000").unwrap().is_empty());
    assert!(!Stanox::from_str("00005").unwrap().is_empty());
    assert!(!Stanox::from_str("12345").unwrap().is_empty());
    assert!(!Stanox::from_str("10000").unwrap().is_empty());
    assert!(matches!(Stanox::from_str("0000"), Err(StanoxParsingError::InvalidLength)));
    assert!(matches!(Stanox::from_str("000000"), Err(StanoxParsingError::InvalidLength)));
    assert!(matches!(Stanox::from_str("0000é"), Err(StanoxParsingError::NonAsciiCharacters)));
}

#[test]
fn weekday_sets() {
    let weekdays = WeekdaySet::from_str("1111100").unwrap();
    assert_eq!(
        days_of(&weekdays),
        vec![Weekday::Mon, Weekday::Tue, Weekday::Wed, Weekday::Thu, Weekday::Fri]
    );
    let weekend = WeekdaySet::from_str("0000011").unwrap();
    assert_eq!(days_of(&weekend), vec![Weekday::Sat, Weekday::Sun]);
    let none = WeekdaySet::from_str("0000000").unwrap();
    assert_eq!(days_of(&none), Vec::<Weekday>::new());
    assert!(WeekdaySet::from_str("0000002").is_none());
    assert!(WeekdaySet::from_str("111110").is_none());
    assert!(WeekdaySet::from_str("11111000").is_none());
}

#[test]
fn header_tiploc_trailer_sequence() {
    let text = timetable_text(&[header_line(), TIPLOC_LINE.to_string(), "ZZ".to_string()]);
    let records = records_from_str(&text).unwrap();
    assert_eq!(records.len(), 3);
    assert!(matches!(records[0], Record::HD(_)));
    assert!(matches!(records[1], Record::TI(_)));
    assert!(matches!(records[2], Record::ZZ));

    let timetable = from_str(&text).unwrap();
    assert_eq!(timetable.tiploc_inserts.len(), 1);
    assert_eq!(timetable.tiploc_inserts[0].code.as_str(), "AACHEN ");
    assert_eq!(timetable.tiploc_amends.len(), 0);
    assert_eq!(timetable.tiploc_deletes.len(), 0);
    assert_eq!(timetable.train_schedules.len(), 0);
    assert_eq!(timetable.header.current_file_ref, "DFROC1B");
}

#[test]
fn lone_origin_instead_of_trailer() {
    let origin = padded("LOMNCRIAP 1610 16104A        TB", 80);
    let text = timetable_text(&[header_line(), TIPLOC_LINE.to_string(), origin]);
    match from_str(&text) {
        Err(Error::UnexpectedRecord { position, expected, observed }) => {
            assert_eq!(position, 2);
            assert_eq!(expected, Some(RecordTag::BS));
            assert_eq!(observed, Some(RecordTag::LO));
        },
        other => panic!("unexpected result: {:?}", other),
    }
}

#[test]
fn dates_out_of_order_are_accepted() {
    let line = schedule_line('N', "250511", "241215", "0000001", 'P');
    let schedule = BasicSchedule::from_str(&line).unwrap();
    assert_eq!(schedule.from, Date { year: 2011, month: 5, day: 25 });
    assert_eq!(schedule.to, Date { year: 2015, month: 12, day: 24 });
    assert_eq!(schedule.transaction_type, TransactionType::New);
    assert_eq!(schedule.stp_indicator, StpIndicator::Permanent);
    assert_eq!(schedule.train_uid, "C12345");
    assert_eq!(days_of(&schedule.days), vec![Weekday::Sun]);
}

#[test]
fn header_fixture_fields() {
    assert_eq!(HEADER_BODY.len(), 78);
    let tagged = Header::from_str(&header_line()).unwrap();
    let bare = Header::from_str(HEADER_BODY).unwrap();
    for h in [tagged, bare] {
        assert_eq!(h.file_mainframe_identity, "TPS.UDFROC1.PD250228");
        assert_eq!(h.datetime_of_extract.date, Date { year: 2025, month: 2, day: 28 });
        assert_eq!(h.datetime_of_extract.hour, 21);
        assert_eq!(h.datetime_of_extract.minute, 54);
        assert_eq!(h.current_file_ref, "DFROC1B");
        assert_eq!(h.last_file_ref, "       ");
        assert_eq!(h.extract_type, ExtractType::Full);
        assert_eq!(h.version, "A");
        assert_eq!(h.extract_start_date, "280225");
        assert_eq!(h.extract_end_date, "280226");
    }
}

#[test]
fn header_field_errors() {
    let bad_type = HEADER_BODY.replacen("FA280225", "XA280225", 1);
    match Header::from_str(&bad_type) {
        Err(RecordParsingError::InvalidField(name, raw)) => {
            assert_eq!(name, "Extract Type");
            assert_eq!(raw, "X");
        },
        other => panic!("unexpected result: {:?}", other),
    }
    let bad_time = HEADER_BODY.replacen("2802252154", "3002252154", 1);
    match Header::from_str(&bad_time) {
        Err(RecordParsingError::InvalidField(name, raw)) => {
            assert_eq!(name, "Date and Time of Extract");
            assert_eq!(raw, "3002252154");
        },
        other => panic!("unexpected result: {:?}", other),
    }
    let wrong_tag = format!("TI{}", HEADER_BODY);
    assert!(matches!(
        Header::from_str(&wrong_tag),
        Err(RecordParsingError::UnexpectedRecordIdentity(RecordTag::HD))
    ));
    assert_eq!(ExtractType::from_str("U").unwrap(), ExtractType::Update);
    assert!(ExtractType::from_str("UF").is_err());
}

#[test]
fn basic_schedule_field_errors() {
    let cases = [
        (schedule_line('N', "300225", "241215", "0000001", 'P'), "Date Runs From", "300225"),
        (schedule_line('N', "250511", "241315", "0000001", 'P'), "Date Runs To", "241315"),
        (schedule_line('X', "250511", "241215", "0000001", 'P'), "Transaction Type", "X"),
        (schedule_line('N', "250511", "241215", "00000A1", 'P'), "Days Run", "00000A1"),
        (schedule_line('N', "250511", "241215", "0000001", 'Q'), "STP Indicator", "Q"),
    ];
    for (line, field, value) in cases {
        match BasicSchedule::from_str(&line) {
            Err(RecordParsingError::InvalidField(name, raw)) => {
                assert_eq!(name, field);
                assert_eq!(raw, value);
            },
            other => panic!("unexpected result: {:?}", other),
        }
    }
    let leap = schedule_line('R', "290224", "010325", "1010101", 'O');
    let schedule = BasicSchedule::from_str(&leap).unwrap();
    assert_eq!(schedule.from, Date { year: 2024, month: 2, day: 29 });
    assert_eq!(schedule.transaction_type, TransactionType::Revise);
    assert_eq!(schedule.stp_indicator, StpIndicator::Overlay);
    let not_leap = schedule_line('D', "290225", "010325", "1010101", 'C');
    assert!(matches!(
        BasicSchedule::from_str(&not_leap),
        Err(RecordParsingError::InvalidField("Date Runs From", _))
    ));
}

#[test]
fn location_codes() {
    assert_eq!(Tiploc::from_str("PADTON").unwrap().as_str(), "PADTON");
    assert!(matches!(Tiploc::from_str("PADDINGTON"), Err(TiplocParsingError::InvalidLength)));
    assert!(matches!(Tiploc::from_str("PADTÖN"), Err(TiplocParsingError::NonAsciiCharacters)));
    assert_eq!(Nalco::from_str("081601").unwrap().as_str(), "081601");
    assert!(matches!(Nalco::from_str("0816010"), Err(NalcoParsingError::InvalidLength)));
    assert_eq!(Crs::from_str("PAD").unwrap().as_str(), "PAD");
    assert!(matches!(Crs::from_str("PADD"), Err(CrsParsingError::InvalidLength)));
    assert!(PoMcpCode::from_str("0000").unwrap().is_empty());
    assert!(PoMcpCode::from_str("   0").unwrap().is_empty());
    assert!(!PoMcpCode::from_str("1234").unwrap().is_empty());
    assert!(!PoMcpCode::from_str(" 0").unwrap().is_empty());
}

#[test]
fn dispatch_errors() {
    let text = timetable_text(&[header_line(), padded("XX", 80)]);
    match records_from_str(&text) {
        Err(Error::UnknownRecordType { position, tag }) => {
            assert_eq!(position, 1);
            assert_eq!(tag, "XX");
        },
        other => panic!("unexpected result: {:?}", other),
    }
    let short = timetable_text(&[header_line(), "T".to_string()]);
    assert!(matches!(
        records_from_str(&short),
        Err(Error::UnknownRecordType { position: 1, .. })
    ));
    let bad_tiploc = timetable_text(&[header_line(), padded("TIAACHEN", 81)]);
    assert!(matches!(
        records_from_str(&bad_tiploc),
        Err(Error::InvalidRecord { position: 1, error: RecordParsingError::InvalidLength })
    ));
}

#[test]
fn line_feeds_separate_records() {
    let text = format!("{}\n{}\n", header_line(), TIPLOC_LINE);
    let records = records_from_str(&text).unwrap();
    assert_eq!(records.len(), 2);
    assert_eq!(records[1].tag(), RecordTag::TI);
    assert_eq!(records_from_str("").unwrap().len(), 0);
    let blank = format!("{}\n\n{}", header_line(), TIPLOC_LINE);
    assert!(matches!(
        records_from_str(&blank),
        Err(Error::UnknownRecordType { position: 1, .. })
    ));

    let mut de = Deserializer::from_str(&text);
    assert!(matches!(de.next_record(), Ok(Some(Record::HD(_)))));
    assert_eq!(de.record_position(), 1);
    assert!(matches!(de.next_record(), Ok(Some(Record::TI(_)))));
    assert!(matches!(de.next_record(), Ok(None)));
}

#[test]
fn placeholder_records_keep_their_text() {
    let text = timetable_text(&[padded("TAAACHEN", 80), "AA".to_string(), "CRX".to_string()]);
    let records = records_from_str(&text).unwrap();
    match &records[0] {
        Record::TA(body) => assert_eq!(body, &padded("AACHEN", 78)),
        other => panic!("unexpected record: {:?}", other),
    }
    assert!(matches!(records[1], Record::AA));
    match &records[2] {
        Record::CR(body) => assert_eq!(body, "X"),
        other => panic!("unexpected record: {:?}", other),
    }
}

#[test]
fn full_timetable() {
    let lines = vec![
        header_line(),
        TIPLOC_LINE.to_string(),
        padded("TAAACHEN", 80),
        padded("TDAACHEN", 80),
        schedule_line('N', "250511", "241215", "1111100", 'P'),
        padded("BX", 80),
        padded("LOMNCRIAP 1610 16104A        TB", 80),
        padded("LIHLDGWJ            1612 00000000", 80),
        padded("LTEDINBUR 1939 193912 X  TF", 80),
        schedule_line('N', "250511", "241215", "0000011", 'C'),
        padded("BX", 80),
        padded("LOMNCRIAP 1710 17104A        TB", 80),
        padded("LTEDINBUR 2039 203912 X  TF", 80),
        "ZZ".to_string(),
    ];
    let timetable = from_str(&timetable_text(&lines)).unwrap();
    assert_eq!(timetable.tiploc_inserts.len(), 1);
    assert_eq!(timetable.tiploc_amends.len(), 1);
    assert_eq!(timetable.tiploc_deletes.len(), 1);
    assert_eq!(timetable.train_schedules.len(), 2);
    assert_eq!(timetable.train_schedules[0].intermediate_locations.len(), 1);
    assert_eq!(timetable.train_schedules[1].intermediate_locations.len(), 0);
    assert_eq!(
        timetable.train_schedules[1].origin_location.scheduled_departure_time(),
        "1710 "
    );
    assert_eq!(timetable.train_schedules[1].bs.stp_indicator, StpIndicator::Cancellation);
}

#[test]
fn timetable_order_errors() {
    let no_trailer = timetable_text(&[header_line(), TIPLOC_LINE.to_string()]);
    match from_str(&no_trailer) {
        Err(Error::UnexpectedRecord { position, expected, observed }) => {
            assert_eq!(position, 2);
            assert_eq!(expected, Some(RecordTag::ZZ));
            assert_eq!(observed, None);
        },
        other => panic!("unexpected result: {:?}", other),
    }
    let no_header = TIPLOC_LINE.to_string();
    assert!(matches!(
        from_str(&no_header),
        Err(Error::UnexpectedRecord { position: 0, expected: Some(RecordTag::HD), .. })
    ));
    let insert_after_delete =
        timetable_text(&[header_line(), padded("TDAACHEN", 80), TIPLOC_LINE.to_string()]);
    assert!(matches!(
        from_str(&insert_after_delete),
        Err(Error::UnexpectedRecord { position: 2, expected: Some(RecordTag::BS), .. })
    ));
    let after_trailer = timetable_text(&[header_line(), "ZZ".to_string(), "ZZ".to_string()]);
    assert!(matches!(
        from_str(&after_trailer),
        Err(Error::UnexpectedRecord { position: 2, expected: None, observed: Some(RecordTag::ZZ) })
    ));
    let missing_extra = timetable_text(&[
        header_line(),
        schedule_line('N', "250511", "241215", "1111100", 'P'),
        padded("LOMNCRIAP 1610 16104A        TB", 80),
    ]);
    assert!(matches!(
        from_str(&missing_extra),
        Err(Error::UnexpectedRecord { position: 2, expected: Some(RecordTag::BX), .. })
    ));
}

#[test]
fn single_schedule_errors() {
    let open = timetable_text(&[
        schedule_line('N', "250511", "241215", "1111100", 'P'),
        padded("BX", 80),
        padded("LOMNCRIAP 1610 16104A        TB", 80),
    ]);
    assert!(matches!(
        TrainSchedule::from_str(&open),
        Err(Error::UnexpectedRecord { position: 3, expected: Some(RecordTag::LT), observed: None })
    ));
    let two = timetable_text(&[
        schedule_line('N', "250511", "241215", "1111100", 'P'),
        padded("BX", 80),
        padded("LOMNCRIAP 1610 16104A        TB", 80),
        padded("LTEDINBUR 1939 193912 X  TF", 80),
        schedule_line('N', "250511", "241215", "1111100", 'P'),
    ]);
    assert!(matches!(
        TrainSchedule::from_str(&two),
        Err(Error::UnexpectedRecord { position: 4, expected: None, observed: Some(RecordTag::BS) })
    ));
}
