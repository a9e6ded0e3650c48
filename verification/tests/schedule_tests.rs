use time_manager::data::error::DataError;
use time_manager::data::models::{RecurrenceRule, Schedule};
use time_manager::data::schedule::{format_ics, format_ics_at, parse_ics, schedule_from_ics};

fn dt(y: i32, m: u32, d: u32, h: u32, min: u32) -> i64 {
    chrono::NaiveDate::from_ymd_opt(y, m, d)
        .unwrap()
        .and_hms_opt(h, min, 0)
        .unwrap()
        .and_utc()
        .timestamp_micros()
}

fn sample() -> Schedule {
    Schedule {
        id: uuid::Uuid::parse_str("550e8400-e29b-41d4-a716-446655440000").unwrap().as_u128(),
        summary: "测试日程".to_string(),
        dtstart: dt(2026, 6, 14, 14, 0),
        dtend: dt(2026, 6, 14, 15, 0),
        description: Some("描述内容".to_string()),
        location: Some("图书馆".to_string()),
        categories: vec!["学习".to_string(), "Rust".to_string()],
        priority: Some(5),
        rrule: RecurrenceRule::Weekly,
        reminder_minutes: Some(15),
    }
}

#[test]
fn test_schedule_ics_roundtrip() {
    let schedule = sample();

    let ics = format_ics(&schedule);
    let parsed = parse_ics(&ics).expect("Failed to parse generated ICS");

    assert_eq!(parsed.id, schedule.id);
    assert_eq!(parsed.summary, schedule.summary);
    assert_eq!(parsed.dtstart, schedule.dtstart);
    assert_eq!(parsed.dtend, schedule.dtend);
    assert_eq!(parsed.description, schedule.description);
    assert_eq!(parsed.location, schedule.location);
    assert_eq!(parsed.categories, schedule.categories);
    assert_eq!(parsed.priority, schedule.priority);
    assert_eq!(parsed.rrule, schedule.rrule);
    assert_eq!(parsed.reminder_minutes, schedule.reminder_minutes);
}

#[test]
fn test_parse_invalid_ics() {
    assert!(parse_ics("").is_err());
    assert!(parse_ics("BEGIN:VCALENDAR\nEND:VCALENDAR").is_err());
    assert!(parse_ics("INVALID").is_err());
}

#[test]
fn written_calendar_text() {
    let schedule = sample();
    let created = dt(2026, 1, 2, 3, 4);
    let ics = format_ics_at(&schedule, created, created);
    let expected = "BEGIN:VCALENDAR\nVERSION:2.0\nPRODID:-//Time Manager//EN\nCALSCALE:GREGORIAN\nBEGIN:VEVENT\n\
UID:550e8400-e29b-41d4-a716-446655440000@time-manager\nDTSTART:20260614T140000Z\nDTEND:20260614T150000Z\n\
SUMMARY:测试日程\nCREATED:20260102T030400Z\nDTSTAMP:20260102T030400Z\nDESCRIPTION:描述内容\nLOCATION:图书馆\n\
CATEGORIES:学习,Rust\nPRIORITY:5\nRRULE:FREQ=WEEKLY\nBEGIN:VALARM\nACTION:DISPLAY\nDESCRIPTION:测试日程\n\
TRIGGER:-PT15M\nEND:VALARM\nEND:VEVENT\nEND:VCALENDAR\n";
    assert_eq!(ics, expected);
}

#[test]
fn minimal_event_reads_back() {
    let schedule = Schedule {
        id: 7,
        summary: String::new(),
        dtstart: dt(1999, 12, 31, 23, 59),
        dtend: dt(2000, 1, 1, 0, 0),
        description: None,
        location: None,
        categories: Vec::new(),
        priority: Some(-3),
        rrule: RecurrenceRule::NoRepeat,
        reminder_minutes: None,
    };
    let parsed = parse_ics(&format_ics(&schedule)).unwrap();
    assert_eq!(parsed.id, 7);
    assert_eq!(parsed.summary, "");
    assert_eq!(parsed.dtstart, schedule.dtstart);
    assert_eq!(parsed.dtend, schedule.dtend);
    assert_eq!(parsed.description, None);
    assert_eq!(parsed.categories, Vec::<String>::new());
    assert_eq!(parsed.priority, Some(-3));
    assert_eq!(parsed.rrule, RecurrenceRule::NoRepeat);
    assert_eq!(parsed.reminder_minutes, None);
}

#[test]
fn missing_fields_are_named_in_order() {
    let no_start = "UID:550e8400-e29b-41d4-a716-446655440000\nDTEND:20260614T150000Z\n";
    match parse_ics(no_start) {
        Err(DataError::InvalidData(m)) => assert_eq!(m, "Missing DTSTART"),
        _ => panic!("expected an error"),
    }
    let no_end = "UID:550e8400-e29b-41d4-a716-446655440000\r\nDTSTART:20260614T140000Z\r\n";
    match parse_ics(no_end) {
        Err(DataError::InvalidData(m)) => assert_eq!(m, "Missing DTEND"),
        _ => panic!("expected an error"),
    }
    match parse_ics("DTSTART:20260614T140000Z\nDTEND:20260614T150000Z\n") {
        Err(DataError::InvalidData(m)) => assert_eq!(m, "Missing UID"),
        _ => panic!("expected an error"),
    }
}

#[test]
fn lenient_reading_of_other_calendars() {
    let text = "BEGIN:VEVENT\r\nUID:550e8400-e29b-41d4-a716-446655440000@example.org\r\nDTSTART:20260614T140000Z\r\n\
DTEND:20260614T150000Z\r\nRRULE:FREQ=DAILY;COUNT=3\r\nPRIORITY:high\r\nBEGIN:VALARM\r\nTRIGGER:-PT30M\r\nEND:VALARM\r\nEND:VEVENT";
    let s = parse_ics(text).unwrap();
    assert_eq!(s.summary, "");
    assert_eq!(s.rrule, RecurrenceRule::Daily);
    assert_eq!(s.priority, None);
    assert_eq!(s.reminder_minutes, Some(30));
    assert_eq!(s.dtstart, dt(2026, 6, 14, 14, 0));
}

#[test]
fn assembling_from_read_fields() {
    let text = "SUMMARY:会议\nLOCATION:A101\nCATEGORIES:a,,b\n";
    let s = schedule_from_ics(text, Some(1), Some(10), Some(20)).unwrap();
    assert_eq!(s.summary, "会议");
    assert_eq!(s.location, Some("A101".to_string()));
    assert_eq!(s.categories, vec!["a".to_string(), String::new(), "b".to_string()]);
    assert!(schedule_from_ics(text, Some(1), None, Some(20)).is_err());
}

#[test]
fn recurrence_labels_and_rules() {
    assert_eq!(RecurrenceRule::Weekly.as_str(), "每周");
    assert_eq!(RecurrenceRule::parse("每月"), RecurrenceRule::Monthly);
    assert_eq!(RecurrenceRule::parse("每年"), RecurrenceRule::NoRepeat);
    assert_eq!(RecurrenceRule::Daily.to_rrule(), Some("FREQ=DAILY"));
    assert_eq!(RecurrenceRule::NoRepeat.to_rrule(), None);
    assert_eq!(RecurrenceRule::from_rrule("FREQ=MONTHLY;BYMONTHDAY=1"), RecurrenceRule::Monthly);
    assert_eq!(RecurrenceRule::from_rrule("FREQ=YEARLY"), RecurrenceRule::NoRepeat);
}

use time_manager::schedule_form::ScheduleForm;

fn filled_form() -> ScheduleForm {
    let mut f = ScheduleForm::new();
    f.summary = "  复习  ".to_string();
    f.start_date = "2026-06-14".to_string();
    f.start_time = " 14:00 ".to_string();
    f.end_date = "2026-06-14".to_string();
    f.end_time = "15:30".to_string();
    f.description = "   ".to_string();
    f.location = " 图书馆 ".to_string();
    f.reminder = " 10 ".to_string();
    f.rrule = RecurrenceRule::Daily;
    f
}

#[test]
fn form_gives_trimmed_event() {
    let s = filled_form().validate().unwrap();
    assert_eq!(s.summary, "复习");
    assert_eq!(s.dtstart, dt(2026, 6, 14, 14, 0));
    assert_eq!(s.dtend, dt(2026, 6, 14, 15, 30));
    assert_eq!(s.description, None);
    assert_eq!(s.location, Some("图书馆".to_string()));
    assert_eq!(s.reminder_minutes, Some(10));
    assert_eq!(s.rrule, RecurrenceRule::Daily);
    assert!(s.categories.is_empty());
    assert_eq!(s.priority, None);
}

#[test]
fn form_errors_in_order() {
    let mut f = filled_form();
    f.summary = "  ".to_string();
    assert_eq!(f.validate().err(), Some("标题不能为空".to_string()));

    let mut f = filled_form();
    f.start_time = "25:00".to_string();
    assert!(f.validate().err().unwrap().starts_with("开始时间格式错误: "));

    let mut f = filled_form();
    f.end_date = "".to_string();
    assert!(f.validate().err().unwrap().starts_with("结束时间格式错误: "));

    let mut f = filled_form();
    f.end_time = "14:00".to_string();
    assert_eq!(f.validate().err(), Some("结束时间必须晚于开始时间".to_string()));

    let mut f = filled_form();
    f.reminder = "ten".to_string();
    assert_eq!(f.validate().err(), Some("提醒时间必须为数字".to_string()));
}

#[test]
fn form_checks_read_instants() {
    let f = filled_form();
    let s = f.validate_with(9, Ok(100), Ok(200)).unwrap();
    assert_eq!(s.id, 9);
    assert_eq!(s.dtstart, 100);
    assert_eq!(
        f.validate_with(9, Err("bad".to_string()), Ok(200)).err(),
        Some("开始时间格式错误: bad".to_string())
    );
    assert_eq!(
        f.validate_with(9, Ok(300), Ok(200)).err(),
        Some("结束时间必须晚于开始时间".to_string())
    );
}

#[test]
fn form_loads_and_resets() {
    let mut f = ScheduleForm::new();
    f.load_from_schedule(&sample());
    assert_eq!(f.summary, "测试日程");
    assert_eq!(f.start_date, "2026-06-14");
    assert_eq!(f.start_time, "14:00");
    assert_eq!(f.end_time, "15:00");
    assert_eq!(f.description, "描述内容");
    assert_eq!(f.reminder, "15");
    assert_eq!(f.rrule, RecurrenceRule::Weekly);
    let again = f.validate().unwrap();
    assert_eq!(again.dtstart, sample().dtstart);
    assert_eq!(again.dtend, sample().dtend);
    f.reset();
    assert!(f.summary.is_empty() && f.start_date.is_empty() && f.reminder.is_empty());
    assert_eq!(f.rrule, RecurrenceRule::NoRepeat);
    let d = ScheduleForm::default();
    assert!(d.location.is_empty());
}

#[test]
fn form_times_follow_chrono_before_and_after_the_epoch() {
    let mut f = ScheduleForm::new();
    let mut s = sample();
    s.dtstart = -1;
    s.dtend = 90_061_000_000;
    f.load_from_schedule(&s);
    assert_eq!(f.start_date, "1969-12-31");
    assert_eq!(f.start_time, "23:59");
    assert_eq!(f.end_time, "01:01");
    s.dtstart = dt(-300, 3, 1, 7, 5);
    f.load_from_schedule(&s);
    assert_eq!(f.start_time, "07:05");
}
