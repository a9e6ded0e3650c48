use time_manager::data::models::Todo;

fn at(y: i32, m: u32, d: u32, h: u32, min: u32) -> i64 {
    chrono::NaiveDate::from_ymd_opt(y, m, d)
        .unwrap()
        .and_hms_opt(h, min, 0)
        .unwrap()
        .and_utc()
        .timestamp_micros()
}

#[test]
fn new_todo_is_open() {
    let todo = Todo::new("Test task".to_string());
    assert_eq!(todo.content, "Test task");
    assert!(!todo.completed);
    assert!(todo.tags.is_empty());
    assert!(todo.due_date.is_none());
}

#[test]
fn todo_text_layout() {
    let id = uuid::Uuid::parse_str("550e8400-e29b-41d4-a716-446655440000").unwrap().as_u128();
    let todo = Todo::new_at("读书".to_string(), id, at(2026, 3, 1, 8, 30));
    assert_eq!(
        todo.to_ics(),
        "BEGIN:VCALENDAR\nVERSION:2.0\nPRODID:-//time-manager-todo\nBEGIN:VTODO\n\
UID:550e8400-e29b-41d4-a716-446655440000\nDTSTART:20260301T083000Z\nSUMMARY:读书\nSTATUS:NEEDS-ACTION\n\
END:VTODO\nEND:VCALENDAR\n"
    );
}

#[test]
fn todo_roundtrip_with_every_field() {
    let mut todo = Todo::new_at("Test task".to_string(), 42, at(2026, 3, 1, 8, 30));
    todo.completed = true;
    todo.due_date = Some(at(2026, 3, 5, 18, 0));
    todo.priority = Some(2);
    todo.tags = vec!["work".to_string(), "rust".to_string()];
    todo.notes = Some("notes here".to_string());
    todo.completed_at = Some(at(2026, 3, 4, 9, 15));
    let back = Todo::from_ics(&todo.to_ics()).unwrap();
    assert_eq!(back.id, 42);
    assert_eq!(back.content, todo.content);
    assert!(back.completed);
    assert_eq!(back.created_at, todo.created_at);
    assert_eq!(back.due_date, todo.due_date);
    assert_eq!(back.priority, Some(2));
    assert_eq!(back.tags, todo.tags);
    assert_eq!(back.notes, todo.notes);
    assert_eq!(back.completed_at, todo.completed_at);
}

#[test]
fn todo_reading_defaults() {
    let now = at(2030, 1, 1, 0, 0);
    let t = Todo::from_ics_at("UID:550e8400-e29b-41d4-a716-446655440000\nPRIORITY:-1\nSTATUS:DONE\n", now).unwrap();
    assert_eq!(t.content, "未知待办");
    assert!(!t.completed);
    assert_eq!(t.created_at, now);
    assert_eq!(t.priority, None);
    assert!(t.tags.is_empty());
    assert!(Todo::from_ics_at("SUMMARY:no id\n", now).is_none());
    assert!(Todo::from_ics_at("UID:not-a-uuid\n", now).is_none());
    let f = Todo::from_fields("SUMMARY:x\nSTATUS:COMPLETED\n", Some(5), None, Some(1), None, now).unwrap();
    assert_eq!(f.content, "x");
    assert!(f.completed);
    assert_eq!(f.created_at, now);
    assert_eq!(f.due_date, Some(1));
}
