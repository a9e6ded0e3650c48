use time_manager::data::models::{Difficulty, Quality, Session};
use time_manager::learning::report::{due_marker, hours_and_minutes, session_time, total_session_secs};

fn session(duration_secs: i64) -> Session {
    Session {
        id: 1,
        category_id: 1,
        start_time: 0,
        end_time: duration_secs * 1_000_000,
        duration_secs,
        pause_records: vec![],
        quality: Quality::Medium,
        understanding_difficulty: Difficulty::Medium,
        memory_difficulty: Difficulty::Medium,
        completion_rate: 100,
        note: None,
        is_manual_edit: false,
    }
}

#[test]
fn status_sums_all_sessions() {
    let sessions = vec![session(3_600), session(1_800), session(125)];
    assert_eq!(total_session_secs(&sessions), 5_525);
    assert_eq!(session_time(&sessions), (1, 32));
}

#[test]
fn status_of_no_sessions_is_zero() {
    assert_eq!(session_time(&[]), (0, 0));
}

#[test]
fn total_does_not_wrap_on_huge_durations() {
    let sessions = vec![session(i64::MAX), session(i64::MAX)];
    assert_eq!(total_session_secs(&sessions), 2 * (i64::MAX as i128));
}

#[test]
fn hours_and_minutes_round_toward_zero() {
    assert_eq!(hours_and_minutes(7_199), (1, 59));
    assert_eq!(hours_and_minutes(-3_700), (-1, -1));
}

#[test]
fn due_marker_flags_overdue_reviews() {
    assert_eq!(due_marker(10, 5), "OVERDUE");
    assert_eq!(due_marker(5, 5), "DUE");
    assert_eq!(due_marker(4, 5), "DUE");
}
