use time_manager::data::export::{CsvExporter, MarkdownExporter};
use time_manager::data::models::{Difficulty, PredictionState, Quality, Session};
use time_manager::display::{urgency_label_at, Urgency};

fn at(y: i32, m: u32, d: u32, h: u32, min: u32) -> i64 {
    chrono::NaiveDate::from_ymd_opt(y, m, d)
        .unwrap()
        .and_hms_opt(h, min, 0)
        .unwrap()
        .and_utc()
        .timestamp_micros()
}

fn session(note: Option<&str>, manual: bool) -> Session {
    Session {
        id: 7,
        category_id: 3,
        start_time: at(2026, 5, 1, 9, 0),
        end_time: at(2026, 5, 1, 10, 30),
        duration_secs: 5400,
        pause_records: Vec::new(),
        quality: Quality::High,
        understanding_difficulty: Difficulty::Easy,
        memory_difficulty: Difficulty::Hard,
        completion_rate: 80,
        note: note.map(|s| s.to_string()),
        is_manual_edit: manual,
    }
}

fn prediction() -> PredictionState {
    PredictionState {
        id: 1,
        category_id: 3,
        algorithm: "fsrs".to_string(),
        last_review: at(2026, 5, 1, 10, 30),
        next_review: at(2026, 5, 4, 8, 0),
        algorithm_state: vec![1, 2, 3],
    }
}

#[test]
fn sessions_as_csv() {
    let text = CsvExporter.sessions_text(&[session(Some("good"), true), session(None, false)]);
    let lines: Vec<&str> = text.lines().collect();
    assert_eq!(lines.len(), 3);
    assert!(lines[0].starts_with("id,category_id,start_time"));
    assert_eq!(
        lines[1],
        format!(
            "7,3,2026-05-01T09:00:00+00:00,2026-05-01T10:30:00+00:00,5400,{},{},{},80,good,1",
            Quality::High.as_str(),
            Difficulty::Easy.as_str(),
            Difficulty::Hard.as_str()
        )
    );
    assert!(lines[2].ends_with(",80,,0"));
    assert!(text.ends_with('\n'));
}

#[test]
fn sessions_as_markdown() {
    let text = MarkdownExporter.sessions_text(&[session(None, false)]);
    let expected = format!(
        "# Sessions\n\n| ID | Category | Start | End | Duration | Quality | Note |\n|----|----------|-------|-----|----------|---------|------|\n| 7 | 3 | 2026-05-01 09:00 | 2026-05-01 10:30 | 01:30:00 | {} | - |\n",
        Quality::High.as_str()
    );
    assert_eq!(text, expected);
}

#[test]
fn predictions_as_csv_and_markdown() {
    let csv = CsvExporter.predictions_text(&[prediction()]);
    assert_eq!(
        csv,
        "id,category_id,algorithm,last_review,next_review\n1,3,fsrs,2026-05-01T10:30:00+00:00,2026-05-04T08:00:00+00:00\n"
    );
    let md = MarkdownExporter.predictions_text(&[prediction()]);
    assert_eq!(
        md,
        "# Prediction States\n\n| Category | Algorithm | Last Review | Next Review |\n|----------|-----------|-------------|-------------|\n| 3 | fsrs | 2026-05-01 | 2026-05-04 |\n"
    );
    assert_eq!(CsvExporter.sessions_text(&[]).lines().count(), 1);
}

#[test]
fn due_labels() {
    let now = at(2026, 5, 1, 12, 0);
    assert_eq!(urgency_label_at(&Urgency::Overdue, &None, now), "已过期");
    assert_eq!(urgency_label_at(&Urgency::Within3Days, &None, now), "临近到期");
    assert_eq!(urgency_label_at(&Urgency::Within7Days, &None, now), "本周内");
    assert_eq!(urgency_label_at(&Urgency::Normal, &None, now), "未复习");
    assert_eq!(urgency_label_at(&Urgency::Normal, &Some(prediction()), now), "2 天 20 小时后");
}
