use time_manager::cli::{event_ics, link_quality, rank_reviews, review_line, training_data_short, urgency_filter_level};
use time_manager::data::error::DataError;
use time_manager::data::models::MemoryQuality;

const DAY: i64 = 86_400_000_000;

fn due(path: &str, u: i32) -> (String, i32, i64) {
    (path.to_string(), u, 0)
}

#[test]
fn review_list_is_stably_ordered_by_urgency() {
    let cards = vec![due("a", 1), due("b", 3), due("c", 1), due("d", 0), due("e", 3), due("f", 2)];
    let ranked = rank_reviews(cards, None);
    let paths: Vec<&str> = ranked.iter().map(|c| c.0.as_str()).collect();
    assert_eq!(paths, vec!["b", "e", "f", "a", "c", "d"]);
}

#[test]
fn review_list_filters() {
    let cards = vec![due("a", 1), due("b", 3), due("c", 2), due("d", 0)];
    let today: Vec<String> = rank_reviews(cards.clone(), Some("today")).into_iter().map(|c| c.0).collect();
    assert_eq!(today, vec!["b".to_string(), "c".to_string()]);
    let unknown = rank_reviews(cards, Some("someday"));
    assert_eq!(unknown.len(), 4);
    assert_eq!(urgency_filter_level("overdue"), Some(3));
    assert_eq!(urgency_filter_level("three-days"), Some(1));
    assert_eq!(urgency_filter_level("week"), None);
}

#[test]
fn review_lines() {
    let now = 1_000 * DAY;
    assert_eq!(review_line("数学/微积分", 3, now - 2 * DAY - 5, now), "🔴 数学/微积分    已过期 2 天");
    assert_eq!(review_line("x", 2, now + DAY - 1, now), "🟡 x    今日到期");
    assert_eq!(review_line("x", 2, now - DAY + 1, now), "🟡 x    今日到期");
    assert_eq!(review_line("y", 1, now + 3 * DAY, now), "🟢 y    3 天后");
    assert_eq!(review_line("z", 0, now + 9 * DAY, now), "⚪ z    9 天后");
}

#[test]
fn command_line_event_text() {
    assert_eq!(
        event_ics("20260101T100000Z", "20260101T110000Z", "Meet"),
        "BEGIN:VCALENDAR\nVERSION:2.0\nBEGIN:VEVENT\nDTSTART:20260101T100000Z\nDTEND:20260101T110000Z\nSUMMARY:Meet\nEND:VEVENT\nEND:VCALENDAR"
    );
}

#[test]
fn training_and_quality_checks() {
    assert!(training_data_short(9, 100));
    assert!(training_data_short(10, 29));
    assert!(!training_data_short(10, 30));
    assert_eq!(link_quality("好").ok(), Some(MemoryQuality::Good));
    match link_quality("great") {
        Err(DataError::InvalidData(m)) => assert_eq!(m, "Invalid quality: great"),
        _ => panic!("expected an error"),
    }
}

use time_manager::training::matches_any_pattern;

#[test]
fn preset_match_rules() {
    let rules = vec!["math/**".to_string(), "english/grammar".to_string()];
    assert!(matches_any_pattern("math/algebra/groups", &rules));
    assert!(matches_any_pattern("english/grammar", &rules));
    assert!(!matches_any_pattern("english/words", &rules));
    assert!(!matches_any_pattern("math", &Vec::new()));
    assert!(matches_any_pattern("anything/at/all", &vec!["a[".to_string()]));
}

#[test]
fn mod_test_pattern_matching() {
    let patterns = vec!["main/语言/英语/**".to_string(), "main/数学/**".to_string()];

    assert!(matches_any_pattern("main/语言/英语/单词", &patterns));
    assert!(matches_any_pattern("main/语言/英语/六级/单词", &patterns));
    assert!(matches_any_pattern("main/数学/微积分", &patterns));
    assert!(!matches_any_pattern("main/编程/Rust", &patterns));
}
