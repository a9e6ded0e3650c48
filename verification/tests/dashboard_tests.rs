use time_manager::data::cards::{Card, Prediction};
use time_manager::display::review_rows_at;

const HOUR: i64 = 3_600_000_000;

fn due(path: &str, next_review: Option<i64>) -> (String, Card) {
    let mut card = Card::new();
    card.prediction = next_review.map(|t| Prediction {
        algorithm: "fsrs".to_string(),
        next_review: t,
        fsrs_state_bytes: vec![],
        preset_used: "default".to_string(),
    });
    (path.to_string(), card)
}

fn sample(now: i64) -> Vec<(String, Card)> {
    vec![
        due("a/overdue", Some(now - 2 * HOUR)),
        due("a/unscheduled", None),
        due("b/today", Some(now + 5 * HOUR)),
        due("b/week", Some(now + 48 * HOUR)),
        due("c/later", Some(now + 200 * HOUR)),
    ]
}

#[test]
fn dashboard_without_filter_lists_every_predicted_card() {
    let now: i64 = 1_700_000_000_000_000;
    assert_eq!(review_rows_at(&sample(now), None, now), vec![(0, 3), (2, 2), (3, 1), (4, 0)]);
}

#[test]
fn dashboard_filters_by_urgency() {
    let now: i64 = 1_700_000_000_000_000;
    assert_eq!(review_rows_at(&sample(now), Some(3), now), vec![(0, 3)]);
    assert_eq!(review_rows_at(&sample(now), Some(2), now), vec![(0, 3), (2, 2)]);
    assert_eq!(review_rows_at(&sample(now), Some(1), now), vec![(0, 3), (2, 2), (3, 1), (4, 0)]);
    assert!(review_rows_at(&vec![], Some(3), now).is_empty());
}
