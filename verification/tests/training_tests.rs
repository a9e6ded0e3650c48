use time_manager::data::cards::{Card, ReviewRecord};
use time_manager::data::models::MemoryQuality;
use time_manager::training::{collect_training_data, convert_card_to_fsrs_items, try_matches_any_pattern, DAY_MICROS};

fn record(timestamp: i64, memory_quality: MemoryQuality) -> ReviewRecord {
    ReviewRecord { timestamp, duration_ms: 1_000, memory_quality }
}

#[test]
fn test_convert_card_to_fsrs_items() {
    let now: i64 = 1_700_000_000_000_000;
    let mut card = Card::new();
    card.review_records.push(record(now - 3 * DAY_MICROS, MemoryQuality::Good));
    card.review_records.push(record(now, MemoryQuality::Easy));

    let items = convert_card_to_fsrs_items(&card).unwrap();
    assert_eq!(items.len(), 1);
    assert_eq!(items[0].reviews.len(), 2);
    assert_eq!(items[0].reviews[0].rating, 3);
    assert_eq!(items[0].reviews[0].delta_t, 0);
    assert_eq!(items[0].reviews[1].rating, 4);
    assert_eq!(items[0].reviews[1].delta_t, 3);
}

#[test]
fn convert_card_without_reviews_gives_none() {
    assert!(convert_card_to_fsrs_items(&Card::new()).is_none());
}

#[test]
fn convert_counts_whole_days_only() {
    let start: i64 = 1_000 * DAY_MICROS;
    let mut card = Card::new();
    card.review_records.push(record(start, MemoryQuality::Relearn));
    card.review_records.push(record(start + 2 * DAY_MICROS - 1, MemoryQuality::Hard));
    card.review_records.push(record(start + 2 * DAY_MICROS - 1 + DAY_MICROS / 2, MemoryQuality::Good));
    let items = convert_card_to_fsrs_items(&card).unwrap();
    let steps: Vec<(u32, u32)> = items[0].reviews.iter().map(|r| (r.rating, r.delta_t)).collect();
    assert_eq!(steps, vec![(1, 0), (2, 1), (3, 0)]);
}

#[test]
fn collect_skips_cards_without_reviews() {
    let mut first = Card::new();
    first.review_records.push(record(0, MemoryQuality::Easy));
    let empty = Card::new();
    let mut third = Card::new();
    third.review_records.push(record(0, MemoryQuality::Hard));
    third.review_records.push(record(5 * DAY_MICROS, MemoryQuality::Good));

    let items = collect_training_data(&[first, empty, third]);
    assert_eq!(items.len(), 2);
    assert_eq!(items[0].reviews.len(), 1);
    assert_eq!(items[0].reviews[0].rating, 4);
    assert_eq!(items[1].reviews.len(), 2);
    assert_eq!(items[1].reviews[1].delta_t, 5);
}

#[test]
fn collect_of_no_cards_is_empty() {
    assert!(collect_training_data(&[]).is_empty());
}

#[test]
fn try_matching_answers_where_the_set_builds() {
    let rules = vec!["math/**".to_string(), "a[".to_string()];
    assert_eq!(try_matches_any_pattern("english/words", &rules), Some(true));
    assert_eq!(try_matches_any_pattern("math/x", &vec!["math/**".to_string()]), Some(true));
    assert_eq!(try_matches_any_pattern("art/x", &vec!["math/**".to_string()]), Some(false));
    assert_eq!(try_matches_any_pattern("math/x", &[]), Some(false));
}

#[test]
fn try_matching_reports_a_set_too_large_to_build() {
    let huge = "?".repeat(400_000);
    assert_eq!(try_matches_any_pattern("x", &vec![huge]), None);
}
