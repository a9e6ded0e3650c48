use time_manager::data::models::{Quality, Session};
use vstd::seq::Seq;
use time_manager::learning::params::quality_to_rating;
use time_manager::learning::prediction::{
    prediction_insert, update_prediction, update_prediction_at, PredictionAlgorithm, PredictionResult,
};

/// A scheduler that puts the next review a day per rating point later and
/// keeps the rating and the length of the state it was handed.
struct FixedSteps;

impl PredictionAlgorithm for FixedSteps {
    // The two specification members of the trait only have meaning to the
    // verifier; compiled code never calls them.
    fn answers(&self, _history: Seq<Session>, _state: Seq<u8>, _quality: Quality, _result: PredictionResult) -> bool {
        unreachable!()
    }

    fn name_of(&self) -> Seq<char> {
        unreachable!()
    }

    fn predict_next_review(&self, session_history: &[Session], algorithm_state: &[u8], quality: &Quality) -> PredictionResult {
        let rating = quality_to_rating(quality);
        PredictionResult {
            next_review: 86_400_000_000 * rating as i64 + session_history.len() as i64,
            state_bytes: vec![rating as u8, algorithm_state.len() as u8],
        }
    }

    fn algorithm_name(&self) -> &'static str {
        "fixed"
    }
}

#[test]
fn insert_keeps_the_answer() {
    let r = prediction_insert(7, "fsrs", 1_000, PredictionResult { next_review: 5_000, state_bytes: vec![1, 2, 3] });
    assert_eq!(r.category_id, 7);
    assert_eq!(r.algorithm, "fsrs");
    assert_eq!(r.last_review, 1_000);
    assert_eq!(r.next_review, 5_000);
    assert_eq!(r.algorithm_state, vec![1, 2, 3]);
}

#[test]
fn update_hands_no_state_as_empty_bytes() {
    let r = update_prediction_at(&FixedSteps, 3, &[], None, &Quality::High, 42);
    assert_eq!(r.category_id, 3);
    assert_eq!(r.algorithm, "fixed");
    assert_eq!(r.last_review, 42);
    assert_eq!(r.next_review, 3 * 86_400_000_000);
    assert_eq!(r.algorithm_state, vec![3, 0]);
}

#[test]
fn update_hands_over_the_stored_state() {
    let stored = [9u8, 9, 9, 9];
    let r = update_prediction_at(&FixedSteps, 4, &[], Some(&stored), &Quality::Complete, 0);
    assert_eq!(r.algorithm_state, vec![4, 4]);
    assert_eq!(r.next_review, 4 * 86_400_000_000);
}

#[test]
fn update_now_records_the_current_time() {
    let r = update_prediction(&FixedSteps, 1, &[], None, &Quality::VeryLow);
    assert!(r.last_review > 1_600_000_000_000_000);
    assert_eq!(r.algorithm_state, vec![1, 0]);
}
