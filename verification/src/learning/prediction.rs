//! Review scheduling of categories: the interface a scheduler offers, and
//! the stored prediction its answer becomes.
use vstd::prelude::*;
use crate::clock::now_micros;
use crate::data::models::{PredictionStateInsert, Quality, Session};
use crate::data::stamps::in_range;
use crate::text::owned;

verus! {

/// When to review next, and the scheduler state to keep until then.
pub struct PredictionResult {
    pub next_review: i64,
    pub state_bytes: Vec<u8>,
}

/// A review scheduler: from a category's sessions, the state it kept last
/// time and the quality of the latest session, when to review next. Each
/// scheduler says by `answers` which results it may give for which
/// arguments, and by `name_of` what it is called.
pub trait PredictionAlgorithm {
    /// Whether `result` is an answer the scheduler may give to these
    /// arguments.
    spec fn answers(&self, history: Seq<Session>, state: Seq<u8>, quality: Quality, result: PredictionResult) -> bool;

    /// The scheduler's name.
    spec fn name_of(&self) -> Seq<char>;

    fn predict_next_review(&self, session_history: &[Session], algorithm_state: &[u8], quality: &Quality) -> (r: PredictionResult)
        ensures
            self.answers(session_history@, algorithm_state@, *quality, r),
    ;

    fn algorithm_name(&self) -> (r: &'static str)
        ensures
            r@ == self.name_of(),
    ;
}

/// The state handed to the scheduler: the stored bytes, or none.
pub open spec fn handed_state(current_state: Option<&[u8]>) -> Seq<u8> {
    match current_state {
        Some(s) => s@,
        None => Seq::empty(),
    }
}

/// `r` is what is stored for a category reviewed at `now` after the
/// scheduler answered `result` to the sessions, the handed state and the
/// quality.
pub open spec fn stored_answer<A: PredictionAlgorithm>(
    algo: &A,
    category_id: i64,
    sessions: Seq<Session>,
    current_state: Option<&[u8]>,
    quality: Quality,
    now: i64,
    r: PredictionStateInsert,
) -> bool {
    exists|result: PredictionResult|
        #[trigger] algo.answers(sessions, handed_state(current_state), quality, result)
            && r.category_id == category_id
            && r.algorithm@ == algo.name_of()
            && r.last_review == now
            && r.next_review == result.next_review
            && r.algorithm_state@ == result.state_bytes@
}

/// The prediction to store for a category reviewed at `now`, from the
/// scheduler's name and answer.
pub fn prediction_insert(category_id: i64, algorithm: &str, now: i64, result: PredictionResult) -> (r: PredictionStateInsert)
    ensures
        r.category_id == category_id,
        r.algorithm@ == algorithm@,
        r.last_review == now,
        r.next_review == result.next_review,
        r.algorithm_state@ == result.state_bytes@,
{
    PredictionStateInsert {
        category_id,
        algorithm: owned(algorithm),
        last_review: now,
        next_review: result.next_review,
        algorithm_state: result.state_bytes,
    }
}

/// Asks the scheduler about a category reviewed at `now`, handing it the
/// sessions, the stored state (none: no bytes) and the quality, and gives
/// the prediction to store: the scheduler's name and answer, reviewed at
/// `now`.
pub fn update_prediction_at<A: PredictionAlgorithm>(
    algo: &A,
    category_id: i64,
    sessions: &[Session],
    current_state: Option<&[u8]>,
    quality: &Quality,
    now: i64,
) -> (r: PredictionStateInsert)
    ensures
        stored_answer(algo, category_id, sessions@, current_state, *quality, now, r),
{
    let empty: Vec<u8> = Vec::new();
    let state: &[u8] = match current_state {
        Some(s) => s,
        None => empty.as_slice(),
    };
    assert(state@ == handed_state(current_state));
    let result = algo.predict_next_review(sessions, state, quality);
    let ghost answer = result;
    let r = prediction_insert(category_id, algo.algorithm_name(), now, result);
    assert(algo.answers(sessions@, handed_state(current_state), *quality, answer));
    r
}

/// As `update_prediction_at`, reviewed at the instant the clock returned.
pub fn update_prediction<A: PredictionAlgorithm>(
    algo: &A,
    category_id: i64,
    sessions: &[Session],
    current_state: Option<&[u8]>,
    quality: &Quality,
) -> (r: PredictionStateInsert)
    ensures
        exists|t: i64| in_range(t) && #[trigger] stored_answer(algo, category_id, sessions@, current_state, *quality, t, r),
{
    let now = now_micros();
    let r = update_prediction_at(algo, category_id, sessions, current_state, quality, now);
    assert(in_range(now) && stored_answer(algo, category_id, sessions@, current_state, *quality, now, r));
    r
}

} // verus!
