//! Review cards, the timers recorded for them and the presets they are
//! scheduled with. Instants are microseconds since the Unix epoch.
use vstd::prelude::*;
use crate::clock::now_micros;
use crate::data::models::MemoryQuality;
use crate::data::stamps::in_range;
use crate::text::owned;

verus! {

/// One review of a card: when it ended, how long it took and how well it
/// was remembered.
#[derive(Clone, Copy)]
pub struct ReviewRecord {
    pub timestamp: i64,
    pub duration_ms: i64,
    pub memory_quality: MemoryQuality,
}

/// When a card is next due, and the scheduler state that led there.
pub struct Prediction {
    pub algorithm: String,
    pub next_review: i64,
    pub fsrs_state_bytes: Vec<u8>,
    pub preset_used: String,
}

/// A card: its reviews and, once scheduled, its prediction.
pub struct Card {
    pub review_records: Vec<ReviewRecord>,
    pub prediction: Option<Prediction>,
}

/// A finished timer run.
pub struct Timer {
    pub started_at: i64,
    pub stopped_at: i64,
    pub duration_ms: i64,
}

/// A named scheduling preset. The trained weights are kept as the bit
/// patterns of their `f32` values.
pub struct Preset {
    pub name: String,
    pub description: Option<String>,
    pub match_rules: Vec<String>,
    pub fsrs_parameters: Option<Vec<u32>>,
    pub trained_at: Option<i64>,
}

impl Prediction {
    /// The prediction a new card starts with at `now`: algorithm `fsrs`, due
    /// at once, no scheduler state, the `default` preset.
    pub fn default_at(now: i64) -> (r: Prediction)
        ensures
            r.algorithm@ == "fsrs"@,
            r.next_review == now,
            r.fsrs_state_bytes@.len() == 0,
            r.preset_used@ == "default"@,
    {
        Prediction { algorithm: owned("fsrs"), next_review: now, fsrs_state_bytes: Vec::new(), preset_used: owned("default") }
    }

    /// A copy with the same algorithm, due time, state and preset.
    pub fn duplicate(&self) -> (r: Prediction)
        ensures
            r.algorithm@ == self.algorithm@,
            r.next_review == self.next_review,
            r.fsrs_state_bytes@ == self.fsrs_state_bytes@,
            r.preset_used@ == self.preset_used@,
    {
        Prediction {
            algorithm: self.algorithm.clone(),
            next_review: self.next_review,
            fsrs_state_bytes: self.fsrs_state_bytes.clone(),
            preset_used: self.preset_used.clone(),
        }
    }
}

impl Default for Prediction {
    /// The prediction a new card starts with now.
    fn default() -> (r: Prediction)
        ensures
            r.algorithm@ == "fsrs"@,
            in_range(r.next_review),
            r.fsrs_state_bytes@.len() == 0,
            r.preset_used@ == "default"@,
    {
        Prediction::default_at(now_micros())
    }
}

impl Card {
    /// A card with no reviews and no prediction.
    pub fn new() -> (r: Card)
        ensures
            r.review_records@.len() == 0,
            r.prediction is None,
    {
        Card { review_records: Vec::new(), prediction: None }
    }

    /// A card with no reviews, due at `now` under the given preset.
    pub fn new_with_preset_at(preset: String, now: i64) -> (r: Card)
        ensures
            r.review_records@.len() == 0,
            r.prediction matches Some(p) && p.algorithm@ == "fsrs"@ && p.next_review == now
                && p.fsrs_state_bytes@.len() == 0 && p.preset_used == preset,
    {
        let mut p = Prediction::default_at(now);
        p.preset_used = preset;
        Card { review_records: Vec::new(), prediction: Some(p) }
    }

    /// A card with no reviews, due now under the given preset.
    pub fn new_with_preset(preset: String) -> (r: Card)
        ensures
            r.review_records@.len() == 0,
            r.prediction matches Some(p) && p.algorithm@ == "fsrs"@ && in_range(p.next_review)
                && p.fsrs_state_bytes@.len() == 0 && p.preset_used == preset,
    {
        Card::new_with_preset_at(preset, now_micros())
    }
}

/// What chrono writes for an instant with `%Y-%m-%dT%H-%M-%S`.
pub uninterp spec fn file_stamp_text(t: i64) -> Seq<char>;

/// `DateTime::<Utc>::from_timestamp_micros(t)` formatted with
/// `%Y-%m-%dT%H-%M-%S`.
#[verifier::external_body]
fn format_file_stamp(t: i64) -> (r: String)
    requires
        in_range(t),
    ensures
        r@ == file_stamp_text(t),
{
    let dt = chrono::DateTime::from_timestamp_micros(t).unwrap_or_default();
    dt.format("%Y-%m-%dT%H-%M-%S").to_string()
}

impl Timer {
    pub fn new(started_at: i64, stopped_at: i64, duration_ms: i64) -> (r: Timer)
        ensures
            r.started_at == started_at,
            r.stopped_at == stopped_at,
            r.duration_ms == duration_ms,
    {
        Timer { started_at, stopped_at, duration_ms }
    }

    /// The name its file is stored under: the start, to the second.
    pub fn filename(&self) -> (r: String)
        requires
            in_range(self.started_at),
        ensures
            r@ == file_stamp_text(self.started_at),
    {
        format_file_stamp(self.started_at)
    }
}

impl Preset {
    /// The preset every data directory starts with.
    pub fn default_preset() -> (r: Preset)
        ensures
            r.name@ == "default"@,
            r.description matches Some(d) && d@ == "默认预设"@,
            r.match_rules@.len() == 0,
            r.fsrs_parameters is None,
            r.trained_at is None,
    {
        Preset {
            name: owned("default"),
            description: Some(owned("默认预设")),
            match_rules: Vec::new(),
            fsrs_parameters: None,
            trained_at: None,
        }
    }
}

} // verus!
