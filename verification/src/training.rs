//! Which cards a preset trains on, by the glob patterns of its match rules,
//! and the review histories it trains with.
use vstd::prelude::*;
use crate::data::cards::{Card, ReviewRecord};
use crate::learning::params::{memory_quality_to_rating, rating_of_memory};
use crate::timer::div_trunc;
use crate::text::owned;

verus! {

/// Whether globset accepts a glob pattern.
pub uninterp spec fn glob_valid(pattern: Seq<char>) -> bool;

/// Whether a glob pattern, compiled by globset, matches a path.
pub uninterp spec fn glob_matches(pattern: Seq<char>, path: Seq<char>) -> bool;

/// Whether globset builds a set of these patterns (each accepted by
/// `Glob::new`): it refuses a set whose compiled matcher passes its size
/// limit.
pub uninterp spec fn glob_set_builds(patterns: Seq<Seq<char>>) -> bool;

/// `globset::Glob::new(pattern).is_ok()`.
#[verifier::external_body]
fn glob_compiles(pattern: &str) -> (r: bool)
    ensures
        r == glob_valid(pattern@),
{
    globset::Glob::new(pattern).is_ok()
}

/// A `GlobSetBuilder` given `Glob::new(p)` of each pattern, then
/// `build()`: `None` where a pattern or the set fails to build, else
/// whether the set `is_match(path)`, that is whether one of its globs
/// matches the path.
#[verifier::external_body]
fn glob_set_match(patterns: &Vec<String>, path: &str) -> (r: Option<bool>)
    ensures
        r is Some <==> ((forall|i: int| 0 <= i < patterns@.len() ==> glob_valid(#[trigger] patterns@[i]@))
            && glob_set_builds(texts_of(patterns@))),
        r matches Some(b) ==> (b <==> exists|i: int|
            0 <= i < patterns@.len() && #[trigger] glob_matches(patterns@[i]@, path@)),
{
    let mut builder = globset::GlobSetBuilder::new();
    for p in patterns {
        match globset::Glob::new(p) {
            Ok(g) => {
                builder.add(g);
            },
            Err(_) => return None,
        }
    }
    match builder.build() {
        Ok(set) => Some(set.is_match(path)),
        Err(_) => None,
    }
}

/// Globset accepts every pattern and builds the set of them.
pub open spec fn set_usable(patterns: Seq<Seq<char>>) -> bool {
    &&& forall|i: int| 0 <= i < patterns.len() ==> glob_valid(#[trigger] patterns[i])
    &&& glob_set_builds(patterns)
}

/// The texts of a list of strings.
pub open spec fn texts_of(s: Seq<String>) -> Seq<Seq<char>> {
    s.map_values(|p: String| p@)
}

/// The pattern a rule stands for: a pattern globset does not accept is
/// taken as `*`.
pub open spec fn effective_pattern(pattern: Seq<char>) -> Seq<char> {
    if glob_valid(pattern) { pattern } else { "*"@ }
}

/// The patterns the rules stand for, in order.
pub open spec fn effective_patterns(patterns: Seq<String>) -> Seq<Seq<char>> {
    patterns.map_values(|p: String| effective_pattern(p@))
}

/// Whether one rule covers a path: a pattern globset does not accept is
/// taken as `*`.
pub open spec fn rule_covers(pattern: Seq<char>, path: Seq<char>) -> bool {
    glob_valid(effective_pattern(pattern)) && glob_matches(effective_pattern(pattern), path)
}

/// Each rule replaced by the pattern it stands for.
fn effective_list(patterns: &[String]) -> (r: Vec<String>)
    ensures
        texts_of(r@) == effective_patterns(patterns@),
        r@.len() == patterns@.len(),
{
    let mut out: Vec<String> = Vec::new();
    for i in 0..patterns.len()
        invariant
            out@.len() == i,
            forall|j: int| 0 <= j < i ==> (#[trigger] out@[j])@ == effective_pattern(patterns@[j]@),
    {
        let p = patterns[i].as_str();
        if glob_compiles(p) {
            out.push(owned(p));
        } else {
            out.push(owned("*"));
        }
    }
    assert(texts_of(out@) =~= effective_patterns(patterns@));
    out
}

/// Globset accepts every one of the strings exactly when it accepts every
/// one of their texts.
proof fn lemma_all_valid(eff: Seq<String>)
    ensures
        (forall|i: int| 0 <= i < eff.len() ==> glob_valid(#[trigger] eff[i]@))
            <==> (forall|i: int| 0 <= i < texts_of(eff).len() ==> glob_valid(#[trigger] texts_of(eff)[i])),
{
    if forall|i: int| 0 <= i < eff.len() ==> glob_valid(#[trigger] eff[i]@) {
        assert forall|i: int| 0 <= i < texts_of(eff).len() implies glob_valid(#[trigger] texts_of(eff)[i]) by {
            assert(texts_of(eff)[i] == eff[i]@);
        }
    }
    if forall|i: int| 0 <= i < texts_of(eff).len() ==> glob_valid(#[trigger] texts_of(eff)[i]) {
        assert forall|i: int| 0 <= i < eff.len() implies glob_valid(#[trigger] eff[i]@) by {
            assert(texts_of(eff)[i] == eff[i]@);
        }
    }
}

/// Whether any match rule covers the card path; never with no rules. The
/// rules are built into one glob set, as one matcher; where globset refuses
/// that set the caller must not ask (see `try_matches_any_pattern`).
pub fn matches_any_pattern(path: &str, patterns: &[String]) -> (r: bool)
    requires
        patterns@.len() > 0 ==> set_usable(effective_patterns(patterns@)),
    ensures
        r == (patterns@.len() > 0 && exists|i: int| 0 <= i < patterns@.len() && rule_covers(#[trigger] patterns@[i]@, path@)),
{
    if patterns.len() == 0 {
        return false;
    }
    let eff = effective_list(patterns);
    proof {
        lemma_all_valid(eff@);
    }
    match glob_set_match(&eff, path) {
        Some(b) => {
            proof {
                assert forall|i: int| 0 <= i < patterns@.len() implies (rule_covers(#[trigger] patterns@[i]@, path@) <==> (
                glob_valid(eff@[i]@) && glob_matches(eff@[i]@, path@))) by {
                    assert(texts_of(eff@)[i] == effective_patterns(patterns@)[i]);
                }
                if b {
                    let i = choose|i: int| 0 <= i < eff@.len() && #[trigger] glob_matches(eff@[i]@, path@);
                    assert(texts_of(eff@)[i] == eff@[i]@);
                    assert(glob_valid(eff@[i]@));
                    assert(rule_covers(patterns@[i]@, path@));
                } else {
                    assert forall|i: int| 0 <= i < patterns@.len() implies !rule_covers(#[trigger] patterns@[i]@, path@) by {
                        if rule_covers(patterns@[i]@, path@) {
                            assert(glob_matches(eff@[i]@, path@));
                        }
                    }
                }
            }
            b
        },
        None => false,
    }
}

/// Whether any match rule covers the card path, or `None` where globset
/// refuses to build the set of the rules.
pub fn try_matches_any_pattern(path: &str, patterns: &[String]) -> (r: Option<bool>)
    ensures
        r is None <==> (patterns@.len() > 0 && !set_usable(effective_patterns(patterns@))),
        r matches Some(b) ==> b == (patterns@.len() > 0 && exists|i: int|
            0 <= i < patterns@.len() && rule_covers(#[trigger] patterns@[i]@, path@)),
{
    if patterns.len() == 0 {
        return Some(false);
    }
    let eff = effective_list(patterns);
    proof {
        lemma_all_valid(eff@);
    }
    match glob_set_match(&eff, path) {
        Some(_) => Some(matches_any_pattern(path, patterns)),
        None => None,
    }
}

/// A day in microseconds.
pub const DAY_MICROS: i64 = 86_400_000_000;

/// One review as the scheduler trains on it: its rating and the whole days
/// since the review before.
pub struct TrainingReview {
    pub rating: u32,
    pub delta_t: u32,
}

/// The reviews of one card, in order.
pub struct TrainingItem {
    pub reviews: Vec<TrainingReview>,
}

/// Whole days from `earlier` to `later`, rounded toward zero.
pub open spec fn days_between(later: i64, earlier: i64) -> int {
    div_trunc(later - earlier, DAY_MICROS as int)
}

/// The training form of review `i`: its rating, and the days since review
/// `i - 1` cut to 32 bits (zero for the first review).
pub open spec fn review_step(records: Seq<ReviewRecord>, i: int) -> (u32, u32) {
    (
        rating_of_memory(records[i].memory_quality),
        if i == 0 { 0u32 } else { days_between(records[i].timestamp, records[i - 1].timestamp) as u32 },
    )
}

/// The reviews of an item, as pairs of rating and days.
pub open spec fn steps_of(item: TrainingItem) -> Seq<(u32, u32)> {
    item.reviews@.map_values(|r: TrainingReview| (r.rating, r.delta_t))
}

/// The item a card's reviews give: none without reviews; else one item
/// with a step per review.
pub open spec fn card_item(records: Seq<ReviewRecord>, item: TrainingItem) -> bool {
    &&& steps_of(item).len() == records.len()
    &&& forall|i: int| 0 <= i < records.len() ==> #[trigger] steps_of(item)[i] == review_step(records, i)
}

fn whole_days(later: i64, earlier: i64) -> (r: i128)
    ensures
        r == days_between(later, earlier),
{
    let d: i128 = later as i128 - earlier as i128;
    let day: i128 = 86_400_000_000;
    if d >= 0 {
        d / day
    } else {
        0 - (0 - d) / day
    }
}

/// The training items of a card: none where it has no reviews, else one
/// item with each review's rating and the whole days since the one before.
pub fn convert_card_to_fsrs_items(card: &Card) -> (r: Option<Vec<TrainingItem>>)
    ensures
        card.review_records@.len() == 0 <==> r is None,
        r matches Some(items) ==> items@.len() == 1 && card_item(card.review_records@, items@[0]),
{
    let recs = &card.review_records;
    if recs.len() == 0 {
        return None;
    }
    let mut reviews: Vec<TrainingReview> = Vec::new();
    for i in 0..recs.len()
        invariant
            reviews@.len() == i,
            forall|j: int| 0 <= j < i ==> (#[trigger] reviews@[j]).rating == review_step(recs@, j).0
                && reviews@[j].delta_t == review_step(recs@, j).1,
    {
        let delta_t: u32 = if i == 0 {
            0
        } else {
            let d = whole_days(recs[i].timestamp, recs[i - 1].timestamp);
            #[verifier::truncate]
            (d as u32)
        };
        let rating = memory_quality_to_rating(&recs[i].memory_quality);
        reviews.push(TrainingReview { rating, delta_t });
    }
    let item = TrainingItem { reviews };
    proof {
        assert forall|i: int| 0 <= i < card.review_records@.len() implies #[trigger] steps_of(item)[i] == review_step(
            card.review_records@,
            i,
        ) by {
            assert(steps_of(item)[i] == (item.reviews@[i].rating, item.reviews@[i].delta_t));
        }
    }
    let mut items: Vec<TrainingItem> = Vec::new();
    items.push(item);
    Some(items)
}

/// The training items of all cards: one per card that has reviews, in
/// order.
pub fn collect_training_data(cards: &[Card]) -> (r: Vec<TrainingItem>)
    ensures
        r@.len() == reviewed(cards@).len(),
        forall|i: int| 0 <= i < r@.len() ==> card_item((#[trigger] reviewed(cards@)[i]).review_records@, r@[i]),
{
    let mut out: Vec<TrainingItem> = Vec::new();
    let n = cards.len();
    let mut k: usize = 0;
    proof {
        assert(cards@.take(0) =~= Seq::<Card>::empty());
    }
    while k < n
        invariant
            n == cards@.len(),
            k <= n,
            out@.len() == reviewed(cards@.take(k as int)).len(),
            forall|i: int| 0 <= i < out@.len() ==> card_item((#[trigger] reviewed(cards@.take(k as int))[i]).review_records@, out@[i]),
        decreases n - k,
    {
        let ghost prev = reviewed(cards@.take(k as int));
        let ghost before = out@;
        proof {
            assert(cards@.take(k + 1).drop_last() =~= cards@.take(k as int));
            assert(cards@.take(k + 1).last() == cards@[k as int]);
        }
        match convert_card_to_fsrs_items(&cards[k]) {
            Some(mut items) => {
                let item = items.remove(0);
                let ghost it = item;
                out.push(item);
                proof {
                    assert(reviewed(cards@.take(k + 1)) == prev.push(cards@[k as int]));
                    assert forall|i: int| 0 <= i < out@.len() implies card_item(
                        (#[trigger] reviewed(cards@.take(k + 1))[i]).review_records@,
                        out@[i],
                    ) by {
                        if i < prev.len() {
                            assert(reviewed(cards@.take(k + 1))[i] == prev[i]);
                            assert(out@[i] == before[i]);
                        } else {
                            assert(out@[i] == it);
                            assert(reviewed(cards@.take(k + 1))[i] == cards@[k as int]);
                        }
                    }
                }
            },
            None => {
                proof {
                    assert(reviewed(cards@.take(k + 1)) == prev);
                }
            },
        }
        k = k + 1;
    }
    proof {
        assert(cards@.take(cards@.len() as int) =~= cards@);
        assert(reviewed(cards@.take(cards@.len() as int)) == reviewed(cards@));
    }
    out
}

/// The cards that have reviews, in order.
pub open spec fn reviewed(cards: Seq<Card>) -> Seq<Card>
    decreases cards.len(),
{
    if cards.len() == 0 {
        Seq::empty()
    } else if cards.last().review_records@.len() > 0 {
        reviewed(cards.drop_last()).push(cards.last())
    } else {
        reviewed(cards.drop_last())
    }
}

} // verus!
