//! The `tmd` command line: its commands, and what its commands compute
//! between reading the data directory and printing.
use vstd::prelude::*;
use crate::data::error::DataError;
use crate::data::models::{MemoryQuality, memory_quality_from_label};
use crate::display::secs_toward_zero;
use crate::text::{decimal, push_decimal, push_str, str_eq};
use crate::timer::div_trunc;

verus! {

/// The parsed command line.
pub struct Cli {
    pub command: Commands,
    pub data_dir: Option<String>,
}

pub enum Commands {
    Init,
    TreeCreate { name: String, description: Option<String>, import: Option<String> },
    TreeList { name: Option<String> },
    CardCreate { path: String, preset: Option<String> },
    CardList { path: String },
    CardPredict { path: String },
    CardLink { timer: String, path: String, quality: String },
    PresetCreate { name: String, description: Option<String> },
    PresetList { name: Option<String> },
    PresetTrain { name: String },
    TimerStart { name: Option<String> },
    TimerPause,
    TimerStop,
    TimerGet { name: String },
    TodoCreate { content: String },
    TodoList,
    TodoToSchedule { id: String, start: String, end: String },
    ScheduleCreate { start: String, end: String, summary: String },
    ScheduleList,
    ReviewList { urgency: Option<String> },
}

/// The least urgency a `review-list --urgency` filter keeps; none for a
/// name it does not know.
pub open spec fn filter_level(name: Seq<char>) -> Option<i32> {
    if name == "overdue"@ {
        Some(3)
    } else if name == "today"@ {
        Some(2)
    } else if name == "three-days"@ {
        Some(1)
    } else {
        None
    }
}

pub fn urgency_filter_level(name: &str) -> (r: Option<i32>)
    ensures
        r == filter_level(name@),
{
    if str_eq(name, "overdue") {
        Some(3)
    } else if str_eq(name, "today") {
        Some(2)
    } else if str_eq(name, "three-days") {
        Some(1)
    } else {
        None
    }
}

/// A card due for review: its path, its urgency and when it is due.
pub type DueCard = (String, i32, i64);

/// `x` put into `s` before the first entry less urgent than it, so that it
/// follows every entry at least as urgent.
pub open spec fn insert_by_urgency(s: Seq<DueCard>, x: DueCard) -> Seq<DueCard>
    decreases s.len(),
{
    if s.len() == 0 {
        seq![x]
    } else if s[0].1 < x.1 {
        seq![x] + s
    } else {
        seq![s[0]] + insert_by_urgency(s.drop_first(), x)
    }
}

/// The entries from most to least urgent, those equally urgent in the order
/// they came (a stable sort).
pub open spec fn by_urgency(s: Seq<DueCard>) -> Seq<DueCard>
    decreases s.len(),
{
    if s.len() == 0 {
        Seq::empty()
    } else {
        insert_by_urgency(by_urgency(s.drop_last()), s.last())
    }
}

/// The review list: ordered by urgency, then cut to the entries at least as
/// urgent as the filter asks, where the filter names a level.
pub open spec fn ranked(s: Seq<DueCard>, level: Option<i32>) -> Seq<DueCard> {
    match level {
        Some(l) => by_urgency(s).filter(|c: DueCard| c.1 >= l),
        None => by_urgency(s),
    }
}

/// Where `insert_by_urgency` puts `x`.
pub open spec fn insert_place(s: Seq<DueCard>, x: DueCard, i: int) -> bool {
    &&& 0 <= i <= s.len()
    &&& forall|j: int| 0 <= j < i ==> s[j].1 >= x.1
    &&& (i < s.len() ==> s[i].1 < x.1)
}

proof fn lemma_insert_at(s: Seq<DueCard>, x: DueCard, i: int)
    requires
        insert_place(s, x, i),
    ensures
        insert_by_urgency(s, x) == s.insert(i, x),
    decreases s.len(),
{
    if s.len() == 0 {
        assert(s.insert(i, x) =~= seq![x]);
    } else if i == 0 {
        assert(s.insert(0, x) =~= seq![x] + s);
    } else {
        let t = s.drop_first();
        assert(insert_place(t, x, i - 1)) by {
            assert forall|j: int| 0 <= j < i - 1 implies t[j].1 >= x.1 by {
                assert(t[j] == s[j + 1]);
            }
            if i - 1 < t.len() {
                assert(t[i - 1] == s[i]);
            }
        }
        assert(s[0].1 >= x.1);
        lemma_insert_at(t, x, i - 1);
        assert(seq![s[0]] + t.insert(i - 1, x) =~= s.insert(i, x));
    }
}

fn copy_due(c: &DueCard) -> (r: DueCard)
    ensures
        r == *c,
{
    (c.0.clone(), c.1, c.2)
}

/// Orders the review list by urgency, most urgent first and equals in the
/// order they came, then keeps the entries at least as urgent as the named
/// filter asks; an unknown filter name keeps all.
pub fn rank_reviews(cards: Vec<DueCard>, filter: Option<&str>) -> (r: Vec<DueCard>)
    ensures
        r@ == ranked(cards@, match filter {
            Some(f) => filter_level(f@),
            None => None,
        }),
{
    let mut sorted: Vec<DueCard> = Vec::new();
    let n = cards.len();
    for k in 0..n
        invariant
            n == cards@.len(),
            sorted@ == by_urgency(cards@.take(k as int)),
    {
        let x = copy_due(&cards[k]);
        proof {
            assert(cards@.take(k + 1).drop_last() =~= cards@.take(k as int));
        }
        let mut i: usize = 0;
        while i < sorted.len() && sorted[i].1 >= x.1
            invariant
                i <= sorted@.len(),
                forall|j: int| 0 <= j < i ==> sorted@[j].1 >= x.1,
            decreases sorted@.len() - i,
        {
            i = i + 1;
        }
        let ghost before = sorted@;
        proof {
            lemma_insert_at(before, x, i as int);
        }
        sorted.insert(i, x);
        proof {
            assert(cards@.take(k + 1).last() == cards@[k as int]);
            assert(sorted@ =~= insert_by_urgency(by_urgency(cards@.take(k as int)), x));
        }
    }
    proof {
        assert(cards@.take(n as int) =~= cards@);
    }
    let level = match filter {
        Some(f) => urgency_filter_level(f),
        None => None,
    };
    match level {
        None => sorted,
        Some(l) => {
            let mut kept: Vec<DueCard> = Vec::new();
            for i in 0..sorted.len()
                invariant
                    kept@ == sorted@.take(i as int).filter(|c: DueCard| c.1 >= l),
            {
                proof {
                    sorted@.take(i as int).lemma_filter_push(sorted@[i as int], |c: DueCard| c.1 >= l);
                    assert(sorted@.take(i + 1) =~= sorted@.take(i as int).push(sorted@[i as int]));
                }
                if sorted[i].1 >= l {
                    kept.push(copy_due(&sorted[i]));
                }
            }
            proof {
                assert(sorted@.take(sorted@.len() as int) =~= sorted@);
            }
            kept
        },
    }
}

/// Whole days from `now` until `next`, rounded toward zero.
pub open spec fn days_until(next: i64, now: i64) -> int {
    div_trunc(secs_toward_zero(next, now), 86400)
}

/// How the review list tells when a card is due.
pub open spec fn due_text(days: int) -> Seq<char> {
    if days < 0 {
        "已过期 "@ + decimal(-days) + " 天"@
    } else if days == 0 {
        "今日到期"@
    } else {
        decimal(days) + " 天后"@
    }
}

/// The mark the review list puts before a card of this urgency.
pub open spec fn urgency_mark(u: i32) -> Seq<char> {
    if u == 3 { "🔴"@ } else if u == 2 { "🟡"@ } else if u == 1 { "🟢"@ } else { "⚪"@ }
}

/// One line of the review list: mark, path and when the card is due.
pub open spec fn review_line_text(path: Seq<char>, u: i32, next: i64, now: i64) -> Seq<char> {
    urgency_mark(u) + " "@ + path + "    "@ + due_text(days_until(next, now))
}

fn whole_days(next: i64, now: i64) -> (r: i64)
    ensures
        r == days_until(next, now),
{
    let d: i128 = next as i128 - now as i128;
    let secs: i128 = if d >= 0 { d / 1_000_000 } else { 0 - ((0 - d) / 1_000_000) };
    let days: i128 = if secs >= 0 { secs / 86400 } else { 0 - ((0 - secs) / 86400) };
    days as i64
}

/// The review-list line for a card at `path` of urgency `urgency` due at
/// `next`, as seen at `now`.
pub fn review_line(path: &str, urgency: i32, next: i64, now: i64) -> (r: String)
    ensures
        r@ == review_line_text(path@, urgency, next, now),
{
    let mut out = String::new();
    let mark = if urgency == 3 {
        "🔴"
    } else if urgency == 2 {
        "🟡"
    } else if urgency == 1 {
        "🟢"
    } else {
        "⚪"
    };
    push_str(&mut out, mark);
    push_str(&mut out, " ");
    push_str(&mut out, path);
    push_str(&mut out, "    ");
    let days = whole_days(next, now);
    if days < 0 {
        push_str(&mut out, "已过期 ");
        push_decimal(&mut out, 0 - days);
        push_str(&mut out, " 天");
    } else if days == 0 {
        push_str(&mut out, "今日到期");
    } else {
        push_decimal(&mut out, days);
        push_str(&mut out, " 天后");
    }
    proof {
        assert(out@ =~= review_line_text(path@, urgency, next, now));
    }
    out
}

/// The calendar text `tmd` writes for an event given on the command line.
pub open spec fn event_text(start: Seq<char>, end: Seq<char>, summary: Seq<char>) -> Seq<char> {
    "BEGIN:VCALENDAR\nVERSION:2.0\nBEGIN:VEVENT\nDTSTART:"@ + start + "\nDTEND:"@ + end + "\nSUMMARY:"@ + summary
        + "\nEND:VEVENT\nEND:VCALENDAR"@
}

pub fn event_ics(start: &str, end: &str, summary: &str) -> (r: String)
    ensures
        r@ == event_text(start@, end@, summary@),
{
    let mut out = String::new();
    push_str(&mut out, "BEGIN:VCALENDAR\nVERSION:2.0\nBEGIN:VEVENT\nDTSTART:");
    push_str(&mut out, start);
    push_str(&mut out, "\nDTEND:");
    push_str(&mut out, end);
    push_str(&mut out, "\nSUMMARY:");
    push_str(&mut out, summary);
    push_str(&mut out, "\nEND:VEVENT\nEND:VCALENDAR");
    proof {
        assert(out@ =~= event_text(start@, end@, summary@));
    }
    out
}

/// Training data falls short of the recommended ten cards and thirty
/// reviews.
pub fn training_data_short(cards: usize, reviews: usize) -> (r: bool)
    ensures
        r == (cards < 10 || reviews < 30),
{
    cards < 10 || reviews < 30
}

/// The memory quality `card-link` names, or the error it reports.
pub fn link_quality(quality: &str) -> (r: Result<MemoryQuality, DataError>)
    ensures
        match r {
            Ok(q) => memory_quality_from_label(quality@) == Some(q),
            Err(e) => memory_quality_from_label(quality@) is None && (e matches DataError::InvalidData(m)
                && m@ == "Invalid quality: "@ + quality@),
        },
{
    match MemoryQuality::from_str(quality) {
        Some(q) => Ok(q),
        None => {
            let mut m = String::new();
            push_str(&mut m, "Invalid quality: ");
            push_str(&mut m, quality);
            proof {
                assert(m@ =~= "Invalid quality: "@ + quality@);
            }
            Err(DataError::InvalidData(m))
        },
    }
}

/// How many leading entries of `s` are at least as urgent as `x`.
spec fn place_of(s: Seq<DueCard>, x: DueCard) -> int
    decreases s.len(),
{
    if s.len() == 0 || s[0].1 < x.1 {
        0
    } else {
        1 + place_of(s.drop_first(), x)
    }
}

proof fn lemma_place_of(s: Seq<DueCard>, x: DueCard)
    ensures
        insert_place(s, x, place_of(s, x)),
    decreases s.len(),
{
    if s.len() > 0 && s[0].1 >= x.1 {
        let t = s.drop_first();
        lemma_place_of(t, x);
        let i = place_of(s, x);
        assert forall|j: int| 0 <= j < i implies s[j].1 >= x.1 by {
            if j > 0 {
                assert(s[j] == t[j - 1]);
            }
        }
        if i < s.len() {
            assert(s[i] == t[i - 1]);
        }
    }
}

/// Putting an entry in its place keeps the entries in urgency order and
/// adds exactly that entry.
proof fn lemma_insert_sorted(s: Seq<DueCard>, x: DueCard)
    requires
        forall|i: int, j: int| 0 <= i < j < s.len() ==> s[i].1 >= s[j].1,
    ensures
        forall|i: int, j: int|
            0 <= i < j < insert_by_urgency(s, x).len() ==> insert_by_urgency(s, x)[i].1
                >= insert_by_urgency(s, x)[j].1,
        insert_by_urgency(s, x).to_multiset() == s.to_multiset().insert(x),
{
    let p = place_of(s, x);
    lemma_place_of(s, x);
    lemma_insert_at(s, x, p);
    vstd::seq_lib::to_multiset_insert(s, p, x);
    let r = s.insert(p, x);
    assert forall|i: int, j: int| 0 <= i < j < r.len() implies r[i].1 >= r[j].1 by {
        if j < p {
            assert(r[i] == s[i] && r[j] == s[j]);
        } else if j == p {
            assert(r[i] == s[i]);
        } else if i < p {
            assert(r[i] == s[i] && r[j] == s[j - 1]);
            assert(s[p].1 < x.1);
            assert(s[p].1 >= s[j - 1].1 || p == j - 1);
        } else if i == p {
            assert(r[j] == s[j - 1]);
            assert(s[p].1 >= s[j - 1].1 || p == j - 1);
        } else {
            assert(r[i] == s[i - 1] && r[j] == s[j - 1]);
        }
    }
}

/// The review list is ordered from most to least urgent and holds exactly
/// the entries it was given.
pub proof fn law_review_order(s: Seq<DueCard>)
    ensures
        forall|i: int, j: int|
            0 <= i < j < by_urgency(s).len() ==> by_urgency(s)[i].1 >= by_urgency(s)[j].1,
        by_urgency(s).to_multiset() == s.to_multiset(),
    decreases s.len(),
{
    broadcast use vstd::multiset::group_multiset_axioms;
    broadcast use vstd::seq_lib::group_to_multiset_ensures;
    if s.len() == 0 {
        assert(s.to_multiset() =~= by_urgency(s).to_multiset()) by {
            assert(by_urgency(s) =~= s);
        }
    } else {
        let t = s.drop_last();
        law_review_order(t);
        lemma_insert_sorted(by_urgency(t), s.last());
        assert(t.push(s.last()) =~= s);
    }
}

} // verus!
