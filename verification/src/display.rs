//! How durations, due dates and urgencies read in the interface.
use vstd::prelude::*;
use crate::text::{decimal, padded2, push_decimal, push_padded2, push_str};
use crate::timer::{div_t, div_trunc, rem_t, rem_trunc};
use crate::clock::now_micros;
use crate::data::models::PredictionState;
use crate::data::cards::Card;

verus! {

/// A count of seconds as `HH:MM:SS`.
pub open spec fn hms_text(secs: int) -> Seq<char> {
    padded2(div_trunc(secs, 3600)) + seq![':'] + padded2(div_trunc(rem_trunc(secs, 3600), 60)) + seq![':']
        + padded2(rem_trunc(secs, 60))
}

/// A count of seconds as `HH:MM:SS`.
pub fn format_duration(secs: i64) -> (r: String)
    ensures
        r@ == hms_text(secs as int),
{
    let h = div_t(secs, 3600);
    let m = div_t(rem_t(secs, 3600), 60);
    let s = rem_t(secs, 60);
    let mut out = String::new();
    push_padded2(&mut out, h);
    push_str(&mut out, ":");
    push_padded2(&mut out, m);
    push_str(&mut out, ":");
    push_padded2(&mut out, s);
    proof {
        reveal_strlit(":");
        assert(out@ =~= hms_text(secs as int));
    }
    out
}

/// A count of milliseconds in words: hours, minutes and seconds, leaving
/// out leading units that are zero.
pub open spec fn duration_words(ms: int) -> Seq<char> {
    let seconds = div_trunc(ms, 1000);
    let minutes = div_trunc(seconds, 60);
    let hours = div_trunc(minutes, 60);
    if hours > 0 {
        decimal(hours) + "小时 "@ + decimal(rem_trunc(minutes, 60)) + "分钟 "@ + decimal(rem_trunc(seconds, 60)) + "秒"@
    } else if minutes > 0 {
        decimal(minutes) + "分钟 "@ + decimal(rem_trunc(seconds, 60)) + "秒"@
    } else {
        decimal(seconds) + "秒"@
    }
}

pub fn format_duration_words(ms: i64) -> (r: String)
    ensures
        r@ == duration_words(ms as int),
{
    let seconds = div_t(ms, 1000);
    let minutes = div_t(seconds, 60);
    let hours = div_t(minutes, 60);
    let mut out = String::new();
    if hours > 0 {
        push_decimal(&mut out, hours);
        push_str(&mut out, "小时 ");
        push_decimal(&mut out, rem_t(minutes, 60));
        push_str(&mut out, "分钟 ");
        push_decimal(&mut out, rem_t(seconds, 60));
        push_str(&mut out, "秒");
    } else if minutes > 0 {
        push_decimal(&mut out, minutes);
        push_str(&mut out, "分钟 ");
        push_decimal(&mut out, rem_t(seconds, 60));
        push_str(&mut out, "秒");
    } else {
        push_decimal(&mut out, seconds);
        push_str(&mut out, "秒");
    }
    proof {
        assert(out@ =~= duration_words(ms as int));
    }
    out
}

/// Whole seconds from `earlier` to `later` (microsecond instants), rounded
/// toward zero.
pub open spec fn secs_toward_zero(later: i64, earlier: i64) -> int {
    div_trunc(later - earlier, 1_000_000)
}

fn secs_diff(later: i64, earlier: i64) -> (r: i64)
    ensures
        r == secs_toward_zero(later, earlier),
{
    let d: i128 = later as i128 - earlier as i128;
    if d >= 0 {
        (d / 1_000_000) as i64
    } else {
        (0 - ((0 - d) / 1_000_000)) as i64
    }
}

/// How long until a review is due, or how long it is overdue, in words.
pub open spec fn time_until_text(next: i64, now: i64) -> Seq<char> {
    if next <= now {
        let h = div_trunc(secs_toward_zero(now, next), 3600);
        if h >= 24 { "已过期 "@ + decimal(div_trunc(h, 24)) + " 天"@ } else { "已过期 "@ + decimal(h) + " 小时"@ }
    } else {
        let secs = secs_toward_zero(next, now);
        let h = div_trunc(secs, 3600);
        if h >= 24 {
            let days = div_trunc(h, 24);
            let remain = rem_trunc(h, 24);
            if remain > 0 { decimal(days) + " 天 "@ + decimal(remain) + " 小时后"@ } else { decimal(days) + " 天后"@ }
        } else if h > 0 {
            decimal(h) + " 小时后"@
        } else {
            let m = div_trunc(secs, 60);
            if m > 0 { decimal(m) + " 分钟后"@ } else { "即将到期"@ }
        }
    }
}

/// How long until `next` is due as seen at `now` (microsecond instants).
pub fn format_time_until(next: i64, now: i64) -> (r: String)
    ensures
        r@ == time_until_text(next, now),
{
    let mut out = String::new();
    if next <= now {
        let overdue = secs_diff(now, next);
        let h = div_t(overdue, 3600);
        push_str(&mut out, "已过期 ");
        if h >= 24 {
            push_decimal(&mut out, div_t(h, 24));
            push_str(&mut out, " 天");
        } else {
            push_decimal(&mut out, h);
            push_str(&mut out, " 小时");
        }
    } else {
        let secs = secs_diff(next, now);
        let h = div_t(secs, 3600);
        if h >= 24 {
            let days = div_t(h, 24);
            let remain = rem_t(h, 24);
            push_decimal(&mut out, days);
            if remain > 0 {
                push_str(&mut out, " 天 ");
                push_decimal(&mut out, remain);
                push_str(&mut out, " 小时后");
            } else {
                push_str(&mut out, " 天后");
            }
        } else if h > 0 {
            push_decimal(&mut out, h);
            push_str(&mut out, " 小时后");
        } else {
            let m = div_t(secs, 60);
            if m > 0 {
                push_decimal(&mut out, m);
                push_str(&mut out, " 分钟后");
            } else {
                push_str(&mut out, "即将到期");
            }
        }
    }
    proof {
        assert(out@ =~= time_until_text(next, now));
    }
    out
}

/// The Chinese name of a weekday, counted from Monday.
pub open spec fn weekday_name(d: u32) -> Seq<char> {
    if d == 0 { "一"@ } else if d == 1 { "二"@ } else if d == 2 { "三"@ } else if d == 3 { "四"@ }
    else if d == 4 { "五"@ } else if d == 5 { "六"@ } else if d == 6 { "日"@ } else { ""@ }
}

pub fn weekday_cn(days_from_monday: u32) -> (r: &'static str)
    ensures
        r@ == weekday_name(days_from_monday),
{
    match days_from_monday {
        0 => "一",
        1 => "二",
        2 => "三",
        3 => "四",
        4 => "五",
        5 => "六",
        6 => "日",
        _ => "",
    }
}

/// How urgent a review is: 3 when overdue by an hour or more, 2 when due
/// within twelve hours, 1 within three days, 0 otherwise. Hours count whole,
/// toward zero.
pub open spec fn urgency_level(next: i64, now: i64) -> i32 {
    let hours = div_trunc(secs_toward_zero(next, now), 3600);
    if hours < 0 { 3 } else if hours <= 12 { 2 } else if hours <= 72 { 1 } else { 0 }
}

/// The urgency of a review due at `next` as seen at `now`.
pub fn calculate_urgency_at(next: i64, now: i64) -> (r: i32)
    ensures
        r == urgency_level(next, now),
{
    let hours = div_t(secs_diff(next, now), 3600);
    if hours < 0 {
        3
    } else if hours <= 12 {
        2
    } else if hours <= 72 {
        1
    } else {
        0
    }
}

/// The urgency of a review due at `next`, as seen on the clock when called.
pub fn calculate_urgency(next: i64) -> (r: i32)
    ensures
        exists|now: i64| r == urgency_level(next, now),
{
    let now = now_micros();
    calculate_urgency_at(next, now)
}

/// How soon a category's review is due.
#[derive(Debug, Clone, Copy, PartialEq, Eq, Structural)]
pub enum Urgency {
    Overdue,
    Within3Days,
    Within7Days,
    Normal,
}

/// The urgency of a category whose review is due at `next`, if it has a
/// prediction, as seen at `now`.
pub open spec fn urgency_class(next: Option<i64>, now: i64) -> Urgency {
    match next {
        None => Urgency::Normal,
        Some(n) => if n <= now {
            Urgency::Overdue
        } else if secs_toward_zero(n, now) <= 3 * 86400 {
            Urgency::Within3Days
        } else if secs_toward_zero(n, now) <= 7 * 86400 {
            Urgency::Within7Days
        } else {
            Urgency::Normal
        },
    }
}

pub fn urgency_for(next: Option<i64>, now: i64) -> (r: Urgency)
    ensures
        r == urgency_class(next, now),
{
    match next {
        None => Urgency::Normal,
        Some(n) => {
            if n <= now {
                return Urgency::Overdue;
            }
            let secs = secs_diff(n, now);
            if secs <= 3 * 86400 {
                Urgency::Within3Days
            } else if secs <= 7 * 86400 {
                Urgency::Within7Days
            } else {
                Urgency::Normal
            }
        },
    }
}

/// The order urgencies are listed in, most urgent first.
pub fn urgency_sort_key(urgency: &Urgency) -> (r: u8)
    ensures
        r == (match *urgency {
            Urgency::Overdue => 0u8,
            Urgency::Within3Days => 1u8,
            Urgency::Within7Days => 2u8,
            Urgency::Normal => 3u8,
        }),
{
    match urgency {
        Urgency::Overdue => 0,
        Urgency::Within3Days => 1,
        Urgency::Within7Days => 2,
        Urgency::Normal => 3,
    }
}

/// The due label of a category in the review list: when it has a
/// prediction, how long until (or since) it is due; otherwise a word for
/// its urgency.
pub open spec fn urgency_label_text(u: Urgency, pred: Option<PredictionState>, now: i64) -> Seq<char> {
    match pred {
        Some(p) => time_until_text(p.next_review, now),
        None => match u {
            Urgency::Overdue => "已过期"@,
            Urgency::Within3Days => "临近到期"@,
            Urgency::Within7Days => "本周内"@,
            Urgency::Normal => "未复习"@,
        },
    }
}

pub fn urgency_label_at(urgency: &Urgency, pred: &Option<PredictionState>, now: i64) -> (r: String)
    ensures
        r@ == urgency_label_text(*urgency, *pred, now),
{
    match pred {
        Some(p) => format_time_until(p.next_review, now),
        None => {
            let word = match urgency {
                Urgency::Overdue => "已过期",
                Urgency::Within3Days => "临近到期",
                Urgency::Within7Days => "本周内",
                Urgency::Normal => "未复习",
            };
            String::from_str(word)
        },
    }
}

/// The due label as seen on the clock when called.
pub fn urgency_label(urgency: &Urgency, pred: &Option<PredictionState>) -> (r: String)
    ensures
        exists|now: i64| r@ == urgency_label_text(*urgency, *pred, now),
{
    let now = now_micros();
    urgency_label_at(urgency, pred, now)
}

/// An urgency passes the review list's filter: 3 keeps the overdue, 2 what
/// is due within half a day or overdue, no filter or any other value keeps
/// all.
pub open spec fn passes_urgency_filter(filter: Option<u32>, urgency: i32) -> bool {
    match filter {
        Some(f) => if f == 3 { urgency >= 3 } else if f == 2 { urgency >= 2 } else { true },
        None => true,
    }
}

/// When each card of the list is due, where it has a prediction.
pub open spec fn due_times(cards: Seq<(String, Card)>) -> Seq<Option<i64>> {
    cards.map_values(|c: (String, Card)| match c.1.prediction {
        Some(p) => Some(p.next_review),
        None => None,
    })
}

/// The rows of the review list: the position and urgency at `now` of each
/// card that has a prediction and whose urgency passes the filter, in order.
pub open spec fn dashboard_rows(due: Seq<Option<i64>>, filter: Option<u32>, now: i64) -> Seq<(int, i32)>
    decreases due.len(),
{
    if due.len() == 0 {
        Seq::empty()
    } else {
        let prev = dashboard_rows(due.drop_last(), filter, now);
        match due.last() {
            Some(t) => if passes_urgency_filter(filter, urgency_level(t, now)) {
                prev.push((due.len() - 1, urgency_level(t, now)))
            } else {
                prev
            },
            None => prev,
        }
    }
}

/// The rows of a list of positions and urgencies.
pub open spec fn row_view(r: Seq<(usize, i32)>) -> Seq<(int, i32)> {
    r.map_values(|x: (usize, i32)| (x.0 as int, x.1))
}

/// The review list at `now`: which cards it shows, by position, with their
/// urgency.
pub fn review_rows_at(cards: &Vec<(String, Card)>, filter: Option<u32>, now: i64) -> (r: Vec<(usize, i32)>)
    ensures
        row_view(r@) == dashboard_rows(due_times(cards@), filter, now),
{
    let mut out: Vec<(usize, i32)> = Vec::new();
    let n = cards.len();
    proof {
        assert(due_times(cards@).take(0) =~= Seq::<Option<i64>>::empty());
        assert(row_view(out@) =~= Seq::<(int, i32)>::empty());
    }
    for i in 0..n
        invariant
            n == cards@.len(),
            row_view(out@) == dashboard_rows(due_times(cards@).take(i as int), filter, now),
    {
        proof {
            assert(due_times(cards@).take(i + 1).drop_last() =~= due_times(cards@).take(i as int));
            assert(due_times(cards@).take(i + 1).last() == due_times(cards@)[i as int]);
        }
        let ghost before = out@;
        match &cards[i].1.prediction {
            Some(p) => {
                let u = calculate_urgency_at(p.next_review, now);
                let keep = match filter {
                    Some(f) => if f == 3 { u >= 3 } else if f == 2 { u >= 2 } else { true },
                    None => true,
                };
                if keep {
                    out.push((i, u));
                    proof {
                        assert(row_view(out@) =~= row_view(before).push((i as int, u)));
                    }
                }
            },
            None => {},
        }
    }
    proof {
        assert(due_times(cards@).take(n as int) =~= due_times(cards@));
    }
    out
}

/// The review list now: as `review_rows_at`, at the instant the clock
/// returned.
pub fn review_rows(cards: &Vec<(String, Card)>, filter: Option<u32>) -> (r: Vec<(usize, i32)>)
    ensures
        exists|now: i64| crate::data::stamps::in_range(now) && row_view(r@) == #[trigger] dashboard_rows(due_times(cards@), filter, now),
{
    let now = now_micros();
    review_rows_at(cards, filter, now)
}

} // verus!
