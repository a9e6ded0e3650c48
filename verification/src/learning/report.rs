//! What the learning command line reports: the time spent over all
//! sessions, and whether a due review is already overdue.
use vstd::prelude::*;
use crate::data::models::Session;
use crate::timer::{div_trunc, rem_trunc};

verus! {

/// The summed duration of the sessions, in seconds.
pub open spec fn total_secs(s: Seq<Session>) -> int
    decreases s.len(),
{
    if s.len() == 0 {
        0
    } else {
        total_secs(s.drop_last()) + s.last().duration_secs
    }
}

/// The summed duration of the sessions, in seconds. The sum is kept in 128
/// bits, where no list of 64-bit durations can overflow it.
pub fn total_session_secs(sessions: &[Session]) -> (r: i128)
    ensures
        r == total_secs(sessions@),
{
    let mut acc: i128 = 0;
    let mut k: usize = 0;
    proof {
        assert(sessions@.take(0) =~= Seq::<Session>::empty());
    }
    while k < sessions.len()
        invariant
            k <= sessions@.len(),
            acc == total_secs(sessions@.take(k as int)),
            -(k as int) * 0x8000_0000_0000_0000int <= acc <= (k as int) * 0x8000_0000_0000_0000int,
        decreases sessions@.len() - k,
    {
        proof {
            assert(sessions@.take(k + 1).drop_last() =~= sessions@.take(k as int));
        }
        acc = acc + sessions[k].duration_secs as i128;
        k = k + 1;
    }
    proof {
        assert(sessions@.take(sessions@.len() as int) =~= sessions@);
    }
    acc
}

fn div_wide(a: i128, b: i128) -> (r: i128)
    requires
        b > 0,
        a > i128::MIN,
    ensures
        r == div_trunc(a as int, b as int),
{
    if a >= 0 {
        a / b
    } else {
        let q: i128 = (0 - a) / b;
        proof {
            assert(q as int <= -(a as int)) by (nonlinear_arith)
                requires q as int == (-(a as int)) / (b as int), b > 0, a < 0;
        }
        0 - q
    }
}

/// Whole hours and the minutes left over in a number of seconds, each
/// rounded toward zero as Rust's `/` and `%` do.
pub fn hours_and_minutes(secs: i128) -> (r: (i128, i128))
    requires
        secs > i128::MIN,
    ensures
        r.0 == div_trunc(secs as int, 3600),
        r.1 == div_trunc(rem_trunc(secs as int, 3600), 60),
{
    let h = div_wide(secs, 3600);
    proof {
        assert(-3600 < (secs as int) - h * 3600 < 3600) by (nonlinear_arith)
            requires h == div_trunc(secs as int, 3600);
    }
    let rest: i128 = secs - h * 3600;
    let m = div_wide(rest, 60);
    (h, m)
}

/// The total time of the sessions, as whole hours and leftover minutes.
pub fn session_time(sessions: &[Session]) -> (r: (i128, i128))
    ensures
        r.0 == div_trunc(total_secs(sessions@), 3600),
        r.1 == div_trunc(rem_trunc(total_secs(sessions@), 3600), 60),
{
    let total = total_session_secs(sessions);
    proof {
        lemma_total_bounded(sessions@);
        assert(sessions@.len() == sessions.len());
    }
    hours_and_minutes(total)
}

proof fn lemma_total_bounded(s: Seq<Session>)
    ensures
        -(s.len() as int) * 0x8000_0000_0000_0000int <= total_secs(s) <= (s.len() as int) * 0x8000_0000_0000_0000int,
    decreases s.len(),
{
    if s.len() > 0 {
        lemma_total_bounded(s.drop_last());
    }
}

/// The marker of a due review: `OVERDUE` once `now` is past it, else `DUE`.
pub fn due_marker(now: i64, next_review: i64) -> (r: &'static str)
    ensures
        r@ == (if now > next_review { "OVERDUE"@ } else { "DUE"@ }),
{
    if now > next_review {
        "OVERDUE"
    } else {
        "DUE"
    }
}

} // verus!
