//! The file-backed stopwatch: idle, running, paused or stopped, counting
//! milliseconds. Instants are microseconds since the Unix epoch.
use vstd::prelude::*;
use crate::clock::now_micros;
use crate::data::stamps::in_range;
use crate::text::{owned, push_char, push_padded2};

verus! {

#[derive(Debug, Clone, Copy, PartialEq, Eq, Structural)]
pub enum TimerState {
    Idle,
    Running { started_at: i64 },
    Paused { started_at: i64, paused_at: i64, accumulated: i64 },
    Stopped { started_at: i64, stopped_at: i64, duration_ms: i64 },
}

/// The result is an error with this message.
pub open spec fn fails_with<T>(r: Result<T, String>, msg: Seq<char>) -> bool {
    match r {
        Err(e) => e@ == msg,
        Ok(_) => false,
    }
}

/// Whole milliseconds from `earlier` to `later`, rounded toward zero.
pub open spec fn millis_between(later: i64, earlier: i64) -> int {
    let d = later - earlier;
    if d >= 0 { d / 1000 } else { -((-d) / 1000) }
}

/// Integer division rounded toward zero, as Rust's `/` does.
pub open spec fn div_trunc(a: int, b: int) -> int {
    if a >= 0 { a / b } else { -((-a) / b) }
}

/// Remainder with the sign of the dividend, as Rust's `%` does.
pub open spec fn rem_trunc(a: int, b: int) -> int {
    a - div_trunc(a, b) * b
}

/// The `HH:MM:SS` text for a count of milliseconds.
pub open spec fn clock_text(ms: int) -> Seq<char> {
    let seconds = div_trunc(ms, 1000);
    let minutes = div_trunc(seconds, 60);
    let hours = div_trunc(minutes, 60);
    crate::text::padded2(hours) + seq![':'] + crate::text::padded2(rem_trunc(minutes, 60)) + seq![':']
        + crate::text::padded2(rem_trunc(seconds, 60))
}

fn millis(later: i64, earlier: i64) -> (r: i64)
    ensures
        r == millis_between(later, earlier),
{
    let d: i128 = later as i128 - earlier as i128;
    if d >= 0 {
        (d / 1000) as i64
    } else {
        (0 - ((0 - d) / 1000)) as i64
    }
}

pub(crate) fn div_t(a: i64, b: i64) -> (r: i64)
    requires
        b > 0,
    ensures
        r == div_trunc(a as int, b as int),
{
    if a >= 0 {
        a / b
    } else {
        let q: i128 = (0 - a as i128) / b as i128;
        proof {
            assert(q as int <= -(a as int)) by (nonlinear_arith)
                requires q as int == (-(a as int)) / (b as int), b > 0, a < 0;
        }
        (0 - q) as i64
    }
}

pub(crate) fn rem_t(a: i64, b: i64) -> (r: i64)
    requires
        b > 0,
    ensures
        r == rem_trunc(a as int, b as int),
{
    let q = div_t(a, b);
    proof {
        assert(0 <= (a as int) - q * b < b || -b < (a as int) - q * b <= 0) by (nonlinear_arith)
            requires q == div_trunc(a as int, b as int), b > 0;
    }
    let p: i128 = q as i128 * b as i128;
    (a as i128 - p) as i64
}

impl TimerState {
    pub fn new() -> (r: TimerState)
        ensures
            r is Idle,
    {
        TimerState::Idle
    }

    /// Starts at `now`, or resumes a paused timer from its first start.
    pub fn start_at(&mut self, now: i64) -> (r: Result<(), String>)
        ensures
            *old(self) is Idle ==> r is Ok && *final(self) == (TimerState::Running { started_at: now }),
            *old(self) matches TimerState::Paused { started_at, .. } ==> r is Ok
                && *final(self) == (TimerState::Running { started_at }),
            (*old(self) is Running || *old(self) is Stopped) ==> *final(self) == *old(self)
                && fails_with(r, "Timer already running"@),
    {
        match self {
            TimerState::Idle => {
                *self = TimerState::Running { started_at: now };
                Ok(())
            },
            TimerState::Paused { started_at, .. } => {
                let s = *started_at;
                *self = TimerState::Running { started_at: s };
                Ok(())
            },
            _ => Err(owned("Timer already running")),
        }
    }

    pub fn start(&mut self) -> (r: Result<(), String>)
        ensures
            *old(self) is Idle ==> r is Ok && *final(self) is Running,
            *old(self) matches TimerState::Paused { started_at, .. } ==> r is Ok
                && *final(self) == (TimerState::Running { started_at }),
            (*old(self) is Running || *old(self) is Stopped) ==> *final(self) == *old(self)
                && fails_with(r, "Timer already running"@),
    {
        let now = now_micros();
        self.start_at(now)
    }

    /// Pauses at `now`, keeping the milliseconds run so far.
    pub fn pause_at(&mut self, now: i64) -> (r: Result<(), String>)
        ensures
            *old(self) matches TimerState::Running { started_at } ==> r is Ok
                && *final(self) == (TimerState::Paused { started_at, paused_at: now, accumulated: millis_between(now, started_at) as i64 }),
            *old(self) is Paused ==> *final(self) == *old(self) && fails_with(r, "Timer already paused"@),
            (*old(self) is Idle || *old(self) is Stopped) ==> *final(self) == *old(self)
                && fails_with(r, "Timer not running"@),
    {
        match self {
            TimerState::Running { started_at } => {
                let s = *started_at;
                let elapsed = millis(now, s);
                *self = TimerState::Paused { started_at: s, paused_at: now, accumulated: elapsed };
                Ok(())
            },
            TimerState::Paused { .. } => Err(owned("Timer already paused")),
            _ => Err(owned("Timer not running")),
        }
    }

    pub fn pause(&mut self) -> (r: Result<(), String>)
        ensures
            *old(self) matches TimerState::Running { started_at } ==> {
                &&& r is Ok
                &&& *final(self) matches TimerState::Paused { started_at: s, paused_at, accumulated }
                &&& s == started_at
                &&& in_range(paused_at)
                &&& *final(self) == (TimerState::Paused { started_at, paused_at, accumulated: millis_between(paused_at, started_at) as i64 })
            },
            *old(self) is Paused ==> *final(self) == *old(self) && fails_with(r, "Timer already paused"@),
            (*old(self) is Idle || *old(self) is Stopped) ==> *final(self) == *old(self)
                && fails_with(r, "Timer not running"@),
    {
        let now = now_micros();
        self.pause_at(now)
    }

    /// Stops at `now`: a running timer counts up to `now`, a paused one keeps
    /// what it had run. Gives the stop time and the milliseconds counted.
    pub fn stop_at(&mut self, now: i64) -> (r: Result<(i64, i64), String>)
        ensures
            *old(self) matches TimerState::Running { started_at } ==> r == Ok::<(i64, i64), String>((now, millis_between(now, started_at) as i64))
                && *final(self) == (TimerState::Stopped { started_at, stopped_at: now, duration_ms: millis_between(now, started_at) as i64 }),
            *old(self) matches TimerState::Paused { started_at, accumulated, .. } ==> r == Ok::<(i64, i64), String>((now, accumulated))
                && *final(self) == (TimerState::Stopped { started_at, stopped_at: now, duration_ms: accumulated }),
            (*old(self) is Idle || *old(self) is Stopped) ==> *final(self) == *old(self)
                && fails_with(r, "Timer not running"@),
    {
        match self {
            TimerState::Running { started_at } => {
                let s = *started_at;
                let d = millis(now, s);
                *self = TimerState::Stopped { started_at: s, stopped_at: now, duration_ms: d };
                Ok((now, d))
            },
            TimerState::Paused { started_at, accumulated, .. } => {
                let s = *started_at;
                let a = *accumulated;
                *self = TimerState::Stopped { started_at: s, stopped_at: now, duration_ms: a };
                Ok((now, a))
            },
            _ => Err(owned("Timer not running")),
        }
    }

    pub fn stop(&mut self) -> (r: Result<(i64, i64), String>)
        ensures
            *old(self) matches TimerState::Running { started_at } ==> {
                &&& r matches Ok((stopped_at, ms))
                &&& in_range(stopped_at)
                &&& ms == millis_between(stopped_at, started_at)
                &&& *final(self) == (TimerState::Stopped { started_at, stopped_at, duration_ms: ms })
            },
            *old(self) matches TimerState::Paused { started_at, accumulated, .. } ==> {
                &&& r matches Ok((stopped_at, ms))
                &&& ms == accumulated
                &&& *final(self) == (TimerState::Stopped { started_at, stopped_at, duration_ms: accumulated })
            },
            (*old(self) is Idle || *old(self) is Stopped) ==> *final(self) == *old(self)
                && fails_with(r, "Timer not running"@),
    {
        let now = now_micros();
        self.stop_at(now)
    }

    /// The milliseconds counted at `now`.
    pub open spec fn elapsed_at(self, now: i64) -> int {
        match self {
            TimerState::Running { started_at } => millis_between(now, started_at),
            TimerState::Paused { accumulated, .. } => accumulated as int,
            TimerState::Stopped { duration_ms, .. } => duration_ms as int,
            TimerState::Idle => 0,
        }
    }

    pub fn elapsed_ms_at(&self, now: i64) -> (r: i64)
        ensures
            r == self.elapsed_at(now),
    {
        match self {
            TimerState::Running { started_at } => millis(now, *started_at),
            TimerState::Paused { accumulated, .. } => *accumulated,
            TimerState::Stopped { duration_ms, .. } => *duration_ms,
            TimerState::Idle => 0,
        }
    }

    pub fn elapsed_ms(&self) -> (r: i64)
        ensures
            !(self is Running) ==> r == self.elapsed_at(0),
    {
        let now = now_micros();
        self.elapsed_ms_at(now)
    }

    /// The milliseconds counted at `now` as `HH:MM:SS`.
    pub fn elapsed_string_at(&self, now: i64) -> (r: String)
        ensures
            r@ == clock_text(self.elapsed_at(now)),
    {
        let ms = self.elapsed_ms_at(now);
        format_clock(ms)
    }

    pub fn elapsed_string(&self) -> (r: String)
        ensures
            !(self is Running) ==> r@ == clock_text(self.elapsed_at(0)),
    {
        let ms = self.elapsed_ms();
        format_clock(ms)
    }
}

impl Default for TimerState {
    fn default() -> (r: TimerState)
        ensures
            r is Idle,
    {
        TimerState::new()
    }
}

/// A count of milliseconds as `HH:MM:SS`.
pub fn format_clock(ms: i64) -> (r: String)
    ensures
        r@ == clock_text(ms as int),
{
    let seconds = div_t(ms, 1000);
    let minutes = div_t(seconds, 60);
    let hours = div_t(minutes, 60);
    let mut out = String::new();
    push_padded2(&mut out, hours);
    push_char(&mut out, ':');
    push_padded2(&mut out, rem_t(minutes, 60));
    push_char(&mut out, ':');
    push_padded2(&mut out, rem_t(seconds, 60));
    proof {
        assert(out@ =~= clock_text(ms as int));
    }
    out
}

} // verus!
