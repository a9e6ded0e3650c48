//! The study-session timer: idle, running or paused, with the pauses it
//! has seen and the seconds they took.
use vstd::prelude::*;
use crate::clock::now_micros;
use crate::data::models::PauseRecord;

verus! {

/// Microseconds in one second.
pub const MICROS_PER_SEC: i64 = 1_000_000;

/// The largest number of whole seconds between two instants that an `i64`
/// count of microseconds can hold.
pub const MAX_SPAN_SECS: i64 = 18_446_744_073_709;

pub enum TimerState {
    Idle,
    Running { start_time: i64, pause_total_secs: i64, pauses: Vec<PauseRecord> },
    Paused { start_time: i64, pause_total_secs: i64, pauses: Vec<PauseRecord>, pause_start: i64 },
}

pub struct TimerStateMachine {
    pub state: TimerState,
    pub category_id: Option<i64>,
}

/// A finished session, as `stop` hands it out.
pub struct StoppedSession {
    pub category_id: i64,
    pub start_time: i64,
    pub end_time: i64,
    pub duration_secs: i64,
    pub pause_records: Vec<PauseRecord>,
}

/// Whole seconds from `earlier` to `later`, or 0 when `later` is not after
/// `earlier`.
pub open spec fn secs_between(later: i64, earlier: i64) -> int {
    if later > earlier {
        (later - earlier) / (MICROS_PER_SEC as int)
    } else {
        0
    }
}

/// The whole seconds of the recorded pauses, added up.
pub open spec fn paused_secs(p: Seq<PauseRecord>) -> int
    decreases p.len(),
{
    if p.len() == 0 {
        0
    } else {
        paused_secs(p.drop_last()) + secs_between(p.last().resume_time, p.last().pause_start)
    }
}

proof fn lemma_paused_secs_nonneg(p: Seq<PauseRecord>)
    ensures
        paused_secs(p) >= 0,
    decreases p.len(),
{
    if p.len() > 0 {
        lemma_paused_secs_nonneg(p.drop_last());
    }
}

pub open spec fn clamp0(x: int) -> int {
    if x < 0 { 0 } else { x }
}

proof fn lemma_secs_between_bound(later: i64, earlier: i64)
    ensures
        0 <= secs_between(later, earlier) <= MAX_SPAN_SECS,
{
    if later > earlier {
        assert((later - earlier) / 1_000_000int <= 18_446_744_073_709int) by (nonlinear_arith)
            requires
                0 < later - earlier <= 18_446_744_073_709_551_615int;
    }
}

fn whole_secs(later: i64, earlier: i64) -> (r: i64)
    ensures
        r == secs_between(later, earlier),
        0 <= r <= MAX_SPAN_SECS,
{
    proof {
        lemma_secs_between_bound(later, earlier);
    }
    if later > earlier {
        let d: i128 = later as i128 - earlier as i128;
        (d / 1_000_000i128) as i64
    } else {
        0
    }
}

/// A well-formed timer's pause total is not negative, and no two instants
/// are further apart than an `i64` count of microseconds allows.
pub proof fn lemma_wf_bounds(m: TimerStateMachine, now: i64)
    requires
        m.wf(),
    ensures
        m.state matches TimerState::Running { start_time, pause_total_secs, .. }
            ==> pause_total_secs >= 0 && 0 <= secs_between(now, start_time) <= MAX_SPAN_SECS,
        m.state matches TimerState::Paused { start_time, pause_total_secs, pause_start, .. }
            ==> pause_total_secs >= 0 && 0 <= secs_between(now, start_time) <= MAX_SPAN_SECS
            && 0 <= secs_between(pause_start, start_time) <= MAX_SPAN_SECS
            && 0 <= secs_between(now, pause_start) <= MAX_SPAN_SECS,
{
    match m.state {
        TimerState::Running { start_time, pauses, .. } => {
            lemma_paused_secs_nonneg(pauses@);
            lemma_secs_between_bound(now, start_time);
        },
        TimerState::Paused { start_time, pauses, pause_start, .. } => {
            lemma_paused_secs_nonneg(pauses@);
            lemma_secs_between_bound(now, start_time);
            lemma_secs_between_bound(pause_start, start_time);
            lemma_secs_between_bound(now, pause_start);
        },
        TimerState::Idle => {},
    }
}

impl TimerStateMachine {
    /// The seconds of work the timer shows at `now`: the time since the
    /// start less the pauses over. While paused it stands still: the time
    /// from the start to the pause, less the pauses before it, rounded once.
    pub open spec fn effective_at(self, now: i64) -> int {
        match self.state {
            TimerState::Idle => 0,
            TimerState::Running { start_time, pause_total_secs, .. } =>
                clamp0(secs_between(now, start_time) - pause_total_secs),
            TimerState::Paused { start_time, pause_total_secs, pause_start, .. } =>
                clamp0(secs_between(pause_start, start_time) - pause_total_secs),
        }
    }

    /// The seconds of work a session stopped at `now` records: the whole
    /// seconds since the start less the whole seconds of every pause, the one
    /// under way counted up to `now`.
    pub open spec fn session_secs_at(self, now: i64) -> int {
        match self.state {
            TimerState::Idle => 0,
            TimerState::Running { start_time, pause_total_secs, .. } =>
                clamp0(secs_between(now, start_time) - pause_total_secs),
            TimerState::Paused { start_time, pause_total_secs, pause_start, .. } =>
                clamp0(secs_between(now, start_time) - pause_total_secs - secs_between(now, pause_start)),
        }
    }

    /// The pause total is the sum of the whole seconds of the recorded pauses.
    pub open spec fn wf(self) -> bool {
        match self.state {
            TimerState::Idle => true,
            TimerState::Running { pause_total_secs, pauses, .. } => pause_total_secs == paused_secs(pauses@),
            TimerState::Paused { pause_total_secs, pauses, .. } => pause_total_secs == paused_secs(pauses@),
        }
    }

    pub fn new() -> (r: TimerStateMachine)
        ensures
            r.state is Idle,
            r.category_id is None,
            r.wf(),
    {
        TimerStateMachine { state: TimerState::Idle, category_id: None }
    }

    /// Starts a session for a category at `now`; refused unless idle.
    pub fn start_at(&mut self, category_id: i64, now: i64) -> (r: Result<(), &'static str>)
        ensures
            old(self).state is Idle ==> {
                &&& r is Ok
                &&& final(self).category_id == Some(category_id)
                &&& final(self).state matches TimerState::Running { start_time, pause_total_secs, pauses }
                &&& start_time == now && pause_total_secs == 0 && pauses@.len() == 0
            },
            !(old(self).state is Idle) ==> r == Err::<(), &'static str>("cannot start: timer is not idle")
                && *final(self) == *old(self),
            old(self).wf() ==> final(self).wf(),
    {
        match self.state {
            TimerState::Idle => {
                self.state = TimerState::Running { start_time: now, pause_total_secs: 0, pauses: Vec::new() };
                self.category_id = Some(category_id);
                Ok(())
            },
            _ => Err("cannot start: timer is not idle"),
        }
    }

    /// Starts a session for a category now; refused unless idle.
    pub fn start(&mut self, category_id: i64) -> (r: Result<(), &'static str>)
        ensures
            old(self).state is Idle ==> {
                &&& r is Ok
                &&& final(self).category_id == Some(category_id)
                &&& final(self).state matches TimerState::Running { pause_total_secs, pauses, .. }
                &&& pause_total_secs == 0 && pauses@.len() == 0
            },
            !(old(self).state is Idle) ==> r == Err::<(), &'static str>("cannot start: timer is not idle")
                && *final(self) == *old(self),
            old(self).wf() ==> final(self).wf(),
    {
        let now = now_micros();
        self.start_at(category_id, now)
    }

    /// Pauses a running session at `now`; refused unless running.
    pub fn pause_at(&mut self, now: i64) -> (r: Result<(), &'static str>)
        ensures
            (old(self).state matches TimerState::Running { start_time, pause_total_secs, pauses } && {
                &&& r is Ok
                &&& final(self).category_id == old(self).category_id
                &&& final(self).state matches TimerState::Paused { start_time: s2, pause_total_secs: t2, pauses: p2, pause_start }
                &&& s2 == start_time && t2 == pause_total_secs && p2@ == pauses@ && pause_start == now
            }) || (!(old(self).state is Running) && r == Err::<(), &'static str>("cannot pause: timer is not running")
                && *final(self) == *old(self)),
            old(self).wf() ==> final(self).wf(),
    {
        let mut st = TimerState::Idle;
        std::mem::swap(&mut st, &mut self.state);
        match st {
            TimerState::Running { start_time, pause_total_secs, pauses } => {
                self.state = TimerState::Paused { start_time, pause_total_secs, pauses, pause_start: now };
                Ok(())
            },
            other => {
                self.state = other;
                Err("cannot pause: timer is not running")
            },
        }
    }

    /// Pauses a running session now; refused unless running.
    pub fn pause(&mut self) -> (r: Result<(), &'static str>)
        ensures
            (old(self).state matches TimerState::Running { start_time, pause_total_secs, pauses } && {
                &&& r is Ok
                &&& final(self).category_id == old(self).category_id
                &&& final(self).state matches TimerState::Paused { start_time: s2, pause_total_secs: t2, pauses: p2, .. }
                &&& s2 == start_time && t2 == pause_total_secs && p2@ == pauses@
            }) || (!(old(self).state is Running) && r == Err::<(), &'static str>("cannot pause: timer is not running")
                && *final(self) == *old(self)),
            old(self).wf() ==> final(self).wf(),
    {
        let now = now_micros();
        self.pause_at(now)
    }

    /// Resumes a paused session at `now`, recording the pause and adding its
    /// whole seconds to the pause total; refused unless paused.
    pub fn resume_at(&mut self, now: i64) -> (r: Result<(), &'static str>)
        requires
            old(self).state matches TimerState::Paused { pause_total_secs, pause_start, .. }
                ==> pause_total_secs + secs_between(now, pause_start) <= i64::MAX,
        ensures
            (old(self).state matches TimerState::Paused { start_time, pause_total_secs, pauses, pause_start } && {
                &&& r is Ok
                &&& final(self).category_id == old(self).category_id
                &&& final(self).state matches TimerState::Running { start_time: s2, pause_total_secs: t2, pauses: p2 }
                &&& s2 == start_time
                &&& t2 == pause_total_secs + secs_between(now, pause_start)
                &&& p2@ == pauses@.push(PauseRecord { pause_start, resume_time: now })
            }) || (!(old(self).state is Paused) && r == Err::<(), &'static str>("cannot resume: timer is not paused")
                && *final(self) == *old(self)),
            old(self).wf() ==> final(self).wf(),
    {
        let mut st = TimerState::Idle;
        std::mem::swap(&mut st, &mut self.state);
        match st {
            TimerState::Paused { start_time, pause_total_secs, mut pauses, pause_start } => {
                let pause_secs = whole_secs(now, pause_start);
                let ghost before = pauses@;
                pauses.push(PauseRecord { pause_start, resume_time: now });
                proof {
                    assert(pauses@.drop_last() =~= before);
                }
                self.state = TimerState::Running { start_time, pause_total_secs: pause_total_secs + pause_secs, pauses };
                Ok(())
            },
            other => {
                self.state = other;
                Err("cannot resume: timer is not paused")
            },
        }
    }

    /// Resumes a paused session now; refused unless paused.
    pub fn resume(&mut self) -> (r: Result<(), &'static str>)
        requires
            old(self).state matches TimerState::Paused { pause_total_secs, .. }
                ==> pause_total_secs <= i64::MAX - MAX_SPAN_SECS,
        ensures
            (old(self).state matches TimerState::Paused { start_time, pause_total_secs, pauses, pause_start } && {
                &&& r is Ok
                &&& final(self).category_id == old(self).category_id
                &&& final(self).state matches TimerState::Running { start_time: s2, pause_total_secs: t2, pauses: p2 }
                &&& s2 == start_time
                &&& exists|t: i64| #![trigger secs_between(t, pause_start)]
                        crate::data::stamps::in_range(t)
                        && t2 == pause_total_secs + secs_between(t, pause_start)
                        && p2@ == pauses@.push(PauseRecord { pause_start, resume_time: t })
            }) || (!(old(self).state is Paused) && r == Err::<(), &'static str>("cannot resume: timer is not paused")
                && *final(self) == *old(self)),
            old(self).wf() ==> final(self).wf(),
    {
        let now = now_micros();
        proof {
            lemma_secs_between_bound(now, 0);
            match &self.state {
                TimerState::Paused { pause_start, .. } => { lemma_secs_between_bound(now, *pause_start); },
                _ => {},
            }
        }
        let r = self.resume_at(now);
        proof {
            match old(self).state {
                TimerState::Paused { pause_start, .. } => {
                    assert(crate::data::stamps::in_range(now));
                    assert(secs_between(now, pause_start) == secs_between(now, pause_start));
                },
                _ => {},
            }
        }
        r
    }

    /// Ends the session at `now`. A pause under way ends too and is recorded;
    /// the session lasts the seconds since its start less all pauses. The
    /// timer is idle afterwards. Refused when idle.
    pub fn stop_at(&mut self, now: i64) -> (r: Result<StoppedSession, &'static str>)
        requires
            old(self).state matches TimerState::Running { start_time, pause_total_secs, .. }
                ==> secs_between(now, start_time) - pause_total_secs <= i64::MAX,
            old(self).state matches TimerState::Paused { start_time, pause_total_secs, pause_start, .. }
                ==> pause_total_secs + secs_between(now, pause_start) <= i64::MAX
                && secs_between(now, start_time) - (pause_total_secs + secs_between(now, pause_start)) <= i64::MAX,
        ensures
            old(self).state is Idle ==> r == Err::<StoppedSession, &'static str>("cannot stop: timer is idle")
                && *final(self) == *old(self),
            !(old(self).state is Idle) ==> {
                &&& r matches Ok(sess)
                &&& final(self).state is Idle
                &&& final(self).category_id is None
                &&& sess.category_id == (match old(self).category_id { Some(c) => c, None => 0 })
                &&& sess.end_time == now
                &&& sess.duration_secs == old(self).session_secs_at(now)
                &&& (old(self).state matches TimerState::Running { start_time, pauses, .. }
                        ==> sess.start_time == start_time && sess.pause_records@ == pauses@)
                &&& (old(self).state matches TimerState::Paused { start_time, pauses, pause_start, .. }
                        ==> sess.start_time == start_time
                        && sess.pause_records@ == pauses@.push(PauseRecord { pause_start, resume_time: now }))
            },
            final(self).wf(),
    {
        let mut st = TimerState::Idle;
        std::mem::swap(&mut st, &mut self.state);
        let (start_time, pause_total_secs, pauses) = match st {
            TimerState::Running { start_time, pause_total_secs, pauses } => {
                (start_time, pause_total_secs, pauses)
            },
            TimerState::Paused { start_time, pause_total_secs, mut pauses, pause_start } => {
                let extra = whole_secs(now, pause_start);
                pauses.push(PauseRecord { pause_start, resume_time: now });
                (start_time, pause_total_secs + extra, pauses)
            },
            TimerState::Idle => {
                return Err("cannot stop: timer is idle");
            },
        };
        let cat_id = match self.category_id {
            Some(c) => c,
            None => 0,
        };
        self.category_id = None;
        let elapsed = whole_secs(now, start_time);
        let effective = if elapsed - pause_total_secs < 0 { 0 } else { elapsed - pause_total_secs };
        Ok(StoppedSession {
            category_id: cat_id,
            start_time,
            end_time: now,
            duration_secs: effective,
            pause_records: pauses,
        })
    }

    /// Ends the session now; refused when idle.
    pub fn stop(&mut self) -> (r: Result<StoppedSession, &'static str>)
        requires
            old(self).state matches TimerState::Running { pause_total_secs, .. }
                ==> pause_total_secs >= MAX_SPAN_SECS - i64::MAX,
            old(self).state matches TimerState::Paused { pause_total_secs, .. }
                ==> MAX_SPAN_SECS - i64::MAX <= pause_total_secs <= i64::MAX - MAX_SPAN_SECS,
        ensures
            old(self).state is Idle ==> r == Err::<StoppedSession, &'static str>("cannot stop: timer is idle")
                && *final(self) == *old(self),
            !(old(self).state is Idle) ==> {
                &&& r matches Ok(sess)
                &&& final(self).state is Idle
                &&& final(self).category_id is None
                &&& sess.category_id == (match old(self).category_id { Some(c) => c, None => 0 })
                &&& crate::data::stamps::in_range(sess.end_time)
                &&& sess.duration_secs == old(self).session_secs_at(sess.end_time)
                &&& (old(self).state matches TimerState::Running { start_time, pauses, .. }
                        ==> sess.start_time == start_time && sess.pause_records@ == pauses@)
                &&& (old(self).state matches TimerState::Paused { start_time, pauses, pause_start, .. }
                        ==> sess.start_time == start_time
                        && sess.pause_records@ == pauses@.push(PauseRecord { pause_start, resume_time: sess.end_time }))
            },
            final(self).wf(),
    {
        let now = now_micros();
        proof {
            match &self.state {
                TimerState::Running { start_time, .. } => { lemma_secs_between_bound(now, *start_time); },
                TimerState::Paused { start_time, pause_start, .. } => {
                    lemma_secs_between_bound(now, *pause_start);
                    lemma_secs_between_bound(now, *start_time);
                },
                _ => {},
            }
        }
        self.stop_at(now)
    }

    /// The seconds of work so far at `now`.
    pub fn effective_secs_at(&self, now: i64) -> (r: i64)
        requires
            self.state matches TimerState::Running { start_time, pause_total_secs, .. }
                ==> secs_between(now, start_time) - pause_total_secs <= i64::MAX,
            self.state matches TimerState::Paused { start_time, pause_total_secs, pause_start, .. }
                ==> secs_between(pause_start, start_time) - pause_total_secs <= i64::MAX,
        ensures
            r == self.effective_at(now),
    {
        match &self.state {
            TimerState::Idle => 0,
            TimerState::Running { start_time, pause_total_secs, .. } => {
                let elapsed = whole_secs(now, *start_time);
                if elapsed - *pause_total_secs < 0 { 0 } else { elapsed - *pause_total_secs }
            },
            TimerState::Paused { start_time, pause_total_secs, pause_start, .. } => {
                let worked = whole_secs(*pause_start, *start_time);
                if worked - *pause_total_secs < 0 { 0 } else { worked - *pause_total_secs }
            },
        }
    }

    /// The seconds of work so far, read against the clock now: what
    /// `effective_secs_at` gives at the instant the clock returned, which can
    /// be any instant chrono represents.
    pub fn effective_secs(&self) -> (r: i64)
        requires
            self.state matches TimerState::Running { pause_total_secs, .. }
                ==> pause_total_secs >= MAX_SPAN_SECS - i64::MAX,
            self.state matches TimerState::Paused { start_time, pause_total_secs, pause_start, .. }
                ==> secs_between(pause_start, start_time) - pause_total_secs <= i64::MAX,
        ensures
            exists|t: i64| crate::data::stamps::in_range(t) && r == #[trigger] self.effective_at(t),
            self.state is Idle ==> r == 0,
            r >= 0,
    {
        let now = now_micros();
        proof {
            match &self.state {
                TimerState::Running { start_time, .. } => { lemma_secs_between_bound(now, *start_time); },
                _ => {},
            }
        }
        let r = self.effective_secs_at(now);
        assert(crate::data::stamps::in_range(now) && r == self.effective_at(now));
        r
    }

    /// A session is under way, running or paused.
    pub fn is_running(&self) -> (r: bool)
        ensures
            r == !(self.state is Idle),
    {
        match self.state {
            TimerState::Idle => false,
            _ => true,
        }
    }
}

impl Default for TimerStateMachine {
    fn default() -> (r: TimerStateMachine)
        ensures
            r.state is Idle,
            r.category_id is None,
    {
        TimerStateMachine::new()
    }
}

} // verus!
