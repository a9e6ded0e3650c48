//! The form for entering or editing a calendar event.
use vstd::prelude::*;
use crate::data::models::{RecurrenceRule, Schedule, ScheduleView};
use crate::data::stamps::{day_text, form_instant_parsed, format_day, format_minute, in_range, minute_text, new_uuid,
    parse_form_instant};
use crate::numbers::{parse_i32, parse_i32_spec};
use crate::text::{chars_of, decimal, push_decimal, push_str, string_of, trim_chars, trim_ws};

verus! {

pub struct ScheduleForm {
    pub summary: String,
    pub start_date: String,
    pub start_time: String,
    pub end_date: String,
    pub end_time: String,
    pub description: String,
    pub location: String,
    pub reminder: String,
    pub rrule: RecurrenceRule,
}

/// The form is empty and does not repeat.
pub open spec fn is_blank(f: ScheduleForm) -> bool {
    &&& f.summary@.len() == 0
    &&& f.start_date@.len() == 0
    &&& f.start_time@.len() == 0
    &&& f.end_date@.len() == 0
    &&& f.end_time@.len() == 0
    &&& f.description@.len() == 0
    &&& f.location@.len() == 0
    &&& f.reminder@.len() == 0
    &&& f.rrule == RecurrenceRule::NoRepeat
}

/// A date and a time of the form as the text the parser reads:
/// `date`T`time`Z, both trimmed.
pub open spec fn instant_input(date: Seq<char>, time: Seq<char>) -> Seq<char> {
    trim_ws(date) + seq!['T'] + trim_ws(time) + seq!['Z']
}

/// An optional text field: absent when it is blank, else trimmed.
pub open spec fn optional_input(s: Seq<char>) -> Option<Seq<char>> {
    if trim_ws(s).len() == 0 { None } else { Some(trim_ws(s)) }
}

/// What checking the form gives, once its start and end were read as
/// `start` and `end`: the event with id `id`, or the message that tells what
/// is wrong, in this order: no title, an unreadable start, an unreadable
/// end, an end not after the start, a reminder that is not a number.
pub open spec fn form_outcome(
    f: ScheduleForm,
    id: u128,
    start: Result<i64, Seq<char>>,
    end: Result<i64, Seq<char>>,
) -> Result<ScheduleView, Seq<char>> {
    let title = trim_ws(f.summary@);
    let rem = trim_ws(f.reminder@);
    if title.len() == 0 {
        Err("标题不能为空"@)
    } else {
        match start {
            Err(e) => Err("开始时间格式错误: "@ + e),
            Ok(s) => match end {
                Err(e) => Err("结束时间格式错误: "@ + e),
                Ok(t) => if t <= s {
                    Err("结束时间必须晚于开始时间"@)
                } else if rem.len() > 0 && parse_i32_spec(rem) is None {
                    Err("提醒时间必须为数字"@)
                } else {
                    Ok(
                        ScheduleView {
                            id,
                            summary: title,
                            dtstart: s,
                            dtend: t,
                            description: optional_input(f.description@),
                            location: optional_input(f.location@),
                            categories: Seq::empty(),
                            priority: None,
                            rrule: f.rrule,
                            reminder_minutes: if rem.len() == 0 { None } else { parse_i32_spec(rem) },
                        },
                    )
                },
            },
        }
    }
}

/// What a parse of the form's date and time gives, with its error as text.
pub open spec fn read_outcome(r: Result<i64, String>) -> Result<i64, Seq<char>> {
    match r {
        Ok(t) => Ok(t),
        Err(e) => Err(e@),
    }
}

/// The result is the outcome the spec gives.
pub open spec fn form_matches(r: Result<Schedule, String>, spec: Result<ScheduleView, Seq<char>>) -> bool {
    match (r, spec) {
        (Ok(s), Ok(v)) => s@ == v,
        (Err(e), Err(m)) => e@ == m,
        _ => false,
    }
}

/// What the form shows for an event.
pub open spec fn loaded_from(f: ScheduleForm, s: ScheduleView) -> bool {
    &&& f.summary@ == s.summary
    &&& f.start_date@ == day_text(s.dtstart)
    &&& f.start_time@ == minute_text(s.dtstart)
    &&& f.end_date@ == day_text(s.dtend)
    &&& f.end_time@ == minute_text(s.dtend)
    &&& f.description@ == (match s.description {
        Some(d) => d,
        None => Seq::empty(),
    })
    &&& f.location@ == (match s.location {
        Some(l) => l,
        None => Seq::empty(),
    })
    &&& f.reminder@ == (match s.reminder_minutes {
        Some(m) => decimal(m as int),
        None => Seq::empty(),
    })
    &&& f.rrule == s.rrule
}

fn optional_field(s: &String) -> (r: Option<String>)
    ensures
        match (r, optional_input(s@)) {
            (Some(a), Some(b)) => a@ == b,
            (None, None) => true,
            _ => false,
        },
{
    let t = trim_chars(&chars_of(s.as_str()));
    if t.len() == 0 {
        None
    } else {
        Some(string_of(&t))
    }
}

fn instant_text(date: &String, time: &String) -> (r: String)
    ensures
        r@ == instant_input(date@, time@),
{
    let d = trim_chars(&chars_of(date.as_str()));
    let t = trim_chars(&chars_of(time.as_str()));
    let mut out = string_of(&d);
    push_str(&mut out, "T");
    push_str(&mut out, string_of(&t).as_str());
    push_str(&mut out, "Z");
    proof {
        reveal_strlit("T");
        reveal_strlit("Z");
        assert(out@ =~= instant_input(date@, time@));
    }
    out
}

fn with_prefix(prefix: &str, e: &String) -> (r: String)
    ensures
        r@ == prefix@ + e@,
{
    let mut out = String::new();
    push_str(&mut out, prefix);
    push_str(&mut out, e.as_str());
    proof {
        assert(out@ =~= prefix@ + e@);
    }
    out
}

impl ScheduleForm {
    pub fn new() -> (r: ScheduleForm)
        ensures
            is_blank(r),
    {
        ScheduleForm {
            summary: String::new(),
            start_date: String::new(),
            start_time: String::new(),
            end_date: String::new(),
            end_time: String::new(),
            description: String::new(),
            location: String::new(),
            reminder: String::new(),
            rrule: RecurrenceRule::NoRepeat,
        }
    }

    /// Checks the form, its start and end having been read as `start` and
    /// `end`, and gives the event it describes with id `id`.
    pub fn validate_with(&self, id: u128, start: Result<i64, String>, end: Result<i64, String>) -> (r: Result<
        Schedule,
        String,
    >)
        ensures
            form_matches(r, form_outcome(*self, id, read_outcome(start), read_outcome(end))),
    {
        let title = trim_chars(&chars_of(self.summary.as_str()));
        if title.len() == 0 {
            return Err(String::from_str("标题不能为空"));
        }
        let s = match start {
            Ok(t) => t,
            Err(e) => {
                return Err(with_prefix("开始时间格式错误: ", &e));
            },
        };
        let t = match end {
            Ok(t) => t,
            Err(e) => {
                return Err(with_prefix("结束时间格式错误: ", &e));
            },
        };
        if t <= s {
            return Err(String::from_str("结束时间必须晚于开始时间"));
        }
        let rem = trim_chars(&chars_of(self.reminder.as_str()));
        let reminder_minutes = if rem.len() == 0 {
            None
        } else {
            match parse_i32(string_of(&rem).as_str()) {
                Some(m) => Some(m),
                None => {
                    return Err(String::from_str("提醒时间必须为数字"));
                },
            }
        };
        let sched = Schedule {
            id,
            summary: string_of(&title),
            dtstart: s,
            dtend: t,
            description: optional_field(&self.description),
            location: optional_field(&self.location),
            categories: Vec::new(),
            priority: None,
            rrule: self.rrule,
            reminder_minutes,
        };
        proof {
            let v = form_outcome(*self, id, read_outcome(start), read_outcome(end))->Ok_0;
            assert(sched@.description == v.description);
            assert(sched@.location == v.location);
            assert(sched@.categories =~= v.categories);
        }
        Ok(sched)
    }

    /// Checks the form and gives the event it describes, with id `id`, or
    /// the message that tells what is wrong.
    pub fn validate_as(&self, id: u128) -> (r: Result<Schedule, String>)
        ensures
            form_matches(
                r,
                form_outcome(
                    *self,
                    id,
                    form_instant_parsed(instant_input(self.start_date@, self.start_time@)),
                    form_instant_parsed(instant_input(self.end_date@, self.end_time@)),
                ),
            ),
    {
        let start = parse_form_instant(instant_text(&self.start_date, &self.start_time).as_str());
        let end = parse_form_instant(instant_text(&self.end_date, &self.end_time).as_str());
        let r = self.validate_with(id, start, end);
        proof {
            assert(read_outcome(start) == form_instant_parsed(instant_input(self.start_date@, self.start_time@)));
            assert(read_outcome(end) == form_instant_parsed(instant_input(self.end_date@, self.end_time@)));
        }
        r
    }

    /// Checks the form and gives the event it describes, with a new random
    /// id, or the message that tells what is wrong.
    pub fn validate(&self) -> (r: Result<Schedule, String>)
        ensures
            exists|id: u128| form_matches(
                r,
                form_outcome(
                    *self,
                    id,
                    form_instant_parsed(instant_input(self.start_date@, self.start_time@)),
                    form_instant_parsed(instant_input(self.end_date@, self.end_time@)),
                ),
            ),
    {
        let id = new_uuid();
        self.validate_as(id)
    }

    /// Fills the form with an event, for editing it.
    pub fn load_from_schedule(&mut self, schedule: &Schedule)
        requires
            in_range(schedule.dtstart),
            in_range(schedule.dtend),
        ensures
            loaded_from(*final(self), schedule@),
    {
        self.summary = schedule.summary.clone();
        self.start_date = format_day(schedule.dtstart);
        self.start_time = format_minute(schedule.dtstart);
        self.end_date = format_day(schedule.dtend);
        self.end_time = format_minute(schedule.dtend);
        self.description = match &schedule.description {
            Some(d) => d.clone(),
            None => String::new(),
        };
        self.location = match &schedule.location {
            Some(l) => l.clone(),
            None => String::new(),
        };
        self.reminder = match schedule.reminder_minutes {
            Some(m) => {
                let mut text = String::new();
                push_decimal(&mut text, m as i64);
                text
            },
            None => String::new(),
        };
        self.rrule = schedule.rrule;
    }

    /// Empties the form.
    pub fn reset(&mut self)
        ensures
            is_blank(*final(self)),
    {
        *self = ScheduleForm::new();
    }
}

impl Default for ScheduleForm {
    fn default() -> (r: ScheduleForm)
        ensures
            is_blank(r),
    {
        ScheduleForm::new()
    }
}

} // verus!
