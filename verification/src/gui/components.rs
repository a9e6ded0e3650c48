//! The interface's widgets: what they show, apart from how it is drawn.
use vstd::prelude::*;
use crate::data::models::MemoryQuality;
use crate::display::{duration_words, format_duration_words};
use crate::timer::{TimerState, clock_text, div_t, div_trunc, format_clock, rem_t, rem_trunc};
use crate::text::{chars_of, push_char, push_str};

verus! {

/// The details of a card.
pub struct CardDetail;

/// The dialog that links a finished timing to a card.
pub struct LinkTimerModal {
    pub duration_ms: i64,
    pub card_path: String,
    pub card_dropdown: Vec<String>,
    pub selected_card: Option<String>,
    pub memory_quality: MemoryQuality,
}

impl LinkTimerModal {
    /// The timed duration in words.
    pub fn duration_text(&self) -> (r: String)
        ensures
            r@ == duration_words(self.duration_ms as int),
    {
        format_duration_words(self.duration_ms)
    }
}

/// The row of memory-quality buttons.
pub struct MemoryQualitySelector;

/// A dialog frame with a title, a body and buttons.
pub struct ModalView;

/// The dialog for a new folder or card.
pub struct NewNodeModal;

/// The form for a new to-do item.
pub struct NewTodoForm;

/// The large clock of the timer tab.
pub struct TimerDisplay;

/// The label the timer tab shows for a timer state.
pub open spec fn timer_status_label(s: TimerState) -> Seq<char> {
    match s {
        TimerState::Idle => "空闲"@,
        TimerState::Running { .. } => "运行中"@,
        TimerState::Paused { .. } => "已暂停"@,
        TimerState::Stopped { .. } => "已停止"@,
    }
}

impl TimerDisplay {
    /// The elapsed milliseconds as `HH:MM:SS`.
    pub fn clock_text(elapsed_ms: i64) -> (r: String)
        ensures
            r@ == clock_text(elapsed_ms as int),
    {
        format_clock(elapsed_ms)
    }

    pub fn status_label(state: &TimerState) -> (r: &'static str)
        ensures
            r@ == timer_status_label(*state),
    {
        match state {
            TimerState::Idle => "空闲",
            TimerState::Running { .. } => "运行中",
            TimerState::Paused { .. } => "已暂停",
            TimerState::Stopped { .. } => "已停止",
        }
    }
}

/// The card tree shown in the timer's link dialog.
pub struct TreePicker;

/// The badge that shows how urgent a review is.
pub struct UrgencyBadge;

/// The badge text of an urgency level.
pub open spec fn urgency_badge_text(u: u32) -> Seq<char> {
    if u == 3 { "已过期"@ } else if u == 2 { "今日"@ } else if u == 1 { "近期"@ } else { "稍后"@ }
}

impl UrgencyBadge {
    pub fn label(urgency: u32) -> (r: &'static str)
        ensures
            r@ == urgency_badge_text(urgency),
    {
        match urgency {
            3 => "已过期",
            2 => "今日",
            1 => "近期",
            _ => "稍后",
        }
    }
}

/// A card path as the review detail panel heads it: its parts joined by
/// ` > `, that is each `/` written as ` > `.
pub open spec fn path_display_text(path: Seq<char>) -> Seq<char>
    decreases path.len(),
{
    if path.len() == 0 {
        Seq::empty()
    } else {
        path_display_text(path.drop_last()) + if path.last() == '/' { " > "@ } else { seq![path.last()] }
    }
}

/// The heading of the review detail panel for a card path.
pub fn path_display(path: &str) -> (r: String)
    ensures
        r@ == path_display_text(path@),
{
    let cs = chars_of(path);
    let mut out = String::new();
    proof {
        reveal_strlit(" > ");
        assert(cs@.take(0) =~= Seq::<char>::empty());
    }
    for i in 0..cs.len()
        invariant
            cs@ == path@,
            out@ == path_display_text(cs@.take(i as int)),
    {
        proof {
            assert(cs@.take(i + 1).drop_last() =~= cs@.take(i as int));
        }
        if cs[i] == '/' {
            push_str(&mut out, " > ");
        } else {
            push_char(&mut out, cs[i]);
        }
    }
    proof {
        assert(cs@.take(cs@.len() as int) =~= cs@);
    }
    out
}

/// What the review detail panel shows of the time spent: the whole minutes
/// of the total as hours and leftover minutes, and the whole minutes of the
/// average, each rounded toward zero.
pub fn review_time_parts(total_duration_ms: i64, avg_duration_ms: i64) -> (r: (i64, i64, i64))
    ensures
        r.0 == div_trunc(div_trunc(total_duration_ms as int, 60_000), 60),
        r.1 == rem_trunc(div_trunc(total_duration_ms as int, 60_000), 60),
        r.2 == div_trunc(avg_duration_ms as int, 60_000),
{
    let total_min = div_t(total_duration_ms, 60_000);
    (div_t(total_min, 60), rem_t(total_min, 60), div_t(avg_duration_ms, 60_000))
}

} // verus!
