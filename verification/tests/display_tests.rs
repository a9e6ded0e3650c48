use chrono::{Duration, Utc};
use time_manager::display::{
    calculate_urgency, calculate_urgency_at, format_duration, format_duration_words, format_time_until,
    urgency_for, urgency_sort_key, weekday_cn, Urgency,
};
use time_manager::gui::components::{LinkTimerModal, TimerDisplay, UrgencyBadge};
use time_manager::data::models::MemoryQuality;
use time_manager::timer::{format_clock, TimerState};

const HOUR: i64 = 3_600_000_000;
const DAY: i64 = 24 * HOUR;

fn micros(t: chrono::DateTime<Utc>) -> i64 {
    t.timestamp_micros()
}

#[test]
fn test_urgency_calculation() {
    let now = Utc::now();

    assert_eq!(calculate_urgency(micros(now - Duration::hours(1))), 3);
    assert_eq!(calculate_urgency(micros(now + Duration::hours(12))), 2);
    assert_eq!(calculate_urgency(micros(now + Duration::hours(48))), 1);
    assert_eq!(calculate_urgency(micros(now + Duration::hours(100))), 0);
}

#[test]
fn test_urgency_overdue_cards() {
    let overdue = Utc::now() - Duration::days(5);
    assert_eq!(calculate_urgency(micros(overdue)), 3);
}

#[test]
fn test_urgency_today_cards() {
    let today = Utc::now();
    assert_eq!(calculate_urgency(micros(today)), 2);
}

#[test]
fn test_urgency_near_future_cards() {
    let near_future = Utc::now() + Duration::days(2);
    assert_eq!(calculate_urgency(micros(near_future)), 1);
}

#[test]
fn test_urgency_far_future_cards() {
    let far_future = Utc::now() + Duration::days(10);
    assert_eq!(calculate_urgency(micros(far_future)), 0);
}

#[test]
fn test_urgency_levels() {
    let now = Utc::now();

    assert_eq!(calculate_urgency(micros(now - Duration::days(2))), 3);

    assert_eq!(calculate_urgency(micros(now)), 2);
    assert_eq!(calculate_urgency(micros(now + Duration::hours(12))), 2);

    assert_eq!(calculate_urgency(micros(now + Duration::days(2))), 1);
    assert_eq!(calculate_urgency(micros(now + Duration::days(3))), 1);

    assert_eq!(calculate_urgency(micros(now + Duration::days(7))), 0);
    assert_eq!(calculate_urgency(micros(now + Duration::days(30))), 0);
}

#[test]
fn urgency_boundaries_with_fixed_clock() {
    let now = 1_700_000_000_000_000;
    assert_eq!(calculate_urgency_at(now - 1, now), 2);
    assert_eq!(calculate_urgency_at(now - HOUR, now), 3);
    assert_eq!(calculate_urgency_at(now + 12 * HOUR, now), 2);
    assert_eq!(calculate_urgency_at(now + 13 * HOUR, now), 1);
    assert_eq!(calculate_urgency_at(now + 72 * HOUR + HOUR - 1, now), 1);
    assert_eq!(calculate_urgency_at(now + 73 * HOUR, now), 0);
}

#[test]
fn test_timer_errors() {
    let mut state = TimerState::new();

    assert!(state.pause().is_err());
    assert!(state.stop().is_err());

    state.start().unwrap();
    assert!(state.start().is_err());

    state.pause().unwrap();
    assert!(state.pause().is_err());
}

#[test]
fn stopwatch_with_fixed_clock() {
    let mut state = TimerState::new();
    assert_eq!(state.elapsed_ms_at(5), 0);
    assert_eq!(state.elapsed_string_at(5), "00:00:00");

    state.start_at(1_000_000).unwrap();
    assert_eq!(state.elapsed_ms_at(3_500_000), 2_500);

    state.pause_at(4_000_000).unwrap();
    assert_eq!(state.elapsed_ms_at(9_000_000), 3_000);
    assert_eq!(state.elapsed_ms_at(90_000_000), 3_000);

    // Resuming keeps the first start, so the paused span counts again.
    state.start_at(10_000_000).unwrap();
    assert_eq!(state.elapsed_ms_at(12_000_000), 11_000);

    let (stopped_at, duration) = state.stop_at(13_000_000).unwrap();
    assert_eq!(stopped_at, 13_000_000);
    assert_eq!(duration, 12_000);
    assert!(state.stop_at(14_000_000).is_err());
}

#[test]
fn clock_text_pads_each_unit() {
    assert_eq!(format_clock(0), "00:00:00");
    assert_eq!(format_clock(3_723_000), "01:02:03");
    assert_eq!(format_clock(59_999), "00:00:59");
    assert_eq!(format_clock(360_000_000), "100:00:00");
}

#[test]
fn duration_as_hms() {
    assert_eq!(format_duration(0), "00:00:00");
    assert_eq!(format_duration(3_661), "01:01:01");
    assert_eq!(format_duration(86_399), "23:59:59");
}

#[test]
fn duration_in_words() {
    assert_eq!(format_duration_words(4_000), "4秒");
    assert_eq!(format_duration_words(125_000), "2分钟 5秒");
    assert_eq!(format_duration_words(3_725_000), "1小时 2分钟 5秒");
    assert_eq!(format_duration_words(999), "0秒");
}

#[test]
fn time_until_in_words() {
    let now = 1_700_000_000_000_000;
    assert_eq!(format_time_until(now - 2 * HOUR, now), "已过期 2 小时");
    assert_eq!(format_time_until(now - 3 * DAY, now), "已过期 3 天");
    assert_eq!(format_time_until(now, now), "已过期 0 小时");
    assert_eq!(format_time_until(now + 30 * 60_000_000, now), "30 分钟后");
    assert_eq!(format_time_until(now + 30_000_000, now), "即将到期");
    assert_eq!(format_time_until(now + 5 * HOUR, now), "5 小时后");
    assert_eq!(format_time_until(now + 2 * DAY, now), "2 天后");
    assert_eq!(format_time_until(now + 2 * DAY + 3 * HOUR, now), "2 天 3 小时后");
}

#[test]
fn weekday_names() {
    assert_eq!(weekday_cn(0), "一");
    assert_eq!(weekday_cn(6), "日");
    assert_eq!(weekday_cn(7), "");
}

#[test]
fn badge_labels() {
    assert_eq!(UrgencyBadge::label(3), "已过期");
    assert_eq!(UrgencyBadge::label(2), "今日");
    assert_eq!(UrgencyBadge::label(1), "近期");
    assert_eq!(UrgencyBadge::label(0), "稍后");
    assert_eq!(UrgencyBadge::label(9), "稍后");
}

#[test]
fn category_urgency_classes() {
    let now = 1_700_000_000_000_000;
    assert_eq!(urgency_for(None, now), Urgency::Normal);
    assert_eq!(urgency_for(Some(now), now), Urgency::Overdue);
    assert_eq!(urgency_for(Some(now + 3 * DAY), now), Urgency::Within3Days);
    assert_eq!(urgency_for(Some(now + 3 * DAY + 1_000_000), now), Urgency::Within7Days);
    assert_eq!(urgency_for(Some(now + 8 * DAY), now), Urgency::Normal);
    assert_eq!(urgency_sort_key(&Urgency::Overdue), 0);
    assert_eq!(urgency_sort_key(&Urgency::Normal), 3);
}

#[test]
fn timer_display_texts() {
    assert_eq!(TimerDisplay::clock_text(3_723_000), "01:02:03");
    assert_eq!(TimerDisplay::status_label(&TimerState::Idle), "空闲");
    assert_eq!(TimerDisplay::status_label(&TimerState::Running { started_at: 0 }), "运行中");
    assert_eq!(
        TimerDisplay::status_label(&TimerState::Paused { started_at: 0, paused_at: 1, accumulated: 1 }),
        "已暂停"
    );
    assert_eq!(
        TimerDisplay::status_label(&TimerState::Stopped { started_at: 0, stopped_at: 1, duration_ms: 1 }),
        "已停止"
    );
}

#[test]
fn link_modal_duration() {
    let m = LinkTimerModal {
        duration_ms: 3_725_000,
        card_path: String::new(),
        card_dropdown: Vec::new(),
        selected_card: None,
        memory_quality: MemoryQuality::Good,
    };
    assert_eq!(m.duration_text(), "1小时 2分钟 5秒");
}

#[test]
fn test_timer_state_transitions() {
    let mut state = TimerState::new();
    assert!(matches!(state, TimerState::Idle));

    state.start().unwrap();
    assert!(matches!(state, TimerState::Running { .. }));

    state.pause().unwrap();
    assert!(matches!(state, TimerState::Paused { .. }));

    state.start().unwrap();
    assert!(matches!(state, TimerState::Running { .. }));

    let (_stopped_at, duration) = state.stop().unwrap();
    assert!(matches!(state, TimerState::Stopped { .. }));
    assert!(duration >= 0);
}

#[test]
fn test_timer_elapsed_time() {
    let mut state = TimerState::new();
    assert_eq!(state.elapsed_ms_at(0), 0);

    let t0: i64 = 1_700_000_000_000_000;
    state.start_at(t0).unwrap();
    assert!(state.elapsed_ms_at(t0 + 100_000) > 0);

    state.pause_at(t0 + 100_000).unwrap();
    let paused_elapsed = state.elapsed_ms_at(t0 + 100_000);
    assert_eq!(state.elapsed_ms_at(t0 + 200_000), paused_elapsed);
}

#[test]
fn test_timer_elapsed_string() {
    let mut state = TimerState::new();
    assert_eq!(state.elapsed_string_at(0), "00:00:00");

    let t0: i64 = 1_700_000_000_000_000;
    state.start_at(t0).unwrap();
    let elapsed = state.elapsed_string_at(t0 + 1_000_000);
    assert!(elapsed.starts_with("00:00:"));
}
