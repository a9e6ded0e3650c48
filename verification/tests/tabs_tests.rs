use time_manager::data::cards::{Card, Prediction, Preset, ReviewRecord, Timer};
use time_manager::data::error::DataError;
use time_manager::data::models::{
    Category, Difficulty, MemoryQuality, NodeType as CategoryType, PauseRecord, Quality, SessionParams, Todo,
};
use time_manager::learning::import::import_entry;
use time_manager::learning::session::create_session_insert;
use time_manager::learning::timer_machine::StoppedSession;
use time_manager::learning::vault::VaultEntry;
use time_manager::numbers::parse_i64;
use time_manager::tabs::{toggle_group, CardStats, EditCardForm, PresetTabState, TimerTabState, TodoTabState};
use time_manager::text::{forward_slashes, split_words};
use time_manager::timer::TimerState;

// 2026-06-14T14:05:00Z in microseconds.
const JUNE_14: i64 = 1_781_445_900_000_000;

fn preset(name: &str) -> Preset {
    Preset { name: name.to_string(), description: None, match_rules: vec![], fsrs_parameters: None, trained_at: None }
}

#[test]
fn test_card_with_prediction() {
    let card = Card::new_with_preset("vocabulary".to_string());

    assert!(card.prediction.is_some());
    let pred = card.prediction.unwrap();
    assert_eq!(pred.preset_used, "vocabulary");
    assert_eq!(pred.algorithm, "fsrs");
}

#[test]
fn test_preset_with_parameters() {
    let mut preset = Preset::default_preset();
    preset.fsrs_parameters = Some(vec![1.0f32.to_bits(), 2.0f32.to_bits(), 3.0f32.to_bits()]);
    preset.match_rules = vec!["main/语言/**".to_string()];

    assert!(preset.fsrs_parameters.is_some());
    assert_eq!(preset.match_rules.len(), 1);
}

#[test]
fn new_card_is_empty_and_default_preset_is_named_default() {
    let card = Card::new();
    assert!(card.review_records.is_empty());
    assert!(card.prediction.is_none());
    let p = Preset::default_preset();
    assert_eq!(p.name, "default");
    assert_eq!(p.description.as_deref(), Some("默认预设"));
    let at = Card::new_with_preset_at("x".to_string(), 42);
    assert_eq!(at.prediction.unwrap().next_review, 42);
    let d = Prediction::default_at(7);
    assert_eq!(d.preset_used, "default");
    assert!(d.fsrs_state_bytes.is_empty());
}

#[test]
fn timer_file_name_is_its_start_to_the_second() {
    let t = Timer::new(JUNE_14 + 5_000_000, JUNE_14 + 65_000_000, 60_000);
    assert_eq!(t.filename(), "2026-06-14T14-05-05");
    assert_eq!(t.duration_ms, 60_000);
}

#[test]
fn preset_form_checks_its_name() {
    let mut tab = PresetTabState::new();
    tab.form_name = "   ".to_string();
    assert_eq!(tab.validate().err().as_deref(), Some("名称不能为空"));

    tab.presets = vec![preset("专注"), preset("复习")];
    tab.form_name = " 专注 ".to_string();
    assert_eq!(tab.validate().err().as_deref(), Some("名称已存在"));

    tab.editing_name = Some("专注".to_string());
    let p = tab.validate().expect("renaming to its own name is allowed");
    assert_eq!(p.name, "专注");

    tab.editing_name = Some("复习".to_string());
    assert_eq!(tab.validate().err().as_deref(), Some("名称已存在"));
}

#[test]
fn preset_form_trims_and_drops_blank_rules() {
    let mut tab = PresetTabState::new();
    tab.form_name = " 新预设 ".to_string();
    tab.form_description = "  ".to_string();
    tab.form_match_rules = vec![" main/** ".to_string(), "   ".to_string(), "lang/*".to_string()];
    let p = tab.validate().unwrap();
    assert_eq!(p.name, "新预设");
    assert!(p.description.is_none());
    assert_eq!(p.match_rules, vec!["main/**".to_string(), "lang/*".to_string()]);
    assert!(p.fsrs_parameters.is_none());

    tab.form_description = " 说明 ".to_string();
    assert_eq!(tab.validate().unwrap().description.as_deref(), Some("说明"));
}

#[test]
fn preset_form_loads_and_resets() {
    let mut tab = PresetTabState::new();
    let mut p = preset("专注");
    p.description = Some("深度学习".to_string());
    p.match_rules = vec!["a/**".to_string()];
    tab.presets = vec![preset("其他"), p];
    tab.load_from_preset("专注");
    assert_eq!(tab.form_name, "专注");
    assert_eq!(tab.form_description, "深度学习");
    assert_eq!(tab.form_match_rules, vec!["a/**".to_string()]);
    assert_eq!(tab.editing_name.as_deref(), Some("专注"));

    tab.load_from_preset("不存在");
    assert_eq!(tab.form_name, "专注");

    tab.reset_form();
    assert!(tab.form_name.is_empty());
    assert!(tab.form_match_rules.is_empty());
    assert!(tab.editing_name.is_none());
    assert_eq!(tab.presets.len(), 2);
}

#[test]
fn card_stats_total_mean_and_dates() {
    let rec = |ts: i64, ms: i64| ReviewRecord { timestamp: ts, duration_ms: ms, memory_quality: MemoryQuality::Good };
    let card = Card {
        review_records: vec![rec(1, 60_000), rec(2, 120_000), rec(3, 30_001)],
        prediction: Some(Prediction::default_at(99)),
    };
    let stats = CardStats::from_card(&card);
    assert_eq!(stats.sessions, 3);
    assert_eq!(stats.total_duration_ms, 210_001);
    assert_eq!(stats.avg_duration_ms, 70_000);
    assert_eq!(stats.last_review, Some(3));
    assert_eq!(stats.next_review, Some(99));

    let empty = CardStats::from_card(&Card::new());
    assert_eq!(empty.sessions, 0);
    assert_eq!(empty.avg_duration_ms, 0);
    assert_eq!(empty.last_review, None);
    assert_eq!(empty.next_review, None);

    let negative = Card { review_records: vec![rec(1, -7), rec(2, 0)], prediction: None };
    assert_eq!(CardStats::from_card(&negative).avg_duration_ms, -3);
}

#[test]
fn edit_card_form_takes_the_last_path_segment() {
    let mut card = Card::new_with_preset_at("英语".to_string(), 5);
    card.review_records.push(ReviewRecord { timestamp: 1, duration_ms: 10, memory_quality: MemoryQuality::Hard });
    let form = EditCardForm::new("tree/folder/card".to_string(), &card);
    assert_eq!(form.name, "card");
    assert_eq!(form.original_name, "card");
    assert_eq!(form.new_name, "card");
    assert_eq!(form.preset, "英语");
    assert_eq!(form.next_review, Some(5));
    assert_eq!(form.review_records.len(), 1);
    assert_eq!(form.expanded_groups, vec!["basic".to_string(), "prediction".to_string()]);

    let plain = EditCardForm::new("single".to_string(), &Card::new());
    assert_eq!(plain.name, "single");
    assert_eq!(plain.preset, "default");
    assert_eq!(plain.next_review, None);

    let trailing = EditCardForm::new("tree/".to_string(), &Card::new());
    assert_eq!(trailing.name, "");
}

#[test]
fn groups_toggle_open_and_closed() {
    let groups = vec!["basic".to_string(), "prediction".to_string()];
    let closed = toggle_group(&groups, "basic");
    assert_eq!(closed, vec!["prediction".to_string()]);
    let reopened = toggle_group(&closed, "basic");
    assert!(reopened.contains(&"basic".to_string()));
    assert_eq!(reopened.len(), 2);
}

#[test]
fn todo_form_fills_from_dates() {
    let mut tab = TodoTabState::new();
    tab.set_default_due_date_on(2026, 3, 7);
    assert_eq!(
        (&tab.form_due_year[..], &tab.form_due_month[..], &tab.form_due_day[..], &tab.form_due_hour[..], &tab.form_due_minute[..]),
        ("2026", "03", "07", "23", "59")
    );

    let mut todo = Todo::new_at("写报告".to_string(), 7, 0);
    todo.due_date = Some(JUNE_14);
    todo.tags = vec!["工作".to_string(), "紧急".to_string()];
    todo.priority = Some(2);
    tab.load_todo_for_edit_on(&todo, (2000, 1, 1));
    assert_eq!(tab.editing_todo_id, Some(7));
    assert_eq!(tab.form_content, "写报告");
    assert_eq!(tab.form_priority, Some(2));
    assert_eq!(
        (&tab.form_due_year[..], &tab.form_due_month[..], &tab.form_due_day[..], &tab.form_due_hour[..], &tab.form_due_minute[..]),
        ("2026", "06", "14", "14", "05")
    );
    assert_eq!(tab.form_tags, "工作 紧急");

    let undated = Todo::new_at("读书".to_string(), 8, 0);
    tab.load_todo_for_edit_on(&undated, (2025, 12, 31));
    assert_eq!((&tab.form_due_year[..], &tab.form_due_month[..], &tab.form_due_day[..]), ("2025", "12", "31"));
    assert_eq!(tab.form_tags, "");
}

#[test]
fn timer_tab_starts_empty() {
    let tab = TimerTabState::new(TimerState::new());
    assert_eq!(tab.elapsed_ms, 0);
    assert!(!tab.link_mode);
    assert_eq!(tab.memory_quality, MemoryQuality::Good);
    assert_eq!(tab.new_card_preset, "default");
}

#[test]
fn vault_entries_become_categories_under_their_parent() {
    let cat = |id: i64, path: &str| Category {
        id,
        parent_id: None,
        name: path.to_string(),
        path: path.to_string(),
        node_type: CategoryType::Directory,
        source: None,
        default_quality: None,
        default_understanding_difficulty: None,
        default_memory_difficulty: None,
    };
    let existing = vec![cat(1, "数学"), cat(2, "数学/代数"), cat(3, "英语")];
    let taken = VaultEntry { name: "代数".to_string(), relative_path: "数学/代数".to_string(), is_dir: true };
    assert!(import_entry(&existing, &taken).is_none());

    let file = VaultEntry { name: "群论".to_string(), relative_path: "数学/代数/群论".to_string(), is_dir: false };
    let ins = import_entry(&existing, &file).unwrap();
    assert_eq!(ins.parent_id, Some(2));
    assert_eq!(ins.node_type, CategoryType::Learning);
    assert_eq!(ins.source.as_deref(), Some("obsidian"));

    let top = VaultEntry { name: "物理".to_string(), relative_path: "物理".to_string(), is_dir: true };
    let ins = import_entry(&existing, &top).unwrap();
    assert_eq!(ins.parent_id, None);
    assert_eq!(ins.node_type, CategoryType::Directory);

    let orphan = VaultEntry { name: "x".to_string(), relative_path: "化学/x".to_string(), is_dir: false };
    assert_eq!(import_entry(&existing, &orphan).unwrap().parent_id, None);
}

#[test]
fn stopped_session_becomes_a_record() {
    let stopped = StoppedSession {
        category_id: 4,
        start_time: 10,
        end_time: 20,
        duration_secs: 9,
        pause_records: vec![PauseRecord { pause_start: 12, resume_time: 13 }],
    };
    let params = SessionParams {
        quality: Quality::High,
        understanding_difficulty: Difficulty::Hard,
        memory_difficulty: Difficulty::Easy,
        completion_rate: 80,
    };
    let ins = create_session_insert(stopped, params, Some("note".to_string()));
    assert_eq!(ins.category_id, 4);
    assert_eq!((ins.start_time, ins.end_time, ins.duration_secs), (10, 20, 9));
    assert_eq!(ins.pause_records.len(), 1);
    assert_eq!(ins.params.completion_rate, 80);
    assert_eq!(ins.note.as_deref(), Some("note"));
}

#[test]
fn i64_parsing_follows_str_parse() {
    assert_eq!(parse_i64("42"), Some(42));
    assert_eq!(parse_i64("+7"), Some(7));
    assert_eq!(parse_i64("-9223372036854775808"), Some(i64::MIN));
    assert_eq!(parse_i64("9223372036854775807"), Some(i64::MAX));
    assert_eq!(parse_i64("9223372036854775808"), None);
    assert_eq!(parse_i64(""), None);
    assert_eq!(parse_i64("-"), None);
    assert_eq!(parse_i64(" 1"), None);
    assert_eq!(parse_i64("1.5"), None);
}

#[test]
fn words_and_slashes() {
    assert_eq!(split_words("  工作\t紧急 \n 学习 "), vec!["工作".to_string(), "紧急".to_string(), "学习".to_string()]);
    assert!(split_words("   ").is_empty());
    assert_eq!(split_words("a"), vec!["a".to_string()]);
    assert_eq!(forward_slashes("a\\b\\c/d"), "a/b/c/d");
}

#[test]
fn data_errors_read_as_their_kind_and_detail() {
    assert_eq!(DataError::CardNotFound("x/y".to_string()).message(), "card not found: x/y");
    assert_eq!(DataError::Io("disk".to_string()).message(), "io error: disk");
    assert_eq!(DataError::ConfigSerialize("bad".to_string()).message(), "config serialize error: bad");
}
