use std::path::PathBuf;
use time_manager::app_model::{App, DeleteKind, Effect, ImportOutcome, Message, Modal, Moment, TreeCreation};
use time_manager::data::cards::{Card, Preset};
use time_manager::data::config::Config;
use time_manager::data::error::DataError;
use time_manager::data::models::{MemoryQuality, Todo};
use time_manager::gui::messages::{NodeType, TabId};
use time_manager::gui::tree_view::TreeNode;
use time_manager::obsidian::ImportResult;
use time_manager::timer::TimerState;

// 2026-06-14T14:05:00Z in microseconds.
const JUNE_14: i64 = 1_781_445_900_000_000;

fn moment() -> Moment {
    Moment { now: JUNE_14, today: (2026, 6, 14), fresh_id: 0x1234 }
}

fn app() -> App {
    App::new(
        "/data".to_string(),
        Config { data_dir: None, default_preset: Some("英语".to_string()), theme: Some("dark".to_string()) },
        PathBuf::from("/config"),
        PathBuf::from("/config/config.toml"),
        TimerState::new(),
    )
}

fn node(name: &str, path: &str, is_card: bool, children: Vec<TreeNode>) -> TreeNode {
    TreeNode { name: name.to_string(), path: path.to_string(), is_card, children }
}

fn trees() -> Vec<TreeNode> {
    vec![node("main", "main", false, vec![node("数学", "main/数学", false, vec![node("群论", "main/数学/群论", true, vec![])])])]
}

#[test]
fn opening_takes_the_configuration() {
    let a = app();
    assert_eq!(a.data_dir, "/data");
    assert_eq!(a.default_preset, "英语");
    assert_eq!(a.active_tab, TabId::Category);
    assert_eq!(a.settings_tab.form_data_dir, "/data");
    assert!(a.modal.is_none());
}

#[test]
fn switching_tabs_and_errors() {
    let mut a = app();
    assert!(matches!(a.update(Message::SwitchTab(TabId::Todo), moment()), Effect::Nothing));
    assert_eq!(a.active_tab, TabId::Todo);
    a.update(Message::Error("坏了".to_string()), moment());
    assert_eq!(a.error_message.as_deref(), Some("坏了"));
    a.update(Message::ClearError, moment());
    assert!(a.error_message.is_none());
    a.update(Message::DataLoaded(Err(DataError::Io("disk".to_string()))), moment());
    assert_eq!(a.error_message.as_deref(), Some("io error: disk"));
}

#[test]
fn saving_a_preset_form() {
    let mut a = app();
    a.update(Message::PresetCreateOpen, moment());
    assert!(a.preset_tab.show_form);
    a.update(Message::PresetFormNameChanged("  ".to_string()), moment());
    assert!(matches!(a.update(Message::PresetFormSaveRequested, moment()), Effect::Nothing));
    assert_eq!(a.preset_tab.form_error.as_deref(), Some("名称不能为空"));

    a.update(Message::PresetFormNameChanged(" 专注 ".to_string()), moment());
    a.update(Message::PresetFormMatchRuleAdded, moment());
    a.update(Message::PresetFormMatchRuleChanged(0, " main/** ".to_string()), moment());
    a.update(Message::PresetFormMatchRuleAdded, moment());
    a.update(Message::PresetFormMatchRuleRemoved(1), moment());
    match a.update(Message::PresetFormSaveRequested, moment()) {
        Effect::SavePreset { old_name, preset } => {
            assert!(old_name.is_none());
            assert_eq!(preset.name, "专注");
            assert_eq!(preset.match_rules, vec!["main/**".to_string()]);
        },
        _ => panic!("expected a save"),
    }
    assert!(!a.preset_tab.show_form);
    assert!(a.preset_tab.form_name.is_empty());

    let presets = vec![Preset::default_preset()];
    a.update(Message::PresetsLoaded(Ok(presets)), moment());
    assert_eq!(a.preset_tab.presets.len(), 1);
    match a.update(Message::PresetDeleteConfirmed("default".to_string()), moment()) {
        Effect::DeletePreset(n) => assert_eq!(n, "default"),
        _ => panic!("expected a delete"),
    }
}

#[test]
fn settings_save_and_its_outcome() {
    let mut a = app();
    a.update(Message::SettingsFormDataDirChanged(" /elsewhere ".to_string()), moment());
    a.update(Message::SettingsFormDefaultPresetChanged("  ".to_string()), moment());
    let config = match a.update(Message::SettingsFormSaveRequested, moment()) {
        Effect::SaveSettings(c) => c,
        _ => panic!("expected a save"),
    };
    assert_eq!(config.data_dir.as_deref(), Some("/elsewhere"));
    assert!(config.default_preset.is_none());
    assert_eq!(config.theme.as_deref(), Some("dark"));

    a.settings_saved(config, Ok(()));
    assert_eq!(a.settings_tab.message.as_deref(), Some("配置已保存，数据目录修改需重启生效"));
    assert!(!a.settings_tab.message_is_error);
    assert_eq!(a.default_preset, "英语");

    let same = Config { data_dir: Some("/data".to_string()), default_preset: Some("新".to_string()), theme: None };
    a.settings_saved(same, Ok(()));
    assert_eq!(a.settings_tab.message.as_deref(), Some("配置已保存"));
    assert_eq!(a.default_preset, "新");

    a.settings_saved(Config { data_dir: None, default_preset: None, theme: None }, Err(DataError::ConfigSerialize("x".to_string())));
    assert_eq!(a.settings_tab.message.as_deref(), Some("保存失败: config serialize error: x"));
    assert!(a.settings_tab.message_is_error);
}

#[test]
fn theme_change_is_written() {
    let mut a = app();
    match a.update(Message::ThemeChanged(time_manager::gui::theme::AppTheme::Light), moment()) {
        Effect::SaveConfig(c) => assert_eq!(c.theme.as_deref(), Some("light")),
        _ => panic!("expected a config write"),
    }
}

#[test]
fn searching_and_picking_a_tree_node() {
    let mut a = app();
    a.category_tab.tree_nodes = trees();
    a.update(Message::SearchQueryChanged("群".to_string()), moment());
    assert_eq!(a.category_tab.search_results.len(), 1);
    assert_eq!(a.category_tab.search_selected_index, Some(0));
    a.update(Message::SearchItemSelected(0), moment());
    assert_eq!(a.category_tab.selected_path.as_deref(), Some("main/数学/群论"));
    assert!(a.category_tab.search_results.is_empty());
    assert!(a.category_tab.tree_view.is_expanded("main/数学"));

    a.update(Message::SearchQueryChanged(String::new()), moment());
    assert!(a.category_tab.search_results.is_empty());
    assert_eq!(a.category_tab.search_selected_index, None);
}

#[test]
fn new_node_form_asks_for_a_name() {
    let mut a = app();
    a.update(Message::NewNodeOpen(NodeType::Card), moment());
    assert!(a.category_tab.new_node_form.is_none());
    a.update(Message::CardSelected("main/数学".to_string()), moment());
    a.update(Message::NewNodeOpen(NodeType::Card), moment());
    assert!(matches!(a.modal, Some(Modal::NewNode)));
    assert_eq!(a.category_tab.new_node_form.as_ref().unwrap().preset, "英语");
    assert!(matches!(a.update(Message::NewNodeConfirm, moment()), Effect::Nothing));
    assert_eq!(a.error_message.as_deref(), Some("名称不能为空"));

    a.update(Message::NewNodeNameChanged("线代".to_string()), moment());
    match a.update(Message::NewNodeConfirm, moment()) {
        Effect::CreateNode { path, node_type, preset } => {
            assert_eq!(path, "main/数学/线代");
            assert_eq!(node_type, NodeType::Card);
            assert_eq!(preset, "英语");
        },
        _ => panic!("expected a node"),
    }
    assert!(matches!(a.node_created(Ok(())), Effect::LoadData));
    assert!(a.modal.is_none());
    assert!(a.category_tab.new_node_form.is_none());
}

#[test]
fn deleting_trees_folders_and_cards() {
    let mut a = app();
    for (path, folder, kind) in [("main", true, DeleteKind::Tree), ("main/数学", true, DeleteKind::Folder), ("main/数学/群论", false, DeleteKind::Card)] {
        a.update(Message::DeleteNodeOpen(path.to_string(), folder), moment());
        assert!(matches!(a.modal, Some(Modal::ConfirmDelete { .. })));
        match a.update(Message::DeleteNodeConfirm, moment()) {
            Effect::DeleteNode { path: p, kind: k } => {
                assert_eq!(p, path);
                assert_eq!(k, kind);
            },
            _ => panic!("expected a delete"),
        }
        assert!(a.category_tab.delete_target.is_none());
    }
    assert!(matches!(a.update(Message::DeleteNodeConfirm, moment()), Effect::Nothing));
    assert!(matches!(a.node_deleted(Err(DataError::FolderNotFound("f".to_string()))), Effect::Nothing));
    assert_eq!(a.error_message.as_deref(), Some("folder not found: f"));
}

#[test]
fn editing_a_card() {
    let mut a = app();
    match a.update(Message::EditCardOpen("main/数学/群论".to_string()), moment()) {
        Effect::OpenCard(p) => assert_eq!(p, "main/数学/群论"),
        _ => panic!("expected a read"),
    }
    a.card_opened("main/数学/群论".to_string(), Ok(Card::new()));
    assert!(matches!(a.modal, Some(Modal::EditCard { .. })));
    a.update(Message::EditCardNewReviewDurationChanged("15".to_string()), moment());
    a.update(Message::EditCardNewReviewQualityChanged(MemoryQuality::Easy), moment());
    a.update(Message::EditCardAddReview, moment());
    {
        let form = a.category_tab.edit_card_form.as_ref().unwrap();
        assert_eq!(form.review_records.len(), 1);
        assert_eq!(form.review_records[0].duration_ms, 900_000);
        assert_eq!(form.review_records[0].timestamp, JUNE_14);
        assert_eq!(form.review_records[0].memory_quality, MemoryQuality::Easy);
        assert!(form.new_review_duration.is_empty());
    }
    a.update(Message::EditCardNewReviewDurationChanged("abc".to_string()), moment());
    a.update(Message::EditCardAddReview, moment());
    assert_eq!(a.category_tab.edit_card_form.as_ref().unwrap().review_records.len(), 1);

    a.update(Message::EditCardNextReviewChanged("2026-06-20".to_string()), moment());
    assert_eq!(a.category_tab.edit_card_form.as_ref().unwrap().next_review, Some(1_781_913_600_000_000));
    a.update(Message::EditCardNextReviewChanged("tomorrow".to_string()), moment());
    assert_eq!(a.category_tab.edit_card_form.as_ref().unwrap().next_review, None);

    a.update(Message::EditCardToggleGroup("basic".to_string()), moment());
    assert_eq!(a.category_tab.edit_card_form.as_ref().unwrap().expanded_groups, vec!["prediction".to_string()]);

    a.update(Message::EditCardNameChanged("线代".to_string()), moment());
    match a.update(Message::EditCardConfirm, moment()) {
        Effect::SaveCard { path, new_name, card } => {
            assert_eq!(path, "main/数学/群论");
            assert_eq!(new_name.as_deref(), Some("线代"));
            let p = card.prediction.unwrap();
            assert_eq!(p.next_review, JUNE_14);
            assert_eq!(p.preset_used, "default");
            assert_eq!(card.review_records.len(), 1);
        },
        _ => panic!("expected a save"),
    }
    a.update(Message::EditCardClearPrediction, moment());
    match a.update(Message::EditCardConfirm, moment()) {
        Effect::SaveCard { card, .. } => assert!(card.prediction.is_none()),
        _ => panic!("expected a save"),
    }
    a.card_predicted(None, JUNE_14);
    assert_eq!(a.category_tab.edit_card_form.as_ref().unwrap().next_review, Some(JUNE_14 + 86_400_000_000));
    a.update(Message::EditCardRemoveReview(0), moment());
    assert!(a.category_tab.edit_card_form.as_ref().unwrap().review_records.is_empty());
    assert!(matches!(a.card_saved(Ok(())), Effect::LoadData));
    assert!(a.category_tab.edit_card_form.is_none());
}

#[test]
fn stopping_and_linking_the_timer() {
    let mut a = app();
    assert!(matches!(a.update(Message::QuickTimerStart("main/数学/群论".to_string()), moment()), Effect::StartTimer));
    assert_eq!(a.active_tab, TabId::Timer);
    a.timer_changed(TimerState::Running { started_at: JUNE_14 - 90_000_000 });
    a.update(Message::TimerTick(0), moment());
    assert_eq!(a.timer_tab.elapsed_ms, 90_000);
    assert!(matches!(a.update(Message::TimerStopped(Ok("t".to_string())), moment()), Effect::StopTimer));
    assert!(a.timer_tab.link_mode);
    assert_eq!(a.timer_tab.card_path_input, "main/数学/群论");
    assert!(a.timer_tab.current_card.is_none());

    match a.update(Message::TimerLinkConfirm, moment()) {
        Effect::LinkReview { card_path, record, preset } => {
            assert_eq!(card_path, "main/数学/群论");
            assert_eq!(record.duration_ms, 90_000);
            assert_eq!(record.timestamp, JUNE_14);
            assert_eq!(preset, "英语");
        },
        _ => panic!("expected a link"),
    }
    assert!(!a.timer_tab.link_mode);
    assert_eq!(a.timer_tab.elapsed_ms, 0);

    a.update(Message::TimerCardPathChanged(String::new()), moment());
    assert!(matches!(a.update(Message::TimerLinkConfirm, moment()), Effect::Nothing));
    a.update(Message::TimerStopped(Err("no timer".to_string())), moment());
    assert_eq!(a.error_message.as_deref(), Some("no timer"));
}

#[test]
fn new_node_from_the_timer_tab_goes_beside_a_card() {
    let mut a = app();
    a.category_tab.tree_nodes = trees();
    a.update(Message::TimerNewCardNameChanged("环论".to_string()), moment());
    a.update(Message::TimerCardPathChanged("main\\数学\\群论".to_string()), moment());
    assert_eq!(a.timer_tab.card_path_input, "main/数学/群论");
    match a.update(Message::TimerNewCardConfirm, moment()) {
        Effect::CreateTimerNode { path, .. } => assert_eq!(path, "main/数学/环论"),
        _ => panic!("expected a node"),
    }
    a.update(Message::TimerCardPathChanged("main/数学".to_string()), moment());
    match a.update(Message::TimerNewCardConfirm, moment()) {
        Effect::CreateTimerNode { path, .. } => assert_eq!(path, "main/数学/环论"),
        _ => panic!("expected a node"),
    }
    a.update(Message::TimerCardPathChanged(String::new()), moment());
    match a.update(Message::TimerNewCardConfirm, moment()) {
        Effect::CreateTimerNode { path, node_type, preset } => {
            assert_eq!(path, "环论");
            assert_eq!(node_type, NodeType::Card);
            assert_eq!(preset, "default");
        },
        _ => panic!("expected a node"),
    }
    assert!(matches!(a.timer_node_created(Ok(())), Effect::LoadTrees));
    assert!(a.timer_tab.new_card_name.is_empty());
}

#[test]
fn to_do_form_makes_and_edits_items() {
    let mut a = app();
    a.update(Message::ModalOpen(Modal::NewTodo), moment());
    assert_eq!(a.todo_tab.form_due_year, "2026");
    assert_eq!(a.todo_tab.form_due_month, "06");
    assert_eq!(a.todo_tab.form_due_hour, "23");
    a.update(Message::NewTodoContentChanged("  写报告 ".to_string()), moment());
    a.update(Message::NewTodoTagsChanged(" 工作  紧急 ".to_string()), moment());
    a.update(Message::NewTodoPriorityChanged(Some(1)), moment());
    let todo = match a.update(Message::ModalConfirm, moment()) {
        Effect::SaveTodo { todo, editing } => {
            assert!(!editing);
            todo
        },
        _ => panic!("expected a save"),
    };
    assert_eq!(todo.id, 0x1234);
    assert_eq!(todo.content, "写报告");
    assert_eq!(todo.tags, vec!["工作".to_string(), "紧急".to_string()]);
    assert_eq!(todo.priority, Some(1));
    assert_eq!(todo.due_date, Some(1_781_481_540_000_000));
    a.todo_saved(todo, false, Ok(()));
    assert_eq!(a.todo_tab.todos.len(), 1);
    assert!(a.modal.is_none());
    assert!(a.todo_tab.form_content.is_empty());

    a.update(Message::ModalOpen(Modal::EditTodo { id: 0x1234 }), moment());
    assert_eq!(a.todo_tab.form_content, "写报告");
    assert_eq!(a.todo_tab.form_tags, "工作 紧急");
    a.update(Message::NewTodoContentChanged("改报告".to_string()), moment());
    a.update(Message::NewTodoDueMinuteChanged(String::new()), moment());
    match a.update(Message::ModalConfirm, moment()) {
        Effect::SaveTodo { todo, editing } => {
            assert!(editing);
            assert_eq!(todo.content, "改报告");
            assert_eq!(todo.due_date, None);
            assert_eq!(todo.tags, vec!["工作".to_string(), "紧急".to_string()]);
        },
        _ => panic!("expected a save"),
    }
    assert_eq!(a.todo_tab.todos[0].content, "改报告");

    match a.update(Message::ToggleTodo(0x1234), moment()) {
        Effect::SaveToggledTodo(t) => {
            assert!(t.completed);
            assert_eq!(t.completed_at, Some(JUNE_14));
        },
        _ => panic!("expected a save"),
    }
    assert!(a.todo_tab.todos[0].completed);
    assert!(matches!(a.update(Message::ToggleTodo(99), moment()), Effect::Nothing));
    a.todo_deleted(0x1234, Ok(()));
    assert!(a.todo_tab.todos.is_empty());
}

#[test]
fn making_a_tree_with_an_import() {
    let mut a = app();
    a.update(Message::CreateTreeNameChanged("old".to_string()), moment());
    a.update(Message::ModalOpen(Modal::CreateTree), moment());
    assert!(a.category_tab.new_tree_name.is_empty());
    a.update(Message::CreateTreeNameChanged(" 笔记 ".to_string()), moment());
    a.update(Message::CreateTreeImportPathChanged(" /vault ".to_string()), moment());
    match a.update(Message::ModalConfirm, moment()) {
        Effect::CreateTree { name, import_path, rules_path } => {
            assert_eq!(name, "笔记");
            assert_eq!(import_path, "/vault");
            assert!(rules_path.is_empty());
        },
        _ => panic!("expected a tree"),
    }
    let done = ImportResult { created_dirs: vec!["a".to_string(), "b".to_string()], skipped_paths: vec!["c".to_string()] };
    a.tree_created(TreeCreation::Created {
        import: ImportOutcome::Done(done),
        trees: vec!["笔记".to_string()],
        folders: vec![vec![node("a", "笔记/a", false, vec![])]],
    });
    match &a.modal {
        Some(Modal::Info { message }) => assert_eq!(message, "导入完成: 创建 2 个目录, 跳过 1 个路径"),
        _ => panic!("expected the import summary"),
    }
    assert_eq!(a.category_tab.tree_nodes.len(), 1);
    assert!(a.category_tab.new_tree_name.is_empty());

    a.tree_created(TreeCreation::Created { import: ImportOutcome::MissingPath, trees: vec![], folders: vec![] });
    assert_eq!(a.error_message.as_deref(), Some("导入路径不存在"));
    assert!(a.modal.is_none());
}

#[test]
fn event_form_reports_what_is_wrong() {
    let mut a = app();
    a.update(Message::ScheduleCreateOpen, moment());
    assert!(a.schedule_tab.show_form);
    assert!(matches!(a.modal, Some(Modal::NewSchedule)));
    assert!(matches!(a.update(Message::ScheduleCreateConfirm, moment()), Effect::Nothing));
    assert_eq!(a.schedule_tab.form_error.as_deref(), Some("标题不能为空"));
    a.update(Message::ScheduleFormSummaryChanged("组会".to_string()), moment());
    assert!(a.schedule_tab.form_error.is_none());
    a.update(Message::ScheduleFormStartDateChanged("2026-06-14".to_string()), moment());
    a.update(Message::ScheduleFormStartTimeChanged("14:00".to_string()), moment());
    a.update(Message::ScheduleFormEndDateChanged("2026-06-14".to_string()), moment());
    a.update(Message::ScheduleFormEndTimeChanged("15:00".to_string()), moment());
    match a.update(Message::ScheduleCreateConfirm, moment()) {
        Effect::SaveSchedule { schedule, editing } => {
            assert!(!editing);
            assert_eq!(schedule.id, 0x1234);
            assert_eq!(schedule.summary, "组会");
            a.schedule_saved(false, Ok(()), vec![schedule]);
        },
        _ => panic!("expected a save"),
    }
    assert!(!a.schedule_tab.show_form);
    assert_eq!(a.schedule_tab.schedules.len(), 1);
    a.update(Message::ScheduleEditOpen(0x1234), moment());
    assert_eq!(a.schedule_tab.editing_id, Some(0x1234));
    assert_eq!(a.schedule_tab.form.start_time, "14:00");
    match a.update(Message::ScheduleEditConfirm, Moment { fresh_id: 1, ..moment() }) {
        Effect::SaveSchedule { schedule, editing } => {
            assert!(editing);
            assert_eq!(schedule.id, 0x1234);
        },
        _ => panic!("expected a save"),
    }
    a.schedule_deleted(0x1234, Ok(()));
    assert!(a.schedule_tab.schedules.is_empty());
}

#[test]
fn todo_items_without_a_due_date_load_today() {
    let mut a = app();
    let mut t = Todo::new_at("x".to_string(), 5, 0);
    t.tags = vec![];
    a.todo_tab.todos.push(t);
    a.update(Message::ModalOpen(Modal::EditTodo { id: 5 }), moment());
    assert_eq!(a.todo_tab.form_due_day, "14");
    assert_eq!(a.todo_tab.editing_todo_id, Some(5));
}
