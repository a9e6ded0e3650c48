use time_manager::app_state::{App, Dialog, Effect, Message, Screen};
use time_manager::data::models::{Category, Difficulty, NodeType, Preset, Quality, SessionParams};
use time_manager::learning::category_tree::CategoryForest;
use time_manager::learning::vault::VaultEntry;

const T0: i64 = 1_781_445_900_000_000;

fn cat(id: i64, parent: Option<i64>, path: &str, quality: Option<Quality>) -> Category {
    Category {
        id,
        parent_id: parent,
        name: path.rsplit('/').next().unwrap().to_string(),
        path: path.to_string(),
        node_type: NodeType::Directory,
        source: None,
        default_quality: quality,
        default_understanding_difficulty: None,
        default_memory_difficulty: None,
    }
}

fn app() -> App {
    let cats = vec![cat(1, None, "数学", None), cat(2, Some(1), "数学/代数", Some(Quality::High))];
    App::new(CategoryForest::from_categories(&cats), SessionParams::default())
}

#[test]
fn new_categories_go_below_their_parent() {
    let mut a = app();
    a.update(Message::SelectCategory(2), T0);
    a.update(Message::OpenNewCategory, T0);
    a.update(Message::SetNewCategoryName("  群论 ".to_string()), T0);
    a.update(Message::SetNewCategoryType(NodeType::Learning), T0);
    match a.update(Message::CreateCategory, T0) {
        Effect::InsertCategory(ins) => {
            assert_eq!(ins.parent_id, Some(2));
            assert_eq!(ins.name, "群论");
            assert_eq!(ins.path, "数学/代数/群论");
            assert_eq!(ins.node_type, NodeType::Learning);
            assert!(ins.source.is_none());
        },
        _ => panic!("expected an insert"),
    }
    assert!(a.dialog.is_none());

    a.update(Message::SwitchScreen(Screen::ReviewDashboard), T0);
    assert!(a.selected_category_id.is_none());
    a.update(Message::OpenNewCategory, T0);
    a.update(Message::SetNewCategoryName("  ".to_string()), T0);
    assert!(matches!(a.update(Message::CreateCategory, T0), Effect::Nothing));
    assert!(a.dialog.is_none());

    a.update(Message::OpenNewCategory, T0);
    a.update(Message::SetNewCategoryName("物理".to_string()), T0);
    match a.update(Message::CreateCategory, T0) {
        Effect::InsertCategory(ins) => {
            assert_eq!(ins.parent_id, None);
            assert_eq!(ins.path, "物理");
        },
        _ => panic!("expected an insert"),
    }
}

#[test]
fn deleting_asks_first() {
    let mut a = app();
    a.update(Message::SelectCategory(2), T0);
    a.update(Message::DeleteCategory(2), T0);
    match &a.dialog {
        Some(Dialog::ConfirmDeleteCategory { id, name }) => {
            assert_eq!(*id, 2);
            assert_eq!(name, "代数");
        },
        _ => panic!("expected a confirmation"),
    }
    match a.update(Message::ConfirmDeleteCategory, T0) {
        Effect::DeleteCategory(id) => assert_eq!(id, 2),
        _ => panic!("expected a delete"),
    }
    let cats = vec![cat(1, None, "数学", None)];
    a.category_deleted(2, true, CategoryForest::from_categories(&cats));
    assert!(a.selected_category_id.is_none());
    assert!(a.forest.find(2).is_none());
    a.update(Message::DeleteCategory(42), T0);
    assert!(a.dialog.is_none());
}

#[test]
fn a_session_from_start_to_confirmation() {
    let mut a = app();
    a.update(Message::StartTimer(2), T0);
    assert!(a.is_timer_active());
    assert_eq!(a.current_params.quality, Quality::High);
    assert_eq!(a.current_params.completion_rate, 100);
    a.update(Message::PauseTimer, T0 + 60_000_000);
    a.update(Message::ResumeTimer, T0 + 90_000_000);
    a.update(Message::Tick, T0 + 100_000_000);
    assert_eq!(a.timer_display_secs, 70);
    a.update(Message::StopTimer, T0 + 120_000_000);
    assert!(!a.is_timer_active());
    {
        let p = a.pending_session.as_ref().unwrap();
        assert_eq!(p.category_id, 2);
        assert_eq!(p.category_path, "数学/代数");
        assert_eq!(p.duration_secs, 90);
    }
    a.update(Message::SetQuality(Quality::Low), T0);
    a.update(Message::SetCompletionRate(50), T0);
    assert_eq!(a.pending_session.as_ref().unwrap().params.quality, Quality::Low);
    assert_eq!(a.current_params.quality, Quality::High);

    let presets = vec![Preset {
        name: "轻松".to_string(),
        quality: Quality::Medium,
        understanding_difficulty: Difficulty::Easy,
        memory_difficulty: Difficulty::Easy,
        completion_rate: 70,
    }];
    assert!(matches!(a.update(Message::ApplyPreset(0), T0), Effect::LoadPresets(0)));
    a.preset_loaded(&presets, 0);
    assert_eq!(a.pending_session.as_ref().unwrap().params.completion_rate, 70);
    a.preset_loaded(&presets, 3);
    assert_eq!(a.pending_session.as_ref().unwrap().params.completion_rate, 70);

    match a.update(Message::ConfirmSession, T0) {
        Effect::RecordSession(p) => assert_eq!(p.params.understanding_difficulty, Difficulty::Easy),
        _ => panic!("expected a record"),
    }
    assert!(a.pending_session.is_none());
    assert!(matches!(a.screen, Screen::CategoryTree));
}

#[test]
fn stop_without_a_session_does_nothing() {
    let mut a = app();
    a.update(Message::StopTimer, T0);
    assert!(a.pending_session.is_none());
    a.update(Message::SetMemoryDifficulty(Difficulty::Hard), T0);
    assert_eq!(a.current_params.memory_difficulty, Difficulty::Hard);
}

#[test]
fn vault_import_adds_folders_then_notes() {
    let mut a = app();
    a.update(Message::OpenImport, T0);
    a.update(Message::SetObsidianPath("/vault".to_string()), T0);
    match a.update(Message::ImportObsidian, T0) {
        Effect::ImportVault(p) => assert_eq!(p, "/vault"),
        _ => panic!("expected an import"),
    }
    let entry = |name: &str, path: &str, is_dir: bool| VaultEntry {
        name: name.to_string(),
        relative_path: path.to_string(),
        is_dir,
    };
    let entries = vec![
        entry("群论", "数学/代数/群论", false),
        entry("代数", "数学/代数", true),
        entry("几何", "数学/几何", true),
        entry("光学", "物理/光学", false),
    ];
    let plan = a.import_plan(&entries);
    assert_eq!(plan.len(), 3);
    assert_eq!(plan[0].path, "数学/几何");
    assert_eq!(plan[0].parent_id, Some(1));
    assert_eq!(plan[0].node_type, NodeType::Directory);
    assert_eq!(plan[1].path, "数学/代数/群论");
    assert_eq!(plan[1].parent_id, Some(2));
    assert_eq!(plan[1].node_type, NodeType::Learning);
    assert_eq!(plan[2].parent_id, None);
    assert_eq!(plan[2].source.as_deref(), Some("obsidian"));
}
