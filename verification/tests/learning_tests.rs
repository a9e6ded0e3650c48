use time_manager::data::models::{Category, Difficulty, NodeType, Quality};
use time_manager::learning::category_tree::{CategoryForest, CategoryNode};
use time_manager::learning::timer_machine::{TimerState, TimerStateMachine};

fn sample_categories() -> Vec<Category> {
    vec![
        Category { id: 1, parent_id: None, name: "语言".into(), path: "语言".into(), node_type: NodeType::Learning, source: None, default_quality: None, default_understanding_difficulty: None, default_memory_difficulty: None },
        Category { id: 2, parent_id: Some(1), name: "英语".into(), path: "语言/英语".into(), node_type: NodeType::Learning, source: None, default_quality: Some(Quality::High), default_understanding_difficulty: None, default_memory_difficulty: None },
        Category { id: 3, parent_id: Some(2), name: "六级".into(), path: "语言/英语/六级".into(), node_type: NodeType::Learning, source: None, default_quality: None, default_understanding_difficulty: None, default_memory_difficulty: None },
        Category { id: 4, parent_id: None, name: "数学".into(), path: "数学".into(), node_type: NodeType::Learning, source: None, default_quality: None, default_understanding_difficulty: None, default_memory_difficulty: None },
    ]
}

fn cat(id: i64, parent_id: Option<i64>, name: &str, path: &str, node_type: NodeType) -> Category {
    Category {
        id,
        parent_id,
        name: name.into(),
        path: path.into(),
        node_type,
        source: None,
        default_quality: None,
        default_understanding_difficulty: None,
        default_memory_difficulty: None,
    }
}

#[test]
fn test_forest_construction() {
    let forest = CategoryForest::from_categories(&sample_categories());
    assert_eq!(forest.roots.len(), 2);
    assert_eq!(forest.roots[0].name, "语言");
    assert_eq!(forest.roots[0].children.len(), 1);
    assert_eq!(forest.roots[0].children[0].name, "英语");
    assert_eq!(forest.roots[0].children[0].children[0].name, "六级");
}

#[test]
fn test_forest_find() {
    let forest = CategoryForest::from_categories(&sample_categories());
    let node = forest.find(3).expect("find 六级");
    assert_eq!(node.name, "六级");
    assert!(forest.find(999).is_none());
}

#[test]
fn test_forest_leaf_nodes() {
    let forest = CategoryForest::from_categories(&sample_categories());
    let leaves = forest.leaf_nodes();
    assert_eq!(leaves.len(), 2);
    let leaf_names: Vec<&str> = leaves.iter().map(|n| n.name.as_str()).collect();
    assert!(leaf_names.contains(&"六级"));
    assert!(leaf_names.contains(&"数学"));
}

#[test]
fn test_node_effective_params() {
    let forest = CategoryForest::from_categories(&sample_categories());
    let en = forest.find(2).expect("find 英语");
    assert_eq!(en.default_quality, Some(Quality::High));
}

#[test]
fn test_empty_forest() {
    let forest = CategoryForest::from_categories(&[]);
    assert!(forest.roots.is_empty());
    assert!(forest.all_nodes().is_empty());
    assert!(forest.leaf_nodes().is_empty());
    assert!(forest.find(1).is_none());
}

#[test]
fn test_forest_find_mut() {
    let mut forest = CategoryForest::from_categories(&sample_categories());
    if let Some(node) = forest.find_mut(3) {
        node.name = "四级".into();
    }
    let node = forest.find(3).expect("find modified");
    assert_eq!(node.name, "四级");
}

#[test]
fn test_forest_all_nodes() {
    let forest = CategoryForest::from_categories(&sample_categories());
    let all = forest.all_nodes();
    assert_eq!(all.len(), 4);
}

#[test]
fn test_forest_find_by_path() {
    let forest = CategoryForest::from_categories(&sample_categories());
    let node = forest.roots[0].find_by_path("语言/英语/六级");
    assert!(node.is_some());
    assert_eq!(node.unwrap().name, "六级");
    assert!(forest.roots[0].find_by_path("不存在").is_none());
}

#[test]
fn test_forest_deep_nesting() {
    let mut cats = Vec::new();
    for i in 0..20 {
        cats.push(Category {
            node_type: NodeType::Learning,
            id: i as i64 + 1,
            parent_id: if i == 0 { None } else { Some(i as i64) },
            name: format!("L{}", i),
            path: (0..=i).map(|j| format!("L{}", j)).collect::<Vec<_>>().join("/"),
            source: None,
            default_quality: None,
            default_understanding_difficulty: None,
            default_memory_difficulty: None,
        });
    }
    let forest = CategoryForest::from_categories(&cats);
    assert_eq!(forest.roots.len(), 1);
    let deepest = forest.find(20);
    assert!(deepest.is_some());
    assert_eq!(deepest.unwrap().name, "L19");
    assert_eq!(forest.leaf_nodes().len(), 1);
}

#[test]
fn test_forest_multiple_children() {
    let cats = vec![
        Category { id: 1, parent_id: None, name: "Root".into(), path: "Root".into(), node_type: NodeType::Learning, source: None, default_quality: None, default_understanding_difficulty: None, default_memory_difficulty: None },
        Category { id: 2, parent_id: Some(1), name: "A".into(), path: "Root/A".into(), node_type: NodeType::Learning, source: None, default_quality: None, default_understanding_difficulty: None, default_memory_difficulty: None },
        Category { id: 3, parent_id: Some(1), name: "B".into(), path: "Root/B".into(), node_type: NodeType::Learning, source: None, default_quality: None, default_understanding_difficulty: None, default_memory_difficulty: None },
        Category { id: 4, parent_id: Some(1), name: "C".into(), path: "Root/C".into(), node_type: NodeType::Learning, source: None, default_quality: None, default_understanding_difficulty: None, default_memory_difficulty: None },
    ];
    let forest = CategoryForest::from_categories(&cats);
    assert_eq!(forest.roots[0].children.len(), 3);
}

#[test]
fn test_node_is_leaf() {
    let forest = CategoryForest::from_categories(&sample_categories());
    assert!(!forest.find(1).unwrap().is_leaf());
    assert!(!forest.find(2).unwrap().is_leaf());
    assert!(forest.find(3).unwrap().is_leaf());
    assert!(forest.find(4).unwrap().is_leaf());
}

#[test]
fn forest_keeps_input_order_and_drops_orphans() {
    let cats = vec![
        cat(10, Some(1), "b", "r/b", NodeType::Learning),
        cat(1, None, "r", "r", NodeType::Directory),
        cat(11, Some(1), "a", "r/a", NodeType::Directory),
        cat(50, Some(99), "orphan", "x/orphan", NodeType::Learning),
        cat(60, Some(61), "loop1", "l1", NodeType::Learning),
        cat(61, Some(60), "loop2", "l2", NodeType::Learning),
    ];
    let forest = CategoryForest::from_categories(&cats);
    assert_eq!(forest.roots.len(), 1);
    let names: Vec<&str> = forest.roots[0].children.iter().map(|n| n.name.as_str()).collect();
    assert_eq!(names, vec!["b", "a"]);
    assert_eq!(forest.all_nodes().len(), 3);
    assert!(forest.find(50).is_none());
    assert!(forest.find(60).is_none());
    let learning: Vec<i64> = forest.learning_nodes().iter().map(|n| n.id).collect();
    assert_eq!(learning, vec![10]);
    assert!(forest.roots[0].is_learning() == false);
    assert!(forest.find(10).unwrap().is_learning());
}

#[test]
fn forest_with_repeated_id_uses_last_row_once() {
    let cats = vec![
        cat(1, None, "first", "p1", NodeType::Learning),
        cat(1, None, "second", "p2", NodeType::Learning),
    ];
    let forest = CategoryForest::from_categories(&cats);
    assert_eq!(forest.roots.len(), 1);
    assert_eq!(forest.roots[0].name, "second");
}

#[test]
fn node_preorder_and_find_mut_on_node() {
    let mut forest = CategoryForest::from_categories(&sample_categories());
    let all: Vec<i64> = forest.roots[0].collect_all().iter().map(|n| n.id).collect();
    assert_eq!(all, vec![1, 2, 3]);
    let leaves: Vec<i64> = forest.roots[0].leaf_nodes().iter().map(|n| n.id).collect();
    assert_eq!(leaves, vec![3]);
    let node: &mut CategoryNode = forest.roots[0].find_mut(2).unwrap();
    node.default_understanding_difficulty = Some(Difficulty::Hard);
    assert_eq!(forest.find(2).unwrap().default_understanding_difficulty, Some(Difficulty::Hard));
    assert!(forest.roots[0].find_mut(4).is_none());
    assert_eq!(forest.find_by_path("数学").unwrap().id, 4);
}

#[test]
fn test_timer_lifecycle() {
    let mut tm = TimerStateMachine::new();
    assert!(!tm.is_running());

    tm.start(42).expect("start");
    assert!(tm.is_running());

    let secs = tm.effective_secs();
    assert!(secs >= 0);

    tm.pause().expect("pause");
    assert!(tm.is_running());

    tm.resume().expect("resume");
    assert!(tm.is_running());

    let stopped = tm.stop().expect("stop");
    assert!(!tm.is_running());
    assert_eq!(stopped.category_id, 42);
    assert!(stopped.duration_secs >= 0);
}

#[test]
fn test_timer_invalid_transitions() {
    let mut tm = TimerStateMachine::new();
    assert!(tm.pause().is_err());
    assert!(tm.resume().is_err());
    assert!(tm.stop().is_err());

    tm.start(1).expect("start");
    assert!(tm.start(2).is_err());
    assert!(tm.resume().is_err());

    tm.pause().expect("pause");
    assert!(tm.pause().is_err());
}

#[test]
fn test_timer_reuse_after_stop() {
    let mut tm = TimerStateMachine::new();
    tm.start(1).expect("start1");
    let _ = tm.stop().expect("stop1");
    assert!(!tm.is_running());
    tm.start(2).expect("start2");
    assert!(tm.is_running());
    let stopped = tm.stop().expect("stop2");
    assert_eq!(stopped.category_id, 2);
}

const SEC: i64 = 1_000_000;

#[test]
fn timer_session_with_explicit_clock() {
    let mut tm = TimerStateMachine::new();
    let t0 = 1_700_000_000 * SEC;
    tm.start_at(7, t0).unwrap();
    assert_eq!(tm.effective_secs_at(t0 + 90 * SEC), 90);
    tm.pause_at(t0 + 100 * SEC).unwrap();
    assert_eq!(tm.effective_secs_at(t0 + 130 * SEC), 100);
    tm.resume_at(t0 + 160 * SEC + 500_000).unwrap();
    match &tm.state {
        TimerState::Running { pause_total_secs, pauses, .. } => {
            assert_eq!(*pause_total_secs, 60);
            assert_eq!(pauses.len(), 1);
        }
        _ => panic!("expected running"),
    }
    assert_eq!(tm.effective_secs_at(t0 + 200 * SEC), 140);
    tm.pause_at(t0 + 210 * SEC).unwrap();
    let stopped = tm.stop_at(t0 + 240 * SEC).unwrap();
    assert_eq!(stopped.category_id, 7);
    assert_eq!(stopped.start_time, t0);
    assert_eq!(stopped.end_time, t0 + 240 * SEC);
    assert_eq!(stopped.duration_secs, 150);
    assert_eq!(stopped.pause_records.len(), 2);
    assert_eq!(tm.stop_at(t0).err(), Some("cannot stop: timer is idle"));
    assert_eq!(tm.pause_at(t0).err(), Some("cannot pause: timer is not running"));
}

#[test]
fn timer_before_start_counts_zero() {
    let mut tm = TimerStateMachine::default();
    let t0 = 5 * SEC;
    assert_eq!(tm.effective_secs_at(t0), 0);
    tm.start_at(1, t0).unwrap();
    assert_eq!(tm.effective_secs_at(t0 - 10 * SEC), 0);
    assert_eq!(tm.start_at(2, t0).err(), Some("cannot start: timer is not idle"));
    assert_eq!(tm.resume_at(t0).err(), Some("cannot resume: timer is not paused"));
    assert_eq!(tm.category_id, Some(1));
}

#[test]
fn test_timer_pause_deducts_time() {
    let mut tm = TimerStateMachine::new();
    let t0 = 1_000 * SEC;
    tm.start_at(1, t0).expect("start");
    tm.pause_at(t0 + 100_000).expect("pause");
    tm.resume_at(t0 + 300_000).expect("resume");
    let stopped = tm.stop_at(t0 + 300_000).expect("stop");
    assert!(stopped.duration_secs < 1);
}

#[test]
fn test_timer_multiple_pause_resume() {
    let mut tm = TimerStateMachine::new();
    let t0 = 1_000 * SEC;
    tm.start_at(1, t0).expect("start");
    tm.pause_at(t0 + 50_000).expect("pause1");
    tm.resume_at(t0 + 150_000).expect("resume1");
    tm.pause_at(t0 + 200_000).expect("pause2");
    tm.resume_at(t0 + 300_000).expect("resume2");
    let stopped = tm.stop_at(t0 + 300_000).expect("stop");
    assert_eq!(stopped.pause_records.len(), 2);
    assert!(stopped.duration_secs < 1);
}

#[test]
fn test_timer_stop_from_paused() {
    let mut tm = TimerStateMachine::new();
    let t0 = 1_000 * SEC;
    tm.start_at(1, t0).expect("start");
    tm.pause_at(t0 + 50_000).expect("pause");
    let stopped = tm.stop_at(t0 + 60_000).expect("stop from paused");
    assert!(!tm.is_running());
    assert!(stopped.duration_secs >= 0);
    assert_eq!(stopped.pause_records.len(), 1);
}

#[test]
fn test_timer_effective_secs_while_paused() {
    let mut tm = TimerStateMachine::new();
    let t0 = 1_000 * SEC;
    tm.start_at(1, t0).expect("start");
    tm.pause_at(t0 + 50_000).expect("pause");
    let secs_paused = tm.effective_secs_at(t0 + 150_000);
    let secs_paused2 = tm.effective_secs_at(t0 + 250_000);
    assert_eq!(secs_paused, secs_paused2);
}

#[test]
fn paused_reading_across_a_second_boundary_stands_still() {
    let mut tm = TimerStateMachine::new();
    let t0 = 1_000 * SEC;
    tm.start_at(1, t0).unwrap();
    tm.pause_at(t0 + 500_000).unwrap();
    assert_eq!(tm.effective_secs_at(t0 + 999_999), 0);
    assert_eq!(tm.effective_secs_at(t0 + SEC), 0);
    assert_eq!(tm.effective_secs_at(t0 + 10 * SEC), 0);
}

#[test]
fn paused_time_is_not_counted() {
    let mut tm = TimerStateMachine::new();
    let t0 = 1_000 * SEC;
    tm.start_at(3, t0).unwrap();
    tm.pause_at(t0 + 10 * SEC).unwrap();
    tm.resume_at(t0 + 70 * SEC).unwrap();
    let stopped = tm.stop_at(t0 + 80 * SEC).unwrap();
    assert_eq!(stopped.duration_secs, 20);
    assert_eq!(stopped.pause_records[0].pause_start, t0 + 10 * SEC);
    assert_eq!(stopped.pause_records[0].resume_time, t0 + 70 * SEC);
}

#[test]
fn repeated_ids_keep_the_last_category_once() {
    let cats = vec![
        cat(1, None, "old", "old", NodeType::Directory),
        cat(2, Some(1), "child", "new/child", NodeType::Learning),
        cat(1, None, "new", "new", NodeType::Learning),
        cat(2, Some(1), "child again", "new/child2", NodeType::Learning),
    ];
    let forest = CategoryForest::from_categories(&cats);
    assert_eq!(forest.roots.len(), 1);
    assert_eq!(forest.roots[0].name, "new");
    assert_eq!(forest.roots[0].children.len(), 1);
    assert_eq!(forest.roots[0].children[0].name, "child again");
    assert_eq!(forest.all_nodes().len(), 2);
}

#[test]
fn timer_reads_and_stops_any_state() {
    let t0 = 1_000 * SEC;
    let tm = TimerStateMachine {
        state: TimerState::Running { start_time: t0, pause_total_secs: 5, pauses: vec![] },
        category_id: Some(9),
    };
    assert_eq!(tm.effective_secs_at(t0 + 20 * SEC), 15);
    let mut paused = TimerStateMachine {
        state: TimerState::Paused { start_time: t0, pause_total_secs: 3, pauses: vec![], pause_start: t0 + 10 * SEC },
        category_id: Some(9),
    };
    assert_eq!(paused.effective_secs_at(t0 + 50 * SEC), 7);
    let stopped = paused.stop_at(t0 + 50 * SEC).unwrap();
    assert_eq!(stopped.duration_secs, 50 - 3 - 40);
    assert_eq!(stopped.pause_records.len(), 1);
    assert!(matches!(paused.state, TimerState::Idle));
}
