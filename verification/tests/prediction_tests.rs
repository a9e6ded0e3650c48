use time_manager::data::models::{Difficulty, MemoryQuality, Preset, Quality, SessionParams};
use time_manager::learning::params::{
    apply_preset, load_global_params, memory_quality_to_rating, parse_u8, quality_to_rating, resolve_params,
    save_global_params,
};

#[test]
fn test_params_resolution() {
    let global = SessionParams::default();
    let resolved = resolve_params(&global, Some(&Quality::High), Some(&Difficulty::Hard), Some(&Difficulty::Easy));
    assert_eq!(resolved.quality, Quality::High);
    assert_eq!(resolved.understanding_difficulty, Difficulty::Hard);
    assert_eq!(resolved.memory_difficulty, Difficulty::Easy);
    assert_eq!(resolved.completion_rate, 100);
}

#[test]
fn test_params_resolution_fallback() {
    let global = SessionParams::default();
    let resolved = resolve_params(&global, None, None, None);
    assert_eq!(resolved.quality, Quality::Medium);
    assert_eq!(resolved.understanding_difficulty, Difficulty::Medium);
}

#[test]
fn test_params_resolution_partial_override() {
    let global = SessionParams::default();
    let resolved = resolve_params(&global, Some(&Quality::Complete), None, None);
    assert_eq!(resolved.quality, Quality::Complete);
    assert_eq!(resolved.understanding_difficulty, Difficulty::Medium);
    assert_eq!(resolved.memory_difficulty, Difficulty::Medium);
}

fn focused_preset() -> Preset {
    Preset {
        name: "专注学习".into(),
        quality: Quality::High,
        understanding_difficulty: Difficulty::Medium,
        memory_difficulty: Difficulty::Medium,
        completion_rate: 100,
    }
}

#[test]
fn test_apply_preset() {
    let mut params = SessionParams::default();
    let preset = focused_preset();
    apply_preset(&preset, &mut params);
    assert_eq!(params.quality, Quality::High);
    assert_eq!(params.completion_rate, 100);
}

#[test]
fn apply_custom_preset() {
    let mut params = SessionParams::default();
    let preset = Preset {
        name: "自定义".into(),
        quality: Quality::Low,
        understanding_difficulty: Difficulty::VeryHard,
        memory_difficulty: Difficulty::Hard,
        completion_rate: 30,
    };
    apply_preset(&preset, &mut params);
    assert_eq!(params.quality, preset.quality);
    assert_eq!(params.understanding_difficulty, preset.understanding_difficulty);
    assert_eq!(params.memory_difficulty, preset.memory_difficulty);
    assert_eq!(params.completion_rate, preset.completion_rate);
}

#[test]
fn test_quality_display() {
    assert_eq!(Quality::VeryLow.as_str(), "极低");
    assert_eq!(Quality::Low.as_str(), "低");
    assert_eq!(Quality::Medium.as_str(), "中");
    assert_eq!(Quality::High.as_str(), "高");
    assert_eq!(Quality::Complete.as_str(), "完整");
}

#[test]
fn test_difficulty_display() {
    assert_eq!(Difficulty::VeryEasy.as_str(), "极易");
    assert_eq!(Difficulty::Easy.as_str(), "易");
    assert_eq!(Difficulty::Medium.as_str(), "中");
    assert_eq!(Difficulty::Hard.as_str(), "难");
    assert_eq!(Difficulty::VeryHard.as_str(), "极难");
}

#[test]
fn test_quality_try_from() {
    assert_eq!(Quality::try_from("高"), Ok(Quality::High));
    assert_eq!(Quality::try_from("中"), Ok(Quality::Medium));
    assert!(Quality::try_from("invalid").is_err());
}

#[test]
fn test_difficulty_try_from() {
    assert_eq!(Difficulty::try_from("难"), Ok(Difficulty::Hard));
    assert_eq!(Difficulty::try_from("易"), Ok(Difficulty::Easy));
    assert!(Difficulty::try_from("invalid").is_err());
}

#[test]
fn test_session_params_default() {
    let p = SessionParams::default();
    assert_eq!(p.quality, Quality::Medium);
    assert_eq!(p.understanding_difficulty, Difficulty::Medium);
    assert_eq!(p.memory_difficulty, Difficulty::Medium);
    assert_eq!(p.completion_rate, 100);
}

#[test]
fn test_quality_all() {
    assert_eq!(Quality::all().len(), 5);
}

#[test]
fn test_difficulty_all() {
    assert_eq!(Difficulty::all().len(), 5);
}

#[test]
fn ratings_of_qualities() {
    assert_eq!(quality_to_rating(&Quality::VeryLow), 1);
    assert_eq!(quality_to_rating(&Quality::Low), 1);
    assert_eq!(quality_to_rating(&Quality::Medium), 2);
    assert_eq!(quality_to_rating(&Quality::High), 3);
    assert_eq!(quality_to_rating(&Quality::Complete), 4);
    assert_eq!(memory_quality_to_rating(&MemoryQuality::Relearn), 1);
    assert_eq!(memory_quality_to_rating(&MemoryQuality::Easy), 4);
}

#[test]
fn memory_quality_labels() {
    assert_eq!(MemoryQuality::all().len(), 4);
    for q in MemoryQuality::all() {
        assert_eq!(MemoryQuality::from_str(q.as_str()), Some(q));
    }
    assert_eq!(MemoryQuality::from_str("好"), Some(MemoryQuality::Good));
    assert_eq!(MemoryQuality::from_str("good"), None);
}

#[test]
fn global_params_saved_and_loaded() {
    let p = SessionParams {
        quality: Quality::Complete,
        understanding_difficulty: Difficulty::VeryEasy,
        memory_difficulty: Difficulty::Hard,
        completion_rate: 73,
    };
    let saved = save_global_params(&p);
    assert_eq!(saved[0], ("default_quality".to_string(), "完整".to_string()));
    assert_eq!(saved[3], ("default_completion_rate".to_string(), "73".to_string()));
    let loaded = load_global_params(Some(&saved[0].1), Some(&saved[1].1), Some(&saved[2].1), Some(&saved[3].1));
    assert_eq!(loaded.quality, p.quality);
    assert_eq!(loaded.understanding_difficulty, p.understanding_difficulty);
    assert_eq!(loaded.memory_difficulty, p.memory_difficulty);
    assert_eq!(loaded.completion_rate, 73);
}

#[test]
fn global_params_fall_back() {
    let loaded = load_global_params(None, Some("bad"), None, Some("300"));
    assert_eq!(loaded.quality, Quality::Medium);
    assert_eq!(loaded.understanding_difficulty, Difficulty::Medium);
    assert_eq!(loaded.completion_rate, 100);
}

#[test]
fn u8_parsing_matches_std() {
    for s in ["0", "7", "+12", "255", "256", "", "+", "-1", "1a", "007", " 1"] {
        assert_eq!(parse_u8(s), s.parse::<u8>().ok(), "input {:?}", s);
    }
}
