use time_manager::obsidian::{ImportResult, TimeignoreRules};

#[test]
fn test_default_rules() {
    let rules = TimeignoreRules::default_rules();
    assert!(rules.should_ignore(".obsidian/workspace.json"));
    assert!(rules.should_ignore(".git/config"));
    assert!(rules.should_ignore("test.tmp"));
    assert!(!rules.should_ignore("notes/english.md"));
}

#[test]
fn import_test_pattern_matching() {
    let rules = TimeignoreRules {
        patterns: vec!["drafts/**".to_string()],
    };
    assert!(rules.should_ignore("drafts/note1.md"));
    assert!(rules.should_ignore("drafts/sub/note2.md"));
    assert!(!rules.should_ignore("notes/drafts.md"));
}

#[test]
fn single_level_pattern_stops_at_slash() {
    let rules = TimeignoreRules { patterns: vec!["drafts/*".to_string()] };
    assert!(rules.checkable("drafts/a.md"));
    assert!(rules.should_ignore("drafts/a.md"));
    assert!(!rules.should_ignore("drafts/sub/a.md"));
    assert!(!rules.should_ignore("notes/a.md"));
    // the path that equals the prefix cannot be checked
    assert!(!rules.checkable("drafts"));
}

#[test]
fn suffix_and_infix_patterns() {
    assert!(TimeignoreRules::matches_pattern("a/b.bak", "*.bak"));
    assert!(!TimeignoreRules::matches_pattern("a/b.bak.md", "*.bak"));
    assert!(TimeignoreRules::matches_pattern("x/images/y.png", "images/"));
    assert!(TimeignoreRules::matches_pattern("附件/图.png", "附件/"));
    assert!(!TimeignoreRules::matches_pattern("notes/a.md", "images/"));
}

#[test]
fn timeignore_content_parsing() {
    let rules = TimeignoreRules::from_content("# comment\n\n  drafts/**  \r\n*.tmp\n#x\nlast");
    assert_eq!(rules.patterns, vec!["drafts/**".to_string(), "*.tmp".to_string(), "last".to_string()]);
    let empty = TimeignoreRules::from_content("");
    assert!(empty.patterns.is_empty());
}

#[test]
fn import_records_entries() {
    let rules = TimeignoreRules::default_rules();
    let mut result = ImportResult::new();
    assert!(result.record_entry(&rules, "语言", true));
    assert!(result.record_entry(&rules, "语言/英语", true));
    assert!(!result.record_entry(&rules, "语言/英语/note.md", false));
    assert!(!result.record_entry(&rules, ".obsidian", true));
    assert_eq!(result.created_dirs, vec!["语言".to_string(), "语言/英语".to_string()]);
    assert_eq!(result.skipped_paths, vec![".obsidian".to_string()]);
}

#[test]
fn rules_after_a_match_are_never_tried() {
    let rules = TimeignoreRules { patterns: vec!["drafts".to_string(), "drafts/*".to_string()] };
    assert!(rules.checkable("drafts"));
    assert!(rules.should_ignore("drafts"));
    let reversed = TimeignoreRules { patterns: vec!["drafts/*".to_string(), "drafts".to_string()] };
    assert!(!reversed.checkable("drafts"));
}
