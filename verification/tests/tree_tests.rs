use time_manager::gui::tree_ops::{count_tree_children, flatten_tree, search_nodes};
use time_manager::gui::tree_view::{TreeNode, TreeView};

fn node(name: &str, path: &str, is_card: bool, children: Vec<TreeNode>) -> TreeNode {
    TreeNode { name: name.to_string(), path: path.to_string(), is_card, children }
}

fn sample() -> Vec<TreeNode> {
    vec![
        node(
            "Math",
            "Math",
            false,
            vec![
                node("Algebra", "Math/Algebra", false, vec![node("Groups", "Math/Algebra/Groups", true, vec![])]),
                node("Calculus", "Math/Calculus", true, vec![]),
            ],
        ),
        node("English", "English", false, vec![node("Grammar", "English/Grammar", true, vec![])]),
    ]
}

#[test]
fn search_ignores_case_and_walks_in_preorder() {
    let hits = search_nodes(&sample(), "A");
    let paths: Vec<&str> = hits.iter().map(|h| h.path.as_str()).collect();
    assert_eq!(paths, vec!["Math", "Math/Algebra", "Math/Calculus", "English/Grammar"]);
    assert!(hits[3].is_card);
    assert!(search_nodes(&sample(), "").is_empty());
    assert!(search_nodes(&sample(), "zzz").is_empty());
}

#[test]
fn search_stops_a_walk_at_ten_hits() {
    let many: Vec<TreeNode> = (0..12).map(|i| node(&format!("n{}", i), &format!("p{}", i), true, vec![])).collect();
    let deep = vec![node("n-root", "root", false, many)];
    assert_eq!(search_nodes(&deep, "n").len(), 10);
    let mut wide: Vec<TreeNode> = (0..10).map(|i| node(&format!("n{}", i), &format!("p{}", i), true, vec![])).collect();
    wide.insert(0, node("top", "top", false, (0..10).map(|i| node(&format!("n{}", i), &format!("q{}", i), true, vec![])).collect()));
    assert_eq!(search_nodes(&wide, "n").len(), 11);
}

#[test]
fn flattening_and_counting() {
    let flat = flatten_tree(&sample()[0]);
    let paths: Vec<&str> = flat.iter().map(|n| n.path.as_str()).collect();
    assert_eq!(paths, vec!["Math", "Math/Algebra", "Math/Algebra/Groups", "Math/Calculus"]);
    assert!(flat.iter().all(|n| n.children.is_empty()));
    assert_eq!(count_tree_children(&sample(), "Math"), 3);
    assert_eq!(count_tree_children(&sample(), "Math/Algebra"), 1);
    assert_eq!(count_tree_children(&sample(), "English"), 1);
    assert_eq!(count_tree_children(&sample(), "Nope"), 0);
}

#[test]
fn tree_view_expansion() {
    let nodes = sample();
    let mut view = TreeView::default();
    assert!(view.is_expanded("Math"));
    view.toggle("Math");
    assert!(!view.is_expanded("Math"));
    view.toggle("Math");
    assert!(view.is_expanded("Math"));
    view.toggle("English");
    view.expand_all(&nodes);
    assert!(view.is_expanded("English"));
    view.toggle("Math/Algebra");
    view.toggle("Math");
    view.expand_to_path(&nodes, "Math/Algebra/Groups");
    assert!(view.is_expanded("Math"));
    assert!(view.is_expanded("Math/Algebra"));
}

use time_manager::gui::tree_ops::{add_card_to_node, add_tree_cards};

#[test]
fn cards_are_filed_under_their_folders() {
    let mut nodes = vec![node("Algebra", "Math/Algebra", false, vec![])];
    add_card_to_node(&mut nodes, "Math/Algebra/Rings", &vec!["Algebra".to_string()], "Rings");
    assert_eq!(nodes.len(), 1);
    assert_eq!(nodes[0].children.len(), 1);
    assert_eq!(nodes[0].children[0].path, "Math/Algebra/Rings");
    assert!(nodes[0].children[0].is_card);

    add_card_to_node(&mut nodes, "Math/Geometry/Plane/Circles", &vec!["Geometry".to_string(), "Plane".to_string()], "Circles");
    assert_eq!(nodes.len(), 2);
    assert_eq!(nodes[1].name, "Geometry");
    assert_eq!(nodes[1].path, "Math/Geometry/Plane");
    assert_eq!(nodes[1].children[0].name, "Plane");
    assert_eq!(nodes[1].children[0].path, "Math/Plane");
    assert_eq!(nodes[1].children[0].children[0].name, "Circles");

    add_card_to_node(&mut nodes, "Math/x", &Vec::new(), "x");
    assert_eq!(nodes.len(), 2);
}

#[test]
fn tree_cards_are_filed_by_path() {
    let mut children = vec![node("Algebra", "Math/Algebra", false, vec![])];
    let paths = vec![
        "Math/Intro".to_string(),
        "Math/Algebra/Groups".to_string(),
        "English/Words".to_string(),
        "Math/Calculus/Limits".to_string(),
    ];
    add_tree_cards("Math", &mut children, &paths);
    let names: Vec<&str> = children.iter().map(|n| n.name.as_str()).collect();
    assert_eq!(names, vec!["Algebra", "Intro", "Calculus"]);
    assert_eq!(children[0].children[0].name, "Groups");
    assert!(children[1].is_card);
    assert_eq!(children[2].children[0].path, "Math/Calculus/Limits");
}
