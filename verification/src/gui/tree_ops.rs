//! Walks over the card tree of the interface: searching it, flattening it
//! and counting what lies below a folder.
use vstd::prelude::*;
use crate::app_state::SearchResult;
use crate::gui::tree_view::TreeNode;
use crate::text::{chars_of, contains_chars, has_infix, lowercase_of, str_eq, to_lowercase};

verus! {

/// What a search hit or a flattened node shows of a tree node: its path,
/// its name and whether it is a card.
pub open spec fn shown(n: TreeNode) -> (Seq<char>, Seq<char>, bool) {
    (n.path@, n.name@, n.is_card)
}

/// What search results show.
pub open spec fn hits(rs: Seq<SearchResult>) -> Seq<(Seq<char>, Seq<char>, bool)> {
    rs.map_values(|r: SearchResult| (r.path@, r.name@, r.is_card))
}

/// The search over the trees `nodes`, in preorder, adding to the hits
/// `acc` each node whose lowercased name contains `q`. A walk stops as soon
/// as a hit brings the hits to ten or more; the walks above it go on with
/// their next nodes.
pub open spec fn search_from(nodes: Seq<TreeNode>, q: Seq<char>, acc: Seq<(Seq<char>, Seq<char>, bool)>) -> Seq<
    (Seq<char>, Seq<char>, bool),
>
    decreases nodes,
{
    if nodes.len() == 0 {
        acc
    } else {
        let n = nodes[0];
        if has_infix(lowercase_of(n.name@), q) {
            let acc1 = acc.push(shown(n));
            if acc1.len() >= 10 {
                acc1
            } else {
                search_from(nodes.drop_first(), q, search_from(n.children@, q, acc1))
            }
        } else {
            search_from(nodes.drop_first(), q, search_from(n.children@, q, acc))
        }
    }
}

fn search_into(nodes: &[TreeNode], q: &Vec<char>, results: &mut Vec<SearchResult>)
    ensures
        hits(final(results)@) == search_from(nodes@, q@, hits(old(results)@)),
    decreases nodes@,
{
    let ghost start = hits(results@);
    proof {
        assert(nodes@.skip(0) =~= nodes@);
    }
    for i in 0..nodes.len()
        invariant
            start == hits(old(results)@),
            search_from(nodes@, q@, start) == search_from(nodes@.skip(i as int), q@, hits(results@)),
    {
        let ghost rest = nodes@.skip(i as int);
        proof {
            assert(rest[0] == nodes@[i as int]);
            assert(rest.drop_first() =~= nodes@.skip(i + 1));
        }
        let lower = to_lowercase(nodes[i].name.as_str());
        if contains_chars(&chars_of(lower.as_str()), q) {
            let ghost before = hits(results@);
            results.push(SearchResult {
                path: nodes[i].path.clone(),
                name: nodes[i].name.clone(),
                is_card: nodes[i].is_card,
            });
            proof {
                assert(hits(results@) =~= before.push(shown(nodes@[i as int])));
            }
            if results.len() >= 10 {
                proof {
                    assert(hits(results@).len() == results@.len());
                    assert(search_from(rest, q@, before) == hits(results@));
                    assert(hits(results@) == search_from(nodes@, q@, start));
                }
                return;
            }
        }
        search_into(nodes[i].children.as_slice(), q, results);
    }
    proof {
        assert(nodes@.skip(nodes@.len() as int) =~= Seq::<TreeNode>::empty());
    }
}

/// The nodes whose names contain the query, ignoring letter case, in
/// preorder; nothing for an empty query.
pub fn search_nodes(nodes: &[TreeNode], query: &str) -> (r: Vec<SearchResult>)
    ensures
        hits(r@) == (if query@.len() == 0 {
            Seq::empty()
        } else {
            search_from(nodes@, lowercase_of(query@), Seq::empty())
        }),
{
    let mut results: Vec<SearchResult> = Vec::new();
    proof {
        reveal_strlit("");
        assert(""@ =~= Seq::<char>::empty());
    }
    if str_eq(query, "") {
        proof {
            assert(hits(results@) =~= Seq::<(Seq<char>, Seq<char>, bool)>::empty());
        }
        return results;
    }
    let q = chars_of(to_lowercase(query).as_str());
    proof {
        if query@.len() == 0 {
            assert(query@ =~= ""@);
        }
        assert(hits(results@) =~= Seq::<(Seq<char>, Seq<char>, bool)>::empty());
    }
    search_into(nodes, &q, &mut results);
    results
}

/// The node and every node below it, in preorder, as shown.
pub open spec fn flat(n: TreeNode) -> Seq<(Seq<char>, Seq<char>, bool)>
    decreases n,
{
    seq![shown(n)] + flat_seq(n.children@)
}

/// The trees `s`, one after the other, flattened.
pub open spec fn flat_seq(s: Seq<TreeNode>) -> Seq<(Seq<char>, Seq<char>, bool)>
    decreases s,
{
    if s.len() == 0 {
        Seq::empty()
    } else {
        flat_seq(s.drop_last()) + flat(s.last())
    }
}

/// What nodes show.
pub open spec fn shown_all(s: Seq<TreeNode>) -> Seq<(Seq<char>, Seq<char>, bool)> {
    s.map_values(|n: TreeNode| shown(n))
}

/// The node and all nodes below it, in preorder, each without children.
pub fn flatten_tree(node: &TreeNode) -> (r: Vec<TreeNode>)
    ensures
        shown_all(r@) == flat(*node),
        forall|i: int| 0 <= i < r@.len() ==> (#[trigger] r@[i]).children@.len() == 0,
    decreases *node,
{
    let mut result: Vec<TreeNode> = Vec::new();
    result.push(TreeNode { name: node.name.clone(), path: node.path.clone(), is_card: node.is_card, children: Vec::new() });
    let n = node.children.len();
    proof {
        assert(node.children@.take(0) =~= Seq::<TreeNode>::empty());
        assert(shown_all(result@) =~= seq![shown(*node)] + flat_seq(node.children@.take(0)));
    }
    for i in 0..n
        invariant
            n == node.children@.len(),
            shown_all(result@) == seq![shown(*node)] + flat_seq(node.children@.take(i as int)),
            forall|j: int| 0 <= j < result@.len() ==> (#[trigger] result@[j]).children@.len() == 0,
    {
        let mut sub = flatten_tree(&node.children[i]);
        let ghost old_res = result@;
        let ghost sub_view = sub@;
        result.append(&mut sub);
        proof {
            let t = node.children@.take(i + 1);
            assert(t.drop_last() =~= node.children@.take(i as int));
            assert(t.last() == node.children@[i as int]);
            assert(shown_all(result@) =~= shown_all(old_res) + shown_all(sub_view));
            assert forall|j: int| 0 <= j < result@.len() implies (#[trigger] result@[j]).children@.len() == 0 by {
                if j < old_res.len() {
                    assert(result@[j] == old_res[j]);
                } else {
                    assert(result@[j] == sub_view[j - old_res.len()]);
                }
            }
        }
    }
    proof {
        assert(node.children@.take(n as int) =~= node.children@);
    }
    result
}

/// How many nodes lie below a node, at any depth.
pub open spec fn descendants(n: TreeNode) -> nat
    decreases n,
{
    n.children@.len() + descendants_seq(n.children@)
}

/// How many nodes lie below the roots `s`, at any depth.
pub open spec fn descendants_seq(s: Seq<TreeNode>) -> nat
    decreases s,
{
    if s.len() == 0 {
        0
    } else {
        descendants_seq(s.drop_last()) + descendants(s.last())
    }
}

/// How many nodes the trees `s` hold.
pub open spec fn forest_size(s: Seq<TreeNode>) -> nat {
    s.len() + descendants_seq(s)
}

/// The count the interface shows for the folder at `target`: what lies
/// below the first node in preorder with that path. A node whose subtree
/// holds such a node with nothing below it counts as no match, and the
/// search goes on with its next sibling.
pub open spec fn count_in(nodes: Seq<TreeNode>, target: Seq<char>) -> nat
    decreases nodes,
{
    if nodes.len() == 0 {
        0
    } else if nodes[0].path@ == target {
        descendants(nodes[0])
    } else {
        let c = count_in(nodes[0].children@, target);
        if c > 0 { c } else { count_in(nodes.drop_first(), target) }
    }
}

/// No tree among the roots holds more than all of them.
proof fn lemma_descendants_member(s: Seq<TreeNode>, i: int)
    requires
        0 <= i < s.len(),
    ensures
        descendants(s[i]) <= descendants_seq(s),
        descendants_seq(s.take(i)) + descendants(s[i]) == descendants_seq(s.take(i + 1)),
        descendants_seq(s.take(i + 1)) <= descendants_seq(s),
    decreases s.len(),
{
    let t = s.take(i + 1);
    assert(t.drop_last() =~= s.take(i));
    assert(t.last() == s[i]);
    if i < s.len() - 1 {
        let d = s.drop_last();
        lemma_descendants_member(d, i);
        assert(d.take(i) =~= s.take(i));
        assert(d.take(i + 1) =~= t);
        assert(d[i] == s[i]);
    } else {
        assert(t =~= s);
    }
}

fn count_all(node: &TreeNode) -> (r: usize)
    requires
        descendants(*node) <= usize::MAX,
    ensures
        r == descendants(*node),
    decreases *node,
{
    let n = node.children.len();
    let mut total: usize = n;
    proof {
        assert(node.children@.take(0) =~= Seq::<TreeNode>::empty());
    }
    for i in 0..n
        invariant
            n == node.children@.len(),
            descendants(*node) <= usize::MAX,
            total == n + descendants_seq(node.children@.take(i as int)),
    {
        proof {
            lemma_descendants_member(node.children@, i as int);
        }
        let c = count_all(&node.children[i]);
        total = total + c;
    }
    proof {
        assert(node.children@.take(n as int) =~= node.children@);
    }
    total
}

fn count_in_nodes(nodes: &[TreeNode], target: &str) -> (r: usize)
    requires
        forest_size(nodes@) <= usize::MAX,
    ensures
        r == count_in(nodes@, target@),
    decreases nodes@,
{
    proof {
        assert(nodes@.skip(0) =~= nodes@);
    }
    for i in 0..nodes.len()
        invariant
            forest_size(nodes@) <= usize::MAX,
            count_in(nodes@, target@) == count_in(nodes@.skip(i as int), target@),
    {
        let ghost rest = nodes@.skip(i as int);
        proof {
            assert(rest[0] == nodes@[i as int]);
            assert(rest.drop_first() =~= nodes@.skip(i + 1));
            lemma_descendants_member(nodes@, i as int);
        }
        if str_eq(nodes[i].path.as_str(), target) {
            return count_all(&nodes[i]);
        }
        let c = count_in_nodes(nodes[i].children.as_slice(), target);
        if c > 0 {
            return c;
        }
    }
    proof {
        assert(nodes@.skip(nodes@.len() as int) =~= Seq::<TreeNode>::empty());
    }
    0
}

/// How many nodes lie below the folder at `path`, found as `count_in`
/// says; zero when no node has that path.
pub fn count_tree_children(nodes: &[TreeNode], path: &str) -> (r: usize)
    requires
        forest_size(nodes@) <= usize::MAX,
    ensures
        r == count_in(nodes@, path@),
{
    count_in_nodes(nodes, path)
}

/// A tree node as a mathematical value.
pub struct TreeModel {
    pub name: Seq<char>,
    pub path: Seq<char>,
    pub is_card: bool,
    pub children: Seq<TreeModel>,
}

/// The value a tree node stands for.
pub open spec fn model(n: TreeNode) -> TreeModel
    decreases n,
{
    TreeModel { name: n.name@, path: n.path@, is_card: n.is_card, children: models(n.children@) }
}

/// The values of the trees `s`.
pub open spec fn models(s: Seq<TreeNode>) -> Seq<TreeModel>
    decreases s,
{
    if s.len() == 0 {
        Seq::empty()
    } else {
        models(s.drop_last()).push(model(s.last()))
    }
}

pub proof fn lemma_models(s: Seq<TreeNode>)
    ensures
        models(s).len() == s.len(),
        forall|i: int| 0 <= i < s.len() ==> #[trigger] models(s)[i] == model(s[i]),
    decreases s.len(),
{
    if s.len() > 0 {
        lemma_models(s.drop_last());
        assert forall|i: int| 0 <= i < s.len() implies #[trigger] models(s)[i] == model(s[i]) by {
            if i < s.len() - 1 {
                assert(s.drop_last()[i] == s[i]);
            }
        }
    }
}

/// The index of the first tree whose root has this name.
pub open spec fn first_named(ms: Seq<TreeModel>, name: Seq<char>) -> Option<int>
    decreases ms.len(),
{
    if ms.len() == 0 {
        None
    } else if ms[0].name == name {
        Some(0)
    } else {
        match first_named(ms.drop_first(), name) {
            Some(i) => Some(i + 1),
            None => None,
        }
    }
}

proof fn lemma_first_named(ms: Seq<TreeModel>, name: Seq<char>, k: int)
    requires
        0 <= k <= ms.len(),
        forall|j: int| 0 <= j < k ==> ms[j].name != name,
    ensures
        first_named(ms, name) == (match first_named(ms.skip(k), name) {
            Some(i) => Some(i + k),
            None => None,
        }),
    decreases k,
{
    if k == 0 {
        assert(ms.skip(0) =~= ms);
    } else {
        let t = ms.drop_first();
        assert forall|j: int| 0 <= j < k - 1 implies t[j].name != name by {
            assert(t[j] == ms[j + 1]);
        }
        lemma_first_named(t, name, k - 1);
        assert(t.skip(k - 1) =~= ms.skip(k));
        assert(ms[0].name != name);
    }
}

/// The parts joined, each after a `/`.
pub open spec fn slash_parts(parts: Seq<Seq<char>>) -> Seq<char>
    decreases parts.len(),
{
    if parts.len() == 0 {
        Seq::empty()
    } else {
        slash_parts(parts.drop_last()) + seq!['/'] + parts.last()
    }
}

/// The path given to a folder made for a card: the card path's first
/// component, then every remaining folder name.
pub open spec fn new_folder_path(card_path: Seq<char>, parts: Seq<Seq<char>>) -> Seq<char> {
    crate::data::ics::pieces(card_path, '/')[0] + slash_parts(parts)
}

/// The card itself as a tree leaf.
pub open spec fn card_leaf(card_path: Seq<char>, name: Seq<char>) -> TreeModel {
    TreeModel { name, path: card_path, is_card: true, children: Seq::empty() }
}

/// The trees after a card is filed under the folders `parts`: the first
/// root with the first folder name is followed, or a folder with that name
/// is added at the end; the card goes below the last folder.
pub open spec fn with_card(ms: Seq<TreeModel>, card_path: Seq<char>, parts: Seq<Seq<char>>, name: Seq<char>) -> Seq<
    TreeModel,
>
    decreases parts.len(),
{
    if parts.len() == 0 {
        ms
    } else {
        let below = |cs: Seq<TreeModel>|
            if parts.len() == 1 {
                cs.push(card_leaf(card_path, name))
            } else {
                with_card(cs, card_path, parts.drop_first(), name)
            };
        match first_named(ms, parts[0]) {
            Some(i) => ms.update(
                i,
                TreeModel { name: ms[i].name, path: ms[i].path, is_card: ms[i].is_card, children: below(ms[i].children) },
            ),
            None => ms.push(
                TreeModel {
                    name: parts[0],
                    path: new_folder_path(card_path, parts),
                    is_card: false,
                    children: below(Seq::empty()),
                },
            ),
        }
    }
}

/// The texts of some strings.
pub open spec fn part_texts(parts: Seq<String>) -> Seq<Seq<char>> {
    parts.map_values(|p: String| p@)
}

fn folder_path(card_path: &str, parts: &Vec<String>, start: usize) -> (r: String)
    requires
        start <= parts@.len(),
    ensures
        r@ == new_folder_path(card_path@, part_texts(parts@).skip(start as int)),
{
    let cs = chars_of(card_path);
    let ps = crate::data::ics::split_on(&cs, '/');
    proof {
        crate::data::ics::lemma_pieces_nonempty(cs@, '/');
        assert(crate::data::ics::views(ps@)[0] == ps@[0]@);
    }
    let mut out = crate::text::string_of(&ps[0]);
    let ghost tail = part_texts(parts@).skip(start as int);
    let ghost head = out@;
    proof {
        assert(tail.take(0) =~= Seq::<Seq<char>>::empty());
    }
    for k in start..parts.len()
        invariant
            start <= parts@.len(),
            tail == part_texts(parts@).skip(start as int),
            out@ == head + slash_parts(tail.take(k - start)),
    {
        crate::text::push_char(&mut out, '/');
        crate::text::push_str(&mut out, parts[k].as_str());
        proof {
            let t = tail.take(k + 1 - start);
            assert(t.drop_last() =~= tail.take(k - start));
            assert(t.last() == parts@[k as int]@);
            assert(out@ =~= head + slash_parts(t));
        }
    }
    proof {
        assert(tail.take(parts@.len() - start) =~= tail);
    }
    out
}

fn add_card_from(nodes: &mut Vec<TreeNode>, card_path: &str, parts: &Vec<String>, start: usize, card_name: &str)
    requires
        start <= parts@.len(),
    ensures
        models(final(nodes)@) == with_card(models(old(nodes)@), card_path@, part_texts(parts@).skip(start as int), card_name@),
    decreases parts@.len() - start,
{
    let ghost ps = part_texts(parts@).skip(start as int);
    if start >= parts.len() {
        return;
    }
    let ghost ms = models(nodes@);
    proof {
        lemma_models(nodes@);
        assert(ps[0] == parts@[start as int]@);
        assert(ps.drop_first() =~= part_texts(parts@).skip(start + 1));
    }
    let first = parts[start].as_str();
    let n = nodes.len();
    let mut i: usize = 0;
    while i < n && !str_eq(nodes[i].name.as_str(), first)
        invariant
            n == nodes@.len(),
            i <= n,
            ms == models(nodes@),
            models(nodes@).len() == nodes@.len(),
            forall|j: int| 0 <= j < nodes@.len() ==> #[trigger] models(nodes@)[j] == model(nodes@[j]),
            forall|j: int| 0 <= j < i ==> ms[j].name != first@,
        decreases n - i,
    {
        i = i + 1;
    }
    proof {
        lemma_first_named(ms, first@, i as int);
        if i < n {
            assert(ms.skip(i as int)[0] == ms[i as int]);
        } else {
            assert(ms.skip(n as int) =~= Seq::<TreeModel>::empty());
        }
    }
    let leaf = TreeNode { name: card_name.to_string(), path: card_path.to_string(), is_card: true, children: Vec::new() };
    proof {
        assert(models(leaf.children@) =~= Seq::<TreeModel>::empty());
        assert(model(leaf) == card_leaf(card_path@, card_name@));
    }
    if i < n {
        let ghost old_node = nodes@[i as int];
        let ghost old_children = models(old_node.children@);
        if parts.len() - start == 1 {
            nodes[i].children.push(leaf);
            proof {
                let nc = nodes@[i as int].children@;
                assert(nc == old_node.children@.push(leaf));
                assert(nc.drop_last() =~= old_node.children@);
                assert(models(nc) == old_children.push(card_leaf(card_path@, card_name@)));
            }
        } else {
            add_card_from(&mut nodes[i].children, card_path, parts, start + 1, card_name);
        }
        proof {
            let nn = nodes@;
            let expect = with_card(ms, card_path@, ps, card_name@);
            lemma_models(nn);
            assert(models(nn) =~= expect) by {
                assert forall|j: int| 0 <= j < nn.len() implies models(nn)[j] == expect[j] by {
                    if j != i {
                        assert(nn[j] == old(nodes)@[j]);
                    }
                }
            }
        }
    } else {
        let path = folder_path(card_path, parts, start);
        let mut folder = TreeNode { name: parts[start].clone(), path, is_card: false, children: Vec::new() };
        proof {
            assert(models(folder.children@) =~= Seq::<TreeModel>::empty());
        }
        if parts.len() - start == 1 {
            folder.children.push(leaf);
            proof {
                assert(folder.children@.drop_last() =~= Seq::<TreeNode>::empty());
                assert(models(folder.children@) =~= seq![card_leaf(card_path@, card_name@)]);
                assert(seq![card_leaf(card_path@, card_name@)] =~= Seq::<TreeModel>::empty().push(card_leaf(card_path@, card_name@)));
            }
        } else {
            add_card_from(&mut folder.children, card_path, parts, start + 1, card_name);
        }
        nodes.push(folder);
        proof {
            assert(nodes@.drop_last() =~= old(nodes)@);
            assert(models(nodes@) == ms.push(model(folder)));
        }
    }
}

/// Files a card at `card_path` under the folders `folder_parts` of the
/// trees `nodes`, making the folders that are missing.
pub fn add_card_to_node(nodes: &mut Vec<TreeNode>, card_path: &str, folder_parts: &Vec<String>, card_name: &str)
    ensures
        models(final(nodes)@) == with_card(models(old(nodes)@), card_path@, part_texts(folder_parts@), card_name@),
{
    proof {
        assert(part_texts(folder_parts@).skip(0) =~= part_texts(folder_parts@));
    }
    add_card_from(nodes, card_path, folder_parts, 0, card_name);
}

/// The trees of the tree `tree` after filing one card path: a path under
/// `tree/` goes below the folders it names, or at the top when it names
/// none; other paths change nothing.
pub open spec fn file_card(ms: Seq<TreeModel>, tree: Seq<char>, card_path: Seq<char>) -> Seq<TreeModel> {
    let pre = tree + seq!['/'];
    if !crate::text::has_prefix(card_path, pre) {
        ms
    } else {
        let parts = crate::data::ics::pieces(card_path.skip(pre.len() as int), '/');
        if parts.len() == 1 {
            ms.push(card_leaf(card_path, parts[0]))
        } else {
            with_card(ms, card_path, parts.drop_last(), parts.last())
        }
    }
}

/// The trees after filing the card paths in order.
pub open spec fn file_cards(ms: Seq<TreeModel>, tree: Seq<char>, paths: Seq<Seq<char>>) -> Seq<TreeModel>
    decreases paths.len(),
{
    if paths.len() == 0 {
        ms
    } else {
        file_card(file_cards(ms, tree, paths.drop_last()), tree, paths.last())
    }
}

/// Files the cards of the tree `tree_name` below its folders `children`.
pub fn add_tree_cards(tree_name: &str, children: &mut Vec<TreeNode>, card_paths: &Vec<String>)
    ensures
        models(final(children)@) == file_cards(models(old(children)@), tree_name@, part_texts(card_paths@)),
{
    let mut pre = String::from_str(tree_name);
    crate::text::push_char(&mut pre, '/');
    let pre_cs = chars_of(pre.as_str());
    let ghost start = models(children@);
    proof {
        assert(part_texts(card_paths@).take(0) =~= Seq::<Seq<char>>::empty());
    }
    for k in 0..card_paths.len()
        invariant
            pre_cs@ == tree_name@ + seq!['/'],
            start == models(old(children)@),
            models(children@) == file_cards(start, tree_name@, part_texts(card_paths@).take(k as int)),
    {
        let ghost before = models(children@);
        let path = card_paths[k].as_str();
        let cs = chars_of(path);
        proof {
            let t = part_texts(card_paths@).take(k + 1);
            assert(t.drop_last() =~= part_texts(card_paths@).take(k as int));
            assert(t.last() == card_paths@[k as int]@);
        }
        if crate::text::starts_with_chars(&cs, &pre_cs) {
            let rel = crate::text::slice_chars(&cs, pre_cs.len(), cs.len());
            proof {
                assert(rel@ =~= cs@.skip(pre_cs@.len() as int));
            }
            let pieces = crate::data::ics::split_on(&rel, '/');
            proof {
                crate::data::ics::lemma_pieces_nonempty(rel@, '/');
            }
            let m = pieces.len();
            let name = crate::text::string_of(&pieces[m - 1]);
            if m == 1 {
                let leaf = TreeNode { name, path: path.to_string(), is_card: true, children: Vec::new() };
                let ghost prev = children@;
                children.push(leaf);
                proof {
                    assert(crate::data::ics::views(pieces@)[0] == pieces@[0]@);
                    assert(models(leaf.children@) =~= Seq::<TreeModel>::empty());
                    assert(children@.drop_last() =~= prev);
                    assert(models(children@) == before.push(model(leaf)));
                    assert(model(leaf) == card_leaf(path@, pieces@[0]@));
                }
            } else {
                let mut folders: Vec<String> = Vec::new();
                for j in 0..m - 1
                    invariant
                        m == pieces@.len(),
                        m >= 2,
                        part_texts(folders@) == crate::data::ics::views(pieces@).take(j as int),
                {
                    let f = crate::text::string_of(&pieces[j]);
                    let ghost fb = part_texts(folders@);
                    folders.push(f);
                    proof {
                        assert(part_texts(folders@) =~= fb.push(pieces@[j as int]@));
                        assert(crate::data::ics::views(pieces@).take(j + 1) =~= crate::data::ics::views(pieces@).take(j as int).push(pieces@[j as int]@));
                    }
                }
                proof {
                    assert(crate::data::ics::views(pieces@).take(m - 1) =~= crate::data::ics::views(pieces@).drop_last());
                    assert(crate::data::ics::views(pieces@).last() == pieces@[m - 1]@);
                }
                add_card_to_node(children, path, &folders, name.as_str());
            }
        }
        proof {
            let t = part_texts(card_paths@).take(k + 1);
            assert(file_cards(start, tree_name@, t) == file_card(before, tree_name@, card_paths@[k as int]@));
        }
    }
    proof {
        assert(part_texts(card_paths@).take(card_paths@.len() as int) =~= part_texts(card_paths@));
    }
}

/// The tree named `name` with the folders found for it and the cards of
/// `cards` filed below them.
pub open spec fn tree_of(name: Seq<char>, folders: Seq<TreeNode>, cards: Seq<Seq<char>>) -> TreeModel {
    TreeModel { name, path: name, is_card: false, children: file_cards(models(folders), name, cards) }
}

/// One tree node per tree name, holding the folders found for that tree
/// and, below them, the cards of that tree.
pub fn build_tree_nodes(trees: &Vec<String>, folders: Vec<Vec<TreeNode>>, card_paths: &Vec<String>) -> (r: Vec<TreeNode>)
    requires
        trees@.len() == folders@.len(),
    ensures
        r@.len() == trees@.len(),
        forall|i: int| 0 <= i < r@.len() ==> model(#[trigger] r@[i]) == tree_of(trees@[i]@, folders@[i]@, part_texts(card_paths@)),
{
    let n = trees.len();
    let mut rest = folders;
    let mut result: Vec<TreeNode> = Vec::new();
    proof {
        assert(folders@.skip(0) =~= folders@);
    }
    for i in 0..n
        invariant
            n == trees@.len(),
            n == folders@.len(),
            rest@ == folders@.skip(i as int),
            result@.len() == i,
            forall|j: int| 0 <= j < i ==> model(#[trigger] result@[j]) == tree_of(trees@[j]@, folders@[j]@, part_texts(card_paths@)),
    {
        let mut children = rest.remove(0);
        proof {
            assert(children == folders@[i as int]);
            assert(rest@ =~= folders@.skip(i + 1));
        }
        add_tree_cards(trees[i].as_str(), &mut children, card_paths);
        let node = TreeNode { name: trees[i].clone(), path: trees[i].clone(), is_card: false, children };
        proof {
            assert(model(node) == tree_of(trees@[i as int]@, folders@[i as int]@, part_texts(card_paths@)));
        }
        result.push(node);
    }
    result
}

/// Some node of the trees is a card at path `p`.
pub open spec fn card_at(nodes: Seq<TreeNode>, p: Seq<char>) -> bool {
    exists|k: int| 0 <= k < flat_seq(nodes).len() && (#[trigger] flat_seq(nodes)[k]).0 == p && flat_seq(nodes)[k].2
}

/// Whether some node of the trees is a card at path `p`.
pub fn is_card_path(nodes: &Vec<TreeNode>, p: &str) -> (r: bool)
    ensures
        r == card_at(nodes@, p@),
{
    let n = nodes.len();
    let mut found = false;
    proof {
        assert(nodes@.take(0) =~= Seq::<TreeNode>::empty());
    }
    for i in 0..n
        invariant
            n == nodes@.len(),
            found == card_at(nodes@.take(i as int), p@),
    {
        let flat_i = flatten_tree(&nodes[i]);
        let ghost a = flat_seq(nodes@.take(i as int));
        let ghost b = flat(nodes@[i as int]);
        proof {
            let t = nodes@.take(i + 1);
            assert(t.drop_last() =~= nodes@.take(i as int));
            assert(t.last() == nodes@[i as int]);
            assert(flat_seq(t) == a + b);
        }
        let mut here = false;
        for k in 0..flat_i.len()
            invariant
                shown_all(flat_i@) == b,
                here == (exists|j: int| 0 <= j < k && (#[trigger] b[j]).0 == p@ && b[j].2),
        {
            proof {
                assert(b[k as int] == shown(flat_i@[k as int]));
            }
            let ghost was = here;
            proof {
                assert(shown_all(flat_i@)[k as int] == shown(flat_i@[k as int]));
                assert(b[k as int].0 == flat_i@[k as int].path@);
                assert(b[k as int].2 == flat_i@[k as int].is_card);
            }
            if flat_i[k].is_card && str_eq(flat_i[k].path.as_str(), p) {
                here = true;
            }
            proof {
                let hit = b[k as int].0 == p@ && b[k as int].2;
                assert(here == (was || hit));
                if exists|j: int| 0 <= j < k + 1 && (#[trigger] b[j]).0 == p@ && b[j].2 {
                    let j = choose|j: int| 0 <= j < k + 1 && (#[trigger] b[j]).0 == p@ && b[j].2;
                    if j < k {
                        assert(was);
                    }
                }
                if was {
                    let j = choose|j: int| 0 <= j < k && (#[trigger] b[j]).0 == p@ && b[j].2;
                    assert(0 <= j < k + 1);
                }
            }
        }
        proof {
            let ab = a + b;
            assert(card_at(nodes@.take(i + 1), p@) == (card_at(nodes@.take(i as int), p@) || here)) by {
                if card_at(nodes@.take(i + 1), p@) {
                    let k = choose|k: int| 0 <= k < ab.len() && (#[trigger] ab[k]).0 == p@ && ab[k].2;
                    if k < a.len() {
                        assert(ab[k] == a[k]);
                    } else {
                        assert(ab[k] == b[k - a.len()]);
                    }
                }
                if card_at(nodes@.take(i as int), p@) {
                    let k = choose|k: int| 0 <= k < a.len() && (#[trigger] a[k]).0 == p@ && a[k].2;
                    assert(ab[k] == a[k]);
                }
                if here {
                    let j = choose|j: int| 0 <= j < b.len() && (#[trigger] b[j]).0 == p@ && b[j].2;
                    assert(ab[a.len() + j] == b[j]);
                }
            }
        }
        found = found || here;
    }
    proof {
        assert(nodes@.take(n as int) =~= nodes@);
    }
    found
}

} // verus!
