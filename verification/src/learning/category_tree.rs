//! The category hierarchy as a forest of nodes built from flat, id-linked rows.
use vstd::prelude::*;
use crate::data::models::{Category, Difficulty, NodeType, Quality, clone_opt_string};
use crate::text::str_eq;

verus! {

pub struct CategoryNode {
    pub id: i64,
    pub name: String,
    pub path: String,
    pub node_type: NodeType,
    pub source: Option<String>,
    pub default_quality: Option<Quality>,
    pub default_understanding_difficulty: Option<Difficulty>,
    pub default_memory_difficulty: Option<Difficulty>,
    pub children: Vec<CategoryNode>,
}

pub struct CategoryForest {
    pub roots: Vec<CategoryNode>,
}

/// A node carries the fields of a category (its children aside).
pub open spec fn header_matches(n: CategoryNode, c: Category) -> bool {
    &&& n.id == c.id
    &&& n.name == c.name
    &&& n.path == c.path
    &&& n.node_type == c.node_type
    &&& n.source == c.source
    &&& n.default_quality == c.default_quality
    &&& n.default_understanding_difficulty == c.default_understanding_difficulty
    &&& n.default_memory_difficulty == c.default_memory_difficulty
}

/// The categories whose parent is `id`, in their input order.
pub open spec fn kids(cats: Seq<Category>, id: i64) -> Seq<Category> {
    cats.filter(child_of(id))
}

/// Holds of the categories whose parent is `id`.
pub open spec fn child_of(id: i64) -> spec_fn(Category) -> bool {
    |c: Category| c.parent_id == Some(id)
}

/// Holds of the categories without a parent.
pub open spec fn is_top_level() -> spec_fn(Category) -> bool {
    |c: Category| c.parent_id is None
}

/// The categories without a parent, in their input order.
pub open spec fn top_level(cats: Seq<Category>) -> Seq<Category> {
    cats.filter(is_top_level())
}

/// No two categories share an id.
pub open spec fn ids_unique(cats: Seq<Category>) -> bool {
    forall|i: int, j: int| 0 <= i < cats.len() && 0 <= j < cats.len() && i != j
        ==> #[trigger] cats[i].id != #[trigger] cats[j].id
}

/// `n` is the subtree that the categories give below its own header: its
/// children are the nodes of exactly the categories whose parent is `n`, in
/// input order, each built the same way.
pub open spec fn built_from(cats: Seq<Category>, n: CategoryNode) -> bool
    decreases n,
{
    let ks = kids(cats, n.id);
    &&& n.children@.len() == ks.len()
    &&& forall|k: int| #![trigger n.children@[k]] 0 <= k < ks.len() ==> {
        &&& header_matches(n.children@[k], ks[k])
        &&& built_from(cats, n.children@[k])
    }
}

/// Category `i` is the last one with its id: a later category with the same
/// id replaces an earlier one.
pub open spec fn last_of_id(cats: Seq<Category>, i: int) -> bool {
    &&& 0 <= i < cats.len()
    &&& forall|j: int| i < j < cats.len() ==> #[trigger] cats[j].id != cats[i].id
}

/// Every node of the subtree `n` carries the fields of the last category
/// with its id.
pub open spec fn drawn_from(cats: Seq<Category>, n: CategoryNode) -> bool
    decreases n,
{
    &&& exists|i: int| last_of_id(cats, i) && header_matches(n, #[trigger] cats[i])
    &&& forall|k: int| 0 <= k < n.children@.len() ==> drawn_from(cats, #[trigger] n.children@[k])
}

impl CategoryNode {
    pub fn from_category(cat: &Category) -> (r: CategoryNode)
        ensures
            header_matches(r, *cat),
            r.children@.len() == 0,
    {
        CategoryNode {
            id: cat.id,
            name: cat.name.clone(),
            path: cat.path.clone(),
            node_type: cat.node_type,
            source: clone_opt_string(&cat.source),
            default_quality: cat.default_quality,
            default_understanding_difficulty: cat.default_understanding_difficulty,
            default_memory_difficulty: cat.default_memory_difficulty,
            children: Vec::new(),
        }
    }
}


/// How many entries of `s` are true.
pub open spec fn count_true(s: Seq<bool>) -> nat
    decreases s.len(),
{
    if s.len() == 0 {
        0
    } else {
        count_true(s.drop_last()) + if s.last() { 1nat } else { 0nat }
    }
}

proof fn lemma_count_monotone(a: Seq<bool>, b: Seq<bool>)
    requires
        a.len() == b.len(),
        forall|i: int| 0 <= i < b.len() && #[trigger] b[i] ==> a[i],
    ensures
        count_true(b) <= count_true(a),
    decreases a.len(),
{
    if a.len() > 0 {
        lemma_count_monotone(a.drop_last(), b.drop_last());
    }
}

proof fn lemma_count_clear(a: Seq<bool>, i: int)
    requires
        0 <= i < a.len(),
        a[i],
    ensures
        count_true(a.update(i, false)) + 1 == count_true(a),
    decreases a.len(),
{
    let b = a.update(i, false);
    if i == a.len() - 1 {
        assert(b.drop_last() =~= a.drop_last());
    } else {
        assert(b.drop_last() =~= a.drop_last().update(i, false));
        lemma_count_clear(a.drop_last(), i);
    }
}

/// A removed category is a top-level one or has a removed parent.
pub open spec fn closed_upward(cats: Seq<Category>, av: Seq<bool>) -> bool {
    forall|i: int| 0 <= i < cats.len() && !#[trigger] av[i] ==> anchored(cats, av, i)
}

/// Category `i` is top-level, or some removed category is its parent.
pub open spec fn anchored(cats: Seq<Category>, av: Seq<bool>, i: int) -> bool {
    ||| cats[i].parent_id is None
    ||| exists|k: int| 0 <= k < cats.len() && !av[k] && Some(#[trigger] cats[k].id) == cats[i].parent_id
}

/// Every category removed between `old` and `new`, besides `top`, has a
/// parent removed in that same span.
pub open spec fn grown_below(cats: Seq<Category>, old: Seq<bool>, new: Seq<bool>, top: int) -> bool {
    forall|i: int| 0 <= i < cats.len() && old[i] && !#[trigger] new[i] && i != top ==>
        exists|k: int| 0 <= k < cats.len() && old[k] && !new[k] && Some(#[trigger] cats[k].id) == cats[i].parent_id
}

/// The ids of a sequence of nodes, in order.
pub open spec fn node_ids(s: Seq<CategoryNode>) -> Seq<i64> {
    s.map_values(|m: CategoryNode| m.id)
}

/// Some category that is the last with this id went from available in
/// `old` to taken in `new`.
pub open spec fn taken(cats: Seq<Category>, old: Seq<bool>, new: Seq<bool>, id: i64) -> bool {
    exists|k: int| #[trigger] last_of_id(cats, k) && old[k] && !new[k] && cats[k].id == id
}

/// The ids are distinct, each of a category taken between `old` and `new`.
pub open spec fn ids_taken(cats: Seq<Category>, old: Seq<bool>, new: Seq<bool>, ids: Seq<i64>) -> bool {
    &&& ids.no_duplicates()
    &&& forall|i: int| 0 <= i < ids.len() ==> taken(cats, old, new, #[trigger] ids[i])
}

/// `b` only takes away from `a`.
pub open spec fn shrinks(a: Seq<bool>, b: Seq<bool>) -> bool {
    &&& a.len() == b.len()
    &&& forall|k: int| 0 <= k < b.len() && #[trigger] b[k] ==> a[k]
}

proof fn lemma_last_unique(cats: Seq<Category>, k1: int, k2: int)
    requires
        last_of_id(cats, k1),
        last_of_id(cats, k2),
        cats[k1].id == cats[k2].id,
    ensures
        k1 == k2,
{
    if k1 < k2 {
        assert(cats[k2].id != cats[k1].id);
    } else if k2 < k1 {
        assert(cats[k1].id != cats[k2].id);
    }
}

/// Ids taken in two spans one after the other, together.
proof fn lemma_ids_taken_concat(
    cats: Seq<Category>,
    o: Seq<bool>,
    m: Seq<bool>,
    n: Seq<bool>,
    a: Seq<i64>,
    b: Seq<i64>,
)
    requires
        o.len() == cats.len(),
        shrinks(o, m),
        shrinks(m, n),
        ids_taken(cats, o, m, a),
        ids_taken(cats, m, n, b),
    ensures
        ids_taken(cats, o, n, a + b),
{
    let ab = a + b;
    assert forall|i: int| 0 <= i < ab.len() implies taken(cats, o, n, #[trigger] ab[i]) by {
        if i < a.len() {
            assert(ab[i] == a[i]);
            assert(taken(cats, o, m, a[i]));
            let k = choose|k: int| #[trigger] last_of_id(cats, k) && o[k] && !m[k] && cats[k].id == a[i];
            assert(!n[k]);
        } else {
            assert(ab[i] == b[i - a.len()]);
            assert(taken(cats, m, n, b[i - a.len()]));
            let k = choose|k: int| #[trigger] last_of_id(cats, k) && m[k] && !n[k] && cats[k].id == b[i - a.len()];
            assert(o[k]);
        }
    }
    assert forall|i: int, j: int| 0 <= i < ab.len() && 0 <= j < ab.len() && i != j implies ab[i] != ab[j] by {
        if i < a.len() && j < a.len() {
            assert(ab[i] == a[i] && ab[j] == a[j]);
        } else if i >= a.len() && j >= a.len() {
            assert(ab[i] == b[i - a.len()] && ab[j] == b[j - a.len()]);
        } else {
            let x = if i < a.len() { i } else { j };
            let y = if i < a.len() { j - a.len() } else { i - a.len() };
            assert(taken(cats, o, m, a[x]));
            assert(taken(cats, m, n, b[y]));
            let k1 = choose|k: int| #[trigger] last_of_id(cats, k) && o[k] && !m[k] && cats[k].id == a[x];
            let k2 = choose|k: int| #[trigger] last_of_id(cats, k) && m[k] && !n[k] && cats[k].id == b[y];
            if a[x] == b[y] {
                lemma_last_unique(cats, k1, k2);
            }
            assert(ab[x] == a[x]);
            assert(ab[y + a.len()] == b[y]);
        }
    }
}

/// The ids in preorder of a node after a subtree joins its children.
proof fn lemma_preorder_push(nd: CategoryNode, ch: CategoryNode, nd2: CategoryNode)
    requires
        nd2.children@ == nd.children@.push(ch),
        nd2.id == nd.id,
    ensures
        node_ids(preorder(nd2)) == node_ids(preorder(nd)) + node_ids(preorder(ch)),
{
    assert(nd2.children@.drop_last() =~= nd.children@);
    assert(any_node()(nd));
    assert(any_node()(nd2));
    assert(preorder(nd2) == seq![nd2] + collect_seq(nd.children@, any_node()) + preorder(ch));
    assert(preorder(nd) == seq![nd] + collect_seq(nd.children@, any_node()));
    assert(node_ids(preorder(nd2)) =~= node_ids(preorder(nd)) + node_ids(preorder(ch)));
}

/// The position of the last category with this id.
fn last_index_of(cats: &[Category], id: i64) -> (r: Option<usize>)
    ensures
        r matches Some(k) ==> k < cats@.len() && cats@[k as int].id == id
            && forall|j: int| k < j < cats@.len() ==> #[trigger] cats@[j].id != id,
        r is None ==> forall|j: int| 0 <= j < cats@.len() ==> #[trigger] cats@[j].id != id,
{
    let n = cats.len();
    let mut k = n;
    while k > 0
        invariant
            k <= n == cats@.len(),
            forall|j: int| k <= j < n ==> #[trigger] cats@[j].id != id,
        decreases k,
    {
        k = k - 1;
        if cats[k].id == id {
            return Some(k);
        }
    }
    None
}

/// Builds the subtree of the category with this id out of the categories
/// still marked available, and marks every category it uses as taken.
fn build_subtree(cats: &[Category], id: i64, avail: &mut Vec<bool>) -> (r: Option<CategoryNode>)
    requires
        old(avail)@.len() == cats@.len(),
    ensures
        final(avail)@.len() == cats@.len(),
        forall|i: int| 0 <= i < cats@.len() && #[trigger] final(avail)@[i] ==> old(avail)@[i],
        r is None ==> final(avail)@ == old(avail)@,
        r matches Some(nd) ==> drawn_from(cats@, nd),
        r matches Some(nd) ==> ids_taken(cats@, old(avail)@, final(avail)@, node_ids(preorder(nd))),
        forall|li: int| 0 <= li < cats@.len() && #[trigger] cats@[li].id == id
            && ids_unique(cats@) && closed_upward(cats@, old(avail)@)
            && anchored(cats@, old(avail)@, li) ==> {
            &&& (r is Some <==> old(avail)@[li])
            &&& (r matches Some(nd) ==> header_matches(nd, cats@[li]) && built_from(cats@, nd))
            &&& closed_upward(cats@, final(avail)@)
            &&& grown_below(cats@, old(avail)@, final(avail)@, li)
        },
    decreases count_true(old(avail)@),
{
    let ghost old_av = avail@;
    let li = match last_index_of(cats, id) {
        None => { return None; },
        Some(li) => li,
    };
    if !avail[li] {
        return None;
    }
    avail.set(li, false);
    let ghost av1 = avail@;
    proof {
        lemma_count_clear(old_av, li as int);
    }
    let mut node = CategoryNode::from_category(&cats[li]);
    proof {
        assert(any_node()(node));
        assert(collect_seq(node.children@, any_node()) =~= Seq::<CategoryNode>::empty());
        assert(node_ids(preorder(node)) =~= seq![id]);
        assert(last_of_id(cats@, li as int));
        assert(taken(cats@, old_av, avail@, id));
    }
    let ghost exact = ids_unique(cats@) && closed_upward(cats@, old_av) && anchored(cats@, old_av, li as int);
    let n = cats.len();
    assert(cats@.take(0).filter(child_of(id)) =~= Seq::<Category>::empty()) by {
        reveal(Seq::filter);
    }
    for j in 0..n
        invariant
            n == cats@.len(),
            avail@.len() == n,
            av1 == old_av.update(li as int, false),
            old_av == old(avail)@,
            old_av[li as int],
            exact == (ids_unique(cats@) && closed_upward(cats@, old_av) && anchored(cats@, old_av, li as int)),
            old_av.len() == n,
            li < n,
            cats@[li as int].id == id,
            !avail@[li as int],
            forall|i: int| 0 <= i < n && #[trigger] avail@[i] ==> av1[i],
            count_true(av1) + 1 == count_true(old_av),
            header_matches(node, cats@[li as int]),
            forall|k: int| 0 <= k < node.children@.len() ==> drawn_from(cats@, #[trigger] node.children@[k]),
            ids_taken(cats@, old_av, avail@, node_ids(preorder(node))),
            exact ==> closed_upward(cats@, avail@),
            exact ==> grown_below(cats@, old_av, avail@, li as int),
            exact ==> forall|k: int| j <= k < n && cats@[k].parent_id == Some(id) ==> #[trigger] avail@[k],
            exact ==> node.children@.len() == kids(cats@.take(j as int), id).len(),
            exact ==> forall|k: int| #![trigger node.children@[k]] 0 <= k < node.children@.len() ==> {
                &&& header_matches(node.children@[k], kids(cats@.take(j as int), id)[k])
                &&& built_from(cats@, node.children@[k])
            },
    {
        let ghost old_children = node.children@;
        proof {
            if exact && 0 < old_children.len() {
                assert(header_matches(old_children[0], kids(cats@.take(j as int), id)[0]));
            }
            cats@.take(j as int).lemma_filter_push(cats@[j as int], child_of(id));
            assert(cats@.take(j as int).push(cats@[j as int]) =~= cats@.take(j + 1));
        }
        if cats[j].parent_id == Some(id) {
            let ghost before = avail@;
            proof {
                lemma_count_monotone(av1, before);
            }
            let ghost prev_node = node;
            let child = build_subtree(cats, cats[j].id, avail);
            match child {
                Some(ch) => {
                    let ghost gch = ch;
                    node.children.push(ch);
                    proof {
                        lemma_preorder_push(prev_node, gch, node);
                        lemma_ids_taken_concat(cats@, old_av, before, avail@,
                            node_ids(preorder(prev_node)), node_ids(preorder(gch)));
                    }
                },
                None => {},
            }
            proof {
                if exact {
                    assert(before[j as int]);
                    assert(anchored(cats@, before, j as int));
                    assert(closed_upward(cats@, before));
                    assert(cats@[j as int].id == cats@[j as int].id);
                    assert(grown_below(cats@, before, avail@, j as int));
                    assert(child is Some);
                    assert(kids(cats@.take(j + 1), id) == kids(cats@.take(j as int), id).push(cats@[j as int]));
                    assert(header_matches(node.children@.last(), cats@[j as int]));
                    assert(built_from(cats@, node.children@.last()));
                    assert forall|k: int| j + 1 <= k < n && cats@[k].parent_id == Some(id) implies #[trigger] avail@[k] by {
                        if !avail@[k] {
                            assert(before[k]);
                            assert(k != j);
                            let q = choose|q: int| 0 <= q < n && before[q] && !avail@[q] && Some(#[trigger] cats@[q].id) == cats@[k].parent_id;
                            assert(cats@[q].id == cats@[li as int].id);
                            assert(q == li);
                        }
                    }
                    assert forall|i: int| 0 <= i < n && old_av[i] && !#[trigger] avail@[i] && i != li implies
                        exists|k: int| 0 <= k < n && old_av[k] && !avail@[k] && Some(#[trigger] cats@[k].id) == cats@[i].parent_id by {
                        if before[i] {
                            if i == j {
                                assert(old_av[li as int] && !avail@[li as int] && Some(cats@[li as int].id) == cats@[i].parent_id);
                            } else {
                                let k = choose|k: int| 0 <= k < n && before[k] && !avail@[k] && Some(#[trigger] cats@[k].id) == cats@[i].parent_id;
                                assert(old_av[k]);
                            }
                        } else {
                            let k = choose|k: int| 0 <= k < n && old_av[k] && !before[k] && Some(#[trigger] cats@[k].id) == cats@[i].parent_id;
                            assert(!avail@[k]);
                        }
                    }
                }
            }
        }
        proof {
            if exact {
                assert forall|k: int| 0 <= k < node.children@.len() implies {
                    &&& #[trigger] header_matches(node.children@[k], kids(cats@.take(j + 1), id)[k])
                    &&& built_from(cats@, node.children@[k])
                } by {
                    if k < old_children.len() {
                        assert(header_matches(old_children[k], kids(cats@.take(j as int), id)[k]));
                        assert(built_from(cats@, old_children[k]));
                        assert(node.children@[k] == old_children[k]);
                        assert(kids(cats@.take(j + 1), id)[k] == kids(cats@.take(j as int), id)[k]);
                    } else {
                        assert(cats@[j as int].parent_id == Some(id));
                    }
                }
            }
        }
    }
    proof {
        assert(cats@.take(n as int) =~= cats@);
    }
    Some(node)
}

impl CategoryForest {
    /// Arranges flat categories into trees: the top-level categories become
    /// roots, in input order, and below each node stand the categories whose
    /// parent it is, in input order. Categories that no chain of parents
    /// links to a top-level one are left out. Where ids repeat, a node
    /// carries the last category with its id, and each id stands once in
    /// the forest.
    pub fn from_categories(categories: &[Category]) -> (forest: CategoryForest)
        ensures
            forall|k: int| 0 <= k < forest.roots@.len() ==> drawn_from(categories@, #[trigger] forest.roots@[k]),
            node_ids(collect_seq(forest.roots@, any_node())).no_duplicates(),
            ids_unique(categories@) ==> {
                &&& forest.roots@.len() == top_level(categories@).len()
                &&& forall|k: int| #![trigger forest.roots@[k]] 0 <= k < forest.roots@.len() ==> {
                    &&& header_matches(forest.roots@[k], top_level(categories@)[k])
                    &&& built_from(categories@, forest.roots@[k])
                }
            },
    {
        let n = categories.len();
        let mut avail: Vec<bool> = Vec::new();
        for i in 0..n
            invariant
                n == categories@.len(),
                avail@.len() == i,
                ids_unique(categories@) ==> forall|k: int| 0 <= k < i ==> #[trigger] avail@[k],
        {
            let last = last_index_of(categories, categories[i].id);
            avail.push(last == Some(i));
        }
        let mut roots: Vec<CategoryNode> = Vec::new();
        let ghost exact = ids_unique(categories@);
        let ghost av0 = avail@;
        assert(node_ids(collect_seq(roots@, any_node())) =~= Seq::<i64>::empty());
        assert(categories@.take(0).filter(is_top_level()) =~= Seq::<Category>::empty()) by {
            reveal(Seq::filter);
        }
        for j in 0..n
            invariant
                n == categories@.len(),
                avail@.len() == n,
                exact == ids_unique(categories@),
                forall|k: int| 0 <= k < roots@.len() ==> drawn_from(categories@, #[trigger] roots@[k]),
                av0.len() == n,
                shrinks(av0, avail@),
                ids_taken(categories@, av0, avail@, node_ids(collect_seq(roots@, any_node()))),
                exact ==> closed_upward(categories@, avail@),
                exact ==> forall|k: int| j <= k < n && categories@[k].parent_id is None ==> #[trigger] avail@[k],
                exact ==> roots@.len() == top_level(categories@.take(j as int)).len(),
                exact ==> forall|k: int| #![trigger roots@[k]] 0 <= k < roots@.len() ==> {
                    &&& header_matches(roots@[k], top_level(categories@.take(j as int))[k])
                    &&& built_from(categories@, roots@[k])
                },
        {
            proof {
                categories@.take(j as int).lemma_filter_push(categories@[j as int], is_top_level());
                assert(categories@.take(j as int).push(categories@[j as int]) =~= categories@.take(j + 1));
            }
            let ghost old_roots = roots@;
            if categories[j].parent_id.is_none() {
                let ghost before = avail@;
                let ghost prev_roots = roots@;
                let tree = build_subtree(categories, categories[j].id, &mut avail);
                match tree {
                    Some(t) => {
                        let ghost gt = t;
                        roots.push(t);
                        proof {
                            assert(roots@.drop_last() =~= prev_roots);
                            assert(collect_seq(roots@, any_node()) == collect_seq(prev_roots, any_node()) + preorder(gt));
                            assert(node_ids(collect_seq(roots@, any_node())) =~= node_ids(collect_seq(prev_roots, any_node()))
                                + node_ids(preorder(gt)));
                            lemma_ids_taken_concat(categories@, av0, before, avail@,
                                node_ids(collect_seq(prev_roots, any_node())), node_ids(preorder(gt)));
                        }
                    },
                    None => {},
                }
                proof {
                    if exact {
                        assert(before[j as int]);
                        assert(anchored(categories@, before, j as int));
                        assert(categories@[j as int].id == categories@[j as int].id);
                        assert forall|k: int| j + 1 <= k < n && categories@[k].parent_id is None implies #[trigger] avail@[k] by {
                            if !avail@[k] {
                                assert(before[k]);
                                assert(k != j);
                            }
                        }
                    }
                }
            }
            proof {
                if exact {
                    assert forall|k: int| #![trigger roots@[k]] 0 <= k < roots@.len() implies {
                        &&& header_matches(roots@[k], top_level(categories@.take(j + 1))[k])
                        &&& built_from(categories@, roots@[k])
                    } by {
                        if k < old_roots.len() {
                            assert(roots@[k] == old_roots[k]);
                            assert(top_level(categories@.take(j + 1))[k] == top_level(categories@.take(j as int))[k]);
                        }
                    }
                }
            }
        }
        proof {
            assert(categories@.take(n as int) =~= categories@);
        }
        CategoryForest { roots }
    }
}


/// `f` is `o` with its first node of this id, in preorder, replaced by `v`.
pub open spec fn replaced(o: CategoryNode, f: CategoryNode, id: i64, v: CategoryNode) -> bool
    decreases o,
{
    if o.id == id {
        f == v
    } else {
        &&& f.id == o.id
        &&& f.name == o.name
        &&& f.path == o.path
        &&& f.node_type == o.node_type
        &&& f.source == o.source
        &&& f.default_quality == o.default_quality
        &&& f.default_understanding_difficulty == o.default_understanding_difficulty
        &&& f.default_memory_difficulty == o.default_memory_difficulty
        &&& f.children@.len() == o.children@.len()
        &&& exists|k: int| #![trigger o.children@[k]] 0 <= k < o.children@.len()
            && first_with_id(collect_seq(o.children@.take(k), any_node()), id) is None
            && first_with_id(preorder(o.children@[k]), id) is Some
            && (forall|j: int| 0 <= j < o.children@.len() && j != k ==> #[trigger] f.children@[j] == o.children@[j])
            && replaced(o.children@[k], f.children@[k], id, v)
    }
}

/// The nodes a sequence of references points to.
pub open spec fn nodes_of(s: Seq<&CategoryNode>) -> Seq<CategoryNode> {
    s.map_values(|r: &CategoryNode| *r)
}

proof fn lemma_nodes_of_append(a: Seq<&CategoryNode>, b: Seq<&CategoryNode>)
    ensures
        nodes_of(a + b) == nodes_of(a) + nodes_of(b),
{
    assert(nodes_of(a + b) =~= nodes_of(a) + nodes_of(b));
}

/// The nodes of the subtree `n` that `sel` holds of, in preorder.
pub open spec fn collect(n: CategoryNode, sel: spec_fn(CategoryNode) -> bool) -> Seq<CategoryNode>
    decreases n,
{
    (if sel(n) { seq![n] } else { Seq::empty() }) + collect_seq(n.children@, sel)
}

/// The nodes of the subtrees in `s` that `sel` holds of, in preorder.
pub open spec fn collect_seq(s: Seq<CategoryNode>, sel: spec_fn(CategoryNode) -> bool) -> Seq<CategoryNode>
    decreases s,
{
    if s.len() == 0 {
        Seq::empty()
    } else {
        collect_seq(s.drop_last(), sel) + collect(s.last(), sel)
    }
}

pub open spec fn any_node() -> spec_fn(CategoryNode) -> bool {
    |n: CategoryNode| true
}

pub open spec fn leaf_node() -> spec_fn(CategoryNode) -> bool {
    |n: CategoryNode| n.children@.len() == 0
}

pub open spec fn learning_node() -> spec_fn(CategoryNode) -> bool {
    |n: CategoryNode| n.node_type == NodeType::Learning
}

/// All nodes of the subtree, the node itself first, then each child's
/// subtree in order.
pub open spec fn preorder(n: CategoryNode) -> Seq<CategoryNode> {
    collect(n, any_node())
}

/// The first node in `s` with this id.
pub open spec fn first_with_id(s: Seq<CategoryNode>, id: i64) -> Option<CategoryNode>
    decreases s.len(),
{
    if s.len() == 0 {
        None
    } else if s[0].id == id {
        Some(s[0])
    } else {
        first_with_id(s.drop_first(), id)
    }
}

/// The first node in `s` with this path.
pub open spec fn first_with_path(s: Seq<CategoryNode>, path: Seq<char>) -> Option<CategoryNode>
    decreases s.len(),
{
    if s.len() == 0 {
        None
    } else if s[0].path@ == path {
        Some(s[0])
    } else {
        first_with_path(s.drop_first(), path)
    }
}

proof fn lemma_first_with_id_append(a: Seq<CategoryNode>, b: Seq<CategoryNode>, id: i64)
    ensures
        first_with_id(a + b, id) == (match first_with_id(a, id) {
            Some(x) => Some(x),
            None => first_with_id(b, id),
        }),
    decreases a.len(),
{
    if a.len() > 0 {
        assert((a + b).drop_first() =~= a.drop_first() + b);
        lemma_first_with_id_append(a.drop_first(), b, id);
    } else {
        assert(a + b =~= b);
    }
}

proof fn lemma_first_with_path_append(a: Seq<CategoryNode>, b: Seq<CategoryNode>, path: Seq<char>)
    ensures
        first_with_path(a + b, path) == (match first_with_path(a, path) {
            Some(x) => Some(x),
            None => first_with_path(b, path),
        }),
    decreases a.len(),
{
    if a.len() > 0 {
        assert((a + b).drop_first() =~= a.drop_first() + b);
        lemma_first_with_path_append(a.drop_first(), b, path);
    } else {
        assert(a + b =~= b);
    }
}

proof fn lemma_collect_seq_step(s: Seq<CategoryNode>, i: int, sel: spec_fn(CategoryNode) -> bool)
    requires
        0 <= i < s.len(),
    ensures
        collect_seq(s.take(i + 1), sel) == collect_seq(s.take(i), sel) + collect(s[i], sel),
{
    assert(s.take(i + 1).drop_last() =~= s.take(i));
}

proof fn lemma_collect_seq_concat(a: Seq<CategoryNode>, b: Seq<CategoryNode>, sel: spec_fn(CategoryNode) -> bool)
    ensures
        collect_seq(a + b, sel) == collect_seq(a, sel) + collect_seq(b, sel),
    decreases b.len(),
{
    if b.len() == 0 {
        assert(a + b =~= a);
        assert(collect_seq(a, sel) + collect_seq(b, sel) =~= collect_seq(a, sel));
    } else {
        assert((a + b).drop_last() =~= a + b.drop_last());
        assert((a + b).last() == b.last());
        lemma_collect_seq_concat(a, b.drop_last(), sel);
        assert(collect_seq(a + b, sel) =~= collect_seq(a, sel) + collect_seq(b, sel));
    }
}

/// The subtrees in `s` split at `k`.
proof fn lemma_collect_seq_split(s: Seq<CategoryNode>, k: int, sel: spec_fn(CategoryNode) -> bool)
    requires
        0 <= k <= s.len(),
    ensures
        collect_seq(s, sel) == collect_seq(s.take(k), sel) + collect_seq(s.skip(k), sel),
{
    assert(s.take(k) + s.skip(k) =~= s);
    lemma_collect_seq_concat(s.take(k), s.skip(k), sel);
}

/// The nodes a selector picks from a subtree are its nodes in preorder,
/// filtered by the selector.
pub proof fn lemma_collect_filter(n: CategoryNode, sel: spec_fn(CategoryNode) -> bool)
    ensures
        collect(n, sel) == collect(n, any_node()).filter(sel),
    decreases n,
{
    lemma_collect_seq_filter(n.children@, sel);
    let head = seq![n];
    let rest = collect_seq(n.children@, any_node());
    assert(collect(n, any_node()) == head + rest);
    Seq::filter_distributes_over_add(head, rest, sel);
    reveal_with_fuel(Seq::filter, 2);
    assert(head.drop_last() =~= Seq::<CategoryNode>::empty());
    if sel(n) {
        assert(head.filter(sel) =~= seq![n]);
    } else {
        assert(head.filter(sel) =~= Seq::<CategoryNode>::empty());
    }
    assert(collect(n, sel) =~= collect(n, any_node()).filter(sel));
}

/// The same, for a sequence of subtrees.
pub proof fn lemma_collect_seq_filter(s: Seq<CategoryNode>, sel: spec_fn(CategoryNode) -> bool)
    ensures
        collect_seq(s, sel) == collect_seq(s, any_node()).filter(sel),
    decreases s,
{
    if s.len() == 0 {
        reveal_with_fuel(Seq::filter, 1);
        assert(collect_seq(s, any_node()).filter(sel) =~= Seq::<CategoryNode>::empty());
    } else {
        lemma_collect_seq_filter(s.drop_last(), sel);
        lemma_collect_filter(s.last(), sel);
        Seq::filter_distributes_over_add(collect_seq(s.drop_last(), any_node()), collect(s.last(), any_node()), sel);
    }
}

/// Every subtree has a leaf.
pub proof fn lemma_collect_has_leaf(n: CategoryNode)
    ensures
        collect(n, leaf_node()).len() > 0,
    decreases n,
{
    if n.children@.len() > 0 {
        let s = n.children@;
        lemma_collect_has_leaf(s.last());
        assert(collect_seq(s, leaf_node()) == collect_seq(s.drop_last(), leaf_node()) + collect(s.last(), leaf_node()));
    }
}

proof fn lemma_first_with_id_single(n: CategoryNode, id: i64)
    ensures
        first_with_id(seq![n], id) == (if n.id == id { Some(n) } else { None }),
{
    assert(seq![n].drop_first() =~= Seq::<CategoryNode>::empty());
    assert(first_with_id(Seq::<CategoryNode>::empty(), id) is None);
    assert(seq![n][0] == n);
}

proof fn lemma_first_with_path_single(n: CategoryNode, path: Seq<char>)
    ensures
        first_with_path(seq![n], path) == (if n.path@ == path { Some(n) } else { None }),
{
    assert(seq![n].drop_first() =~= Seq::<CategoryNode>::empty());
    assert(first_with_path(Seq::<CategoryNode>::empty(), path) is None);
    assert(seq![n][0] == n);
}

proof fn lemma_preorder_unfold(n: CategoryNode)
    ensures
        preorder(n) == seq![n] + collect_seq(n.children@, any_node()),
{
    assert(any_node()(n));
}

impl CategoryNode {
    /// The first node of this subtree, in preorder, with this id.
    pub fn find(&self, id: i64) -> (r: Option<&CategoryNode>)
        ensures
            r matches Some(m) ==> first_with_id(preorder(*self), id) == Some(*m),
            r is None ==> first_with_id(preorder(*self), id) is None,
        decreases *self,
    {
        if self.id == id {
            return Some(self);
        }
        let n = self.children.len();
        for i in 0..n
            invariant
                n == self.children@.len(),
                self.id != id,
                first_with_id(collect_seq(self.children@.take(i as int), any_node()), id) is None,
        {
            proof {
                lemma_collect_seq_step(self.children@, i as int, any_node());
                lemma_first_with_id_append(collect_seq(self.children@.take(i as int), any_node()), collect(self.children@[i as int], any_node()), id);
            }
            match self.children[i].find(id) {
                Some(found) => {
                    proof {
                        let pre = collect_seq(self.children@.take(i + 1), any_node());
                        let post = collect_seq(self.children@.skip(i + 1), any_node());
                        lemma_collect_seq_split(self.children@, i + 1, any_node());
                        lemma_first_with_id_append(pre, post, id);
                        lemma_first_with_id_append(seq![*self], pre + post, id);
                        lemma_first_with_id_single(*self, id);
                        lemma_preorder_unfold(*self);
                        lemma_preorder_unfold(self.children@[i as int]);
                    }
                    return Some(found);
                },
                None => {},
            }
        }
        proof {
            assert(self.children@.take(n as int) =~= self.children@);
            lemma_first_with_id_append(seq![*self], collect_seq(self.children@, any_node()), id);
            lemma_first_with_id_single(*self, id);
            lemma_preorder_unfold(*self);
        }
        None
    }

    /// The first node of this subtree, in preorder, with this id, for
    /// changing in place.
    pub fn find_mut(&mut self, id: i64) -> (r: Option<&mut CategoryNode>)
        ensures
            r matches Some(m) ==> first_with_id(preorder(*old(self)), id) == Some(*m)
                && replaced(*old(self), *final(self), id, *final(m)),
            r is None ==> first_with_id(preorder(*old(self)), id) is None && *final(self) == *old(self),
        decreases *old(self),
    {
        if self.id == id {
            proof {
                lemma_preorder_unfold(*self);
                lemma_first_with_id_append(seq![*self], collect_seq(self.children@, any_node()), id);
                lemma_first_with_id_single(*self, id);
            }
            return Some(self);
        }
        let n = self.children.len();
        let mut i: usize = 0;
        while i < n
            invariant
                n == self.children@.len(),
                i <= n,
                self.id != id,
                *self == *old(self),
                first_with_id(collect_seq(self.children@.take(i as int), any_node()), id) is None,
            decreases n - i,
        {
            proof {
                lemma_collect_seq_step(self.children@, i as int, any_node());
                lemma_first_with_id_append(collect_seq(self.children@.take(i as int), any_node()), collect(self.children@[i as int], any_node()), id);
            }
            if self.children[i].find(id).is_some() {
                proof {
                    let pre = collect_seq(self.children@.take(i + 1), any_node());
                    let post = collect_seq(self.children@.skip(i + 1), any_node());
                    lemma_collect_seq_split(self.children@, i + 1, any_node());
                    lemma_first_with_id_append(pre, post, id);
                    lemma_first_with_id_append(seq![*self], pre + post, id);
                    lemma_first_with_id_single(*self, id);
                    lemma_preorder_unfold(*self);
                    lemma_preorder_unfold(self.children@[i as int]);
                }
                return self.children[i].find_mut(id);
            }
            i = i + 1;
        }
        proof {
            assert(self.children@.take(n as int) =~= self.children@);
            lemma_first_with_id_append(seq![*self], collect_seq(self.children@, any_node()), id);
            lemma_first_with_id_single(*self, id);
            lemma_preorder_unfold(*self);
        }
        None
    }

    /// The first node of this subtree, in preorder, with this path.
    pub fn find_by_path(&self, path: &str) -> (r: Option<&CategoryNode>)
        ensures
            r matches Some(m) ==> first_with_path(preorder(*self), path@) == Some(*m),
            r is None ==> first_with_path(preorder(*self), path@) is None,
        decreases *self,
    {
        if str_eq(self.path.as_str(), path) {
            proof {
                lemma_preorder_unfold(*self);
                lemma_first_with_path_append(seq![*self], collect_seq(self.children@, any_node()), path@);
                lemma_first_with_path_single(*self, path@);
            }
            return Some(self);
        }
        let n = self.children.len();
        for i in 0..n
            invariant
                n == self.children@.len(),
                self.path@ != path@,
                first_with_path(collect_seq(self.children@.take(i as int), any_node()), path@) is None,
        {
            proof {
                lemma_collect_seq_step(self.children@, i as int, any_node());
                lemma_first_with_path_append(collect_seq(self.children@.take(i as int), any_node()), collect(self.children@[i as int], any_node()), path@);
            }
            match self.children[i].find_by_path(path) {
                Some(found) => {
                    proof {
                        let pre = collect_seq(self.children@.take(i + 1), any_node());
                        let post = collect_seq(self.children@.skip(i + 1), any_node());
                        lemma_collect_seq_split(self.children@, i + 1, any_node());
                        lemma_first_with_path_append(pre, post, path@);
                        lemma_first_with_path_append(seq![*self], pre + post, path@);
                        lemma_first_with_path_single(*self, path@);
                        lemma_preorder_unfold(*self);
                        lemma_preorder_unfold(self.children@[i as int]);
                    }
                    return Some(found);
                },
                None => {},
            }
        }
        proof {
            assert(self.children@.take(n as int) =~= self.children@);
            lemma_first_with_path_append(seq![*self], collect_seq(self.children@, any_node()), path@);
            lemma_first_with_path_single(*self, path@);
            lemma_preorder_unfold(*self);
        }
        None
    }

    /// Every node of this subtree, in preorder.
    pub fn collect_all(&self) -> (r: Vec<&CategoryNode>)
        ensures
            nodes_of(r@) == preorder(*self),
        decreases *self,
    {
        let mut result: Vec<&CategoryNode> = Vec::new();
        result.push(self);
        let n = self.children.len();
        for i in 0..n
            invariant
                n == self.children@.len(),
                nodes_of(result@) == seq![*self] + collect_seq(self.children@.take(i as int), any_node()),
        {
            proof {
                lemma_collect_seq_step(self.children@, i as int, any_node());
            }
            let mut sub = self.children[i].collect_all();
            let ghost old_res = result@;
            let ghost sub_view = sub@;
            result.append(&mut sub);
            proof {
                assert(result@ == old_res + sub_view);
                lemma_nodes_of_append(old_res, sub_view);
                lemma_preorder_unfold(self.children@[i as int]);
            }
        }
        proof {
            assert(self.children@.take(n as int) =~= self.children@);
            lemma_preorder_unfold(*self);
        }
        result
    }

    /// The leaves of this subtree, in preorder.
    pub fn leaf_nodes(&self) -> (r: Vec<&CategoryNode>)
        ensures
            nodes_of(r@) == collect(*self, leaf_node()),
        decreases *self,
    {
        let mut result: Vec<&CategoryNode> = Vec::new();
        if self.is_leaf() {
            result.push(self);
            proof {
                assert(collect_seq(self.children@, leaf_node()) == Seq::<CategoryNode>::empty());
                assert(nodes_of(result@) =~= collect(*self, leaf_node()));
            }
        } else {
            let n = self.children.len();
            for i in 0..n
                invariant
                    n == self.children@.len(),
                    nodes_of(result@) == collect_seq(self.children@.take(i as int), leaf_node()),
            {
                proof {
                    lemma_collect_seq_step(self.children@, i as int, leaf_node());
                }
                let mut sub = self.children[i].leaf_nodes();
                let ghost old_res = result@;
                let ghost sub_view = sub@;
                result.append(&mut sub);
                proof {
                    assert(result@ == old_res + sub_view);
                    lemma_nodes_of_append(old_res, sub_view);
                }
            }
            proof {
                assert(self.children@.take(n as int) =~= self.children@);
                assert(!leaf_node()(*self));
                assert(collect(*self, leaf_node()) =~= collect_seq(self.children@, leaf_node()));
            }
        }
        result
    }

    /// The learning nodes of this subtree, in preorder.
    pub fn learning_nodes(&self) -> (r: Vec<&CategoryNode>)
        ensures
            nodes_of(r@) == collect(*self, learning_node()),
        decreases *self,
    {
        let mut result: Vec<&CategoryNode> = Vec::new();
        let learning = self.is_learning();
        if learning {
            result.push(self);
        }
        let ghost head = if learning_node()(*self) { seq![*self] } else { Seq::<CategoryNode>::empty() };
        proof {
            assert(nodes_of(result@) =~= head);
        }
        let n = self.children.len();
        for i in 0..n
            invariant
                n == self.children@.len(),
                nodes_of(result@) == head + collect_seq(self.children@.take(i as int), learning_node()),
        {
            proof {
                lemma_collect_seq_step(self.children@, i as int, learning_node());
            }
            let mut sub = self.children[i].learning_nodes();
            let ghost old_res = result@;
            let ghost sub_view = sub@;
            result.append(&mut sub);
            proof {
                assert(result@ == old_res + sub_view);
                lemma_nodes_of_append(old_res, sub_view);
            }
        }
        proof {
            assert(self.children@.take(n as int) =~= self.children@);
        }
        result
    }

    pub fn is_leaf(&self) -> (r: bool)
        ensures
            r == (self.children@.len() == 0),
    {
        self.children.len() == 0
    }

    pub fn is_learning(&self) -> (r: bool)
        ensures
            r == (self.node_type == NodeType::Learning),
    {
        match self.node_type {
            NodeType::Learning => true,
            NodeType::Directory => false,
        }
    }
}

impl CategoryForest {
    /// The first node, in preorder over the roots in turn, with this id.
    pub fn find(&self, id: i64) -> (r: Option<&CategoryNode>)
        ensures
            r matches Some(m) ==> first_with_id(collect_seq(self.roots@, any_node()), id) == Some(*m),
            r is None ==> first_with_id(collect_seq(self.roots@, any_node()), id) is None,
    {
        let n = self.roots.len();
        for i in 0..n
            invariant
                n == self.roots@.len(),
                first_with_id(collect_seq(self.roots@.take(i as int), any_node()), id) is None,
        {
            proof {
                lemma_collect_seq_step(self.roots@, i as int, any_node());
                lemma_first_with_id_append(collect_seq(self.roots@.take(i as int), any_node()), collect(self.roots@[i as int], any_node()), id);
            }
            match self.roots[i].find(id) {
                Some(found) => {
                    proof {
                        let pre = collect_seq(self.roots@.take(i + 1), any_node());
                        let post = collect_seq(self.roots@.skip(i + 1), any_node());
                        lemma_collect_seq_split(self.roots@, i + 1, any_node());
                        lemma_first_with_id_append(pre, post, id);
                    }
                    return Some(found);
                },
                None => {},
            }
        }
        proof {
            assert(self.roots@.take(n as int) =~= self.roots@);
        }
        None
    }

    /// The first node, in preorder over the roots in turn, with this id, for
    /// changing in place.
    pub fn find_mut(&mut self, id: i64) -> (r: Option<&mut CategoryNode>)
        ensures
            r matches Some(m) ==> {
                &&& first_with_id(collect_seq(old(self).roots@, any_node()), id) == Some(*m)
                &&& final(self).roots@.len() == old(self).roots@.len()
                &&& exists|k: int| #![trigger old(self).roots@[k]] 0 <= k < old(self).roots@.len()
                    && first_with_id(collect_seq(old(self).roots@.take(k), any_node()), id) is None
                    && first_with_id(preorder(old(self).roots@[k]), id) is Some
                    && (forall|j: int| 0 <= j < old(self).roots@.len() && j != k ==> #[trigger] final(self).roots@[j] == old(self).roots@[j])
                    && replaced(old(self).roots@[k], final(self).roots@[k], id, *final(m))
            },
            r is None ==> first_with_id(collect_seq(old(self).roots@, any_node()), id) is None && *final(self) == *old(self),
    {
        let n = self.roots.len();
        let mut i: usize = 0;
        while i < n
            invariant
                n == self.roots@.len(),
                i <= n,
                *self == *old(self),
                first_with_id(collect_seq(self.roots@.take(i as int), any_node()), id) is None,
            decreases n - i,
        {
            proof {
                lemma_collect_seq_step(self.roots@, i as int, any_node());
                lemma_first_with_id_append(collect_seq(self.roots@.take(i as int), any_node()), collect(self.roots@[i as int], any_node()), id);
            }
            if self.roots[i].find(id).is_some() {
                proof {
                    let pre = collect_seq(self.roots@.take(i + 1), any_node());
                    let post = collect_seq(self.roots@.skip(i + 1), any_node());
                    lemma_collect_seq_split(self.roots@, i + 1, any_node());
                    lemma_first_with_id_append(pre, post, id);
                }
                return self.roots[i].find_mut(id);
            }
            i = i + 1;
        }
        proof {
            assert(self.roots@.take(n as int) =~= self.roots@);
        }
        None
    }

    /// The first node, in preorder over the roots in turn, with this path.
    pub fn find_by_path(&self, path: &str) -> (r: Option<&CategoryNode>)
        ensures
            r matches Some(m) ==> first_with_path(collect_seq(self.roots@, any_node()), path@) == Some(*m),
            r is None ==> first_with_path(collect_seq(self.roots@, any_node()), path@) is None,
    {
        let n = self.roots.len();
        for i in 0..n
            invariant
                n == self.roots@.len(),
                first_with_path(collect_seq(self.roots@.take(i as int), any_node()), path@) is None,
        {
            proof {
                lemma_collect_seq_step(self.roots@, i as int, any_node());
                lemma_first_with_path_append(collect_seq(self.roots@.take(i as int), any_node()), collect(self.roots@[i as int], any_node()), path@);
            }
            match self.roots[i].find_by_path(path) {
                Some(found) => {
                    proof {
                        let pre = collect_seq(self.roots@.take(i + 1), any_node());
                        let post = collect_seq(self.roots@.skip(i + 1), any_node());
                        lemma_collect_seq_split(self.roots@, i + 1, any_node());
                        lemma_first_with_path_append(pre, post, path@);
                    }
                    return Some(found);
                },
                None => {},
            }
        }
        proof {
            assert(self.roots@.take(n as int) =~= self.roots@);
        }
        None
    }

    /// Every node of the forest, root by root, each in preorder.
    pub fn all_nodes(&self) -> (r: Vec<&CategoryNode>)
        ensures
            nodes_of(r@) == collect_seq(self.roots@, any_node()),
    {
        let mut result: Vec<&CategoryNode> = Vec::new();
        let n = self.roots.len();
        proof {
            assert(nodes_of(result@) =~= collect_seq(self.roots@.take(0), any_node()));
        }
        for i in 0..n
            invariant
                n == self.roots@.len(),
                nodes_of(result@) == collect_seq(self.roots@.take(i as int), any_node()),
        {
            proof {
                lemma_collect_seq_step(self.roots@, i as int, any_node());
            }
            let mut sub = self.roots[i].collect_all();
            let ghost old_res = result@;
            let ghost sub_view = sub@;
            result.append(&mut sub);
            proof {
                assert(result@ == old_res + sub_view);
                lemma_nodes_of_append(old_res, sub_view);
            }
        }
        proof {
            assert(self.roots@.take(n as int) =~= self.roots@);
        }
        result
    }

    /// The leaves of the forest, root by root, each in preorder.
    pub fn leaf_nodes(&self) -> (r: Vec<&CategoryNode>)
        ensures
            nodes_of(r@) == collect_seq(self.roots@, leaf_node()),
    {
        let mut result: Vec<&CategoryNode> = Vec::new();
        let n = self.roots.len();
        proof {
            assert(nodes_of(result@) =~= collect_seq(self.roots@.take(0), leaf_node()));
        }
        for i in 0..n
            invariant
                n == self.roots@.len(),
                nodes_of(result@) == collect_seq(self.roots@.take(i as int), leaf_node()),
        {
            proof {
                lemma_collect_seq_step(self.roots@, i as int, leaf_node());
            }
            let mut sub = self.roots[i].leaf_nodes();
            let ghost old_res = result@;
            let ghost sub_view = sub@;
            result.append(&mut sub);
            proof {
                assert(result@ == old_res + sub_view);
                lemma_nodes_of_append(old_res, sub_view);
            }
        }
        proof {
            assert(self.roots@.take(n as int) =~= self.roots@);
        }
        result
    }

    /// The learning nodes of the forest, root by root, each in preorder.
    pub fn learning_nodes(&self) -> (r: Vec<&CategoryNode>)
        ensures
            nodes_of(r@) == collect_seq(self.roots@, learning_node()),
    {
        let mut result: Vec<&CategoryNode> = Vec::new();
        let n = self.roots.len();
        proof {
            assert(nodes_of(result@) =~= collect_seq(self.roots@.take(0), learning_node()));
        }
        for i in 0..n
            invariant
                n == self.roots@.len(),
                nodes_of(result@) == collect_seq(self.roots@.take(i as int), learning_node()),
        {
            proof {
                lemma_collect_seq_step(self.roots@, i as int, learning_node());
            }
            let mut sub = self.roots[i].learning_nodes();
            let ghost old_res = result@;
            let ghost sub_view = sub@;
            result.append(&mut sub);
            proof {
                assert(result@ == old_res + sub_view);
                lemma_nodes_of_append(old_res, sub_view);
            }
        }
        proof {
            assert(self.roots@.take(n as int) =~= self.roots@);
        }
        result
    }
}

} // verus!
