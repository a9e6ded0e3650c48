//! The card tree of the interface and which of its folders are expanded.
use vstd::prelude::*;
use crate::text::{chars_of, has_prefix, starts_with_chars, str_eq};

verus! {

pub struct TreeNode {
    pub name: String,
    pub path: String,
    pub is_card: bool,
    pub children: Vec<TreeNode>,
}

/// Which folder paths are expanded; a path never set counts as expanded.
pub struct TreeView {
    expanded: Vec<(String, bool)>,
}

/// The map that a list of distinct entries holds.
pub open spec fn entries_map(s: Seq<(String, bool)>) -> Map<Seq<char>, bool>
    decreases s.len(),
{
    if s.len() == 0 {
        Map::empty()
    } else {
        entries_map(s.drop_last()).insert(s.last().0@, s.last().1)
    }
}

pub open spec fn keys_distinct(s: Seq<(String, bool)>) -> bool {
    forall|i: int, j: int| 0 <= i < s.len() && 0 <= j < s.len() && i != j ==> #[trigger] s[i].0@ != #[trigger] s[j].0@
}

proof fn lemma_entries_map(s: Seq<(String, bool)>)
    requires
        keys_distinct(s),
    ensures
        forall|k: Seq<char>| entries_map(s).contains_key(k) <==> exists|i: int| 0 <= i < s.len() && #[trigger] s[i].0@ == k,
        forall|i: int| 0 <= i < s.len() ==> entries_map(s)[#[trigger] s[i].0@] == s[i].1,
    decreases s.len(),
{
    if s.len() > 0 {
        let p = s.drop_last();
        assert(keys_distinct(p));
        lemma_entries_map(p);
        assert forall|k: Seq<char>| entries_map(s).contains_key(k) implies exists|i: int| 0 <= i < s.len() && #[trigger] s[i].0@ == k by {
            if k != s.last().0@ {
                assert(entries_map(p).contains_key(k));
                let i = choose|i: int| 0 <= i < p.len() && #[trigger] p[i].0@ == k;
                assert(s[i] == p[i]);
                assert(0 <= i < s.len() && s[i].0@ == k);
            } else {
                assert(s[s.len() - 1].0@ == k);
            }
        }
        assert forall|k: Seq<char>| (exists|i: int| 0 <= i < s.len() && #[trigger] s[i].0@ == k) implies entries_map(s).contains_key(k) by {
            let i = choose|i: int| 0 <= i < s.len() && #[trigger] s[i].0@ == k;
            if i < s.len() - 1 {
                assert(p[i] == s[i]);
            }
        }
        assert forall|i: int| 0 <= i < s.len() implies entries_map(s)[#[trigger] s[i].0@] == s[i].1 by {
            if i < s.len() - 1 {
                assert(p[i] == s[i]);
                assert(s[i].0@ != s[s.len() - 1].0@);
            }
        }
    }
}

proof fn lemma_entries_update(s: Seq<(String, bool)>, i: int, e: (String, bool))
    requires
        keys_distinct(s),
        0 <= i < s.len(),
        s[i].0@ == e.0@,
    ensures
        keys_distinct(s.update(i, e)),
        entries_map(s.update(i, e)) == entries_map(s).insert(e.0@, e.1),
{
    let t = s.update(i, e);
    assert(keys_distinct(t)) by {
        assert forall|a: int, b: int| 0 <= a < t.len() && 0 <= b < t.len() && a != b implies #[trigger] t[a].0@ != #[trigger] t[b].0@ by {
            assert(t[a].0@ == s[a].0@);
            assert(t[b].0@ == s[b].0@);
        }
    }
    lemma_entries_map(s);
    lemma_entries_map(t);
    let m1 = entries_map(s).insert(e.0@, e.1);
    let m2 = entries_map(t);
    assert forall|k: Seq<char>| m2.contains_key(k) <==> m1.contains_key(k) by {
        if m2.contains_key(k) {
            let j = choose|j: int| 0 <= j < t.len() && #[trigger] t[j].0@ == k;
            assert(s[j].0@ == k);
            assert(entries_map(s).contains_key(k));
        }
        if m1.contains_key(k) {
            if k == e.0@ {
                assert(t[i].0@ == k);
            } else {
                let j = choose|j: int| 0 <= j < s.len() && #[trigger] s[j].0@ == k;
                assert(t[j].0@ == k);
            }
        }
    }
    assert forall|k: Seq<char>| #[trigger] m2.contains_key(k) implies m2[k] == m1[k] by {
        let j = choose|j: int| 0 <= j < t.len() && #[trigger] t[j].0@ == k;
        assert(m2[t[j].0@] == t[j].1);
        if j != i {
            assert(t[j] == s[j]);
            assert(entries_map(s)[s[j].0@] == s[j].1);
        }
    }
    assert(m2 =~= m1);
}

/// The paths of the folders among these nodes and, below each folder, its
/// children, at any depth.
pub open spec fn folder_paths(nodes: Seq<TreeNode>) -> Set<Seq<char>>
    decreases nodes,
{
    if nodes.len() == 0 {
        Set::empty()
    } else {
        let rest = folder_paths(nodes.drop_last());
        let n = nodes.last();
        if n.is_card { rest } else { rest.insert(n.path@).union(folder_paths(n.children@)) }
    }
}

/// The expansion map after opening the way to `target`: the first node whose
/// path begins `target` is opened if it is a folder, and the walk goes on
/// among its children; a card there ends it.
pub open spec fn expand_toward(m: Map<Seq<char>, bool>, nodes: Seq<TreeNode>, target: Seq<char>) -> Map<Seq<char>, bool>
    decreases nodes,
{
    if nodes.len() == 0 {
        m
    } else if has_prefix(target, nodes[0].path@) {
        if nodes[0].is_card { m } else { expand_toward(m.insert(nodes[0].path@, true), nodes[0].children@, target) }
    } else {
        expand_toward(m, nodes.drop_first(), target)
    }
}

impl View for TreeView {
    type V = Map<Seq<char>, bool>;

    closed spec fn view(&self) -> Map<Seq<char>, bool> {
        entries_map(self.expanded@)
    }
}

impl TreeView {
    pub closed spec fn wf(&self) -> bool {
        keys_distinct(self.expanded@)
    }

    /// Whether a path shows expanded.
    pub open spec fn shows_expanded(&self, path: Seq<char>) -> bool {
        !self@.contains_key(path) || self@[path]
    }

    pub fn default() -> (r: TreeView)
        ensures
            r.wf(),
            r@ == Map::<Seq<char>, bool>::empty(),
    {
        TreeView { expanded: Vec::new() }
    }

    fn lookup(&self, path: &str) -> (r: Option<bool>)
        requires
            self.wf(),
        ensures
            r == (if self@.contains_key(path@) { Some(self@[path@]) } else { None }),
    {
        proof { lemma_entries_map(self.expanded@); }
        let n = self.expanded.len();
        for i in 0..n
            invariant
                n == self.expanded@.len(),
                self.wf(),
                forall|j: int| 0 <= j < i ==> #[trigger] self.expanded@[j].0@ != path@,
        {
            if str_eq(self.expanded[i].0.as_str(), path) {
                proof {
                    lemma_entries_map(self.expanded@);
                    assert(entries_map(self.expanded@)[self.expanded@[i as int].0@] == self.expanded@[i as int].1);
                    assert(entries_map(self.expanded@).contains_key(path@));
                }
                return Some(self.expanded[i].1);
            }
        }
        proof {
            if entries_map(self.expanded@).contains_key(path@) {
                let j = choose|j: int| 0 <= j < self.expanded@.len() && #[trigger] self.expanded@[j].0@ == path@;
                assert(self.expanded@[j].0@ != path@);
            }
        }
        None
    }

    fn set(&mut self, path: &str, value: bool)
        requires
            old(self).wf(),
        ensures
            final(self).wf(),
            final(self)@ == old(self)@.insert(path@, value),
    {
        let n = self.expanded.len();
        let ghost old_entries = self.expanded@;
        for i in 0..n
            invariant
                n == self.expanded@.len(),
                self.expanded@ == old_entries,
                old(self).expanded@ == old_entries,
                keys_distinct(old_entries),
                forall|j: int| 0 <= j < i ==> #[trigger] self.expanded@[j].0@ != path@,
        {
            if str_eq(self.expanded[i].0.as_str(), path) {
                let entry = (path.to_string(), value);
                let ghost e = entry;
                assert(e.0@ == path@);
                self.expanded.set(i, entry);
                proof {
                    lemma_entries_update(old_entries, i as int, e);
                    assert(self.expanded@ == old_entries.update(i as int, e));
                }
                return;
            }
        }
        let entry = (path.to_string(), value);
        self.expanded.push(entry);
        proof {
            let s = self.expanded@;
            assert(s.drop_last() =~= old_entries);
            assert(keys_distinct(s));
        }
    }

    /// Flips whether a folder shows expanded.
    pub fn toggle(&mut self, path: &str)
        requires
            old(self).wf(),
        ensures
            final(self).wf(),
            final(self)@ == old(self)@.insert(path@, !old(self).shows_expanded(path@)),
    {
        let current = match self.lookup(path) {
            Some(v) => v,
            None => true,
        };
        self.set(path, !current);
    }

    /// Expands every folder of these trees.
    pub fn expand_all(&mut self, nodes: &[TreeNode])
        requires
            old(self).wf(),
        ensures
            final(self).wf(),
            final(self)@ == old(self)@.union_prefer_right(Map::new(|k: Seq<char>| folder_paths(nodes@).contains(k), |k: Seq<char>| true)),
        decreases nodes@,
    {
        let n = nodes.len();
        let ghost start = self@;
        proof {
            assert(start.union_prefer_right(Map::new(|k: Seq<char>| folder_paths(nodes@.take(0)).contains(k), |k: Seq<char>| true)) =~= start);
        }
        for i in 0..n
            invariant
                n == nodes@.len(),
                self.wf(),
                self@ == start.union_prefer_right(Map::new(|k: Seq<char>| folder_paths(nodes@.take(i as int)).contains(k), |k: Seq<char>| true)),
        {
            let ghost before = self@;
            proof {
                assert(nodes@.take(i + 1).drop_last() =~= nodes@.take(i as int));
                assert(nodes@.take(i + 1).last() == nodes@[i as int]);
            }
            if !nodes[i].is_card {
                self.set(nodes[i].path.as_str(), true);
                self.expand_all(nodes[i].children.as_slice());
                proof {
                    assert(self@ =~= start.union_prefer_right(Map::new(|k: Seq<char>| folder_paths(nodes@.take(i + 1)).contains(k), |k: Seq<char>| true)));
                }
            } else {
                proof {
                    assert(self@ =~= start.union_prefer_right(Map::new(|k: Seq<char>| folder_paths(nodes@.take(i + 1)).contains(k), |k: Seq<char>| true)));
                }
            }
        }
        proof {
            assert(nodes@.take(n as int) =~= nodes@);
        }
    }

    /// Expands the folders on the way to `target`.
    pub fn expand_to_path(&mut self, nodes: &[TreeNode], target: &str)
        requires
            old(self).wf(),
        ensures
            final(self).wf(),
            final(self)@ == expand_toward(old(self)@, nodes@, target@),
        decreases nodes@,
    {
        let target_cs = chars_of(target);
        let n = nodes.len();
        proof {
            assert(nodes@.skip(0) =~= nodes@);
        }
        for i in 0..n
            invariant
                n == nodes@.len(),
                target_cs@ == target@,
                *self == *old(self),
                self.wf(),
                expand_toward(self@, nodes@, target@) == expand_toward(self@, nodes@.skip(i as int), target@),
        {
            let path_cs = chars_of(nodes[i].path.as_str());
            proof {
                assert(nodes@.skip(i as int)[0] == nodes@[i as int]);
                assert(nodes@.skip(i as int).drop_first() =~= nodes@.skip(i + 1));
            }
            if starts_with_chars(&target_cs, &path_cs) {
                if !nodes[i].is_card {
                    self.set(nodes[i].path.as_str(), true);
                    self.expand_to_path(nodes[i].children.as_slice(), target);
                }
                return;
            }
        }
        proof {
            assert(nodes@.skip(n as int) =~= Seq::<TreeNode>::empty());
        }
    }

    /// Whether a path shows expanded; a path never set shows expanded.
    pub fn is_expanded(&self, path: &str) -> (r: bool)
        requires
            self.wf(),
        ensures
            r == self.shows_expanded(path@),
    {
        match self.lookup(path) {
            Some(v) => v,
            None => true,
        }
    }
}

} // verus!
