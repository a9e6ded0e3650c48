//! Which vault entries become new categories, and under which parent.
use vstd::prelude::*;
use crate::data::models::{Category, CategoryInsert, NodeType};
use crate::learning::vault::VaultEntry;
use crate::text::{chars_of, owned, slice_chars, str_eq, string_of};

verus! {

/// The part of a path before its last slash, where it has one.
pub open spec fn parent_part(p: Seq<char>) -> Option<Seq<char>>
    decreases p.len(),
{
    if p.len() == 0 {
        None
    } else if p.last() == '/' {
        Some(p.drop_last())
    } else {
        parent_part(p.drop_last())
    }
}

pub(crate) fn parent_of(p: &str) -> (r: Option<String>)
    ensures
        match (r, parent_part(p@)) {
            (Some(a), Some(b)) => a@ == b,
            (None, None) => true,
            _ => false,
        },
{
    let cs = chars_of(p);
    let mut j = cs.len();
    proof {
        assert(cs@.take(j as int) =~= cs@);
    }
    while j > 0 && cs[j - 1] != '/'
        invariant
            j <= cs@.len(),
            parent_part(cs@.take(j as int)) == parent_part(cs@),
        decreases j,
    {
        proof {
            assert(cs@.take(j as int).drop_last() =~= cs@.take(j - 1));
        }
        j = j - 1;
    }
    if j == 0 {
        proof {
            assert(cs@.take(0) =~= Seq::<char>::empty());
        }
        None
    } else {
        proof {
            assert(cs@.take(j as int).drop_last() =~= cs@.take(j - 1));
        }
        Some(string_of(&slice_chars(&cs, 0, j - 1)))
    }
}

/// The id of the first category with this path.
pub open spec fn id_with_path(cats: Seq<Category>, path: Seq<char>) -> Option<i64>
    decreases cats.len(),
{
    if cats.len() == 0 {
        None
    } else if cats[0].path@ == path {
        Some(cats[0].id)
    } else {
        id_with_path(cats.drop_first(), path)
    }
}

/// A category with this path is already there.
pub open spec fn path_taken(cats: Seq<Category>, path: Seq<char>) -> bool {
    exists|i: int| 0 <= i < cats.len() && #[trigger] cats[i].path@ == path
}

/// The category a vault entry adds, with the given parent: named and placed
/// as the entry, a directory or a learning node, marked as from Obsidian,
/// with no defaults of its own.
pub open spec fn insert_for(ins: CategoryInsert, entry: VaultEntry, parent: Option<i64>) -> bool {
    &&& ins.parent_id == parent
    &&& ins.name@ == entry.name@
    &&& ins.path@ == entry.relative_path@
    &&& ins.node_type == (if entry.is_dir { NodeType::Directory } else { NodeType::Learning })
    &&& ins.source matches Some(s) && s@ == "obsidian"@
    &&& ins.default_quality is None
    &&& ins.default_understanding_difficulty is None
    &&& ins.default_memory_difficulty is None
}

fn make_insert(entry: &VaultEntry, parent: Option<i64>) -> (r: CategoryInsert)
    ensures
        insert_for(r, *entry, parent),
{
    CategoryInsert {
        parent_id: parent,
        name: entry.name.clone(),
        path: entry.relative_path.clone(),
        node_type: if entry.is_dir { NodeType::Directory } else { NodeType::Learning },
        source: Some(owned("obsidian")),
        default_quality: None,
        default_understanding_difficulty: None,
        default_memory_difficulty: None,
    }
}

fn find_id(cats: &[Category], path: &str) -> (r: Option<i64>)
    ensures
        r == id_with_path(cats@, path@),
{
    let n = cats.len();
    let mut i: usize = 0;
    proof {
        assert(cats@.skip(0) =~= cats@);
    }
    while i < n
        invariant
            n == cats@.len(),
            i <= n,
            id_with_path(cats@.skip(i as int), path@) == id_with_path(cats@, path@),
        decreases n - i,
    {
        proof {
            assert(cats@.skip(i as int).drop_first() =~= cats@.skip(i + 1));
            assert(cats@.skip(i as int)[0] == cats@[i as int]);
        }
        if str_eq(cats[i].path.as_str(), path) {
            return Some(cats[i].id);
        }
        i = i + 1;
    }
    proof {
        assert(cats@.skip(n as int) =~= Seq::<Category>::empty());
    }
    None
}

/// What importing one vault entry adds, given the categories there now:
/// nothing where its path is taken; else the entry as a category under the
/// first category whose path is the entry's path up to its last slash.
pub fn import_entry(existing: &[Category], entry: &VaultEntry) -> (r: Option<CategoryInsert>)
    ensures
        path_taken(existing@, entry.relative_path@) ==> r is None,
        !path_taken(existing@, entry.relative_path@) ==> (r matches Some(ins) && insert_for(
            ins,
            *entry,
            match parent_part(entry.relative_path@) {
                Some(pp) => id_with_path(existing@, pp),
                None => None,
            },
        )),
{
    let n = existing.len();
    for i in 0..n
        invariant
            n == existing@.len(),
            forall|j: int| 0 <= j < i ==> #[trigger] existing@[j].path@ != entry.relative_path@,
    {
        if str_eq(existing[i].path.as_str(), entry.relative_path.as_str()) {
            return None;
        }
    }
    let parent = match parent_of(entry.relative_path.as_str()) {
        Some(pp) => find_id(existing, pp.as_str()),
        None => None,
    };
    Some(make_insert(entry, parent))
}

} // verus!
