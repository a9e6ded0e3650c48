//! Which entries of an Obsidian vault become categories.
use vstd::prelude::*;
use crate::text::{chars_of, ends_with_chars, has_suffix, lowercase_of, slice_chars, string_of, to_lowercase};

verus! {

pub struct VaultEntry {
    pub name: String,
    pub relative_path: String,
    pub is_dir: bool,
}

/// `s` with every trailing `.md` removed.
pub open spec fn strip_md(s: Seq<char>) -> Seq<char>
    decreases s.len(),
{
    if has_suffix(s, seq!['.', 'm', 'd']) { strip_md(s.take(s.len() - 3)) } else { s }
}

/// A file name ends in `.md` in any letter case.
pub open spec fn is_markdown_name(name: Seq<char>) -> bool {
    has_suffix(lowercase_of(name), seq!['.', 'm', 'd'])
}

/// The entry a vault path gives, if any: hidden names and the vault itself
/// give none; a directory gives itself; a Markdown file gives its name and
/// path without the `.md` ending; other files give none.
pub open spec fn entry_for(name: Seq<char>, relative: Seq<char>, is_dir: bool) -> Option<(Seq<char>, Seq<char>, bool)> {
    if name.len() > 0 && name[0] == '.' {
        None
    } else if relative.len() == 0 {
        None
    } else if is_dir {
        Some((name, relative, true))
    } else if is_markdown_name(name) {
        Some((strip_md(name), strip_md(relative), false))
    } else {
        None
    }
}

pub fn is_markdown_file(name: &str) -> (r: bool)
    ensures
        r == is_markdown_name(name@),
{
    let lower = to_lowercase(name);
    let cs = chars_of(lower.as_str());
    let md: Vec<char> = vec!['.', 'm', 'd'];
    ends_with_chars(&cs, &md)
}

fn strip_md_chars(s: &Vec<char>) -> (r: Vec<char>)
    ensures
        r@ == strip_md(s@),
{
    let md: Vec<char> = vec!['.', 'm', 'd'];
    let mut cur = slice_chars(s, 0, s.len());
    proof {
        assert(cur@ =~= s@);
    }
    while ends_with_chars(&cur, &md)
        invariant
            md@ == seq!['.', 'm', 'd'],
            strip_md(cur@) == strip_md(s@),
        decreases cur@.len(),
    {
        let n = cur.len();
        let next = slice_chars(&cur, 0, n - 3);
        proof {
            assert(next@ =~= cur@.take(n - 3));
        }
        cur = next;
    }
    cur
}

/// The entry for one walked path, given its file name, its path relative to
/// the vault and whether it is a directory.
pub fn vault_entry(name: &str, relative: &str, is_dir: bool) -> (r: Option<VaultEntry>)
    ensures
        match (r, entry_for(name@, relative@, is_dir)) {
            (None, None) => true,
            (Some(e), Some((n, p, d))) => e.name@ == n && e.relative_path@ == p && e.is_dir == d,
            _ => false,
        },
{
    let name_cs = chars_of(name);
    let rel_cs = chars_of(relative);
    if name_cs.len() > 0 && name_cs[0] == '.' {
        return None;
    }
    if rel_cs.len() == 0 {
        return None;
    }
    if is_dir {
        return Some(VaultEntry { name: name.to_string(), relative_path: relative.to_string(), is_dir: true });
    }
    if is_markdown_file(name) {
        let stem = strip_md_chars(&name_cs);
        let rel = strip_md_chars(&rel_cs);
        return Some(VaultEntry { name: string_of(&stem), relative_path: string_of(&rel), is_dir: false });
    }
    None
}

} // verus!
