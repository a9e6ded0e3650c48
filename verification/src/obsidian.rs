//! Which vault paths an import skips: `.timeignore` rules and their matching.
use vstd::prelude::*;
use crate::text::{chars_eq, chars_of, string_of, trim_chars, trim_ws, contains_chars, ends_with_chars, has_char, has_infix, has_prefix, has_suffix,
    slice_chars, starts_with_chars};

verus! {

pub struct TimeignoreRules {
    pub patterns: Vec<String>,
}

/// What an import found: the directories it created and the paths it skipped.
pub struct ImportResult {
    pub created_dirs: Vec<String>,
    pub skipped_paths: Vec<String>,
}

/// The pattern with every trailing `/` removed.
pub open spec fn trim_slashes(p: Seq<char>) -> Seq<char>
    decreases p.len(),
{
    if p.len() > 0 && p.last() == '/' {
        trim_slashes(p.drop_last())
    } else {
        p
    }
}

/// Whether a vault-relative path falls under one rule pattern.
/// `dir/**` covers what begins with `dir`; `dir/*` covers what begins with
/// `dir` and has no further `/` after the character that follows; `*suffix`
/// covers what ends with `suffix`; any other pattern covers the paths it
/// occurs in. Trailing slashes of the pattern are ignored.
pub open spec fn pattern_matches(path: Seq<char>, pattern: Seq<char>) -> bool {
    let pat = trim_slashes(pattern);
    if has_suffix(pat, seq!['/', '*', '*']) {
        has_prefix(path, pat.take(pat.len() - 3))
    } else if has_suffix(pat, seq!['/', '*']) {
        let prefix = pat.take(pat.len() - 2);
        has_prefix(path, prefix) && !path.skip(prefix.len() as int + 1).contains('/')
    } else if pat.len() > 0 && pat[0] == '*' {
        has_suffix(path, pat.skip(1))
    } else {
        has_infix(path, pat)
    }
}

/// The checks of a `dir/*` pattern slice past the prefix: they need a
/// one-byte character right after it.
pub open spec fn pattern_checkable(path: Seq<char>, pattern: Seq<char>) -> bool {
    let pat = trim_slashes(pattern);
    !has_suffix(pat, seq!['/', '*', '*']) && has_suffix(pat, seq!['/', '*'])
        && has_prefix(path, pat.take(pat.len() - 2))
        ==> path.len() > pat.len() - 2 && (path[pat.len() - 2] as u32) < 0x80
}

/// No pattern before `k` covers `path`.
pub open spec fn unmatched_before(patterns: Seq<String>, path: Seq<char>, k: int) -> bool {
    forall|j: int| 0 <= j < k ==> !pattern_matches(path, #[trigger] patterns[j]@)
}

/// Every pattern that is tried on `path`, in order until one covers it, can
/// be checked: the patterns after the first that covers it are never tried.
pub open spec fn rules_checkable(patterns: Seq<String>, path: Seq<char>) -> bool {
    forall|k: int| 0 <= k < patterns.len() && unmatched_before(patterns, path, k)
        ==> pattern_checkable(path, #[trigger] patterns[k]@)
}

proof fn lemma_trim_slashes_end(p: Seq<char>)
    ensures
        trim_slashes(p).len() == 0 || trim_slashes(p).last() != '/',
    decreases p.len(),
{
    if p.len() > 0 && p.last() == '/' {
        lemma_trim_slashes_end(p.drop_last());
    }
}

fn trim_slashes_exec(p: &Vec<char>) -> (r: Vec<char>)
    ensures
        r@ == trim_slashes(p@),
{
    let mut end = p.len();
    proof {
        assert(p@.take(end as int) =~= p@);
    }
    while end > 0 && p[end - 1] == '/'
        invariant
            end <= p@.len(),
            trim_slashes(p@.take(end as int)) == trim_slashes(p@),
        decreases end,
    {
        proof {
            assert(p@.take(end as int).drop_last() =~= p@.take(end - 1));
        }
        end = end - 1;
    }
    proof {
        assert(p@.take(end as int) =~= p@.subrange(0, end as int));
    }
    slice_chars(p, 0, end)
}

/// The pieces of `s` between line feeds, the last one included even when empty.
pub open spec fn split_lines(s: Seq<char>) -> Seq<Seq<char>>
    decreases s.len(),
{
    if s.len() == 0 {
        seq![Seq::empty()]
    } else {
        let prev = split_lines(s.drop_last());
        if s.last() == '\n' {
            prev.push(Seq::empty())
        } else {
            prev.update(prev.len() - 1, prev.last().push(s.last()))
        }
    }
}

proof fn lemma_split_lines_nonempty(s: Seq<char>)
    ensures
        split_lines(s).len() >= 1,
    decreases s.len(),
{
    if s.len() > 0 {
        lemma_split_lines_nonempty(s.drop_last());
    }
}

/// A trimmed line that is a rule: not empty and not a `#` comment.
pub open spec fn is_rule_line(l: Seq<char>) -> bool {
    l.len() > 0 && l[0] != '#'
}

/// The rules a `.timeignore` text holds: its lines, trimmed, without empty
/// lines and comments, in order.
pub open spec fn rule_lines(content: Seq<char>) -> Seq<Seq<char>> {
    split_lines(content).map_values(|l: Seq<char>| trim_ws(l)).filter(|l: Seq<char>| is_rule_line(l))
}

/// The views of a sequence of strings.
pub open spec fn texts(s: Seq<String>) -> Seq<Seq<char>> {
    s.map_values(|x: String| x@)
}

fn ascii_one_byte(c: char) -> (r: bool)
    ensures
        r == ((c as u32) < 0x80),
{
    (c as u32) < 0x80
}

impl TimeignoreRules {
    /// The rules used when a vault has no `.timeignore` file.
    pub fn default_rules() -> (r: TimeignoreRules)
        ensures
            r.patterns@.len() == 9,
            r.patterns@[0]@ == ".obsidian/"@,
            r.patterns@[1]@ == ".trash/"@,
            r.patterns@[2]@ == ".git/"@,
            r.patterns@[3]@ == ".templates/"@,
            r.patterns@[4]@ == "attachments/"@,
            r.patterns@[5]@ == "附件/"@,
            r.patterns@[6]@ == "images/"@,
            r.patterns@[7]@ == "*.tmp"@,
            r.patterns@[8]@ == "*.bak"@,
    {
        let mut patterns: Vec<String> = Vec::new();
        patterns.push(".obsidian/".to_string());
        patterns.push(".trash/".to_string());
        patterns.push(".git/".to_string());
        patterns.push(".templates/".to_string());
        patterns.push("attachments/".to_string());
        patterns.push("附件/".to_string());
        patterns.push("images/".to_string());
        patterns.push("*.tmp".to_string());
        patterns.push("*.bak".to_string());
        TimeignoreRules { patterns }
    }

    /// The rules a `.timeignore` file holds.
    pub fn from_content(content: &str) -> (r: TimeignoreRules)
        ensures
            texts(r.patterns@) == rule_lines(content@),
    {
        let cs = chars_of(content);
        let mut patterns: Vec<String> = Vec::new();
        let mut line: Vec<char> = Vec::new();
        let ghost f = |l: Seq<char>| is_rule_line(l);
        let ghost t = |l: Seq<char>| trim_ws(l);
        proof {
            assert(split_lines(cs@.take(0)) =~= seq![Seq::<char>::empty()]) by {
                assert(cs@.take(0).len() == 0);
            }
            assert(split_lines(cs@.take(0)).drop_last().map_values(t).filter(f) =~= Seq::<Seq<char>>::empty()) by {
                reveal(Seq::filter);
            }
            assert(texts(patterns@) =~= Seq::<Seq<char>>::empty());
        }
        for i in 0..cs.len()
            invariant
                cs@ == content@,
                line@ == split_lines(cs@.take(i as int)).last(),
                split_lines(cs@.take(i as int)).len() >= 1,
                texts(patterns@) == split_lines(cs@.take(i as int)).drop_last().map_values(t).filter(f),
                f == (|l: Seq<char>| is_rule_line(l)),
                t == (|l: Seq<char>| trim_ws(l)),
        {
            let ghost prev = split_lines(cs@.take(i as int));
            proof {
                assert(cs@.take(i + 1).drop_last() =~= cs@.take(i as int));
                assert(cs@.take(i + 1).last() == cs@[i as int]);
            }
            if cs[i] == '\n' {
                let trimmed = trim_chars(&line);
                let ghost old_p = patterns@;
                if trimmed.len() > 0 && trimmed[0] != '#' {
                    patterns.push(string_of(&trimmed));
                }
                proof {
                    let cur = split_lines(cs@.take(i + 1));
                    assert(cur == prev.push(Seq::empty()));
                    assert(cur.drop_last() =~= prev);
                    assert(prev =~= prev.drop_last().push(prev.last()));
                    assert(prev.map_values(t) =~= prev.drop_last().map_values(t).push(t(prev.last())));
                    prev.drop_last().map_values(t).lemma_filter_push(t(prev.last()), f);
                    assert(texts(patterns@) =~= cur.drop_last().map_values(t).filter(f));
                }
                line = Vec::new();
            } else {
                line.push(cs[i]);
                proof {
                    let cur = split_lines(cs@.take(i + 1));
                    assert(cur.drop_last() =~= prev.drop_last());
                }
            }
        }
        let trimmed = trim_chars(&line);
        if trimmed.len() > 0 && trimmed[0] != '#' {
            patterns.push(string_of(&trimmed));
        }
        proof {
            let all = split_lines(cs@);
            assert(cs@.take(cs@.len() as int) =~= cs@);
            assert(all =~= all.drop_last().push(all.last()));
            assert(all.map_values(t) =~= all.drop_last().map_values(t).push(t(all.last())));
            all.drop_last().map_values(t).lemma_filter_push(t(all.last()), f);
            assert(texts(patterns@) =~= rule_lines(content@));
        }
        TimeignoreRules { patterns }
    }

    /// Whether a path falls under one pattern.
    pub fn matches_pattern(path: &str, pattern: &str) -> (r: bool)
        requires
            pattern_checkable(path@, pattern@),
        ensures
            r == pattern_matches(path@, pattern@),
    {
        let path_cs = chars_of(path);
        let pat_cs = chars_of(pattern);
        let pat = trim_slashes_exec(&pat_cs);
        let n = pat.len();
        let star2: Vec<char> = vec!['/', '*', '*'];
        let star1: Vec<char> = vec!['/', '*'];
        if ends_with_chars(&pat, &star2) {
            let prefix = slice_chars(&pat, 0, n - 3);
            proof { assert(pat@.take(n - 3) =~= pat@.subrange(0, n - 3)); }
            return starts_with_chars(&path_cs, &prefix);
        }
        if ends_with_chars(&pat, &star1) {
            let prefix = slice_chars(&pat, 0, n - 2);
            proof { assert(pat@.take(n - 2) =~= pat@.subrange(0, n - 2)); }
            if !starts_with_chars(&path_cs, &prefix) {
                return false;
            }
            let plen = prefix.len();
            if !ascii_one_byte(path_cs[plen]) {
                return false;
            }
            let rest = slice_chars(&path_cs, plen + 1, path_cs.len());
            proof { assert(path_cs@.subrange(plen + 1, path_cs@.len() as int) =~= path_cs@.skip(plen + 1)); }
            return !has_char(&rest, '/');
        }
        if n > 0 && pat[0] == '*' {
            let suffix = slice_chars(&pat, 1, n);
            proof { assert(pat@.subrange(1, n as int) =~= pat@.skip(1)); }
            return ends_with_chars(&path_cs, &suffix);
        }
        if n > 0 && pat[n - 1] == '/' {
            proof { lemma_trim_slashes_end(pat_cs@); }
            let cut = slice_chars(&pat, 0, n - 1);
            return starts_with_chars(&path_cs, &pat) || chars_eq(&path_cs, &cut);
        }
        contains_chars(&path_cs, &pat)
    }

    /// Whether every pattern tried on `path`, in order until one covers
    /// it, can be checked on it.
    pub fn checkable(&self, path: &str) -> (r: bool)
        ensures
            r == rules_checkable(self.patterns@, path@),
    {
        let path_cs = chars_of(path);
        let n = self.patterns.len();
        for k in 0..n
            invariant
                n == self.patterns@.len(),
                path_cs@ == path@,
                unmatched_before(self.patterns@, path@, k as int),
                forall|j: int| 0 <= j < k ==> pattern_checkable(path@, #[trigger] self.patterns@[j]@),
        {
            let pat_cs = chars_of(self.patterns[k].as_str());
            let pat = trim_slashes_exec(&pat_cs);
            let m = pat.len();
            let star2: Vec<char> = vec!['/', '*', '*'];
            let star1: Vec<char> = vec!['/', '*'];
            if !ends_with_chars(&pat, &star2) && ends_with_chars(&pat, &star1) {
                let prefix = slice_chars(&pat, 0, m - 2);
                proof { assert(pat@.take(m - 2) =~= pat@.subrange(0, m - 2)); }
                if starts_with_chars(&path_cs, &prefix) {
                    if path_cs.len() <= m - 2 || !ascii_one_byte(path_cs[m - 2]) {
                        proof {
                            assert(!pattern_checkable(path@, self.patterns@[k as int]@));
                        }
                        return false;
                    }
                }
            }
            assert(pattern_checkable(path@, self.patterns@[k as int]@));
            if Self::matches_pattern(path, self.patterns[k].as_str()) {
                proof {
                    assert forall|i: int| 0 <= i < self.patterns@.len() && unmatched_before(self.patterns@, path@, i)
                        implies pattern_checkable(path@, #[trigger] self.patterns@[i]@) by {
                        if i > k {
                            assert(pattern_matches(path@, self.patterns@[k as int]@));
                        }
                    }
                }
                return true;
            }
        }
        true
    }

    /// Whether any rule covers the path.
    pub fn should_ignore(&self, path: &str) -> (r: bool)
        requires
            rules_checkable(self.patterns@, path@),
        ensures
            r == exists|k: int| 0 <= k < self.patterns@.len() && pattern_matches(path@, #[trigger] self.patterns@[k]@),
    {
        let n = self.patterns.len();
        for k in 0..n
            invariant
                n == self.patterns@.len(),
                rules_checkable(self.patterns@, path@),
                unmatched_before(self.patterns@, path@, k as int),
        {
            assert(pattern_checkable(path@, self.patterns@[k as int]@));
            if Self::matches_pattern(path, self.patterns[k].as_str()) {
                return true;
            }
        }
        false
    }
}

impl ImportResult {
    pub fn new() -> (r: ImportResult)
        ensures
            r.created_dirs@.len() == 0,
            r.skipped_paths@.len() == 0,
    {
        ImportResult { created_dirs: Vec::new(), skipped_paths: Vec::new() }
    }

    /// Records one vault entry, by its vault-relative path: a path the rules
    /// cover is skipped, a directory is to be created, anything else is left.
    /// Gives whether the entry is a directory to create.
    pub fn record_entry(&mut self, rules: &TimeignoreRules, relative: &str, is_dir: bool) -> (r: bool)
        requires
            rules_checkable(rules.patterns@, relative@),
        ensures
            ({
                let ignored = exists|k: int| 0 <= k < rules.patterns@.len()
                    && pattern_matches(relative@, #[trigger] rules.patterns@[k]@);
                &&& r == (!ignored && is_dir)
                &&& texts(final(self).skipped_paths@) == if ignored { texts(old(self).skipped_paths@).push(relative@) } else { texts(old(self).skipped_paths@) }
                &&& texts(final(self).created_dirs@) == if r { texts(old(self).created_dirs@).push(relative@) } else { texts(old(self).created_dirs@) }
            }),
    {
        if rules.should_ignore(relative) {
            let ghost before = self.skipped_paths@;
            self.skipped_paths.push(relative.to_string());
            proof { assert(texts(self.skipped_paths@) =~= texts(before).push(relative@)); }
            return false;
        }
        if is_dir {
            let ghost before = self.created_dirs@;
            self.created_dirs.push(relative.to_string());
            proof { assert(texts(self.created_dirs@) =~= texts(before).push(relative@)); }
            return true;
        }
        false
    }
}

} // verus!
