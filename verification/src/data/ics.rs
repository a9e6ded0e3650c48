//! The shape of iCalendar text as this crate reads and writes it: lines,
//! `KEY:value` fields found by the first line that begins with the key, and
//! comma-separated lists.
use vstd::prelude::*;
use crate::text::{chars_of, has_prefix, slice_chars, starts_with_chars};

verus! {

/// The pieces of `s` between occurrences of `sep`, in order; the last one
/// is there even when empty (`str::split` with a character).
pub open spec fn pieces(s: Seq<char>, sep: char) -> Seq<Seq<char>>
    decreases s.len(),
{
    if s.len() == 0 {
        seq![Seq::empty()]
    } else {
        let prev = pieces(s.drop_last(), sep);
        if s.last() == sep {
            prev.push(Seq::empty())
        } else {
            prev.update(prev.len() - 1, prev.last().push(s.last()))
        }
    }
}

/// A line without one trailing carriage return.
pub open spec fn strip_cr(l: Seq<char>) -> Seq<char> {
    if l.len() > 0 && l.last() == '\r' { l.drop_last() } else { l }
}

/// The lines `str::lines` yields: the pieces between line feeds, those
/// ended by a line feed without one carriage return before it, and the last
/// piece only when it is not empty.
pub open spec fn text_lines(s: Seq<char>) -> Seq<Seq<char>> {
    let p = pieces(s, '\n');
    let body = p.drop_last().map_values(|l: Seq<char>| strip_cr(l));
    if p.last().len() == 0 { body } else { body.push(p.last()) }
}

/// The characters each vector holds.
pub open spec fn views(v: Seq<Vec<char>>) -> Seq<Seq<char>> {
    v.map_values(|x: Vec<char>| x@)
}

/// What follows `key` on the first line that begins with it.
pub open spec fn field(lines: Seq<Seq<char>>, key: Seq<char>) -> Option<Seq<char>>
    decreases lines.len(),
{
    if lines.len() == 0 {
        None
    } else if has_prefix(lines[0], key) {
        Some(lines[0].skip(key.len() as int))
    } else {
        field(lines.drop_first(), key)
    }
}

/// The lines after the first one that begins with `marker`; none when no
/// line does.
pub open spec fn after_marker(lines: Seq<Seq<char>>, marker: Seq<char>) -> Seq<Seq<char>>
    decreases lines.len(),
{
    if lines.len() == 0 {
        Seq::empty()
    } else if has_prefix(lines[0], marker) {
        lines.drop_first()
    } else {
        after_marker(lines.drop_first(), marker)
    }
}

/// The lines before the first one that begins with `marker`; all of them
/// when no line does.
pub open spec fn before_marker(lines: Seq<Seq<char>>, marker: Seq<char>) -> Seq<Seq<char>>
    decreases lines.len(),
{
    if lines.len() == 0 {
        Seq::empty()
    } else if has_prefix(lines[0], marker) {
        Seq::empty()
    } else {
        seq![lines[0]] + before_marker(lines.drop_first(), marker)
    }
}

/// Each line followed by a line feed.
pub open spec fn join_lines(ls: Seq<Seq<char>>) -> Seq<char>
    decreases ls.len(),
{
    if ls.len() == 0 {
        Seq::empty()
    } else {
        join_lines(ls.drop_last()) + ls.last() + seq!['\n']
    }
}

/// The items with `sep` between them (`join` on a slice of strings).
pub open spec fn join_with(items: Seq<Seq<char>>, sep: char) -> Seq<char>
    decreases items.len(),
{
    if items.len() == 0 {
        Seq::empty()
    } else if items.len() == 1 {
        items[0]
    } else {
        join_with(items.drop_last(), sep) + seq![sep] + items.last()
    }
}

/// A line that `str::lines` gives back as written: no line feed in it and no
/// carriage return at its end.
pub open spec fn plain_line(l: Seq<char>) -> bool {
    !l.contains('\n') && (l.len() == 0 || l.last() != '\r')
}

/// Every line is plain.
pub open spec fn all_plain(ls: Seq<Seq<char>>) -> bool {
    forall|j: int| 0 <= j < ls.len() ==> plain_line(#[trigger] ls[j])
}

pub proof fn lemma_all_plain_concat(a: Seq<Seq<char>>, b: Seq<Seq<char>>)
    requires
        all_plain(a),
        all_plain(b),
    ensures
        all_plain(a + b),
{
    assert forall|j: int| 0 <= j < (a + b).len() implies plain_line(#[trigger] (a + b)[j]) by {
        if j < a.len() {
            assert((a + b)[j] == a[j]);
        } else {
            assert((a + b)[j] == b[j - a.len()]);
        }
    }
}

/// Two plain texts written one after the other make a plain text.
pub proof fn lemma_plain_concat(a: Seq<char>, b: Seq<char>)
    requires
        plain_line(a),
        plain_line(b),
    ensures
        plain_line(a + b),
{
    let ab = a + b;
    if ab.contains('\n') {
        let i = choose|i: int| 0 <= i < ab.len() && ab[i] == '\n';
        if i < a.len() {
            assert(a[i] == '\n');
        } else {
            assert(b[i - a.len()] == '\n');
        }
    }
    if b.len() > 0 {
        assert(ab.last() == b.last());
    } else {
        assert(ab =~= a);
    }
}

/// A text with no line feed and no carriage return is plain.
pub proof fn lemma_plain_no_breaks(a: Seq<char>)
    requires
        !a.contains('\n'),
        !a.contains('\r'),
    ensures
        plain_line(a),
{
    if a.len() > 0 {
        assert(a[a.len() - 1] == a.last());
    }
}

/// Looking a key up in two runs of lines, one after the other.
pub proof fn lemma_field_concat(a: Seq<Seq<char>>, b: Seq<Seq<char>>, k: Seq<char>)
    ensures
        field(a + b, k) == (match field(a, k) {
            Some(w) => Some(w),
            None => field(b, k),
        }),
    decreases a.len(),
{
    if a.len() == 0 {
        assert(a + b =~= b);
    } else {
        assert((a + b)[0] == a[0]);
        assert((a + b).drop_first() =~= a.drop_first() + b);
        lemma_field_concat(a.drop_first(), b, k);
    }
}

/// A run of at most one line: the field is on it or nowhere.
pub proof fn lemma_field_one(ls: Seq<Seq<char>>, k: Seq<char>)
    requires
        ls.len() <= 1,
    ensures
        field(ls, k) == (if ls.len() == 1 && has_prefix(ls[0], k) { Some(ls[0].skip(k.len() as int)) } else { None }),
{
    if ls.len() == 1 {
        assert(ls.drop_first() =~= Seq::<Seq<char>>::empty());
        assert(field(ls.drop_first(), k) is None);
    }
}

/// The first line that begins with the key gives the field.
pub proof fn lemma_field_at(ls: Seq<Seq<char>>, k: Seq<char>, i: int)
    requires
        0 <= i < ls.len(),
        has_prefix(ls[i], k),
        forall|j: int| 0 <= j < i ==> !has_prefix(#[trigger] ls[j], k),
    ensures
        field(ls, k) == Some(ls[i].skip(k.len() as int)),
    decreases i,
{
    if i > 0 {
        let rest = ls.drop_first();
        assert forall|j: int| 0 <= j < i - 1 implies !has_prefix(#[trigger] rest[j], k) by {
            assert(rest[j] == ls[j + 1]);
        }
        assert(!has_prefix(ls[0], k));
        lemma_field_at(rest, k, i - 1);
    }
}

/// No line begins with the key: there is no field.
pub proof fn lemma_field_none(ls: Seq<Seq<char>>, k: Seq<char>)
    requires
        forall|j: int| 0 <= j < ls.len() ==> !has_prefix(#[trigger] ls[j], k),
    ensures
        field(ls, k) is None,
    decreases ls.len(),
{
    if ls.len() > 0 {
        let rest = ls.drop_first();
        assert forall|j: int| 0 <= j < rest.len() implies !has_prefix(#[trigger] rest[j], k) by {
            assert(rest[j] == ls[j + 1]);
        }
        assert(!has_prefix(ls[0], k));
        lemma_field_none(rest, k);
    }
}

/// A text that differs from `key` at some place within both does not begin
/// with it.
pub proof fn lemma_text_differs(l: Seq<char>, key: Seq<char>, j: int)
    requires
        0 <= j < l.len(),
        j < key.len(),
        l[j] != key[j],
    ensures
        !has_prefix(l, key),
{
    if has_prefix(l, key) {
        assert(l.take(key.len() as int)[j] == key[j]);
    }
}

/// The lines after a marker in two runs of lines, one after the other.
pub proof fn lemma_after_concat(a: Seq<Seq<char>>, b: Seq<Seq<char>>, m: Seq<char>)
    ensures
        after_marker(a + b, m) == (if field(a, m) is Some { after_marker(a, m) + b } else { after_marker(b, m) }),
    decreases a.len(),
{
    if a.len() == 0 {
        assert(a + b =~= b);
    } else {
        assert((a + b)[0] == a[0]);
        assert((a + b).drop_first() =~= a.drop_first() + b);
        lemma_after_concat(a.drop_first(), b, m);
        if has_prefix(a[0], m) {
            assert(a.drop_first() + b =~= (a + b).drop_first());
        }
    }
}

/// No line begins with the marker: nothing follows it.
pub proof fn lemma_after_none(ls: Seq<Seq<char>>, m: Seq<char>)
    requires
        forall|j: int| 0 <= j < ls.len() ==> !has_prefix(#[trigger] ls[j], m),
    ensures
        after_marker(ls, m).len() == 0,
    decreases ls.len(),
{
    if ls.len() > 0 {
        let rest = ls.drop_first();
        assert forall|j: int| 0 <= j < rest.len() implies !has_prefix(#[trigger] rest[j], m) by {
            assert(rest[j] == ls[j + 1]);
        }
        assert(!has_prefix(ls[0], m));
        lemma_after_none(rest, m);
    }
}

/// The lines before the first line that begins with the marker.
pub proof fn lemma_before_at(ls: Seq<Seq<char>>, m: Seq<char>, i: int)
    requires
        0 <= i < ls.len(),
        has_prefix(ls[i], m),
        forall|j: int| 0 <= j < i ==> !has_prefix(#[trigger] ls[j], m),
    ensures
        before_marker(ls, m) == ls.take(i),
    decreases i,
{
    if i == 0 {
        assert(ls.take(0) =~= Seq::<Seq<char>>::empty());
    } else {
        let rest = ls.drop_first();
        assert forall|j: int| 0 <= j < i - 1 implies !has_prefix(#[trigger] rest[j], m) by {
            assert(rest[j] == ls[j + 1]);
        }
        assert(!has_prefix(ls[0], m));
        lemma_before_at(rest, m, i - 1);
        assert(seq![ls[0]] + rest.take(i - 1) =~= ls.take(i));
    }
}

/// A line that begins with the key gives the rest of the line.
pub proof fn lemma_key_value(k: Seq<char>, v: Seq<char>)
    ensures
        has_prefix(k + v, k),
        (k + v).skip(k.len() as int) == v,
{
    assert((k + v).take(k.len() as int) =~= k);
    assert((k + v).skip(k.len() as int) =~= v);
}

pub proof fn lemma_pieces_nonempty(s: Seq<char>, sep: char)
    ensures
        pieces(s, sep).len() >= 1,
    decreases s.len(),
{
    if s.len() > 0 {
        lemma_pieces_nonempty(s.drop_last(), sep);
    }
}

/// Appending text without the separator extends the last piece.
pub proof fn lemma_pieces_extend(x: Seq<char>, l: Seq<char>, sep: char)
    requires
        !l.contains(sep),
    ensures
        pieces(x + l, sep) == pieces(x, sep).update(pieces(x, sep).len() - 1, pieces(x, sep).last() + l),
    decreases l.len(),
{
    lemma_pieces_nonempty(x, sep);
    let p = pieces(x, sep);
    if l.len() == 0 {
        assert(x + l =~= x);
        assert(p.last() + l =~= p.last());
        assert(p.update(p.len() - 1, p.last()) =~= p);
    } else {
        let m = l.drop_last();
        assert(!m.contains(sep)) by {
            if m.contains(sep) {
                let i = choose|i: int| 0 <= i < m.len() && m[i] == sep;
                assert(l[i] == sep);
            }
        }
        lemma_pieces_extend(x, m, sep);
        assert((x + l).drop_last() =~= x + m);
        assert((x + l).last() == l.last());
        assert(l.last() != sep) by {
            assert(l[l.len() - 1] == l.last());
        }
        assert((p.last() + m).push(l.last()) =~= p.last() + l);
        assert(p.update(p.len() - 1, p.last() + m).update(p.len() - 1, p.last() + l)
            =~= p.update(p.len() - 1, p.last() + l));
    }
}

/// Lines joined with line feeds split back into themselves.
pub proof fn lemma_pieces_join_lines(ls: Seq<Seq<char>>)
    requires
        forall|i: int| 0 <= i < ls.len() ==> !(#[trigger] ls[i]).contains('\n'),
    ensures
        pieces(join_lines(ls), '\n') == ls.push(Seq::<char>::empty()),
    decreases ls.len(),
{
    if ls.len() == 0 {
        assert(pieces(join_lines(ls), '\n') =~= seq![Seq::<char>::empty()]);
        assert(ls.push(Seq::<char>::empty()) =~= seq![Seq::<char>::empty()]);
    } else {
        let d = ls.drop_last();
        assert forall|i: int| 0 <= i < d.len() implies !(#[trigger] d[i]).contains('\n') by {
            assert(d[i] == ls[i]);
        }
        lemma_pieces_join_lines(d);
        let j = join_lines(d);
        let last = ls.last();
        assert(!last.contains('\n')) by {
            assert(ls[ls.len() - 1] == last);
        }
        lemma_pieces_extend(j, last, '\n');
        let pj = pieces(j, '\n');
        assert(pj == d.push(Seq::<char>::empty()));
        assert(Seq::<char>::empty() + last =~= last);
        assert(pj.update(pj.len() - 1, pj.last() + last) =~= ls);
        let full = j + last + seq!['\n'];
        assert(full.drop_last() =~= j + last);
        assert(full.last() == '\n');
        assert(join_lines(ls) == full);
    }
}

/// Plain lines joined with line feeds are the lines `str::lines` reads back.
pub proof fn lemma_text_lines_join(ls: Seq<Seq<char>>)
    requires
        forall|i: int| 0 <= i < ls.len() ==> plain_line(#[trigger] ls[i]),
    ensures
        text_lines(join_lines(ls)) == ls,
{
    assert forall|i: int| 0 <= i < ls.len() implies !(#[trigger] ls[i]).contains('\n') by {
        assert(plain_line(ls[i]));
    }
    lemma_pieces_join_lines(ls);
    let p = pieces(join_lines(ls), '\n');
    assert(p.drop_last() =~= ls);
    assert(p.last().len() == 0);
    assert forall|i: int| 0 <= i < ls.len() implies strip_cr(#[trigger] ls[i]) == ls[i] by {
        assert(plain_line(ls[i]));
    }
    assert(ls.map_values(|l: Seq<char>| strip_cr(l)) =~= ls);
}

/// Items joined with a separator they do not hold split back into themselves.
pub proof fn lemma_pieces_join_with(items: Seq<Seq<char>>, sep: char)
    requires
        items.len() >= 1,
        forall|i: int| 0 <= i < items.len() ==> !(#[trigger] items[i]).contains(sep),
    ensures
        pieces(join_with(items, sep), sep) == items,
    decreases items.len(),
{
    if items.len() == 1 {
        lemma_pieces_extend(Seq::empty(), items[0], sep);
        assert(Seq::<char>::empty() + items[0] =~= items[0]);
        assert(pieces(Seq::<char>::empty(), sep) =~= seq![Seq::<char>::empty()]);
        assert(seq![Seq::<char>::empty()].update(0, items[0]) =~= items);
    } else {
        let d = items.drop_last();
        assert forall|i: int| 0 <= i < d.len() implies !(#[trigger] d[i]).contains(sep) by {
            assert(d[i] == items[i]);
        }
        lemma_pieces_join_with(d, sep);
        let j = join_with(d, sep);
        let js = j + seq![sep];
        assert(js.drop_last() =~= j);
        assert(pieces(js, sep) == d.push(Seq::<char>::empty()));
        let last = items.last();
        assert(!last.contains(sep)) by {
            assert(items[items.len() - 1] == last);
        }
        lemma_pieces_extend(js, last, sep);
        assert(Seq::<char>::empty() + last =~= last);
        assert(d.push(Seq::<char>::empty()).update(d.len() as int, last) =~= items);
    }
}

/// A copy of the characters.
fn copy_chars(cs: &Vec<char>) -> (r: Vec<char>)
    ensures
        r@ == cs@,
{
    let r = slice_chars(cs, 0, cs.len());
    proof {
        assert(cs@.subrange(0, cs@.len() as int) =~= cs@);
    }
    r
}

/// The pieces of `cs` between occurrences of `sep`.
pub fn split_on(cs: &Vec<char>, sep: char) -> (r: Vec<Vec<char>>)
    ensures
        views(r@) == pieces(cs@, sep),
{
    let mut out: Vec<Vec<char>> = Vec::new();
    let mut cur: Vec<char> = Vec::new();
    proof {
        assert(cs@.take(0) =~= Seq::<char>::empty());
        assert(views(out@).push(cur@) =~= pieces(cs@.take(0), sep));
    }
    for i in 0..cs.len()
        invariant
            views(out@).push(cur@) == pieces(cs@.take(i as int), sep),
    {
        let ghost prev = pieces(cs@.take(i as int), sep);
        proof {
            assert(cs@.take(i + 1).drop_last() =~= cs@.take(i as int));
            assert(cs@.take(i + 1).last() == cs@[i as int]);
            lemma_pieces_nonempty(cs@.take(i as int), sep);
        }
        if cs[i] == sep {
            let done = copy_chars(&cur);
            out.push(done);
            cur = Vec::new();
            proof {
                assert(views(out@) =~= views(out@).drop_last().push(done@));
                assert(views(out@).push(cur@) =~= prev.push(Seq::<char>::empty()));
            }
        } else {
            let ghost before = views(out@);
            cur.push(cs[i]);
            proof {
                assert(views(out@) == before);
                assert(views(out@).push(cur@) =~= prev.update(prev.len() - 1, prev.last().push(cs@[i as int])));
            }
        }
    }
    out.push(cur);
    proof {
        assert(cs@.take(cs@.len() as int) =~= cs@);
    }
    out
}

fn strip_cr_chars(l: &Vec<char>) -> (r: Vec<char>)
    ensures
        r@ == strip_cr(l@),
{
    if l.len() > 0 && l[l.len() - 1] == '\r' {
        let r = slice_chars(l, 0, l.len() - 1);
        proof {
            assert(r@ =~= l@.drop_last());
        }
        r
    } else {
        copy_chars(l)
    }
}

/// The lines of a text, as `str::lines` yields them.
pub fn lines_of(s: &str) -> (r: Vec<Vec<char>>)
    ensures
        views(r@) == text_lines(s@),
{
    let cs = chars_of(s);
    let ps = split_on(&cs, '\n');
    proof {
        lemma_pieces_nonempty(cs@, '\n');
    }
    let ghost p = pieces(s@, '\n');
    let n = ps.len();
    let mut out: Vec<Vec<char>> = Vec::new();
    for i in 0..n - 1
        invariant
            n == ps@.len(),
            n >= 1,
            views(ps@) == p,
            views(out@) == p.take(i as int).map_values(|l: Seq<char>| strip_cr(l)),
    {
        let line = strip_cr_chars(&ps[i]);
        let ghost before = views(out@);
        out.push(line);
        proof {
            assert(views(ps@)[i as int] == ps@[i as int]@);
            assert(views(out@) =~= before.push(strip_cr(p[i as int])));
            assert(p.take(i + 1) =~= p.take(i as int).push(p[i as int]));
            assert(views(out@) =~= p.take(i + 1).map_values(|l: Seq<char>| strip_cr(l)));
        }
    }
    proof {
        assert(p.take(n - 1) =~= p.drop_last());
        assert(views(ps@)[n - 1] == ps@[n - 1]@);
    }
    if ps[n - 1].len() > 0 {
        let last = copy_chars(&ps[n - 1]);
        out.push(last);
        proof {
            assert(views(out@) =~= text_lines(s@));
        }
    }
    out
}

/// What follows `key` on the first line that begins with it.
pub fn find_field(lines: &Vec<Vec<char>>, key: &str) -> (r: Option<Vec<char>>)
    ensures
        match (r, field(views(lines@), key@)) {
            (None, None) => true,
            (Some(v), Some(w)) => v@ == w,
            _ => false,
        },
{
    let k = chars_of(key);
    let ghost ls = views(lines@);
    proof {
        assert(ls.skip(0) =~= ls);
    }
    for i in 0..lines.len()
        invariant
            ls == views(lines@),
            k@ == key@,
            field(ls, key@) == field(ls.skip(i as int), key@),
    {
        proof {
            assert(ls.skip(i as int)[0] == lines@[i as int]@);
            assert(ls.skip(i as int).drop_first() =~= ls.skip(i + 1));
        }
        if starts_with_chars(&lines[i], &k) {
            let v = slice_chars(&lines[i], k.len(), lines[i].len());
            proof {
                assert(v@ =~= lines@[i as int]@.skip(key@.len() as int));
            }
            return Some(v);
        }
    }
    proof {
        assert(ls.skip(ls.len() as int) =~= Seq::<Seq<char>>::empty());
    }
    None
}

/// Copies of the lines after the first one that begins with `marker`.
pub fn lines_after(lines: &Vec<Vec<char>>, marker: &str) -> (r: Vec<Vec<char>>)
    ensures
        views(r@) == after_marker(views(lines@), marker@),
{
    let k = chars_of(marker);
    let ghost ls = views(lines@);
    let n = lines.len();
    let mut i: usize = 0;
    proof {
        assert(ls.skip(0) =~= ls);
    }
    while i < n && !starts_with_chars(&lines[i], &k)
        invariant
            n == lines@.len(),
            i <= n,
            ls == views(lines@),
            k@ == marker@,
            after_marker(ls, marker@) == after_marker(ls.skip(i as int), marker@),
        decreases n - i,
    {
        proof {
            assert(ls.skip(i as int)[0] == lines@[i as int]@);
            assert(ls.skip(i as int).drop_first() =~= ls.skip(i + 1));
        }
        i = i + 1;
    }
    let mut out: Vec<Vec<char>> = Vec::new();
    if i == n {
        proof {
            assert(ls.skip(n as int) =~= Seq::<Seq<char>>::empty());
            assert(views(out@) =~= Seq::<Seq<char>>::empty());
        }
        return out;
    }
    proof {
        assert(ls.skip(i as int)[0] == lines@[i as int]@);
        assert(ls.skip(i as int).drop_first() =~= ls.skip(i + 1));
        assert(views(out@) =~= ls.skip(i + 1).take(0));
    }
    let start = i + 1;
    for j in start..n
        invariant
            n == lines@.len(),
            start <= n,
            ls == views(lines@),
            views(out@) == ls.skip(start as int).take(j - start),
    {
        let c = copy_chars(&lines[j]);
        out.push(c);
        proof {
            assert(ls.skip(start as int).take(j + 1 - start) =~= ls.skip(start as int).take(j - start).push(ls[j as int]));
            assert(views(out@) =~= ls.skip(start as int).take(j + 1 - start));
        }
    }
    proof {
        assert(ls.skip(start as int).take(n - start) =~= ls.skip(start as int));
    }
    out
}

/// Copies of the lines before the first one that begins with `marker`.
pub fn lines_before(lines: &Vec<Vec<char>>, marker: &str) -> (r: Vec<Vec<char>>)
    ensures
        views(r@) == before_marker(views(lines@), marker@),
{
    let k = chars_of(marker);
    let ghost ls = views(lines@);
    let n = lines.len();
    let mut out: Vec<Vec<char>> = Vec::new();
    let mut i: usize = 0;
    proof {
        assert(ls.skip(0) =~= ls);
        assert(views(out@) + before_marker(ls.skip(0), marker@) =~= before_marker(ls, marker@));
    }
    while i < n && !starts_with_chars(&lines[i], &k)
        invariant
            n == lines@.len(),
            i <= n,
            ls == views(lines@),
            k@ == marker@,
            views(out@) + before_marker(ls.skip(i as int), marker@) == before_marker(ls, marker@),
        decreases n - i,
    {
        let ghost rest = ls.skip(i as int);
        proof {
            assert(rest[0] == lines@[i as int]@);
            assert(rest.drop_first() =~= ls.skip(i + 1));
        }
        let c = copy_chars(&lines[i]);
        out.push(c);
        proof {
            assert(views(out@) =~= views(out@).drop_last().push(rest[0]));
            assert(views(out@) + before_marker(ls.skip(i + 1), marker@)
                =~= views(out@).drop_last() + (seq![rest[0]] + before_marker(rest.drop_first(), marker@)));
        }
        i = i + 1;
    }
    proof {
        if i == n {
            assert(ls.skip(n as int) =~= Seq::<Seq<char>>::empty());
        } else {
            assert(ls.skip(i as int)[0] == lines@[i as int]@);
        }
        assert(views(out@) + Seq::<Seq<char>>::empty() =~= views(out@));
    }
    out
}

} // verus!
