//! To-do items as iCalendar `VTODO` text.
use vstd::prelude::*;
use crate::clock::now_micros;
use crate::data::ics::{all_plain, field, find_field, join_lines, join_with, lemma_all_plain_concat, lemma_field_at,
    lemma_field_concat, lemma_field_none, lemma_field_one, lemma_key_value, lemma_plain_concat, lemma_plain_no_breaks,
    lemma_text_differs, lines_of, pieces, plain_line, split_on, text_lines};
use crate::data::models::{Todo, TodoView, all_texts, clone_opt_string, clone_strings};
use crate::data::schedule::{add_field, add_line, join_by, lemma_decimal_plain, lemma_join_plain, lemma_uuid_plain,
    no_breaks, opt_line};
use crate::data::stamps::{compact_parsed, compact_text, format_compact, four_digit_second, in_range, new_uuid,
    parse_uuid, uuid_parsed, uuid_text};
use crate::numbers::{parse_u32, parse_u32_spec};
use crate::text::{chars_eq, chars_of, decimal, has_prefix, owned, push_decimal, string_of};

verus! {

/// The `STATUS` value of a to-do item.
pub open spec fn status_text(completed: bool) -> Seq<char> {
    if completed { "COMPLETED"@ } else { "NEEDS-ACTION"@ }
}

/// A `key` line with the instant's text, when there is an instant.
pub open spec fn instant_line(key: Seq<char>, t: Option<i64>) -> Seq<Seq<char>> {
    match t {
        Some(x) => seq![key + compact_text(x)],
        None => Seq::empty(),
    }
}

/// The priority as written.
pub open spec fn priority_digits(p: Option<u32>) -> Option<Seq<char>> {
    match p {
        Some(n) => Some(decimal(n as int)),
        None => None,
    }
}

/// The tags line, when there are tags.
pub open spec fn tags_line(tags: Seq<Seq<char>>) -> Seq<Seq<char>> {
    if tags.len() > 0 { seq!["CATEGORIES:"@ + join_with(tags, ',')] } else { Seq::empty() }
}

/// The lines every to-do item begins with.
pub open spec fn todo_head(v: TodoView) -> Seq<Seq<char>> {
    seq![
        "BEGIN:VCALENDAR"@,
        "VERSION:2.0"@,
        "PRODID:-//time-manager-todo"@,
        "BEGIN:VTODO"@,
        "UID:"@ + uuid_text(v.id),
        "DTSTART:"@ + compact_text(v.created_at),
        "SUMMARY:"@ + v.content,
        "STATUS:"@ + status_text(v.completed),
    ]
}

/// The lines every to-do item ends with.
pub open spec fn todo_end() -> Seq<Seq<char>> {
    seq!["END:VTODO"@, "END:VCALENDAR"@]
}

/// The lines `to_ics` writes for a to-do item.
pub open spec fn todo_line_list(v: TodoView) -> Seq<Seq<char>> {
    todo_head(v) + instant_line("DUE:"@, v.due_date) + opt_line("PRIORITY:"@, priority_digits(v.priority)) + tags_line(
        v.tags,
    ) + opt_line("DESCRIPTION:"@, v.notes) + instant_line("COMPLETED:"@, v.completed_at) + todo_end()
}

/// The to-do item the lines of a calendar text describe, given what its
/// UID and its three date-time fields were read as and the time to take as
/// its creation when it has none; none without a UID.
pub open spec fn todo_parts(
    lines: Seq<Seq<char>>,
    id: Option<u128>,
    created: Option<i64>,
    due: Option<i64>,
    done_at: Option<i64>,
    now: i64,
) -> Option<TodoView> {
    match id {
        None => None,
        Some(i) => Some(
            TodoView {
                id: i,
                content: match field(lines, "SUMMARY:"@) {
                    Some(v) => v,
                    None => "未知待办"@,
                },
                completed: field(lines, "STATUS:"@) == Some("COMPLETED"@),
                created_at: match created {
                    Some(t) => t,
                    None => now,
                },
                due_date: due,
                priority: match field(lines, "PRIORITY:"@) {
                    Some(v) => parse_u32_spec(v),
                    None => None,
                },
                tags: match field(lines, "CATEGORIES:"@) {
                    Some(v) => pieces(v, ','),
                    None => Seq::empty(),
                },
                notes: field(lines, "DESCRIPTION:"@),
                completed_at: done_at,
            },
        ),
    }
}

/// What the instant field under `key` reads as.
pub open spec fn instant_field(lines: Seq<Seq<char>>, key: Seq<char>) -> Option<i64> {
    match field(lines, key) {
        Some(w) => compact_parsed(w),
        None => None,
    }
}

/// The to-do item a calendar text describes, taking `now` as its creation
/// when it has none.
pub open spec fn parsed_todo(content: Seq<char>, now: i64) -> Option<TodoView> {
    let lines = text_lines(content);
    let id = match field(lines, "UID:"@) {
        Some(u) => uuid_parsed(u),
        None => None,
    };
    todo_parts(
        lines,
        id,
        instant_field(lines, "DTSTART:"@),
        instant_field(lines, "DUE:"@),
        instant_field(lines, "COMPLETED:"@),
        now,
    )
}

/// The result is the spec's item.
pub open spec fn todo_matches(r: Option<Todo>, spec: Option<TodoView>) -> bool {
    match (r, spec) {
        (Some(t), Some(v)) => t@ == v,
        (None, None) => true,
        _ => false,
    }
}

/// The texts a to-do item writes on lines of their own are plain.
pub open spec fn todo_plain(v: TodoView) -> bool {
    &&& plain_line(v.content)
    &&& (v.notes matches Some(n) ==> plain_line(n))
    &&& forall|i: int| 0 <= i < v.tags.len() ==> plain_line(#[trigger] v.tags[i])
}

/// An instant that chrono can write, if there is one.
pub open spec fn opt_in_range(t: Option<i64>) -> bool {
    t matches Some(x) ==> in_range(x)
}

/// What a to-do item needs for its calendar text to read back as itself:
/// its instants are whole seconds of four-digit years and no tag holds a
/// comma.
pub open spec fn todo_reads_back(v: TodoView) -> bool {
    &&& four_digit_second(v.created_at)
    &&& (v.due_date matches Some(t) ==> four_digit_second(t))
    &&& (v.completed_at matches Some(t) ==> four_digit_second(t))
    &&& forall|i: int| 0 <= i < v.tags.len() ==> !(#[trigger] v.tags[i]).contains(',')
}

fn opt_chars_string(v: Option<Vec<char>>) -> (r: Option<String>)
    ensures
        match (r, v) {
            (Some(a), Some(b)) => a@ == b@,
            (None, None) => true,
            _ => false,
        },
{
    match v {
        Some(cs) => Some(string_of(&cs)),
        None => None,
    }
}

/// Appends a `key` line with the instant's text.
fn add_instant(out: &mut String, Ghost(ls): Ghost<Seq<Seq<char>>>, key: &str, t: i64)
    requires
        old(out)@ == join_lines(ls),
        in_range(t),
    ensures
        final(out)@ == join_lines(ls.push(key@ + compact_text(t))),
        no_breaks(compact_text(t)),
{
    let text = format_compact(t);
    add_field(out, Ghost(ls), key, text.as_str());
}

impl Todo {
    /// A to-do item with this id, created at `now`: open, with no due date,
    /// priority, tags, notes or completion time.
    pub fn new_at(content: String, id: u128, now: i64) -> (r: Todo)
        ensures
            r@ == (TodoView {
                id,
                content: content@,
                completed: false,
                created_at: now,
                due_date: None,
                priority: None,
                tags: Seq::empty(),
                notes: None,
                completed_at: None,
            }),
    {
        let r = Todo {
            id,
            content,
            completed: false,
            created_at: now,
            due_date: None,
            priority: None,
            tags: Vec::new(),
            notes: None,
            completed_at: None,
        };
        proof {
            assert(all_texts(r.tags@) =~= Seq::<Seq<char>>::empty());
        }
        r
    }

    /// A new to-do item with a random id, created now.
    pub fn new(content: String) -> (r: Todo)
        ensures
            r@.content == content@,
            !r.completed,
            in_range(r.created_at),
            r.due_date is None && r.priority is None && r.notes is None && r.completed_at is None,
            r@.tags.len() == 0,
    {
        let id = new_uuid();
        let now = now_micros();
        Todo::new_at(content, id, now)
    }

    /// A copy of the item.
    pub fn duplicate(&self) -> (r: Todo)
        ensures
            r@ == self@,
    {
        Todo {
            id: self.id,
            content: self.content.clone(),
            completed: self.completed,
            created_at: self.created_at,
            due_date: self.due_date,
            priority: self.priority,
            tags: clone_strings(&self.tags),
            notes: clone_opt_string(&self.notes),
            completed_at: self.completed_at,
        }
    }

    /// The `VTODO` calendar text of the item.
    #[verifier::spinoff_prover]
    pub fn to_ics(&self) -> (r: String)
        requires
            in_range(self.created_at),
            opt_in_range(self.due_date),
            opt_in_range(self.completed_at),
        ensures
            r@ == join_lines(todo_line_list(self@)),
            todo_plain(self@) ==> text_lines(r@) == todo_line_list(self@),
    {
        let mut out = String::new();
        let ghost mut ls: Seq<Seq<char>> = Seq::empty();
        add_line(&mut out, Ghost(ls), "BEGIN:VCALENDAR");
        proof { ls = ls.push("BEGIN:VCALENDAR"@); }
        add_line(&mut out, Ghost(ls), "VERSION:2.0");
        proof { ls = ls.push("VERSION:2.0"@); }
        add_line(&mut out, Ghost(ls), "PRODID:-//time-manager-todo");
        proof { ls = ls.push("PRODID:-//time-manager-todo"@); }
        add_line(&mut out, Ghost(ls), "BEGIN:VTODO");
        proof { ls = ls.push("BEGIN:VTODO"@); }
        let uid = crate::data::stamps::uuid_string(self.id);
        add_field(&mut out, Ghost(ls), "UID:", uid.as_str());
        proof { ls = ls.push("UID:"@ + uid@); }
        let created = format_compact(self.created_at);
        add_field(&mut out, Ghost(ls), "DTSTART:", created.as_str());
        proof { ls = ls.push("DTSTART:"@ + created@); }
        add_field(&mut out, Ghost(ls), "SUMMARY:", self.content.as_str());
        proof { ls = ls.push("SUMMARY:"@ + self.content@); }
        let status = if self.completed { "COMPLETED" } else { "NEEDS-ACTION" };
        add_field(&mut out, Ghost(ls), "STATUS:", status);
        proof {
            ls = ls.push("STATUS:"@ + status@);
            assert(ls =~= todo_head(self@));
        }
        let ghost p0 = ls;
        match self.due_date {
            Some(t) => {
                add_instant(&mut out, Ghost(ls), "DUE:", t);
                proof { ls = ls.push("DUE:"@ + compact_text(t)); }
            },
            None => {},
        }
        proof { assert(ls =~= p0 + instant_line("DUE:"@, self.due_date)); }
        let ghost p1 = ls;
        match self.priority {
            Some(p) => {
                let mut text = String::new();
                push_decimal(&mut text, p as i64);
                add_field(&mut out, Ghost(ls), "PRIORITY:", text.as_str());
                proof { ls = ls.push("PRIORITY:"@ + text@); }
            },
            None => {},
        }
        proof { assert(ls =~= p1 + opt_line("PRIORITY:"@, priority_digits(self.priority))); }
        let ghost p2 = ls;
        if self.tags.len() > 0 {
            let tags = join_by(&self.tags, ',');
            add_field(&mut out, Ghost(ls), "CATEGORIES:", tags.as_str());
            proof { ls = ls.push("CATEGORIES:"@ + tags@); }
        }
        proof { assert(ls =~= p2 + tags_line(self@.tags)); }
        let ghost p3 = ls;
        match &self.notes {
            Some(n) => {
                add_field(&mut out, Ghost(ls), "DESCRIPTION:", n.as_str());
                proof { ls = ls.push("DESCRIPTION:"@ + n@); }
            },
            None => {},
        }
        proof { assert(ls =~= p3 + opt_line("DESCRIPTION:"@, self@.notes)); }
        let ghost p4 = ls;
        match self.completed_at {
            Some(t) => {
                add_instant(&mut out, Ghost(ls), "COMPLETED:", t);
                proof { ls = ls.push("COMPLETED:"@ + compact_text(t)); }
            },
            None => {},
        }
        proof { assert(ls =~= p4 + instant_line("COMPLETED:"@, self.completed_at)); }
        let ghost p5 = ls;
        add_line(&mut out, Ghost(ls), "END:VTODO");
        proof { ls = ls.push("END:VTODO"@); }
        add_line(&mut out, Ghost(ls), "END:VCALENDAR");
        proof {
            ls = ls.push("END:VCALENDAR"@);
            assert(ls =~= p5 + todo_end());
            assert(ls == todo_line_list(self@));
        }
        proof {
            if todo_plain(self@) {
                lemma_todo_lines_plain(self@);
                crate::data::ics::lemma_text_lines_join(ls);
            }
        }
        out
    }

    /// The to-do item whose calendar lines are in `ics`, given what its UID
    /// and its start, due and completion fields were read as, taking `now`
    /// as its creation when it has no start.
    pub fn from_fields(
        ics: &str,
        id: Option<u128>,
        created: Option<i64>,
        due: Option<i64>,
        done_at: Option<i64>,
        now: i64,
    ) -> (r: Option<Todo>)
        ensures
            todo_matches(r, todo_parts(text_lines(ics@), id, created, due, done_at, now)),
    {
        let lines = lines_of(ics);
        let ghost ls = text_lines(ics@);
        let id = match id {
            Some(v) => v,
            None => {
                return None;
            },
        };
        let content = match find_field(&lines, "SUMMARY:") {
            Some(v) => string_of(&v),
            None => owned("未知待办"),
        };
        let completed = match find_field(&lines, "STATUS:") {
            Some(v) => {
                let done = chars_of("COMPLETED");
                chars_eq(&v, &done)
            },
            None => false,
        };
        let created_at = match created {
            Some(t) => t,
            None => now,
        };
        let priority = match find_field(&lines, "PRIORITY:") {
            Some(v) => parse_u32(string_of(&v).as_str()),
            None => None,
        };
        let tags = match find_field(&lines, "CATEGORIES:") {
            Some(v) => crate::data::schedule::strings_of(&split_on(&v, ',')),
            None => Vec::new(),
        };
        let notes = opt_chars_string(find_field(&lines, "DESCRIPTION:"));
        let t = Todo { id, content, completed, created_at, due_date: due, priority, tags, notes, completed_at: done_at };
        proof {
            let v = todo_parts(ls, Some(id), created, due, done_at, now)->Some_0;
            assert(t@.content == v.content);
            assert(t@.completed == v.completed);
            assert(t@.priority == v.priority);
            assert(t@.tags == v.tags);
            assert(t@.notes == v.notes);
        }
        Some(t)
    }

    /// Reads a to-do item from its calendar text, taking `now` as its
    /// creation when the text has no start; none without a readable UID.
    /// The text written for an item that reads back gives that item.
    pub fn from_ics_at(ics: &str, now: i64) -> (r: Option<Todo>)
        ensures
            todo_matches(r, parsed_todo(ics@, now)),
            forall|v: TodoView| todo_reads_back(v) && #[trigger] todo_line_list(v) == text_lines(ics@) ==> (r matches Some(
                x,
            ) && x@ == v),
    {
        let lines = lines_of(ics);
        let id = match find_field(&lines, "UID:") {
            Some(v) => parse_uuid(string_of(&v).as_str()),
            None => None,
        };
        let created = crate::data::schedule::read_instant(&lines, "DTSTART:");
        let due = crate::data::schedule::read_instant(&lines, "DUE:");
        let done_at = crate::data::schedule::read_instant(&lines, "COMPLETED:");
        let r = Todo::from_fields(ics, id, created, due, done_at, now);
        proof {
            assert forall|v: TodoView| todo_reads_back(v) && #[trigger] todo_line_list(v) == text_lines(ics@) implies (r matches Some(
                x,
            ) && x@ == v) by {
                lemma_todo_fields(v);
                law_todo_lines_roundtrip(v, now);
            }
        }
        r
    }

    /// Reads a to-do item from its calendar text, taking the clock's time
    /// as its creation when the text has no start.
    pub fn from_ics(ics: &str) -> (r: Option<Todo>)
        ensures
            exists|now: i64| todo_matches(r, parsed_todo(ics@, now)),
            forall|v: TodoView| todo_reads_back(v) && #[trigger] todo_line_list(v) == text_lines(ics@) ==> (r matches Some(
                x,
            ) && x@ == v),
    {
        let now = now_micros();
        Todo::from_ics_at(ics, now)
    }
}

proof fn lemma_todo_literals()
    ensures
        plain_line("BEGIN:VCALENDAR"@),
        plain_line("VERSION:2.0"@),
        plain_line("PRODID:-//time-manager-todo"@),
        plain_line("BEGIN:VTODO"@),
        plain_line("UID:"@),
        plain_line("DTSTART:"@),
        plain_line("SUMMARY:"@),
        plain_line("STATUS:"@),
        plain_line("DUE:"@),
        plain_line("PRIORITY:"@),
        plain_line("CATEGORIES:"@),
        plain_line("DESCRIPTION:"@),
        plain_line("COMPLETED:"@),
        plain_line("END:VTODO"@),
        plain_line("END:VCALENDAR"@),
        plain_line("COMPLETED"@),
        plain_line("NEEDS-ACTION"@),
        "NEEDS-ACTION"@ != "COMPLETED"@,
{
    reveal_strlit("BEGIN:VCALENDAR");
    reveal_strlit("VERSION:2.0");
    reveal_strlit("PRODID:-//time-manager-todo");
    reveal_strlit("BEGIN:VTODO");
    reveal_strlit("UID:");
    reveal_strlit("DTSTART:");
    reveal_strlit("SUMMARY:");
    reveal_strlit("STATUS:");
    reveal_strlit("DUE:");
    reveal_strlit("PRIORITY:");
    reveal_strlit("CATEGORIES:");
    reveal_strlit("DESCRIPTION:");
    reveal_strlit("COMPLETED:");
    reveal_strlit("END:VTODO");
    reveal_strlit("END:VCALENDAR");
    reveal_strlit("COMPLETED");
    reveal_strlit("NEEDS-ACTION");
    assert("NEEDS-ACTION"@.len() != "COMPLETED"@.len());
}

/// Every line written for a to-do item with plain texts is plain.
pub proof fn lemma_todo_lines_plain(v: TodoView)
    requires
        todo_plain(v),
        no_breaks(compact_text(v.created_at)),
        v.due_date matches Some(t) ==> no_breaks(compact_text(t)),
        v.completed_at matches Some(t) ==> no_breaks(compact_text(t)),
    ensures
        all_plain(todo_line_list(v)),
{
    lemma_todo_literals();
    lemma_uuid_plain(v.id);
    lemma_plain_no_breaks(compact_text(v.created_at));
    lemma_plain_concat("UID:"@, uuid_text(v.id));
    lemma_plain_concat("DTSTART:"@, compact_text(v.created_at));
    lemma_plain_concat("SUMMARY:"@, v.content);
    lemma_plain_concat("STATUS:"@, status_text(v.completed));
    let h = todo_head(v);
    assert(all_plain(h));
    let d1 = instant_line("DUE:"@, v.due_date);
    if let Some(t) = v.due_date {
        lemma_plain_no_breaks(compact_text(t));
        lemma_plain_concat("DUE:"@, compact_text(t));
    }
    assert(all_plain(d1));
    let d2 = opt_line("PRIORITY:"@, priority_digits(v.priority));
    if let Some(p) = v.priority {
        lemma_decimal_plain(p as int);
        lemma_plain_concat("PRIORITY:"@, decimal(p as int));
    }
    assert(all_plain(d2));
    let d3 = tags_line(v.tags);
    if v.tags.len() > 0 {
        lemma_join_plain(v.tags);
        lemma_plain_concat("CATEGORIES:"@, join_with(v.tags, ','));
    }
    assert(all_plain(d3));
    let d4 = opt_line("DESCRIPTION:"@, v.notes);
    if let Some(n) = v.notes {
        lemma_plain_concat("DESCRIPTION:"@, n);
    }
    assert(all_plain(d4));
    let d5 = instant_line("COMPLETED:"@, v.completed_at);
    if let Some(t) = v.completed_at {
        lemma_plain_no_breaks(compact_text(t));
        lemma_plain_concat("COMPLETED:"@, compact_text(t));
    }
    assert(all_plain(d5));
    assert(all_plain(todo_end()));
    lemma_all_plain_concat(h, d1);
    lemma_all_plain_concat(h + d1, d2);
    lemma_all_plain_concat(h + d1 + d2, d3);
    lemma_all_plain_concat(h + d1 + d2 + d3, d4);
    lemma_all_plain_concat(h + d1 + d2 + d3 + d4, d5);
    lemma_all_plain_concat(h + d1 + d2 + d3 + d4 + d5, todo_end());
}

/// The first of two lookups that finds something.
pub open spec fn first_found(a: Option<Seq<char>>, b: Option<Seq<char>>) -> Option<Seq<char>> {
    match a {
        Some(_) => a,
        None => b,
    }
}

proof fn lemma_todo_field_split(v: TodoView, k: Seq<char>)
    ensures
        field(todo_line_list(v), k) == first_found(
            field(todo_head(v), k),
            first_found(
                field(instant_line("DUE:"@, v.due_date), k),
                first_found(
                    field(opt_line("PRIORITY:"@, priority_digits(v.priority)), k),
                    first_found(
                        field(tags_line(v.tags), k),
                        first_found(
                            field(opt_line("DESCRIPTION:"@, v.notes), k),
                            first_found(field(instant_line("COMPLETED:"@, v.completed_at), k), field(todo_end(), k)),
                        ),
                    ),
                ),
            ),
        ),
{
    let h = todo_head(v);
    let d1 = instant_line("DUE:"@, v.due_date);
    let d2 = opt_line("PRIORITY:"@, priority_digits(v.priority));
    let d3 = tags_line(v.tags);
    let d4 = opt_line("DESCRIPTION:"@, v.notes);
    let d5 = instant_line("COMPLETED:"@, v.completed_at);
    let e = todo_end();
    lemma_field_concat(h + d1 + d2 + d3 + d4 + d5, e, k);
    lemma_field_concat(h + d1 + d2 + d3 + d4, d5, k);
    lemma_field_concat(h + d1 + d2 + d3, d4, k);
    lemma_field_concat(h + d1 + d2, d3, k);
    lemma_field_concat(h + d1, d2, k);
    lemma_field_concat(h, d1, k);
}

/// What the written lines of a to-do item hold under each key the reader
/// looks up.
pub proof fn lemma_todo_fields(v: TodoView)
    ensures
        field(todo_line_list(v), "UID:"@) == Some(uuid_text(v.id)),
        field(todo_line_list(v), "DTSTART:"@) == Some(compact_text(v.created_at)),
        field(todo_line_list(v), "SUMMARY:"@) == Some(v.content),
        field(todo_line_list(v), "STATUS:"@) == Some(status_text(v.completed)),
        field(todo_line_list(v), "DUE:"@) == (match v.due_date {
            Some(t) => Some(compact_text(t)),
            None => None,
        }),
        field(todo_line_list(v), "PRIORITY:"@) == priority_digits(v.priority),
        field(todo_line_list(v), "CATEGORIES:"@) == (if v.tags.len() > 0 {
            Some(join_with(v.tags, ','))
        } else {
            None
        }),
        field(todo_line_list(v), "DESCRIPTION:"@) == v.notes,
        field(todo_line_list(v), "COMPLETED:"@) == (match v.completed_at {
            Some(t) => Some(compact_text(t)),
            None => None,
        }),
{
    reveal_strlit("BEGIN:VCALENDAR");
    reveal_strlit("VERSION:2.0");
    reveal_strlit("PRODID:-//time-manager-todo");
    reveal_strlit("BEGIN:VTODO");
    reveal_strlit("UID:");
    reveal_strlit("DTSTART:");
    reveal_strlit("SUMMARY:");
    reveal_strlit("STATUS:");
    reveal_strlit("DUE:");
    reveal_strlit("PRIORITY:");
    reveal_strlit("CATEGORIES:");
    reveal_strlit("DESCRIPTION:");
    reveal_strlit("COMPLETED:");
    reveal_strlit("END:VTODO");
    reveal_strlit("END:VCALENDAR");
    let h = todo_head(v);
    let d1 = instant_line("DUE:"@, v.due_date);
    let d2 = opt_line("PRIORITY:"@, priority_digits(v.priority));
    let d3 = tags_line(v.tags);
    let d4 = opt_line("DESCRIPTION:"@, v.notes);
    let d5 = instant_line("COMPLETED:"@, v.completed_at);
    let e = todo_end();
    // In the head.
    lemma_key_value("UID:"@, uuid_text(v.id));
    assert forall|j: int| 0 <= j < 4 implies !has_prefix(#[trigger] h[j], "UID:"@) by {
        lemma_text_differs(h[j], "UID:"@, 0);
    }
    lemma_field_at(h, "UID:"@, 4);
    lemma_todo_field_split(v, "UID:"@);
    lemma_key_value("DTSTART:"@, compact_text(v.created_at));
    assert forall|j: int| 0 <= j < 5 implies !has_prefix(#[trigger] h[j], "DTSTART:"@) by {
        lemma_text_differs(h[j], "DTSTART:"@, 0);
    }
    lemma_field_at(h, "DTSTART:"@, 5);
    lemma_todo_field_split(v, "DTSTART:"@);
    lemma_key_value("SUMMARY:"@, v.content);
    assert forall|j: int| 0 <= j < 6 implies !has_prefix(#[trigger] h[j], "SUMMARY:"@) by {
        lemma_text_differs(h[j], "SUMMARY:"@, 0);
    }
    lemma_field_at(h, "SUMMARY:"@, 6);
    lemma_todo_field_split(v, "SUMMARY:"@);
    lemma_key_value("STATUS:"@, status_text(v.completed));
    assert forall|j: int| 0 <= j < 7 implies !has_prefix(#[trigger] h[j], "STATUS:"@) by {
        if j == 6 {
            lemma_text_differs(h[j], "STATUS:"@, 1);
        } else {
            lemma_text_differs(h[j], "STATUS:"@, 0);
        }
    }
    lemma_field_at(h, "STATUS:"@, 7);
    lemma_todo_field_split(v, "STATUS:"@);
    // After the head.
    assert forall|j: int| 0 <= j < 8 implies !has_prefix(#[trigger] h[j], "DUE:"@) by {
        if j == 5 {
            lemma_text_differs(h[j], "DUE:"@, 1);
        } else {
            lemma_text_differs(h[j], "DUE:"@, 0);
        }
    }
    lemma_field_none(h, "DUE:"@);
    assert forall|j: int| 0 <= j < 8 implies !has_prefix(#[trigger] h[j], "PRIORITY:"@) by {
        if j == 2 {
            lemma_text_differs(h[j], "PRIORITY:"@, 2);
        } else {
            lemma_text_differs(h[j], "PRIORITY:"@, 0);
        }
    }
    lemma_field_none(h, "PRIORITY:"@);
    assert forall|j: int| 0 <= j < 8 implies !has_prefix(#[trigger] h[j], "CATEGORIES:"@) by {
        lemma_text_differs(h[j], "CATEGORIES:"@, 0);
    }
    lemma_field_none(h, "CATEGORIES:"@);
    assert forall|j: int| 0 <= j < 8 implies !has_prefix(#[trigger] h[j], "DESCRIPTION:"@) by {
        if j == 5 {
            lemma_text_differs(h[j], "DESCRIPTION:"@, 1);
        } else {
            lemma_text_differs(h[j], "DESCRIPTION:"@, 0);
        }
    }
    lemma_field_none(h, "DESCRIPTION:"@);
    assert forall|j: int| 0 <= j < 8 implies !has_prefix(#[trigger] h[j], "COMPLETED:"@) by {
        lemma_text_differs(h[j], "COMPLETED:"@, 0);
    }
    lemma_field_none(h, "COMPLETED:"@);
    lemma_todo_tail_keys(v);
    lemma_todo_field_split(v, "DUE:"@);
    lemma_todo_field_split(v, "PRIORITY:"@);
    lemma_todo_field_split(v, "CATEGORIES:"@);
    lemma_todo_field_split(v, "DESCRIPTION:"@);
    lemma_todo_field_split(v, "COMPLETED:"@);
}

/// The runs after the head, looked up under the keys they hold.
proof fn lemma_todo_tail_keys(v: TodoView)
    ensures
        ({
            let d1 = instant_line("DUE:"@, v.due_date);
            let d2 = opt_line("PRIORITY:"@, priority_digits(v.priority));
            let d3 = tags_line(v.tags);
            let d4 = opt_line("DESCRIPTION:"@, v.notes);
            let d5 = instant_line("COMPLETED:"@, v.completed_at);
            let keys = seq!["DUE:"@, "PRIORITY:"@, "CATEGORIES:"@, "DESCRIPTION:"@, "COMPLETED:"@];
            &&& field(d1, "DUE:"@) == (match v.due_date { Some(t) => Some(compact_text(t)), None => None })
            &&& field(d2, "PRIORITY:"@) == priority_digits(v.priority)
            &&& field(d3, "CATEGORIES:"@) == (if v.tags.len() > 0 { Some(join_with(v.tags, ',')) } else { None })
            &&& field(d4, "DESCRIPTION:"@) == v.notes
            &&& field(d5, "COMPLETED:"@) == (match v.completed_at { Some(t) => Some(compact_text(t)), None => None })
            &&& field(d1, "PRIORITY:"@) is None && field(d1, "CATEGORIES:"@) is None
            &&& field(d1, "DESCRIPTION:"@) is None && field(d1, "COMPLETED:"@) is None
            &&& field(d2, "DUE:"@) is None && field(d2, "CATEGORIES:"@) is None
            &&& field(d2, "DESCRIPTION:"@) is None && field(d2, "COMPLETED:"@) is None
            &&& field(d3, "DUE:"@) is None && field(d3, "PRIORITY:"@) is None
            &&& field(d3, "DESCRIPTION:"@) is None && field(d3, "COMPLETED:"@) is None
            &&& field(d4, "DUE:"@) is None && field(d4, "PRIORITY:"@) is None
            &&& field(d4, "CATEGORIES:"@) is None && field(d4, "COMPLETED:"@) is None
            &&& field(d5, "DUE:"@) is None && field(d5, "PRIORITY:"@) is None
            &&& field(d5, "CATEGORIES:"@) is None && field(d5, "DESCRIPTION:"@) is None
            &&& forall|i: int| 0 <= i < keys.len() ==> field(todo_end(), #[trigger] keys[i]) is None
        }),
{
    reveal_strlit("BEGIN:VCALENDAR");
    reveal_strlit("VERSION:2.0");
    reveal_strlit("PRODID:-//time-manager-todo");
    reveal_strlit("BEGIN:VTODO");
    reveal_strlit("UID:");
    reveal_strlit("DTSTART:");
    reveal_strlit("SUMMARY:");
    reveal_strlit("STATUS:");
    reveal_strlit("DUE:");
    reveal_strlit("PRIORITY:");
    reveal_strlit("CATEGORIES:");
    reveal_strlit("DESCRIPTION:");
    reveal_strlit("COMPLETED:");
    reveal_strlit("END:VTODO");
    reveal_strlit("END:VCALENDAR");
    let d1 = instant_line("DUE:"@, v.due_date);
    let d2 = opt_line("PRIORITY:"@, priority_digits(v.priority));
    let d3 = tags_line(v.tags);
    let d4 = opt_line("DESCRIPTION:"@, v.notes);
    let d5 = instant_line("COMPLETED:"@, v.completed_at);
    let keys = seq!["DUE:"@, "PRIORITY:"@, "CATEGORIES:"@, "DESCRIPTION:"@, "COMPLETED:"@];
    let e = todo_end();
    assert forall|i: int| 0 <= i < keys.len() implies field(e, #[trigger] keys[i]) is None by {
        assert forall|j: int| 0 <= j < e.len() implies !has_prefix(#[trigger] e[j], keys[i]) by {
            lemma_text_differs(e[j], keys[i], 0);
        }
        lemma_field_none(e, keys[i]);
    }
    let ks = seq!["DUE:"@, "PRIORITY:"@, "CATEGORIES:"@, "DESCRIPTION:"@, "COMPLETED:"@];
    lemma_field_one(d1, "DUE:"@);
    lemma_field_one(d1, "PRIORITY:"@);
    lemma_field_one(d1, "CATEGORIES:"@);
    lemma_field_one(d1, "DESCRIPTION:"@);
    lemma_field_one(d1, "COMPLETED:"@);
    if let Some(t) = v.due_date {
        lemma_key_value("DUE:"@, compact_text(t));
        lemma_text_differs(d1[0], "PRIORITY:"@, 0);
        lemma_text_differs(d1[0], "CATEGORIES:"@, 0);
        lemma_text_differs(d1[0], "DESCRIPTION:"@, 1);
        lemma_text_differs(d1[0], "COMPLETED:"@, 0);
    }
    lemma_field_one(d2, "DUE:"@);
    lemma_field_one(d2, "PRIORITY:"@);
    lemma_field_one(d2, "CATEGORIES:"@);
    lemma_field_one(d2, "DESCRIPTION:"@);
    lemma_field_one(d2, "COMPLETED:"@);
    if let Some(p) = priority_digits(v.priority) {
        lemma_key_value("PRIORITY:"@, p);
        lemma_text_differs(d2[0], "DUE:"@, 0);
        lemma_text_differs(d2[0], "CATEGORIES:"@, 0);
        lemma_text_differs(d2[0], "DESCRIPTION:"@, 0);
        lemma_text_differs(d2[0], "COMPLETED:"@, 0);
    }
    lemma_field_one(d3, "DUE:"@);
    lemma_field_one(d3, "PRIORITY:"@);
    lemma_field_one(d3, "CATEGORIES:"@);
    lemma_field_one(d3, "DESCRIPTION:"@);
    lemma_field_one(d3, "COMPLETED:"@);
    if v.tags.len() > 0 {
        lemma_key_value("CATEGORIES:"@, join_with(v.tags, ','));
        lemma_text_differs(d3[0], "DUE:"@, 0);
        lemma_text_differs(d3[0], "PRIORITY:"@, 0);
        lemma_text_differs(d3[0], "DESCRIPTION:"@, 0);
        lemma_text_differs(d3[0], "COMPLETED:"@, 1);
    }
    lemma_field_one(d4, "DUE:"@);
    lemma_field_one(d4, "PRIORITY:"@);
    lemma_field_one(d4, "CATEGORIES:"@);
    lemma_field_one(d4, "DESCRIPTION:"@);
    lemma_field_one(d4, "COMPLETED:"@);
    if let Some(n) = v.notes {
        lemma_key_value("DESCRIPTION:"@, n);
        lemma_text_differs(d4[0], "DUE:"@, 1);
        lemma_text_differs(d4[0], "PRIORITY:"@, 0);
        lemma_text_differs(d4[0], "CATEGORIES:"@, 0);
        lemma_text_differs(d4[0], "COMPLETED:"@, 0);
    }
    lemma_field_one(d5, "DUE:"@);
    lemma_field_one(d5, "PRIORITY:"@);
    lemma_field_one(d5, "CATEGORIES:"@);
    lemma_field_one(d5, "DESCRIPTION:"@);
    lemma_field_one(d5, "COMPLETED:"@);
    if let Some(t) = v.completed_at {
        lemma_key_value("COMPLETED:"@, compact_text(t));
        lemma_text_differs(d5[0], "DUE:"@, 0);
        lemma_text_differs(d5[0], "PRIORITY:"@, 0);
        lemma_text_differs(d5[0], "CATEGORIES:"@, 1);
        lemma_text_differs(d5[0], "DESCRIPTION:"@, 0);
    }
    assert(ks == keys);
}

/// The lines written for a to-do item that reads back give that item, once
/// its UID and instants are read back from the text written for them.
pub proof fn law_todo_lines_roundtrip(v: TodoView, now: i64)
    requires
        todo_reads_back(v),
    ensures
        todo_parts(todo_line_list(v), Some(v.id), Some(v.created_at), v.due_date, v.completed_at, now) == Some(v),
{
    lemma_todo_fields(v);
    lemma_todo_literals();
    if let Some(p) = v.priority {
        crate::numbers::lemma_decimal_u32(p);
    }
    if v.tags.len() > 0 {
        crate::data::ics::lemma_pieces_join_with(v.tags, ',');
    }
    let r = todo_parts(todo_line_list(v), Some(v.id), Some(v.created_at), v.due_date, v.completed_at, now)->Some_0;
    assert(r.tags =~= v.tags);
}

} // verus!
