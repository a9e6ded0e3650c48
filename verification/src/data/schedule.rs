//! Calendar events as iCalendar (`.ics`) text.
use vstd::prelude::*;
use crate::clock::now_micros;
use crate::data::error::DataError;
use crate::data::ics::{lemma_field_one, lemma_after_concat, lemma_after_none, lemma_before_at, lemma_field_at, lemma_field_concat, lemma_field_none, lemma_key_value, lemma_text_differs, all_plain, lemma_plain_concat, lemma_plain_no_breaks, plain_line, after_marker, before_marker, field, find_field, join_lines, join_with, lines_after, lines_before,
    lines_of, pieces, split_on, text_lines, views};
use crate::data::models::{RecurrenceRule, Schedule, ScheduleView, all_texts, rrule_of, rrule_text};
use crate::data::stamps::{four_digit_second, compact_parsed, compact_text, format_compact, in_range, parse_compact, parse_uuid,
    uuid_parsed, uuid_string, uuid_text};
use crate::numbers::{parse_i32, parse_i32_spec};
use crate::text::{has_prefix, decimal, owned, push_char, push_decimal, push_str, string_of};

verus! {

/// A `key` line for the value, when there is one.
pub open spec fn opt_line(key: Seq<char>, v: Option<Seq<char>>) -> Seq<Seq<char>> {
    match v {
        Some(t) => seq![key + t],
        None => Seq::empty(),
    }
}

/// The priority as written: its decimal digits.
pub open spec fn priority_text(p: Option<i32>) -> Option<Seq<char>> {
    match p {
        Some(n) => Some(decimal(n as int)),
        None => None,
    }
}

/// The categories line, when there are categories.
pub open spec fn categories_line(cats: Seq<Seq<char>>) -> Seq<Seq<char>> {
    if cats.len() > 0 { seq!["CATEGORIES:"@ + join_with(cats, ',')] } else { Seq::empty() }
}

/// The alarm block of an event with a reminder.
pub open spec fn alarm_lines(s: ScheduleView) -> Seq<Seq<char>> {
    match s.reminder_minutes {
        Some(m) => seq![
            "BEGIN:VALARM"@,
            "ACTION:DISPLAY"@,
            "DESCRIPTION:"@ + s.summary,
            "TRIGGER:-PT"@ + (decimal(m as int) + "M"@),
            "END:VALARM"@,
        ],
        None => Seq::empty(),
    }
}

/// The lines every event begins with.
pub open spec fn ics_head(s: ScheduleView, created: i64, stamp: i64) -> Seq<Seq<char>> {
    seq![
        "BEGIN:VCALENDAR"@,
        "VERSION:2.0"@,
        "PRODID:-//Time Manager//EN"@,
        "CALSCALE:GREGORIAN"@,
        "BEGIN:VEVENT"@,
        "UID:"@ + (uuid_text(s.id) + "@time-manager"@),
        "DTSTART:"@ + compact_text(s.dtstart),
        "DTEND:"@ + compact_text(s.dtend),
        "SUMMARY:"@ + s.summary,
        "CREATED:"@ + compact_text(created),
        "DTSTAMP:"@ + compact_text(stamp),
    ]
}

/// The lines every event ends with.
pub open spec fn ics_end() -> Seq<Seq<char>> {
    seq!["END:VEVENT"@, "END:VCALENDAR"@]
}

/// The lines `format_ics` writes for an event, given the instants it
/// stamps as created and as written.
pub open spec fn ics_line_list(s: ScheduleView, created: i64, stamp: i64) -> Seq<Seq<char>> {
    ics_head(s, created, stamp) + opt_line("DESCRIPTION:"@, s.description) + opt_line("LOCATION:"@, s.location)
        + categories_line(s.categories) + opt_line("PRIORITY:"@, priority_text(s.priority)) + opt_line(
        "RRULE:"@,
        rrule_text(s.rrule),
    ) + alarm_lines(s) + ics_end()
}

/// The text of the UID line up to its first `@`.
pub open spec fn uid_text(lines: Seq<Seq<char>>) -> Option<Seq<char>> {
    match field(lines, "UID:"@) {
        Some(v) => Some(pieces(v, '@')[0]),
        None => None,
    }
}

/// The reminder of an event: the minutes of the first `TRIGGER:-PT…M`
/// line inside the first alarm block.
pub open spec fn reminder_of(lines: Seq<Seq<char>>) -> Option<i32> {
    match field(before_marker(after_marker(lines, "BEGIN:VALARM"@), "END:VALARM"@), "TRIGGER:-PT"@) {
        Some(v) => if v.len() > 0 && v.last() == 'M' { parse_i32_spec(v.drop_last()) } else { None },
        None => None,
    }
}

/// The event the lines of a calendar text describe, given what the UID and
/// the two date-time fields were read as; the error names the first of them
/// that is missing or unreadable.
pub open spec fn schedule_parts(lines: Seq<Seq<char>>, id: Option<u128>, dtstart: Option<i64>, dtend: Option<i64>) -> Result<
    ScheduleView,
    Seq<char>,
> {
    if id is None {
        Err("Missing UID"@)
    } else if dtstart is None {
        Err("Missing DTSTART"@)
    } else if dtend is None {
        Err("Missing DTEND"@)
    } else {
        Ok(
            ScheduleView {
                id: id.unwrap(),
                summary: match field(lines, "SUMMARY:"@) {
                    Some(v) => v,
                    None => Seq::empty(),
                },
                dtstart: dtstart.unwrap(),
                dtend: dtend.unwrap(),
                description: field(lines, "DESCRIPTION:"@),
                location: field(lines, "LOCATION:"@),
                categories: match field(lines, "CATEGORIES:"@) {
                    Some(v) => pieces(v, ','),
                    None => Seq::empty(),
                },
                priority: match field(lines, "PRIORITY:"@) {
                    Some(v) => parse_i32_spec(v),
                    None => None,
                },
                rrule: match field(lines, "RRULE:"@) {
                    Some(v) => rrule_of(v),
                    None => RecurrenceRule::NoRepeat,
                },
                reminder_minutes: reminder_of(lines),
            },
        )
    }
}

/// The event a calendar text describes, or the message of the error.
pub open spec fn parsed_schedule(content: Seq<char>) -> Result<ScheduleView, Seq<char>> {
    let lines = text_lines(content);
    let id = match uid_text(lines) {
        Some(u) => uuid_parsed(u),
        None => None,
    };
    let dtstart = match field(lines, "DTSTART:"@) {
        Some(v) => compact_parsed(v),
        None => None,
    };
    let dtend = match field(lines, "DTEND:"@) {
        Some(v) => compact_parsed(v),
        None => None,
    };
    schedule_parts(lines, id, dtstart, dtend)
}

/// The result matches the spec's event or error.
pub open spec fn parse_matches(r: Result<Schedule, DataError>, spec: Result<ScheduleView, Seq<char>>) -> bool {
    match (r, spec) {
        (Ok(s), Ok(v)) => s@ == v,
        (Err(e), Err(m)) => e matches DataError::InvalidData(x) && x@ == m,
        _ => false,
    }
}

pub(crate) fn strings_of(vs: &Vec<Vec<char>>) -> (r: Vec<String>)
    ensures
        all_texts(r@) == views(vs@),
{
    let mut out: Vec<String> = Vec::new();
    for i in 0..vs.len()
        invariant
            all_texts(out@) == views(vs@).take(i as int),
    {
        let s = string_of(&vs[i]);
        let ghost before = all_texts(out@);
        out.push(s);
        proof {
            assert(all_texts(out@) =~= before.push(vs@[i as int]@));
            assert(views(vs@).take(i + 1) =~= views(vs@).take(i as int).push(vs@[i as int]@));
        }
    }
    proof {
        assert(views(vs@).take(vs@.len() as int) =~= views(vs@));
    }
    out
}

fn opt_string(v: Option<Vec<char>>) -> (r: Option<String>)
    ensures
        match (r, v) {
            (Some(a), Some(b)) => a@ == b@,
            (None, None) => true,
            _ => false,
        },
{
    match v {
        Some(cs) => Some(string_of(&cs)),
        None => None,
    }
}

/// The event whose calendar lines are in `content`, given what its UID and
/// its start and end fields were read as.
pub fn schedule_from_ics(content: &str, id: Option<u128>, dtstart: Option<i64>, dtend: Option<i64>) -> (r: Result<
    Schedule,
    DataError,
>)
    ensures
        parse_matches(r, schedule_parts(text_lines(content@), id, dtstart, dtend)),
{
    let lines = lines_of(content);
    let ghost ls = text_lines(content@);
    let id = match id {
        Some(v) => v,
        None => {
            return Err(DataError::InvalidData(owned("Missing UID")));
        },
    };
    let dtstart = match dtstart {
        Some(v) => v,
        None => {
            return Err(DataError::InvalidData(owned("Missing DTSTART")));
        },
    };
    let dtend = match dtend {
        Some(v) => v,
        None => {
            return Err(DataError::InvalidData(owned("Missing DTEND")));
        },
    };
    let summary = match find_field(&lines, "SUMMARY:") {
        Some(v) => string_of(&v),
        None => String::new(),
    };
    let description = opt_string(find_field(&lines, "DESCRIPTION:"));
    let location = opt_string(find_field(&lines, "LOCATION:"));
    let categories = match find_field(&lines, "CATEGORIES:") {
        Some(v) => strings_of(&split_on(&v, ',')),
        None => Vec::new(),
    };
    let priority = match find_field(&lines, "PRIORITY:") {
        Some(v) => parse_i32(string_of(&v).as_str()),
        None => None,
    };
    let rrule = match find_field(&lines, "RRULE:") {
        Some(v) => RecurrenceRule::from_rrule(string_of(&v).as_str()),
        None => RecurrenceRule::NoRepeat,
    };
    let alarm = lines_before(&lines_after(&lines, "BEGIN:VALARM"), "END:VALARM");
    let reminder_minutes = match find_field(&alarm, "TRIGGER:-PT") {
        Some(v) => {
            if v.len() > 0 && v[v.len() - 1] == 'M' {
                let digits = crate::text::slice_chars(&v, 0, v.len() - 1);
                proof {
                    assert(digits@ =~= v@.drop_last());
                }
                parse_i32(string_of(&digits).as_str())
            } else {
                None
            }
        },
        None => None,
    };
    let s = Schedule {
        id,
        summary,
        dtstart,
        dtend,
        description,
        location,
        categories,
        priority,
        rrule,
        reminder_minutes,
    };
    proof {
        let v = schedule_parts(ls, Some(id), Some(dtstart), Some(dtend))->Ok_0;
        assert(s@.summary == v.summary);
        assert(s@.description == v.description);
        assert(s@.location == v.location);
        assert(s@.categories == v.categories);
        assert(s@.priority == v.priority);
        assert(s@.rrule == v.rrule);
        assert(s@.reminder_minutes == v.reminder_minutes);
    }
    Ok(s)
}

/// Reads an event from iCalendar text: its UID (up to an `@`), start and
/// end are required; summary, description, location, categories, priority,
/// repeat rule and alarm reminder are read where present. The text written
/// for an event that reads back gives that event.
pub fn parse_ics(content: &str) -> (r: Result<Schedule, DataError>)
    ensures
        parse_matches(r, parsed_schedule(content@)),
        forall|v: ScheduleView, c: i64, t: i64|
            reads_back(v) && #[trigger] ics_line_list(v, c, t) == text_lines(content@) ==> (r matches Ok(x) && x@ == v),
{
    let lines = lines_of(content);
    let id = read_uid(&lines);
    let dtstart = read_instant(&lines, "DTSTART:");
    let dtend = read_instant(&lines, "DTEND:");
    let r = schedule_from_ics(content, id, dtstart, dtend);
    proof {
        assert forall|v: ScheduleView, c: i64, t: i64|
            reads_back(v) && #[trigger] ics_line_list(v, c, t) == text_lines(content@) implies (r matches Ok(x) && x@ == v) by {
            lemma_ics_fields(v, c, t);
            lemma_uid_piece(v.id);
            law_schedule_lines_roundtrip(v, c, t);
            reveal_strlit("DTSTART:");
            reveal_strlit("DTEND:");
        }
    }
    r
}

/// Lines joined with line feeds grow by one line at a time.
pub proof fn lemma_join_push(ls: Seq<Seq<char>>, x: Seq<char>)
    ensures
        join_lines(ls.push(x)) == join_lines(ls) + x + seq!['\n'],
{
    assert(ls.push(x).drop_last() =~= ls);
}

/// Appends a line of text followed by a line feed.
pub(crate) fn add_line(out: &mut String, Ghost(ls): Ghost<Seq<Seq<char>>>, text: &str)
    requires
        old(out)@ == join_lines(ls),
    ensures
        final(out)@ == join_lines(ls.push(text@)),
{
    push_str(out, text);
    push_char(out, '\n');
    proof {
        lemma_join_push(ls, text@);
    }
}

/// Appends a `key` line with its value, followed by a line feed.
pub(crate) fn add_field(out: &mut String, Ghost(ls): Ghost<Seq<Seq<char>>>, key: &str, value: &str)
    requires
        old(out)@ == join_lines(ls),
    ensures
        final(out)@ == join_lines(ls.push(key@ + value@)),
{
    push_str(out, key);
    push_str(out, value);
    push_char(out, '\n');
    proof {
        lemma_join_push(ls, key@ + value@);
        assert(final(out)@ =~= join_lines(ls) + (key@ + value@) + seq!['\n']);
    }
}

/// The items with `sep` between them.
pub(crate) fn join_by(items: &Vec<String>, sep: char) -> (r: String)
    ensures
        r@ == join_with(all_texts(items@), sep),
{
    let mut out = String::new();
    let ghost t = all_texts(items@);
    for i in 0..items.len()
        invariant
            t == all_texts(items@),
            out@ == join_with(t.take(i as int), sep),
    {
        let ghost before = out@;
        if i > 0 {
            push_char(&mut out, sep);
        }
        push_str(&mut out, items[i].as_str());
        proof {
            let n = t.take(i + 1);
            assert(n.drop_last() =~= t.take(i as int));
            assert(n.last() == items@[i as int]@);
            if i == 0 {
                assert(before =~= Seq::<char>::empty());
                assert(out@ =~= n[0]);
            } else {
                assert(out@ =~= before + seq![sep] + n.last());
            }
        }
    }
    proof {
        assert(t.take(items@.len() as int) =~= t);
    }
    out
}

/// The calendar text of an event, stamped as created at `created` and
/// written at `stamp`.
#[verifier::spinoff_prover]
#[verifier::rlimit(60)]
pub fn format_ics_at(schedule: &Schedule, created: i64, stamp: i64) -> (r: String)
    requires
        in_range(schedule.dtstart),
        in_range(schedule.dtend),
        in_range(created),
        in_range(stamp),
    ensures
        r@ == join_lines(ics_line_list(schedule@, created, stamp)),
        plain_fields(schedule@) ==> text_lines(r@) == ics_line_list(schedule@, created, stamp),
{
    let s = schedule;
    let mut out = String::new();
    let ghost mut ls: Seq<Seq<char>> = Seq::empty();
    add_line(&mut out, Ghost(ls), "BEGIN:VCALENDAR");
    proof { ls = ls.push("BEGIN:VCALENDAR"@); }
    add_line(&mut out, Ghost(ls), "VERSION:2.0");
    proof { ls = ls.push("VERSION:2.0"@); }
    add_line(&mut out, Ghost(ls), "PRODID:-//Time Manager//EN");
    proof { ls = ls.push("PRODID:-//Time Manager//EN"@); }
    add_line(&mut out, Ghost(ls), "CALSCALE:GREGORIAN");
    proof { ls = ls.push("CALSCALE:GREGORIAN"@); }
    add_line(&mut out, Ghost(ls), "BEGIN:VEVENT");
    proof { ls = ls.push("BEGIN:VEVENT"@); }
    let mut uid = uuid_string(s.id);
    push_str(&mut uid, "@time-manager");
    add_field(&mut out, Ghost(ls), "UID:", uid.as_str());
    proof { ls = ls.push("UID:"@ + uid@); }
    let start = format_compact(s.dtstart);
    add_field(&mut out, Ghost(ls), "DTSTART:", start.as_str());
    proof { ls = ls.push("DTSTART:"@ + start@); }
    let end = format_compact(s.dtend);
    add_field(&mut out, Ghost(ls), "DTEND:", end.as_str());
    proof { ls = ls.push("DTEND:"@ + end@); }
    add_field(&mut out, Ghost(ls), "SUMMARY:", s.summary.as_str());
    proof { ls = ls.push("SUMMARY:"@ + s.summary@); }
    let c = format_compact(created);
    add_field(&mut out, Ghost(ls), "CREATED:", c.as_str());
    proof { ls = ls.push("CREATED:"@ + c@); }
    let st = format_compact(stamp);
    add_field(&mut out, Ghost(ls), "DTSTAMP:", st.as_str());
    proof {
        ls = ls.push("DTSTAMP:"@ + st@);
        assert(ls =~= ics_head(s@, created, stamp));
    }
    let ghost p0 = ls;
    match &s.description {
        Some(d) => {
            add_field(&mut out, Ghost(ls), "DESCRIPTION:", d.as_str());
            proof { ls = ls.push("DESCRIPTION:"@ + d@); }
        },
        None => {},
    }
    proof { assert(ls =~= p0 + opt_line("DESCRIPTION:"@, s@.description)); }
    let ghost p1 = ls;
    match &s.location {
        Some(l) => {
            add_field(&mut out, Ghost(ls), "LOCATION:", l.as_str());
            proof { ls = ls.push("LOCATION:"@ + l@); }
        },
        None => {},
    }
    proof { assert(ls =~= p1 + opt_line("LOCATION:"@, s@.location)); }
    let ghost p2 = ls;
    if s.categories.len() > 0 {
        let cats = join_by(&s.categories, ',');
        add_field(&mut out, Ghost(ls), "CATEGORIES:", cats.as_str());
        proof { ls = ls.push("CATEGORIES:"@ + cats@); }
    }
    proof { assert(ls =~= p2 + categories_line(s@.categories)); }
    let ghost p3 = ls;
    match s.priority {
        Some(p) => {
            let mut text = String::new();
            push_decimal(&mut text, p as i64);
            add_field(&mut out, Ghost(ls), "PRIORITY:", text.as_str());
            proof { ls = ls.push("PRIORITY:"@ + text@); }
        },
        None => {},
    }
    proof { assert(ls =~= p3 + opt_line("PRIORITY:"@, priority_text(s@.priority))); }
    let ghost p4 = ls;
    match s.rrule.to_rrule() {
        Some(rule) => {
            add_field(&mut out, Ghost(ls), "RRULE:", rule);
            proof { ls = ls.push("RRULE:"@ + rule@); }
        },
        None => {},
    }
    proof { assert(ls =~= p4 + opt_line("RRULE:"@, rrule_text(s@.rrule))); }
    let ghost p5 = ls;
    match s.reminder_minutes {
        Some(m) => {
            add_line(&mut out, Ghost(ls), "BEGIN:VALARM");
            proof { ls = ls.push("BEGIN:VALARM"@); }
            add_line(&mut out, Ghost(ls), "ACTION:DISPLAY");
            proof { ls = ls.push("ACTION:DISPLAY"@); }
            add_field(&mut out, Ghost(ls), "DESCRIPTION:", s.summary.as_str());
            proof { ls = ls.push("DESCRIPTION:"@ + s.summary@); }
            let mut text = String::new();
            push_decimal(&mut text, m as i64);
            push_str(&mut text, "M");
            add_field(&mut out, Ghost(ls), "TRIGGER:-PT", text.as_str());
            proof { ls = ls.push("TRIGGER:-PT"@ + text@); }
            add_line(&mut out, Ghost(ls), "END:VALARM");
            proof { ls = ls.push("END:VALARM"@); }
        },
        None => {},
    }
    proof { assert(ls =~= p5 + alarm_lines(s@)); }
    let ghost p6 = ls;
    add_line(&mut out, Ghost(ls), "END:VEVENT");
    proof { ls = ls.push("END:VEVENT"@); }
    add_line(&mut out, Ghost(ls), "END:VCALENDAR");
    proof {
        ls = ls.push("END:VCALENDAR"@);
        assert(ls =~= p6 + ics_end());
        assert(ls == ics_line_list(s@, created, stamp));
        if plain_fields(s@) {
            lemma_ics_lines_plain(s@, created, stamp);
            crate::data::ics::lemma_text_lines_join(ls);
        }
    }
    out
}

/// The calendar text of an event, stamped with the clock. The clock is read
/// twice, once for the creation stamp and once for the write stamp.
pub fn format_ics(schedule: &Schedule) -> (r: String)
    requires
        in_range(schedule.dtstart),
        in_range(schedule.dtend),
    ensures
        exists|created: i64, stamp: i64| {
            &&& r@ == join_lines(ics_line_list(schedule@, created, stamp))
            &&& plain_fields(schedule@) ==> text_lines(r@) == ics_line_list(schedule@, created, stamp)
        },
{
    let created = now_micros();
    let stamp = now_micros();
    format_ics_at(schedule, created, stamp)
}

} // verus!

verus! {

/// The texts an event writes on lines of their own are plain: they come
/// back from `str::lines` as written.
pub open spec fn plain_fields(v: ScheduleView) -> bool {
    &&& plain_line(v.summary)
    &&& (v.description matches Some(d) ==> plain_line(d))
    &&& (v.location matches Some(l) ==> plain_line(l))
    &&& forall|i: int| 0 <= i < v.categories.len() ==> plain_line(#[trigger] v.categories[i])
}

/// No line break is in the text.
pub open spec fn no_breaks(s: Seq<char>) -> bool {
    !s.contains('\n') && !s.contains('\r')
}

proof fn lemma_plain_literals()
    ensures
        plain_line("BEGIN:VCALENDAR"@),
        plain_line("VERSION:2.0"@),
        plain_line("PRODID:-//Time Manager//EN"@),
        plain_line("CALSCALE:GREGORIAN"@),
        plain_line("BEGIN:VEVENT"@),
        plain_line("UID:"@),
        plain_line("@time-manager"@),
        plain_line("DTSTART:"@),
        plain_line("DTEND:"@),
        plain_line("SUMMARY:"@),
        plain_line("CREATED:"@),
        plain_line("DTSTAMP:"@),
        plain_line("DESCRIPTION:"@),
        plain_line("LOCATION:"@),
        plain_line("CATEGORIES:"@),
        plain_line("PRIORITY:"@),
        plain_line("RRULE:"@),
        plain_line("BEGIN:VALARM"@),
        plain_line("ACTION:DISPLAY"@),
        plain_line("TRIGGER:-PT"@),
        plain_line("M"@),
        plain_line("END:VALARM"@),
        plain_line("END:VEVENT"@),
        plain_line("END:VCALENDAR"@),
        plain_line("FREQ=DAILY"@),
        plain_line("FREQ=WEEKLY"@),
        plain_line("FREQ=MONTHLY"@),
{
    reveal_strlit("BEGIN:VCALENDAR");
    reveal_strlit("VERSION:2.0");
    reveal_strlit("PRODID:-//Time Manager//EN");
    reveal_strlit("CALSCALE:GREGORIAN");
    reveal_strlit("BEGIN:VEVENT");
    reveal_strlit("UID:");
    reveal_strlit("@time-manager");
    reveal_strlit("DTSTART:");
    reveal_strlit("DTEND:");
    reveal_strlit("SUMMARY:");
    reveal_strlit("CREATED:");
    reveal_strlit("DTSTAMP:");
    reveal_strlit("DESCRIPTION:");
    reveal_strlit("LOCATION:");
    reveal_strlit("CATEGORIES:");
    reveal_strlit("PRIORITY:");
    reveal_strlit("RRULE:");
    reveal_strlit("BEGIN:VALARM");
    reveal_strlit("ACTION:DISPLAY");
    reveal_strlit("TRIGGER:-PT");
    reveal_strlit("M");
    reveal_strlit("END:VALARM");
    reveal_strlit("END:VEVENT");
    reveal_strlit("END:VCALENDAR");
    reveal_strlit("FREQ=DAILY");
    reveal_strlit("FREQ=WEEKLY");
    reveal_strlit("FREQ=MONTHLY");
}

/// Hexadecimal digits and hyphens make a plain text.
pub(crate) proof fn lemma_uuid_plain(id: u128)
    ensures
        plain_line(uuid_text(id)),
{
    crate::data::stamps::lemma_uuid_text_chars(id);
    let u = uuid_text(id);
    if u.contains('\n') {
        let i = choose|i: int| 0 <= i < u.len() && u[i] == '\n';
        assert(u[i] == '\n');
    }
    assert(u[35] == u.last());
}

/// A number written in decimal is plain.
pub proof fn lemma_decimal_plain(v: int)
    ensures
        plain_line(decimal(v)),
{
    let n: nat = if v < 0 { (-v) as nat } else { v as nat };
    crate::learning::params::lemma_digits_roundtrip(n);
    let d = crate::text::digits(n);
    let s = decimal(v);
    assert forall|i: int| 0 <= i < s.len() implies s[i] != '\n' && s[i] != '\r' by {
        if v < 0 {
            if i > 0 {
                assert(s[i] == d[i - 1]);
                assert(crate::learning::params::is_digit(d[i - 1]));
            }
        } else {
            assert(crate::learning::params::is_digit(d[i]));
        }
    }
    assert(s[s.len() - 1] == s.last());
}

/// Plain items joined by commas make a plain text.
pub(crate) proof fn lemma_join_plain(items: Seq<Seq<char>>)
    requires
        forall|i: int| 0 <= i < items.len() ==> plain_line(#[trigger] items[i]),
    ensures
        plain_line(join_with(items, ',')),
    decreases items.len(),
{
    if items.len() == 0 {
    } else if items.len() == 1 {
        assert(plain_line(items[0]));
    } else {
        let d = items.drop_last();
        assert forall|i: int| 0 <= i < d.len() implies plain_line(#[trigger] d[i]) by {
            assert(d[i] == items[i]);
        }
        lemma_join_plain(d);
        assert(plain_line(seq![','])) by {
            assert(seq![','][0] == ',');
        }
        lemma_plain_concat(join_with(d, ','), seq![',']);
        assert(plain_line(items[items.len() - 1]));
        lemma_plain_concat(join_with(d, ',') + seq![','], items.last());
    }
}

/// Every line written for an event with plain texts is plain.
pub proof fn lemma_ics_lines_plain(v: ScheduleView, created: i64, stamp: i64)
    requires
        plain_fields(v),
        no_breaks(compact_text(v.dtstart)),
        no_breaks(compact_text(v.dtend)),
        no_breaks(compact_text(created)),
        no_breaks(compact_text(stamp)),
    ensures
        all_plain(ics_line_list(v, created, stamp)),
{
    lemma_plain_literals();
    lemma_uuid_plain(v.id);
    lemma_plain_no_breaks(compact_text(v.dtstart));
    lemma_plain_no_breaks(compact_text(v.dtend));
    lemma_plain_no_breaks(compact_text(created));
    lemma_plain_no_breaks(compact_text(stamp));
    lemma_plain_concat(uuid_text(v.id), "@time-manager"@);
    lemma_plain_concat("UID:"@, uuid_text(v.id) + "@time-manager"@);
    lemma_plain_concat("DTSTART:"@, compact_text(v.dtstart));
    lemma_plain_concat("DTEND:"@, compact_text(v.dtend));
    lemma_plain_concat("SUMMARY:"@, v.summary);
    lemma_plain_concat("CREATED:"@, compact_text(created));
    lemma_plain_concat("DTSTAMP:"@, compact_text(stamp));
    let head = ics_head(v, created, stamp);
    assert(all_plain(head));
    let d1 = opt_line("DESCRIPTION:"@, v.description);
    if let Some(d) = v.description {
        lemma_plain_concat("DESCRIPTION:"@, d);
    }
    assert(all_plain(d1));
    let d2 = opt_line("LOCATION:"@, v.location);
    if let Some(l) = v.location {
        lemma_plain_concat("LOCATION:"@, l);
    }
    assert(all_plain(d2));
    let d3 = categories_line(v.categories);
    if v.categories.len() > 0 {
        lemma_join_plain(v.categories);
        lemma_plain_concat("CATEGORIES:"@, join_with(v.categories, ','));
    }
    assert(all_plain(d3));
    let d4 = opt_line("PRIORITY:"@, priority_text(v.priority));
    if let Some(p) = v.priority {
        lemma_decimal_plain(p as int);
        lemma_plain_concat("PRIORITY:"@, decimal(p as int));
    }
    assert(all_plain(d4));
    let d5 = opt_line("RRULE:"@, rrule_text(v.rrule));
    if let Some(t) = rrule_text(v.rrule) {
        lemma_plain_concat("RRULE:"@, t);
    }
    assert(all_plain(d5));
    let d6 = alarm_lines(v);
    if let Some(m) = v.reminder_minutes {
        lemma_plain_concat("DESCRIPTION:"@, v.summary);
        lemma_decimal_plain(m as int);
        lemma_plain_concat(decimal(m as int), "M"@);
        lemma_plain_concat("TRIGGER:-PT"@, decimal(m as int) + "M"@);
    }
    assert(all_plain(d6));
    assert(all_plain(ics_end()));
    crate::data::ics::lemma_all_plain_concat(head, d1);
    crate::data::ics::lemma_all_plain_concat(head + d1, d2);
    crate::data::ics::lemma_all_plain_concat(head + d1 + d2, d3);
    crate::data::ics::lemma_all_plain_concat(head + d1 + d2 + d3, d4);
    crate::data::ics::lemma_all_plain_concat(head + d1 + d2 + d3 + d4, d5);
    crate::data::ics::lemma_all_plain_concat(head + d1 + d2 + d3 + d4 + d5, d6);
    crate::data::ics::lemma_all_plain_concat(head + d1 + d2 + d3 + d4 + d5 + d6, ics_end());
}

/// The first of two lookups that finds something.
pub open spec fn first_some(a: Option<Seq<char>>, b: Option<Seq<char>>) -> Option<Seq<char>> {
    match a {
        Some(_) => a,
        None => b,
    }
}

/// A field of the written lines is found in the first part of them that
/// has it.
proof fn lemma_ics_field_split(v: ScheduleView, c: i64, t: i64, k: Seq<char>)
    ensures
        field(ics_line_list(v, c, t), k) == first_some(
            field(ics_head(v, c, t), k),
            first_some(
                field(opt_line("DESCRIPTION:"@, v.description), k),
                first_some(
                    field(opt_line("LOCATION:"@, v.location), k),
                    first_some(
                        field(categories_line(v.categories), k),
                        first_some(
                            field(opt_line("PRIORITY:"@, priority_text(v.priority)), k),
                            first_some(
                                field(opt_line("RRULE:"@, rrule_text(v.rrule)), k),
                                first_some(field(alarm_lines(v), k), field(ics_end(), k)),
                            ),
                        ),
                    ),
                ),
            ),
        ),
{
    let h = ics_head(v, c, t);
    let d1 = opt_line("DESCRIPTION:"@, v.description);
    let d2 = opt_line("LOCATION:"@, v.location);
    let d3 = categories_line(v.categories);
    let d4 = opt_line("PRIORITY:"@, priority_text(v.priority));
    let d5 = opt_line("RRULE:"@, rrule_text(v.rrule));
    let d6 = alarm_lines(v);
    let e = ics_end();
    lemma_field_concat(h + d1 + d2 + d3 + d4 + d5 + d6, e, k);
    lemma_field_concat(h + d1 + d2 + d3 + d4 + d5, d6, k);
    lemma_field_concat(h + d1 + d2 + d3 + d4, d5, k);
    lemma_field_concat(h + d1 + d2 + d3, d4, k);
    lemma_field_concat(h + d1 + d2, d3, k);
    lemma_field_concat(h + d1, d2, k);
    lemma_field_concat(h, d1, k);
}

/// Keys that begin with none of the letters the alarm block and the end
/// lines begin with are found in neither.
proof fn lemma_tail_apart(v: ScheduleView, k: Seq<char>)
    requires
        k.len() > 0,
        k[0] != 'B' && k[0] != 'A' && k[0] != 'D' && k[0] != 'T' && k[0] != 'E',
    ensures
        field(alarm_lines(v), k) is None,
        field(ics_end(), k) is None,
{
    reveal_strlit("BEGIN:VALARM");
    reveal_strlit("ACTION:DISPLAY");
    reveal_strlit("DESCRIPTION:");
    reveal_strlit("TRIGGER:-PT");
    reveal_strlit("END:VALARM");
    reveal_strlit("END:VEVENT");
    reveal_strlit("END:VCALENDAR");
    let d6 = alarm_lines(v);
    let e = ics_end();
    assert forall|j: int| 0 <= j < d6.len() implies !has_prefix(#[trigger] d6[j], k) by {
        lemma_text_differs(d6[j], k, 0);
    }
    lemma_field_none(d6, k);
    assert forall|j: int| 0 <= j < e.len() implies !has_prefix(#[trigger] e[j], k) by {
        lemma_text_differs(e[j], k, 0);
    }
    lemma_field_none(e, k);
}

/// What the written lines hold under each key the reader looks up.
pub proof fn lemma_ics_fields(v: ScheduleView, c: i64, t: i64)
    requires
        v.description is None ==> v.reminder_minutes is None,
    ensures
        field(ics_line_list(v, c, t), "UID:"@) == Some(uuid_text(v.id) + "@time-manager"@),
        field(ics_line_list(v, c, t), "DTSTART:"@) == Some(compact_text(v.dtstart)),
        field(ics_line_list(v, c, t), "DTEND:"@) == Some(compact_text(v.dtend)),
        field(ics_line_list(v, c, t), "SUMMARY:"@) == Some(v.summary),
        field(ics_line_list(v, c, t), "DESCRIPTION:"@) == v.description,
{
    reveal_strlit("BEGIN:VCALENDAR");
    reveal_strlit("VERSION:2.0");
    reveal_strlit("PRODID:-//Time Manager//EN");
    reveal_strlit("CALSCALE:GREGORIAN");
    reveal_strlit("BEGIN:VEVENT");
    reveal_strlit("UID:");
    reveal_strlit("DTSTART:");
    reveal_strlit("DTEND:");
    reveal_strlit("SUMMARY:");
    reveal_strlit("CREATED:");
    reveal_strlit("DTSTAMP:");
    reveal_strlit("DESCRIPTION:");
    reveal_strlit("LOCATION:");
    reveal_strlit("CATEGORIES:");
    reveal_strlit("PRIORITY:");
    reveal_strlit("RRULE:");
    reveal_strlit("BEGIN:VALARM");
    reveal_strlit("ACTION:DISPLAY");
    reveal_strlit("TRIGGER:-PT");
    reveal_strlit("END:VALARM");
    reveal_strlit("END:VEVENT");
    reveal_strlit("END:VCALENDAR");
    let h = ics_head(v, c, t);
    let d1 = opt_line("DESCRIPTION:"@, v.description);
    let d2 = opt_line("LOCATION:"@, v.location);
    let d3 = categories_line(v.categories);
    let d4 = opt_line("PRIORITY:"@, priority_text(v.priority));
    let d5 = opt_line("RRULE:"@, rrule_text(v.rrule));
    let d6 = alarm_lines(v);
    let e = ics_end();
    // The keys found in the head.
    lemma_key_value("UID:"@, uuid_text(v.id) + "@time-manager"@);
    assert forall|j: int| 0 <= j < 5 implies !has_prefix(#[trigger] h[j], "UID:"@) by {
        lemma_text_differs(h[j], "UID:"@, 0);
    }
    lemma_field_at(h, "UID:"@, 5);
    lemma_ics_field_split(v, c, t, "UID:"@);
    lemma_key_value("DTSTART:"@, compact_text(v.dtstart));
    assert forall|j: int| 0 <= j < 6 implies !has_prefix(#[trigger] h[j], "DTSTART:"@) by {
        lemma_text_differs(h[j], "DTSTART:"@, 0);
    }
    lemma_field_at(h, "DTSTART:"@, 6);
    lemma_ics_field_split(v, c, t, "DTSTART:"@);
    lemma_key_value("DTEND:"@, compact_text(v.dtend));
    assert forall|j: int| 0 <= j < 7 implies !has_prefix(#[trigger] h[j], "DTEND:"@) by {
        if j == 6 {
            lemma_text_differs(h[j], "DTEND:"@, 2);
        } else {
            lemma_text_differs(h[j], "DTEND:"@, 0);
        }
    }
    lemma_field_at(h, "DTEND:"@, 7);
    lemma_ics_field_split(v, c, t, "DTEND:"@);
    lemma_key_value("SUMMARY:"@, v.summary);
    assert forall|j: int| 0 <= j < 8 implies !has_prefix(#[trigger] h[j], "SUMMARY:"@) by {
        lemma_text_differs(h[j], "SUMMARY:"@, 0);
    }
    lemma_field_at(h, "SUMMARY:"@, 8);
    lemma_ics_field_split(v, c, t, "SUMMARY:"@);
    // DESCRIPTION: not in the head, first in its own line, and otherwise
    // nowhere (there is no alarm then).
    assert forall|j: int| 0 <= j < 11 implies !has_prefix(#[trigger] h[j], "DESCRIPTION:"@) by {
        if j == 6 || j == 7 || j == 10 {
            lemma_text_differs(h[j], "DESCRIPTION:"@, 1);
        } else {
            lemma_text_differs(h[j], "DESCRIPTION:"@, 0);
        }
    }
    lemma_field_none(h, "DESCRIPTION:"@);
    lemma_ics_field_split(v, c, t, "DESCRIPTION:"@);
    lemma_field_one(d1, "DESCRIPTION:"@);
    if let Some(d) = v.description {
        lemma_key_value("DESCRIPTION:"@, d);
    } else {
        lemma_field_one(d2, "DESCRIPTION:"@);
        if let Some(l) = v.location {
            lemma_text_differs("LOCATION:"@ + l, "DESCRIPTION:"@, 0);
        }
        lemma_field_one(d3, "DESCRIPTION:"@);
        if v.categories.len() > 0 {
            lemma_text_differs(d3[0], "DESCRIPTION:"@, 0);
        }
        lemma_field_one(d4, "DESCRIPTION:"@);
        if let Some(p) = priority_text(v.priority) {
            lemma_text_differs("PRIORITY:"@ + p, "DESCRIPTION:"@, 0);
        }
        lemma_field_one(d5, "DESCRIPTION:"@);
        if let Some(r) = rrule_text(v.rrule) {
            lemma_text_differs("RRULE:"@ + r, "DESCRIPTION:"@, 0);
        }
        assert(d6.len() == 0);
        lemma_field_none(d6, "DESCRIPTION:"@);
        assert forall|j: int| 0 <= j < 2 implies !has_prefix(#[trigger] e[j], "DESCRIPTION:"@) by {
            lemma_text_differs(e[j], "DESCRIPTION:"@, 0);
        }
        lemma_field_none(e, "DESCRIPTION:"@);
    }
}

/// What the written lines hold under the optional keys.
pub proof fn lemma_ics_optional_fields(v: ScheduleView, c: i64, t: i64)
    ensures
        field(ics_line_list(v, c, t), "LOCATION:"@) == v.location,
        field(ics_line_list(v, c, t), "CATEGORIES:"@) == (if v.categories.len() > 0 {
            Some(join_with(v.categories, ','))
        } else {
            None
        }),
        field(ics_line_list(v, c, t), "PRIORITY:"@) == priority_text(v.priority),
        field(ics_line_list(v, c, t), "RRULE:"@) == rrule_text(v.rrule),
{
    reveal_strlit("BEGIN:VCALENDAR");
    reveal_strlit("VERSION:2.0");
    reveal_strlit("PRODID:-//Time Manager//EN");
    reveal_strlit("CALSCALE:GREGORIAN");
    reveal_strlit("BEGIN:VEVENT");
    reveal_strlit("UID:");
    reveal_strlit("DTSTART:");
    reveal_strlit("DTEND:");
    reveal_strlit("SUMMARY:");
    reveal_strlit("CREATED:");
    reveal_strlit("DTSTAMP:");
    reveal_strlit("DESCRIPTION:");
    reveal_strlit("LOCATION:");
    reveal_strlit("CATEGORIES:");
    reveal_strlit("PRIORITY:");
    reveal_strlit("RRULE:");
    reveal_strlit("BEGIN:VALARM");
    reveal_strlit("ACTION:DISPLAY");
    reveal_strlit("TRIGGER:-PT");
    reveal_strlit("END:VALARM");
    reveal_strlit("END:VEVENT");
    reveal_strlit("END:VCALENDAR");
    let h = ics_head(v, c, t);
    let d1 = opt_line("DESCRIPTION:"@, v.description);
    let d2 = opt_line("LOCATION:"@, v.location);
    let d3 = categories_line(v.categories);
    let d4 = opt_line("PRIORITY:"@, priority_text(v.priority));
    let d5 = opt_line("RRULE:"@, rrule_text(v.rrule));
    lemma_field_one(d1, "LOCATION:"@);
    lemma_field_one(d1, "CATEGORIES:"@);
    lemma_field_one(d1, "PRIORITY:"@);
    lemma_field_one(d1, "RRULE:"@);
    if let Some(d) = v.description {
        lemma_text_differs("DESCRIPTION:"@ + d, "LOCATION:"@, 0);
        lemma_text_differs("DESCRIPTION:"@ + d, "CATEGORIES:"@, 0);
        lemma_text_differs("DESCRIPTION:"@ + d, "PRIORITY:"@, 0);
        lemma_text_differs("DESCRIPTION:"@ + d, "RRULE:"@, 0);
    }
    lemma_field_one(d2, "LOCATION:"@);
    lemma_field_one(d2, "CATEGORIES:"@);
    lemma_field_one(d2, "PRIORITY:"@);
    lemma_field_one(d2, "RRULE:"@);
    if let Some(l) = v.location {
        lemma_key_value("LOCATION:"@, l);
        lemma_text_differs("LOCATION:"@ + l, "CATEGORIES:"@, 0);
        lemma_text_differs("LOCATION:"@ + l, "PRIORITY:"@, 0);
        lemma_text_differs("LOCATION:"@ + l, "RRULE:"@, 0);
    }
    lemma_field_one(d3, "LOCATION:"@);
    lemma_field_one(d3, "CATEGORIES:"@);
    lemma_field_one(d3, "PRIORITY:"@);
    lemma_field_one(d3, "RRULE:"@);
    if v.categories.len() > 0 {
        lemma_key_value("CATEGORIES:"@, join_with(v.categories, ','));
        lemma_text_differs(d3[0], "LOCATION:"@, 0);
        lemma_text_differs(d3[0], "PRIORITY:"@, 0);
        lemma_text_differs(d3[0], "RRULE:"@, 0);
    }
    lemma_field_one(d4, "PRIORITY:"@);
    lemma_field_one(d4, "RRULE:"@);
    if let Some(p) = priority_text(v.priority) {
        lemma_key_value("PRIORITY:"@, p);
        lemma_text_differs("PRIORITY:"@ + p, "LOCATION:"@, 0);
        lemma_text_differs("PRIORITY:"@ + p, "CATEGORIES:"@, 0);
        lemma_text_differs("PRIORITY:"@ + p, "RRULE:"@, 0);
    }
    lemma_field_one(d4, "LOCATION:"@);
    lemma_field_one(d4, "CATEGORIES:"@);
    lemma_field_one(d5, "LOCATION:"@);
    lemma_field_one(d5, "CATEGORIES:"@);
    lemma_field_one(d5, "PRIORITY:"@);
    lemma_field_one(d5, "RRULE:"@);
    if let Some(r) = rrule_text(v.rrule) {
        lemma_key_value("RRULE:"@, r);
        lemma_text_differs("RRULE:"@ + r, "LOCATION:"@, 0);
        lemma_text_differs("RRULE:"@ + r, "CATEGORIES:"@, 0);
        lemma_text_differs("RRULE:"@ + r, "PRIORITY:"@, 0);
    }
    assert forall|j: int| 0 <= j < 11 implies !has_prefix(#[trigger] h[j], "LOCATION:"@) by {
        lemma_text_differs(h[j], "LOCATION:"@, 0);
    }
    lemma_field_none(h, "LOCATION:"@);
    assert forall|j: int| 0 <= j < 11 implies !has_prefix(#[trigger] h[j], "CATEGORIES:"@) by {
        if j == 3 {
            lemma_text_differs(h[j], "CATEGORIES:"@, 2);
        } else if j == 9 {
            lemma_text_differs(h[j], "CATEGORIES:"@, 1);
        } else {
            lemma_text_differs(h[j], "CATEGORIES:"@, 0);
        }
    }
    lemma_field_none(h, "CATEGORIES:"@);
    assert forall|j: int| 0 <= j < 11 implies !has_prefix(#[trigger] h[j], "PRIORITY:"@) by {
        if j == 2 {
            lemma_text_differs(h[j], "PRIORITY:"@, 2);
        } else {
            lemma_text_differs(h[j], "PRIORITY:"@, 0);
        }
    }
    lemma_field_none(h, "PRIORITY:"@);
    assert forall|j: int| 0 <= j < 11 implies !has_prefix(#[trigger] h[j], "RRULE:"@) by {
        lemma_text_differs(h[j], "RRULE:"@, 0);
    }
    lemma_field_none(h, "RRULE:"@);
    lemma_tail_apart(v, "LOCATION:"@);
    lemma_tail_apart(v, "CATEGORIES:"@);
    lemma_tail_apart(v, "PRIORITY:"@);
    lemma_tail_apart(v, "RRULE:"@);
    lemma_ics_field_split(v, c, t, "LOCATION:"@);
    lemma_ics_field_split(v, c, t, "CATEGORIES:"@);
    lemma_ics_field_split(v, c, t, "PRIORITY:"@);
    lemma_ics_field_split(v, c, t, "RRULE:"@);
}

/// The written lines give back the reminder.
pub proof fn lemma_ics_reminder(v: ScheduleView, c: i64, t: i64)
    ensures
        reminder_of(ics_line_list(v, c, t)) == v.reminder_minutes,
{
    reveal_strlit("BEGIN:VCALENDAR");
    reveal_strlit("VERSION:2.0");
    reveal_strlit("PRODID:-//Time Manager//EN");
    reveal_strlit("CALSCALE:GREGORIAN");
    reveal_strlit("BEGIN:VEVENT");
    reveal_strlit("UID:");
    reveal_strlit("DTSTART:");
    reveal_strlit("DTEND:");
    reveal_strlit("SUMMARY:");
    reveal_strlit("CREATED:");
    reveal_strlit("DTSTAMP:");
    reveal_strlit("DESCRIPTION:");
    reveal_strlit("LOCATION:");
    reveal_strlit("CATEGORIES:");
    reveal_strlit("PRIORITY:");
    reveal_strlit("RRULE:");
    reveal_strlit("BEGIN:VALARM");
    reveal_strlit("ACTION:DISPLAY");
    reveal_strlit("TRIGGER:-PT");
    reveal_strlit("END:VALARM");
    reveal_strlit("END:VEVENT");
    reveal_strlit("END:VCALENDAR");
    let h = ics_head(v, c, t);
    let d1 = opt_line("DESCRIPTION:"@, v.description);
    let d2 = opt_line("LOCATION:"@, v.location);
    let d3 = categories_line(v.categories);
    let d4 = opt_line("PRIORITY:"@, priority_text(v.priority));
    let d5 = opt_line("RRULE:"@, rrule_text(v.rrule));
    let d6 = alarm_lines(v);
    let e = ics_end();
    let m = "BEGIN:VALARM"@;
    let p = h + d1 + d2 + d3 + d4 + d5;
    assert forall|j: int| 0 <= j < p.len() implies !has_prefix(#[trigger] p[j], m) by {
        if j == 0 || j == 4 {
            lemma_text_differs(p[j], m, 7);
        } else {
            lemma_text_differs(p[j], m, 0);
        }
    }
    lemma_field_none(p, m);
    lemma_after_concat(p + d6, e, m);
    lemma_field_concat(p, d6, m);
    lemma_after_concat(p, d6, m);
    lemma_after_none(p, m);
    assert(p.len() + 0 == p.len());
    match v.reminder_minutes {
        Some(n) => {
            assert(has_prefix(d6[0], m)) by {
                lemma_key_value(m, Seq::empty());
                assert(m + Seq::<char>::empty() =~= m);
            }
            lemma_field_one_first(d6, m);
            assert(after_marker(d6, m) == d6.drop_first());
            assert(after_marker(p, m) + d6 =~= d6) by {
                assert(after_marker(p, m).len() == 0);
            }
            let after = d6.drop_first() + e;
            assert(after_marker(ics_line_list(v, c, t), m) == after);
            let em = "END:VALARM"@;
            assert(has_prefix(after[3], em)) by {
                lemma_key_value(em, Seq::empty());
                assert(em + Seq::<char>::empty() =~= em);
            }
            assert forall|j: int| 0 <= j < 3 implies !has_prefix(#[trigger] after[j], em) by {
                lemma_text_differs(after[j], em, 0);
            }
            lemma_before_at(after, em, 3);
            let alarm = after.take(3);
            let tk = "TRIGGER:-PT"@;
            let val = decimal(n as int) + "M"@;
            lemma_key_value(tk, val);
            assert(alarm[2] == tk + val);
            assert forall|j: int| 0 <= j < 2 implies !has_prefix(#[trigger] alarm[j], tk) by {
                lemma_text_differs(alarm[j], tk, 0);
            }
            lemma_field_at(alarm, tk, 2);
            reveal_strlit("M");
            assert(val.last() == 'M');
            assert(val.drop_last() =~= decimal(n as int));
            crate::numbers::lemma_decimal_i32(n);
        },
        None => {
            assert(d6.len() == 0);
            assert(field(d6, m) is None);
            assert forall|j: int| 0 <= j < e.len() implies !has_prefix(#[trigger] e[j], m) by {
                lemma_text_differs(e[j], m, 0);
            }
            lemma_after_none(e, m);
            assert(p + d6 =~= p);
        },
    }
}

/// A run whose first line begins with the marker: the lines after it.
proof fn lemma_field_one_first(ls: Seq<Seq<char>>, m: Seq<char>)
    requires
        ls.len() > 0,
        has_prefix(ls[0], m),
    ensures
        after_marker(ls, m) == ls.drop_first(),
        field(ls, m) is Some,
{
}

/// What an event needs for its calendar text to read back as itself: start
/// and end are whole seconds of four-digit years, a reminder comes with a
/// description (the alarm repeats the summary on a description line), and
/// no category holds a comma.
pub open spec fn reads_back(v: ScheduleView) -> bool {
    &&& four_digit_second(v.dtstart)
    &&& four_digit_second(v.dtend)
    &&& (v.description is None ==> v.reminder_minutes is None)
    &&& forall|i: int| 0 <= i < v.categories.len() ==> !(#[trigger] v.categories[i]).contains(',')
}

/// Every repeat rule reads back from its `RRULE` value.
pub proof fn lemma_rrule_roundtrip(r: RecurrenceRule)
    ensures
        match rrule_text(r) {
            Some(t) => rrule_of(t) == r,
            None => r == RecurrenceRule::NoRepeat,
        },
{
    reveal_strlit("FREQ=DAILY");
    reveal_strlit("FREQ=WEEKLY");
    reveal_strlit("FREQ=MONTHLY");
    match r {
        RecurrenceRule::Daily => {
            lemma_key_value("FREQ=DAILY"@, Seq::empty());
            assert("FREQ=DAILY"@ + Seq::<char>::empty() =~= "FREQ=DAILY"@);
        },
        RecurrenceRule::Weekly => {
            lemma_text_differs("FREQ=WEEKLY"@, "FREQ=DAILY"@, 5);
            lemma_key_value("FREQ=WEEKLY"@, Seq::empty());
            assert("FREQ=WEEKLY"@ + Seq::<char>::empty() =~= "FREQ=WEEKLY"@);
        },
        RecurrenceRule::Monthly => {
            lemma_text_differs("FREQ=MONTHLY"@, "FREQ=DAILY"@, 5);
            lemma_text_differs("FREQ=MONTHLY"@, "FREQ=WEEKLY"@, 5);
            lemma_key_value("FREQ=MONTHLY"@, Seq::empty());
            assert("FREQ=MONTHLY"@ + Seq::<char>::empty() =~= "FREQ=MONTHLY"@);
        },
        RecurrenceRule::NoRepeat => {},
    }
}

/// The UID line's value up to its `@` is the UUID written there.
proof fn lemma_uid_piece(id: u128)
    ensures
        pieces(uuid_text(id) + "@time-manager"@, '@')[0] == uuid_text(id),
{
    reveal_strlit("@time-manager");
    let x = uuid_text(id);
    crate::data::stamps::lemma_uuid_text_chars(id);
    assert(!x.contains('@')) by {
        if x.contains('@') {
            let i = choose|i: int| 0 <= i < x.len() && x[i] == '@';
            assert(x[i] == '@');
        }
    }
    let z = "@time-manager"@.drop_first();
    assert(!z.contains('@')) by {
        if z.contains('@') {
            let i = choose|i: int| 0 <= i < z.len() && z[i] == '@';
            assert(z[i] == '@');
        }
    }
    crate::data::ics::lemma_pieces_extend(Seq::empty(), x, '@');
    assert(Seq::<char>::empty() + x =~= x);
    assert(pieces(Seq::<char>::empty(), '@') =~= seq![Seq::<char>::empty()]);
    let xs = x.push('@');
    assert(xs.drop_last() =~= x);
    crate::data::ics::lemma_pieces_nonempty(x, '@');
    crate::data::ics::lemma_pieces_extend(xs, z, '@');
    assert(xs + z =~= x + "@time-manager"@);
}

/// The lines written for an event that reads back give that event, once
/// its UID, start and end are read back from the text written for them.
pub proof fn law_schedule_lines_roundtrip(v: ScheduleView, c: i64, t: i64)
    requires
        reads_back(v),
    ensures
        schedule_parts(ics_line_list(v, c, t), Some(v.id), Some(v.dtstart), Some(v.dtend)) == Ok::<ScheduleView, Seq<char>>(v),
{
    lemma_ics_fields(v, c, t);
    lemma_ics_optional_fields(v, c, t);
    lemma_ics_reminder(v, c, t);
    lemma_rrule_roundtrip(v.rrule);
    if let Some(p) = v.priority {
        crate::numbers::lemma_decimal_i32(p);
    }
    if v.categories.len() > 0 {
        crate::data::ics::lemma_pieces_join_with(v.categories, ',');
    }
    let r = schedule_parts(ics_line_list(v, c, t), Some(v.id), Some(v.dtstart), Some(v.dtend))->Ok_0;
    assert(r.categories =~= v.categories);
}

fn read_uid(lines: &Vec<Vec<char>>) -> (r: Option<u128>)
    ensures
        r == (match uid_text(views(lines@)) {
            Some(u) => uuid_parsed(u),
            None => None,
        }),
        forall|v: u128| uid_text(views(lines@)) == Some(#[trigger] uuid_text(v)) ==> r == Some(v),
{
    match find_field(lines, "UID:") {
        Some(v) => {
            let ps = split_on(&v, '@');
            proof {
                crate::data::ics::lemma_pieces_nonempty(v@, '@');
                assert(views(ps@)[0] == ps@[0]@);
            }
            parse_uuid(string_of(&ps[0]).as_str())
        },
        None => None,
    }
}

pub(crate) fn read_instant(lines: &Vec<Vec<char>>, key: &str) -> (r: Option<i64>)
    ensures
        r == (match field(views(lines@), key@) {
            Some(w) => compact_parsed(w),
            None => None,
        }),
        forall|t: i64| four_digit_second(t) && field(views(lines@), key@) == Some(#[trigger] compact_text(t)) ==> r == Some(t),
{
    match find_field(lines, key) {
        Some(v) => parse_compact(string_of(&v).as_str()),
        None => None,
    }
}

} // verus!
