//! The text of exported sessions and predictions: CSV and Markdown tables.
use vstd::prelude::*;
use crate::data::ics::join_lines;
use crate::data::models::{PredictionState, Session, difficulty_label, quality_label};
use crate::data::schedule::add_line;
use crate::data::stamps::{day_minute_text, day_text, format_day, format_day_minute, format_rfc3339, in_range, rfc3339_text};
use crate::display::{format_duration, hms_text};
use crate::text::{decimal, push_decimal, push_str};

verus! {

/// Writes sessions and predictions as JSON lines.
pub struct JsonExporter;

/// Writes sessions and predictions as CSV.
pub struct CsvExporter;

/// Writes sessions and predictions as Markdown tables.
pub struct MarkdownExporter;

/// The note of a session, or `absent` when it has none.
pub open spec fn note_or(note: Option<String>, absent: Seq<char>) -> Seq<char> {
    match note {
        Some(n) => n@,
        None => absent,
    }
}

/// The instants of every session can be written.
pub open spec fn sessions_writable(s: Seq<Session>) -> bool {
    forall|i: int| 0 <= i < s.len() ==> in_range((#[trigger] s[i]).start_time) && in_range(s[i].end_time)
}

/// The instants of every prediction can be written.
pub open spec fn predictions_writable(p: Seq<PredictionState>) -> bool {
    forall|i: int| 0 <= i < p.len() ==> in_range((#[trigger] p[i]).last_review) && in_range(p[i].next_review)
}

pub open spec fn csv_session_header() -> Seq<char> {
    "id,category_id,start_time,end_time,duration_secs,quality,understanding_difficulty,memory_difficulty,completion_rate,note,is_manual_edit"@
}

/// One CSV row of a session.
pub open spec fn csv_session_row(s: Session) -> Seq<char> {
    decimal(s.id as int) + ","@ + decimal(s.category_id as int) + ","@ + rfc3339_text(s.start_time) + ","@
        + rfc3339_text(s.end_time) + ","@ + decimal(s.duration_secs as int) + ","@ + quality_label(s.quality) + ","@
        + difficulty_label(s.understanding_difficulty) + ","@ + difficulty_label(s.memory_difficulty) + ","@
        + decimal(s.completion_rate as int) + ","@ + note_or(s.note, Seq::empty()) + ","@ + (if s.is_manual_edit {
        "1"@
    } else {
        "0"@
    })
}

pub open spec fn csv_prediction_header() -> Seq<char> {
    "id,category_id,algorithm,last_review,next_review"@
}

/// One CSV row of a prediction.
pub open spec fn csv_prediction_row(p: PredictionState) -> Seq<char> {
    decimal(p.id as int) + ","@ + decimal(p.category_id as int) + ","@ + p.algorithm@ + ","@ + rfc3339_text(p.last_review)
        + ","@ + rfc3339_text(p.next_review)
}

/// One Markdown table row of a session.
pub open spec fn md_session_row(s: Session) -> Seq<char> {
    "| "@ + decimal(s.id as int) + " | "@ + decimal(s.category_id as int) + " | "@ + day_minute_text(s.start_time) + " | "@
        + day_minute_text(s.end_time) + " | "@ + hms_text(s.duration_secs as int) + " | "@ + quality_label(s.quality)
        + " | "@ + note_or(s.note, "-"@) + " |"@
}

/// One Markdown table row of a prediction.
pub open spec fn md_prediction_row(p: PredictionState) -> Seq<char> {
    "| "@ + decimal(p.category_id as int) + " | "@ + p.algorithm@ + " | "@ + day_text(p.last_review) + " | "@ + day_text(
        p.next_review,
    ) + " |"@
}

/// The lines of the sessions CSV file: the header, then one row each.
pub open spec fn csv_session_lines(s: Seq<Session>) -> Seq<Seq<char>> {
    seq![csv_session_header()] + s.map_values(|x: Session| csv_session_row(x))
}

/// The lines of the predictions CSV file.
pub open spec fn csv_prediction_lines(p: Seq<PredictionState>) -> Seq<Seq<char>> {
    seq![csv_prediction_header()] + p.map_values(|x: PredictionState| csv_prediction_row(x))
}

/// The lines of the sessions Markdown file: a title, a blank line, the
/// table head, then one row each.
pub open spec fn md_session_lines(s: Seq<Session>) -> Seq<Seq<char>> {
    seq![
        "# Sessions"@,
        Seq::empty(),
        "| ID | Category | Start | End | Duration | Quality | Note |"@,
        "|----|----------|-------|-----|----------|---------|------|"@,
    ] + s.map_values(|x: Session| md_session_row(x))
}

/// The lines of the predictions Markdown file.
pub open spec fn md_prediction_lines(p: Seq<PredictionState>) -> Seq<Seq<char>> {
    seq![
        "# Prediction States"@,
        Seq::empty(),
        "| Category | Algorithm | Last Review | Next Review |"@,
        "|----------|-----------|-------------|-------------|"@,
    ] + p.map_values(|x: PredictionState| md_prediction_row(x))
}

fn csv_row(s: &Session) -> (r: String)
    requires
        in_range(s.start_time),
        in_range(s.end_time),
    ensures
        r@ == csv_session_row(*s),
{
    let mut out = String::new();
    push_decimal(&mut out, s.id);
    push_str(&mut out, ",");
    push_decimal(&mut out, s.category_id);
    push_str(&mut out, ",");
    push_str(&mut out, format_rfc3339(s.start_time).as_str());
    push_str(&mut out, ",");
    push_str(&mut out, format_rfc3339(s.end_time).as_str());
    push_str(&mut out, ",");
    push_decimal(&mut out, s.duration_secs);
    push_str(&mut out, ",");
    push_str(&mut out, s.quality.as_str());
    push_str(&mut out, ",");
    push_str(&mut out, s.understanding_difficulty.as_str());
    push_str(&mut out, ",");
    push_str(&mut out, s.memory_difficulty.as_str());
    push_str(&mut out, ",");
    push_decimal(&mut out, s.completion_rate as i64);
    push_str(&mut out, ",");
    match &s.note {
        Some(n) => push_str(&mut out, n.as_str()),
        None => {},
    }
    push_str(&mut out, ",");
    push_str(&mut out, if s.is_manual_edit { "1" } else { "0" });
    proof {
        assert(out@ =~= csv_session_row(*s));
    }
    out
}

fn md_row(s: &Session) -> (r: String)
    requires
        in_range(s.start_time),
        in_range(s.end_time),
    ensures
        r@ == md_session_row(*s),
{
    let mut out = String::new();
    push_str(&mut out, "| ");
    push_decimal(&mut out, s.id);
    push_str(&mut out, " | ");
    push_decimal(&mut out, s.category_id);
    push_str(&mut out, " | ");
    push_str(&mut out, format_day_minute(s.start_time).as_str());
    push_str(&mut out, " | ");
    push_str(&mut out, format_day_minute(s.end_time).as_str());
    push_str(&mut out, " | ");
    push_str(&mut out, format_duration(s.duration_secs).as_str());
    push_str(&mut out, " | ");
    push_str(&mut out, s.quality.as_str());
    push_str(&mut out, " | ");
    match &s.note {
        Some(n) => push_str(&mut out, n.as_str()),
        None => push_str(&mut out, "-"),
    }
    push_str(&mut out, " |");
    proof {
        assert(out@ =~= md_session_row(*s));
    }
    out
}

fn csv_prediction(p: &PredictionState) -> (r: String)
    requires
        in_range(p.last_review),
        in_range(p.next_review),
    ensures
        r@ == csv_prediction_row(*p),
{
    let mut out = String::new();
    push_decimal(&mut out, p.id);
    push_str(&mut out, ",");
    push_decimal(&mut out, p.category_id);
    push_str(&mut out, ",");
    push_str(&mut out, p.algorithm.as_str());
    push_str(&mut out, ",");
    push_str(&mut out, format_rfc3339(p.last_review).as_str());
    push_str(&mut out, ",");
    push_str(&mut out, format_rfc3339(p.next_review).as_str());
    proof {
        assert(out@ =~= csv_prediction_row(*p));
    }
    out
}

fn md_prediction(p: &PredictionState) -> (r: String)
    requires
        in_range(p.last_review),
        in_range(p.next_review),
    ensures
        r@ == md_prediction_row(*p),
{
    let mut out = String::new();
    push_str(&mut out, "| ");
    push_decimal(&mut out, p.category_id);
    push_str(&mut out, " | ");
    push_str(&mut out, p.algorithm.as_str());
    push_str(&mut out, " | ");
    push_str(&mut out, format_day(p.last_review).as_str());
    push_str(&mut out, " | ");
    push_str(&mut out, format_day(p.next_review).as_str());
    push_str(&mut out, " |");
    proof {
        assert(out@ =~= md_prediction_row(*p));
    }
    out
}

impl CsvExporter {
    /// The text of `sessions.csv`.
    pub fn sessions_text(&self, sessions: &[Session]) -> (r: String)
        requires
            sessions_writable(sessions@),
        ensures
            r@ == join_lines(csv_session_lines(sessions@)),
    {
        let mut out = String::new();
        let ghost head = seq![csv_session_header()];
        proof {
            assert(join_lines(Seq::<Seq<char>>::empty()) == Seq::<char>::empty());
            assert(seq![csv_session_header()] =~= Seq::<Seq<char>>::empty().push(csv_session_header()));
        }
        add_line(&mut out, Ghost(Seq::empty()), "id,category_id,start_time,end_time,duration_secs,quality,understanding_difficulty,memory_difficulty,completion_rate,note,is_manual_edit");
        for i in 0..sessions.len()
            invariant
                sessions_writable(sessions@),
                out@ == join_lines(head + sessions@.take(i as int).map_values(|x: Session| csv_session_row(x))),
        {
            let row = csv_row(&sessions[i]);
            let ghost ls = head + sessions@.take(i as int).map_values(|x: Session| csv_session_row(x));
            add_line(&mut out, Ghost(ls), row.as_str());
            proof {
                assert(ls.push(row@) =~= head + sessions@.take(i + 1).map_values(|x: Session| csv_session_row(x)));
            }
        }
        proof {
            assert(sessions@.take(sessions@.len() as int) =~= sessions@);
        }
        out
    }

    /// The text of `prediction_states.csv`.
    pub fn predictions_text(&self, predictions: &[PredictionState]) -> (r: String)
        requires
            predictions_writable(predictions@),
        ensures
            r@ == join_lines(csv_prediction_lines(predictions@)),
    {
        let mut out = String::new();
        let ghost head = seq![csv_prediction_header()];
        proof {
            assert(seq![csv_prediction_header()] =~= Seq::<Seq<char>>::empty().push(csv_prediction_header()));
        }
        add_line(&mut out, Ghost(Seq::empty()), "id,category_id,algorithm,last_review,next_review");
        for i in 0..predictions.len()
            invariant
                predictions_writable(predictions@),
                out@ == join_lines(head + predictions@.take(i as int).map_values(|x: PredictionState| csv_prediction_row(x))),
        {
            let row = csv_prediction(&predictions[i]);
            let ghost ls = head + predictions@.take(i as int).map_values(|x: PredictionState| csv_prediction_row(x));
            add_line(&mut out, Ghost(ls), row.as_str());
            proof {
                assert(ls.push(row@) =~= head + predictions@.take(i + 1).map_values(|x: PredictionState| csv_prediction_row(x)));
            }
        }
        proof {
            assert(predictions@.take(predictions@.len() as int) =~= predictions@);
        }
        out
    }
}

impl MarkdownExporter {
    /// The text of `sessions.md`.
    pub fn sessions_text(&self, sessions: &[Session]) -> (r: String)
        requires
            sessions_writable(sessions@),
        ensures
            r@ == join_lines(md_session_lines(sessions@)),
    {
        let mut out = String::new();
        let ghost h0: Seq<Seq<char>> = Seq::empty();
        add_line(&mut out, Ghost(h0), "# Sessions");
        add_line(&mut out, Ghost(h0.push("# Sessions"@)), "");
        proof {
            reveal_strlit("");
            assert(""@ =~= Seq::<char>::empty());
        }
        add_line(&mut out, Ghost(h0.push("# Sessions"@).push(""@)), "| ID | Category | Start | End | Duration | Quality | Note |");
        add_line(
            &mut out,
            Ghost(h0.push("# Sessions"@).push(""@).push("| ID | Category | Start | End | Duration | Quality | Note |"@)),
            "|----|----------|-------|-----|----------|---------|------|",
        );
        let ghost head = seq![
            "# Sessions"@,
            Seq::empty(),
            "| ID | Category | Start | End | Duration | Quality | Note |"@,
            "|----|----------|-------|-----|----------|---------|------|"@,
        ];
        proof {
            assert(head =~= h0.push("# Sessions"@).push(""@).push("| ID | Category | Start | End | Duration | Quality | Note |"@).push(
                "|----|----------|-------|-----|----------|---------|------|"@,
            ));
        }
        for i in 0..sessions.len()
            invariant
                sessions_writable(sessions@),
                out@ == join_lines(head + sessions@.take(i as int).map_values(|x: Session| md_session_row(x))),
        {
            let row = md_row(&sessions[i]);
            let ghost ls = head + sessions@.take(i as int).map_values(|x: Session| md_session_row(x));
            add_line(&mut out, Ghost(ls), row.as_str());
            proof {
                assert(ls.push(row@) =~= head + sessions@.take(i + 1).map_values(|x: Session| md_session_row(x)));
            }
        }
        proof {
            assert(sessions@.take(sessions@.len() as int) =~= sessions@);
        }
        out
    }

    /// The text of `prediction_states.md`.
    pub fn predictions_text(&self, predictions: &[PredictionState]) -> (r: String)
        requires
            predictions_writable(predictions@),
        ensures
            r@ == join_lines(md_prediction_lines(predictions@)),
    {
        let mut out = String::new();
        let ghost h0: Seq<Seq<char>> = Seq::empty();
        add_line(&mut out, Ghost(h0), "# Prediction States");
        add_line(&mut out, Ghost(h0.push("# Prediction States"@)), "");
        proof {
            reveal_strlit("");
            assert(""@ =~= Seq::<char>::empty());
        }
        add_line(&mut out, Ghost(h0.push("# Prediction States"@).push(""@)), "| Category | Algorithm | Last Review | Next Review |");
        add_line(
            &mut out,
            Ghost(h0.push("# Prediction States"@).push(""@).push("| Category | Algorithm | Last Review | Next Review |"@)),
            "|----------|-----------|-------------|-------------|",
        );
        let ghost head = seq![
            "# Prediction States"@,
            Seq::empty(),
            "| Category | Algorithm | Last Review | Next Review |"@,
            "|----------|-----------|-------------|-------------|"@,
        ];
        proof {
            assert(head =~= h0.push("# Prediction States"@).push(""@).push("| Category | Algorithm | Last Review | Next Review |"@).push(
                "|----------|-----------|-------------|-------------|"@,
            ));
        }
        for i in 0..predictions.len()
            invariant
                predictions_writable(predictions@),
                out@ == join_lines(head + predictions@.take(i as int).map_values(|x: PredictionState| md_prediction_row(x))),
        {
            let row = md_prediction(&predictions[i]);
            let ghost ls = head + predictions@.take(i as int).map_values(|x: PredictionState| md_prediction_row(x));
            add_line(&mut out, Ghost(ls), row.as_str());
            proof {
                assert(ls.push(row@) =~= head + predictions@.take(i + 1).map_values(|x: PredictionState| md_prediction_row(x)));
            }
        }
        proof {
            assert(predictions@.take(predictions@.len() as int) =~= predictions@);
        }
        out
    }
}

} // verus!
