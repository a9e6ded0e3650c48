//! The data model of reviews, categories and session parameters.
use vstd::prelude::*;
use crate::text::str_eq;

verus! {

/// How well a card was remembered at a review.
#[derive(Debug, Clone, Copy, PartialEq, Eq, Structural)]
pub enum MemoryQuality {
    Relearn,
    Hard,
    Good,
    Easy,
}

/// The label of each memory quality.
pub open spec fn memory_quality_label(q: MemoryQuality) -> Seq<char> {
    match q {
        MemoryQuality::Relearn => "重学"@,
        MemoryQuality::Hard => "困难"@,
        MemoryQuality::Good => "好"@,
        MemoryQuality::Easy => "简单"@,
    }
}

/// The memory quality a label names.
pub open spec fn memory_quality_from_label(s: Seq<char>) -> Option<MemoryQuality> {
    if s == "重学"@ { Some(MemoryQuality::Relearn) }
    else if s == "困难"@ { Some(MemoryQuality::Hard) }
    else if s == "好"@ { Some(MemoryQuality::Good) }
    else if s == "简单"@ { Some(MemoryQuality::Easy) }
    else { None }
}

impl MemoryQuality {
    /// Every quality, from worst to best.
    pub fn all() -> (r: Vec<MemoryQuality>)
        ensures
            r@ == seq![MemoryQuality::Relearn, MemoryQuality::Hard, MemoryQuality::Good, MemoryQuality::Easy],
    {
        vec![MemoryQuality::Relearn, MemoryQuality::Hard, MemoryQuality::Good, MemoryQuality::Easy]
    }

    pub fn as_str(&self) -> (r: &'static str)
        ensures
            r@ == memory_quality_label(*self),
    {
        match self {
            MemoryQuality::Relearn => "重学",
            MemoryQuality::Hard => "困难",
            MemoryQuality::Good => "好",
            MemoryQuality::Easy => "简单",
        }
    }

    pub fn from_str(s: &str) -> (r: Option<MemoryQuality>)
        ensures
            r == memory_quality_from_label(s@),
            r matches Some(q) ==> memory_quality_label(q) == s@,
            r is None ==> forall|q: MemoryQuality| memory_quality_label(q) != s@,
    {
        if str_eq(s, "重学") {
            Some(MemoryQuality::Relearn)
        } else if str_eq(s, "困难") {
            Some(MemoryQuality::Hard)
        } else if str_eq(s, "好") {
            Some(MemoryQuality::Good)
        } else if str_eq(s, "简单") {
            Some(MemoryQuality::Easy)
        } else {
            None
        }
    }
}

} // verus!

verus! {

/// The quality of a study session.
#[derive(Debug, Clone, Copy, PartialEq, Eq, Structural)]
pub enum Quality {
    VeryLow,
    Low,
    Medium,
    High,
    Complete,
}

/// The difficulty of understanding or memorising the material of a session.
#[derive(Debug, Clone, Copy, PartialEq, Eq, Structural)]
pub enum Difficulty {
    VeryEasy,
    Easy,
    Medium,
    Hard,
    VeryHard,
}

pub open spec fn quality_label(q: Quality) -> Seq<char> {
    match q {
        Quality::VeryLow => "极低"@,
        Quality::Low => "低"@,
        Quality::Medium => "中"@,
        Quality::High => "高"@,
        Quality::Complete => "完整"@,
    }
}

pub open spec fn difficulty_label(d: Difficulty) -> Seq<char> {
    match d {
        Difficulty::VeryEasy => "极易"@,
        Difficulty::Easy => "易"@,
        Difficulty::Medium => "中"@,
        Difficulty::Hard => "难"@,
        Difficulty::VeryHard => "极难"@,
    }
}

/// The quality a label names.
pub open spec fn quality_from_label(s: Seq<char>) -> Option<Quality> {
    if s == "极低"@ { Some(Quality::VeryLow) }
    else if s == "低"@ { Some(Quality::Low) }
    else if s == "中"@ { Some(Quality::Medium) }
    else if s == "高"@ { Some(Quality::High) }
    else if s == "完整"@ { Some(Quality::Complete) }
    else { None }
}

/// The difficulty a label names.
pub open spec fn difficulty_from_label(s: Seq<char>) -> Option<Difficulty> {
    if s == "极易"@ { Some(Difficulty::VeryEasy) }
    else if s == "易"@ { Some(Difficulty::Easy) }
    else if s == "中"@ { Some(Difficulty::Medium) }
    else if s == "难"@ { Some(Difficulty::Hard) }
    else if s == "极难"@ { Some(Difficulty::VeryHard) }
    else { None }
}

impl Quality {
    /// Every quality, from lowest to highest.
    pub fn all() -> (r: Vec<Quality>)
        ensures
            r@ == seq![Quality::VeryLow, Quality::Low, Quality::Medium, Quality::High, Quality::Complete],
    {
        vec![Quality::VeryLow, Quality::Low, Quality::Medium, Quality::High, Quality::Complete]
    }

    pub fn as_str(&self) -> (r: &'static str)
        ensures
            r@ == quality_label(*self),
    {
        match self {
            Quality::VeryLow => "极低",
            Quality::Low => "低",
            Quality::Medium => "中",
            Quality::High => "高",
            Quality::Complete => "完整",
        }
    }

    /// The quality whose label is `s`; an error for any other text.
    pub fn try_from(s: &str) -> (r: Result<Quality, ()>)
        ensures
            r == (match quality_from_label(s@) { Some(q) => Ok::<Quality, ()>(q), None => Err(()) }),
    {
        match Quality::parse(s) {
            Some(q) => Ok(q),
            None => Err(()),
        }
    }

    /// The quality whose label is `s`, if any.
    pub fn parse(s: &str) -> (r: Option<Quality>)
        ensures
            r == quality_from_label(s@),
            r matches Some(q) ==> quality_label(q) == s@,
            r is None ==> forall|q: Quality| quality_label(q) != s@,
    {
        if str_eq(s, "极低") {
            Some(Quality::VeryLow)
        } else if str_eq(s, "低") {
            Some(Quality::Low)
        } else if str_eq(s, "中") {
            Some(Quality::Medium)
        } else if str_eq(s, "高") {
            Some(Quality::High)
        } else if str_eq(s, "完整") {
            Some(Quality::Complete)
        } else {
            None
        }
    }
}

impl Difficulty {
    /// Every difficulty, from easiest to hardest.
    pub fn all() -> (r: Vec<Difficulty>)
        ensures
            r@ == seq![Difficulty::VeryEasy, Difficulty::Easy, Difficulty::Medium, Difficulty::Hard, Difficulty::VeryHard],
    {
        vec![Difficulty::VeryEasy, Difficulty::Easy, Difficulty::Medium, Difficulty::Hard, Difficulty::VeryHard]
    }

    pub fn as_str(&self) -> (r: &'static str)
        ensures
            r@ == difficulty_label(*self),
    {
        match self {
            Difficulty::VeryEasy => "极易",
            Difficulty::Easy => "易",
            Difficulty::Medium => "中",
            Difficulty::Hard => "难",
            Difficulty::VeryHard => "极难",
        }
    }

    /// The difficulty whose label is `s`; an error for any other text.
    pub fn try_from(s: &str) -> (r: Result<Difficulty, ()>)
        ensures
            r == (match difficulty_from_label(s@) { Some(d) => Ok::<Difficulty, ()>(d), None => Err(()) }),
    {
        match Difficulty::parse(s) {
            Some(d) => Ok(d),
            None => Err(()),
        }
    }

    /// The difficulty whose label is `s`, if any.
    pub fn parse(s: &str) -> (r: Option<Difficulty>)
        ensures
            r == difficulty_from_label(s@),
            r matches Some(d) ==> difficulty_label(d) == s@,
            r is None ==> forall|d: Difficulty| difficulty_label(d) != s@,
    {
        if str_eq(s, "极易") {
            Some(Difficulty::VeryEasy)
        } else if str_eq(s, "易") {
            Some(Difficulty::Easy)
        } else if str_eq(s, "中") {
            Some(Difficulty::Medium)
        } else if str_eq(s, "难") {
            Some(Difficulty::Hard)
        } else if str_eq(s, "极难") {
            Some(Difficulty::VeryHard)
        } else {
            None
        }
    }
}

/// Whether a category only groups others or is itself studied.
#[derive(Debug, Clone, Copy, PartialEq, Eq, Structural)]
pub enum NodeType {
    Directory,
    Learning,
}

pub open spec fn node_type_label(t: NodeType) -> Seq<char> {
    match t {
        NodeType::Directory => "directory"@,
        NodeType::Learning => "learning"@,
    }
}

impl NodeType {
    pub fn as_str(&self) -> (r: &'static str)
        ensures
            r@ == node_type_label(*self),
    {
        match self {
            NodeType::Directory => "directory",
            NodeType::Learning => "learning",
        }
    }

    pub fn parse(s: &str) -> (r: Option<NodeType>)
        ensures
            r matches Some(t) ==> node_type_label(t) == s@,
            r is None ==> forall|t: NodeType| node_type_label(t) != s@,
    {
        if str_eq(s, "directory") {
            Some(NodeType::Directory)
        } else if str_eq(s, "learning") {
            Some(NodeType::Learning)
        } else {
            None
        }
    }
}

/// A category as it is stored: a node of the category hierarchy, linked to
/// its parent by id.
pub struct Category {
    pub id: i64,
    pub parent_id: Option<i64>,
    pub name: String,
    pub path: String,
    pub node_type: NodeType,
    pub source: Option<String>,
    pub default_quality: Option<Quality>,
    pub default_understanding_difficulty: Option<Difficulty>,
    pub default_memory_difficulty: Option<Difficulty>,
}

/// The parameters a finished session is recorded with.
pub struct SessionParams {
    pub quality: Quality,
    pub understanding_difficulty: Difficulty,
    pub memory_difficulty: Difficulty,
    pub completion_rate: u8,
}

impl Default for SessionParams {
    fn default() -> (r: SessionParams)
        ensures
            r.quality == Quality::Medium,
            r.understanding_difficulty == Difficulty::Medium,
            r.memory_difficulty == Difficulty::Medium,
            r.completion_rate == 100,
    {
        SessionParams {
            quality: Quality::Medium,
            understanding_difficulty: Difficulty::Medium,
            memory_difficulty: Difficulty::Medium,
            completion_rate: 100,
        }
    }
}

/// A named set of session parameters that can be applied in one step.
pub struct Preset {
    pub name: String,
    pub quality: Quality,
    pub understanding_difficulty: Difficulty,
    pub memory_difficulty: Difficulty,
    pub completion_rate: u8,
}

/// A category to be added: a `Category` before the store gives it an id.
pub struct CategoryInsert {
    pub parent_id: Option<i64>,
    pub name: String,
    pub path: String,
    pub node_type: NodeType,
    pub source: Option<String>,
    pub default_quality: Option<Quality>,
    pub default_understanding_difficulty: Option<Difficulty>,
    pub default_memory_difficulty: Option<Difficulty>,
}

/// A finished session to be recorded.
pub struct SessionInsert {
    pub category_id: i64,
    pub start_time: i64,
    pub end_time: i64,
    pub duration_secs: i64,
    pub pause_records: Vec<PauseRecord>,
    pub params: SessionParams,
    pub note: Option<String>,
}

/// A prediction to be stored for a category.
pub struct PredictionStateInsert {
    pub category_id: i64,
    pub algorithm: String,
    pub last_review: i64,
    pub next_review: i64,
    pub algorithm_state: Vec<u8>,
}

/// Copies a list of strings, keeping their texts.
pub fn clone_strings(v: &Vec<String>) -> (r: Vec<String>)
    ensures
        all_texts(r@) == all_texts(v@),
{
    let mut out: Vec<String> = Vec::new();
    for i in 0..v.len()
        invariant
            out@.len() == i,
            all_texts(out@) == all_texts(v@.take(i as int)),
    {
        let ghost before = out@;
        let c = v[i].clone();
        out.push(c);
        proof {
            assert forall|j: int| 0 <= j < i + 1 implies #[trigger] all_texts(out@)[j] == all_texts(v@.take(i + 1))[j] by {
                if j < i {
                    assert(all_texts(out@)[j] == out@[j]@);
                    assert(out@[j] == before[j]);
                    assert(all_texts(before)[j] == all_texts(v@.take(i as int))[j]);
                }
            }
            assert(all_texts(out@) =~= all_texts(v@.take(i + 1)));
        }
    }
    proof {
        assert(v@.take(v@.len() as int) =~= v@);
    }
    out
}

/// Clones an optional string, keeping its value.
pub fn clone_opt_string(s: &Option<String>) -> (r: Option<String>)
    ensures
        r == *s,
{
    match s {
        Some(v) => Some(v.clone()),
        None => None,
    }
}

} // verus!

verus! {

/// One pause of a running session: when it began and when work resumed,
/// in microseconds since the Unix epoch.
#[derive(Debug, Clone, Copy, PartialEq, Eq, Structural)]
pub struct PauseRecord {
    pub pause_start: i64,
    pub resume_time: i64,
}

} // verus!

verus! {

/// How a scheduled event repeats.
#[derive(Debug, Clone, Copy, PartialEq, Eq, Structural)]
pub enum RecurrenceRule {
    NoRepeat,
    Daily,
    Weekly,
    Monthly,
}

/// The label a repeat rule has in the schedule form.
pub open spec fn rrule_label(r: RecurrenceRule) -> Seq<char> {
    match r {
        RecurrenceRule::NoRepeat => "无"@,
        RecurrenceRule::Daily => "每天"@,
        RecurrenceRule::Weekly => "每周"@,
        RecurrenceRule::Monthly => "每月"@,
    }
}

/// The rule a form label names; any other text means no repeat.
pub open spec fn rrule_from_label(s: Seq<char>) -> RecurrenceRule {
    if s == "每天"@ {
        RecurrenceRule::Daily
    } else if s == "每周"@ {
        RecurrenceRule::Weekly
    } else if s == "每月"@ {
        RecurrenceRule::Monthly
    } else {
        RecurrenceRule::NoRepeat
    }
}

/// The iCalendar `RRULE` value of a rule; none for an event that does not
/// repeat.
pub open spec fn rrule_text(r: RecurrenceRule) -> Option<Seq<char>> {
    match r {
        RecurrenceRule::NoRepeat => Option::None,
        RecurrenceRule::Daily => Some("FREQ=DAILY"@),
        RecurrenceRule::Weekly => Some("FREQ=WEEKLY"@),
        RecurrenceRule::Monthly => Some("FREQ=MONTHLY"@),
    }
}

/// The rule an `RRULE` value gives, by the frequency it begins with; any
/// other value means no repeat.
pub open spec fn rrule_of(s: Seq<char>) -> RecurrenceRule {
    if crate::text::has_prefix(s, "FREQ=DAILY"@) {
        RecurrenceRule::Daily
    } else if crate::text::has_prefix(s, "FREQ=WEEKLY"@) {
        RecurrenceRule::Weekly
    } else if crate::text::has_prefix(s, "FREQ=MONTHLY"@) {
        RecurrenceRule::Monthly
    } else {
        RecurrenceRule::NoRepeat
    }
}

impl RecurrenceRule {
    pub fn as_str(&self) -> (r: &'static str)
        ensures
            r@ == rrule_label(*self),
    {
        match self {
            RecurrenceRule::NoRepeat => "无",
            RecurrenceRule::Daily => "每天",
            RecurrenceRule::Weekly => "每周",
            RecurrenceRule::Monthly => "每月",
        }
    }

    pub fn parse(s: &str) -> (r: RecurrenceRule)
        ensures
            r == rrule_from_label(s@),
    {
        if str_eq(s, "每天") {
            RecurrenceRule::Daily
        } else if str_eq(s, "每周") {
            RecurrenceRule::Weekly
        } else if str_eq(s, "每月") {
            RecurrenceRule::Monthly
        } else {
            RecurrenceRule::NoRepeat
        }
    }

    pub fn to_rrule(&self) -> (r: Option<&'static str>)
        ensures
            match (r, rrule_text(*self)) {
                (Some(a), Some(b)) => a@ == b,
                (Option::None, Option::None) => true,
                _ => false,
            },
    {
        match self {
            RecurrenceRule::NoRepeat => Option::None,
            RecurrenceRule::Daily => Some("FREQ=DAILY"),
            RecurrenceRule::Weekly => Some("FREQ=WEEKLY"),
            RecurrenceRule::Monthly => Some("FREQ=MONTHLY"),
        }
    }

    pub fn from_rrule(s: &str) -> (r: RecurrenceRule)
        ensures
            r == rrule_of(s@),
    {
        let cs = crate::text::chars_of(s);
        let daily = crate::text::chars_of("FREQ=DAILY");
        let weekly = crate::text::chars_of("FREQ=WEEKLY");
        let monthly = crate::text::chars_of("FREQ=MONTHLY");
        if crate::text::starts_with_chars(&cs, &daily) {
            RecurrenceRule::Daily
        } else if crate::text::starts_with_chars(&cs, &weekly) {
            RecurrenceRule::Weekly
        } else if crate::text::starts_with_chars(&cs, &monthly) {
            RecurrenceRule::Monthly
        } else {
            RecurrenceRule::NoRepeat
        }
    }
}

/// A calendar event. Its id is the UUID's 128-bit value and its start and
/// end are UTC instants in microseconds since the Unix epoch.
pub struct Schedule {
    pub id: u128,
    pub summary: String,
    pub dtstart: i64,
    pub dtend: i64,
    pub description: Option<String>,
    pub location: Option<String>,
    pub categories: Vec<String>,
    pub priority: Option<i32>,
    pub rrule: RecurrenceRule,
    pub reminder_minutes: Option<i32>,
}

/// What a schedule holds, with its texts as character sequences.
pub struct ScheduleView {
    pub id: u128,
    pub summary: Seq<char>,
    pub dtstart: i64,
    pub dtend: i64,
    pub description: Option<Seq<char>>,
    pub location: Option<Seq<char>>,
    pub categories: Seq<Seq<char>>,
    pub priority: Option<i32>,
    pub rrule: RecurrenceRule,
    pub reminder_minutes: Option<i32>,
}

/// The text of an optional string.
pub open spec fn opt_text(s: Option<String>) -> Option<Seq<char>> {
    match s {
        Some(v) => Some(v@),
        Option::None => Option::None,
    }
}

/// The texts of a sequence of strings.
pub open spec fn all_texts(s: Seq<String>) -> Seq<Seq<char>> {
    s.map_values(|x: String| x@)
}

impl View for Schedule {
    type V = ScheduleView;

    open spec fn view(&self) -> ScheduleView {
        ScheduleView {
            id: self.id,
            summary: self.summary@,
            dtstart: self.dtstart,
            dtend: self.dtend,
            description: opt_text(self.description),
            location: opt_text(self.location),
            categories: all_texts(self.categories@),
            priority: self.priority,
            rrule: self.rrule,
            reminder_minutes: self.reminder_minutes,
        }
    }
}

} // verus!

verus! {

/// A to-do item. Its id is the UUID's 128-bit value; its instants are UTC,
/// in microseconds since the Unix epoch.
pub struct Todo {
    pub id: u128,
    pub content: String,
    pub completed: bool,
    pub created_at: i64,
    pub due_date: Option<i64>,
    pub priority: Option<u32>,
    pub tags: Vec<String>,
    pub notes: Option<String>,
    pub completed_at: Option<i64>,
}

/// What a to-do item holds, with its texts as character sequences.
pub struct TodoView {
    pub id: u128,
    pub content: Seq<char>,
    pub completed: bool,
    pub created_at: i64,
    pub due_date: Option<i64>,
    pub priority: Option<u32>,
    pub tags: Seq<Seq<char>>,
    pub notes: Option<Seq<char>>,
    pub completed_at: Option<i64>,
}

impl View for Todo {
    type V = TodoView;

    open spec fn view(&self) -> TodoView {
        TodoView {
            id: self.id,
            content: self.content@,
            completed: self.completed,
            created_at: self.created_at,
            due_date: self.due_date,
            priority: self.priority,
            tags: all_texts(self.tags@),
            notes: opt_text(self.notes),
            completed_at: self.completed_at,
        }
    }
}

} // verus!

verus! {

/// A stored learning session. Instants are microseconds since the Unix
/// epoch.
pub struct Session {
    pub id: i64,
    pub category_id: i64,
    pub start_time: i64,
    pub end_time: i64,
    pub duration_secs: i64,
    pub pause_records: Vec<PauseRecord>,
    pub quality: Quality,
    pub understanding_difficulty: Difficulty,
    pub memory_difficulty: Difficulty,
    pub completion_rate: u8,
    pub note: Option<String>,
    pub is_manual_edit: bool,
}

/// The stored review prediction of a category.
pub struct PredictionState {
    pub id: i64,
    pub category_id: i64,
    pub algorithm: String,
    pub last_review: i64,
    pub next_review: i64,
    pub algorithm_state: Vec<u8>,
}

} // verus!
