//! The state of the interface's tabs and of the forms in them, with the
//! rules that fill, check and clear those forms.
use vstd::prelude::*;
use crate::app_state::{NewNodeForm, SearchResult};
use crate::data::cards::{Card, Prediction, Preset, ReviewRecord};
use crate::data::ics::join_with;
use crate::data::models::{MemoryQuality, Schedule, Todo, all_texts, clone_strings, opt_text};
use crate::data::schedule::join_by;
use crate::data::stamps::{in_range, local_today, utc_fields, utc_fields_of};
use crate::gui::messages::NodeType;
use crate::gui::tree_view::{TreeNode, TreeView};
use crate::schedule_form::{ScheduleForm, is_blank};
use crate::text::{chars_of, decimal, owned, padded2, push_decimal, push_padded2, slice_chars, str_eq, string_of, trim_chars,
    trim_ws};
use crate::timer::{TimerState, div_t, div_trunc};

verus! {

/// The presets tab: the list, the form for one preset and the preset
/// waiting for a delete confirmation.
pub struct PresetTabState {
    pub selected_preset: Option<String>,
    pub presets: Vec<Preset>,
    pub show_form: bool,
    pub editing_name: Option<String>,
    pub form_name: String,
    pub form_description: String,
    pub form_match_rules: Vec<String>,
    pub form_error: Option<String>,
    pub delete_target: Option<String>,
}

/// Another preset than the one being edited already has this name.
pub open spec fn name_taken(presets: Seq<Preset>, name: Seq<char>, editing: Option<Seq<char>>) -> bool {
    exists|i: int|
        0 <= i < presets.len() && #[trigger] presets[i].name@ == name && match editing {
            Some(e) => presets[i].name@ != e,
            None => true,
        }
}

/// The match rules a form keeps: each trimmed, the empty ones left out.
pub open spec fn kept_rules(rules: Seq<Seq<char>>) -> Seq<Seq<char>> {
    rules.map_values(|r: Seq<char>| trim_ws(r)).filter(|r: Seq<char>| r.len() > 0)
}

/// The preset a checked form makes: the given name, the trimmed
/// description where any is left, the kept match rules, no trained weights.
pub open spec fn made_from_form(p: Preset, name: Seq<char>, description: Seq<char>, rules: Seq<Seq<char>>) -> bool {
    &&& p.name@ == name
    &&& (trim_ws(description).len() == 0 ==> p.description is None)
    &&& (trim_ws(description).len() > 0 ==> (p.description matches Some(d) && d@ == trim_ws(description)))
    &&& all_texts(p.match_rules@) == kept_rules(rules)
    &&& p.fsrs_parameters is None
    &&& p.trained_at is None
}

/// The form is empty and not editing; the list, the selection and the
/// delete target are as before.
pub open spec fn form_emptied(n: PresetTabState, o: PresetTabState) -> bool {
    &&& n.form_name@.len() == 0
    &&& n.form_description@.len() == 0
    &&& n.form_match_rules@.len() == 0
    &&& n.form_error is None
    &&& n.editing_name is None
    &&& n.selected_preset == o.selected_preset
    &&& n.presets == o.presets
    &&& n.delete_target == o.delete_target
}

/// The form holds the first preset named `name` and edits it; without such
/// a preset nothing but the form's visibility may differ.
pub open spec fn filled_from(n: PresetTabState, o: PresetTabState, name: Seq<char>) -> bool {
    match first_named(o.presets@, name) {
        Some(i) => {
            let p = o.presets@[i];
            &&& n.form_name@ == p.name@
            &&& n.form_description@ == (match p.description {
                Some(d) => d@,
                None => Seq::<char>::empty(),
            })
            &&& all_texts(n.form_match_rules@) == all_texts(p.match_rules@)
            &&& n.editing_name matches Some(e) && e@ == p.name@
            &&& n.form_error is None
            &&& n.selected_preset == o.selected_preset
            &&& n.presets == o.presets
            &&& n.delete_target == o.delete_target
        },
        None => n == (PresetTabState { show_form: n.show_form, ..o }),
    }
}

/// The first preset with this name.
pub open spec fn first_named(presets: Seq<Preset>, name: Seq<char>) -> Option<int> {
    if exists|i: int| 0 <= i < presets.len() && #[trigger] presets[i].name@ == name {
        Some(choose|i: int|
            0 <= i < presets.len() && #[trigger] presets[i].name@ == name && forall|j: int|
                0 <= j < i ==> presets[j].name@ != name)
    } else {
        None
    }
}


impl PresetTabState {
    /// An empty tab: no presets, no form, nothing selected.
    pub fn new() -> (r: PresetTabState)
        ensures
            r.selected_preset is None,
            r.presets@.len() == 0,
            !r.show_form,
            r.editing_name is None,
            r.form_name@.len() == 0,
            r.form_description@.len() == 0,
            r.form_match_rules@.len() == 0,
            r.form_error is None,
            r.delete_target is None,
    {
        PresetTabState {
            selected_preset: None,
            presets: Vec::new(),
            show_form: false,
            editing_name: None,
            form_name: String::new(),
            form_description: String::new(),
            form_match_rules: Vec::new(),
            form_error: None,
            delete_target: None,
        }
    }

    /// Empties the form and leaves edit mode; the list and the rest stay.
    pub fn reset_form(&mut self)
        ensures
            form_emptied(*final(self), *old(self)),
            final(self).show_form == old(self).show_form,
    {
        self.form_name = String::new();
        self.form_description = String::new();
        self.form_match_rules = Vec::new();
        self.form_error = None;
        self.editing_name = None;
    }

    /// Fills the form from the first preset with this name and edits it;
    /// with no such preset nothing changes.
    pub fn load_from_preset(&mut self, name: &str)
        ensures
            filled_from(*final(self), *old(self), name@),
            final(self).show_form == old(self).show_form,
    {
        let n = self.presets.len();
        let mut i: usize = 0;
        while i < n
            invariant
                n == self.presets@.len(),
                i <= n,
                *self == *old(self),
                forall|j: int| 0 <= j < i ==> self.presets@[j].name@ != name@,
            decreases n - i,
        {
            if str_eq(self.presets[i].name.as_str(), name) {
                proof {
                    let k = i as int;
                    assert(self.presets@[k].name@ == name@);
                    assert(0 <= k < self.presets@.len() && self.presets@[k].name@ == name@ && forall|j: int|
                        0 <= j < k ==> self.presets@[j].name@ != name@);
                    let c = choose|c: int|
                        0 <= c < self.presets@.len() && #[trigger] self.presets@[c].name@ == name@ && forall|j: int|
                            0 <= j < c ==> self.presets@[j].name@ != name@;
                    assert(c == k) by {
                        if c < k {
                            assert(self.presets@[c].name@ != name@);
                        } else if c > k {
                            assert(self.presets@[k].name@ != name@);
                        }
                    }
                }
                let p_name = self.presets[i].name.clone();
                let p_desc = match &self.presets[i].description {
                    Some(d) => d.clone(),
                    None => String::new(),
                };
                let p_rules = clone_strings(&self.presets[i].match_rules);
                let p_edit = self.presets[i].name.clone();
                self.form_name = p_name;
                self.form_description = p_desc;
                self.form_match_rules = p_rules;
                self.editing_name = Some(p_edit);
                self.form_error = None;
                return;
            }
            i = i + 1;
        }
    }

    /// Checks the form and makes the preset it describes: the trimmed name,
    /// which must not be empty nor another preset's; the trimmed
    /// description, if any is left; the non-empty trimmed match rules.
    pub fn validate(&self) -> (r: Result<Preset, String>)
        ensures
            ({
                let name = trim_ws(self.form_name@);
                if name.len() == 0 {
                    r matches Err(e) && e@ == "名称不能为空"@
                } else if name_taken(self.presets@, name, opt_text(self.editing_name)) {
                    r matches Err(e) && e@ == "名称已存在"@
                } else {
                    r matches Ok(p) && made_from_form(p, name, self.form_description@, all_texts(self.form_match_rules@))
                }
            }),
    {
        let name_chars = trim_chars(&chars_of(self.form_name.as_str()));
        if name_chars.len() == 0 {
            return Err(owned("名称不能为空"));
        }
        let name = string_of(&name_chars);
        let ghost editing = opt_text(self.editing_name);
        let n = self.presets.len();
        for i in 0..n
            invariant
                n == self.presets@.len(),
                name@ == trim_ws(self.form_name@),
                name@.len() > 0,
                editing == opt_text(self.editing_name),
                forall|j: int| 0 <= j < i ==> !(#[trigger] self.presets@[j].name@ == name@ && match editing {
                    Some(e) => self.presets@[j].name@ != e,
                    None => true,
                }),
        {
            let same = str_eq(self.presets[i].name.as_str(), name.as_str());
            let other = match &self.editing_name {
                Some(e) => !str_eq(self.presets[i].name.as_str(), e.as_str()),
                None => true,
            };
            if same && other {
                proof {
                    let k = i as int;
                    assert(self.presets@[k].name@ == name@);
                    assert(match editing {
                        Some(e) => self.presets@[k].name@ != e,
                        None => true,
                    });
                    assert(name_taken(self.presets@, name@, editing));
                }
                return Err(owned("名称已存在"));
            }
        }
        let desc = trim_chars(&chars_of(self.form_description.as_str()));
        let description = if desc.len() == 0 { None } else { Some(string_of(&desc)) };
        let mut rules: Vec<String> = Vec::new();
        let ghost src = all_texts(self.form_match_rules@);
        for i in 0..self.form_match_rules.len()
            invariant
                src == all_texts(self.form_match_rules@),
                all_texts(rules@) == kept_rules(src.take(i as int)),
        {
            let t = trim_chars(&chars_of(self.form_match_rules[i].as_str()));
            proof {
                let f = |r: Seq<char>| trim_ws(r);
                let keep = |r: Seq<char>| r.len() > 0;
                assert(src.take(i + 1).map_values(f) =~= src.take(i as int).map_values(f).push(trim_ws(src[i as int])));
                src.take(i as int).map_values(f).lemma_filter_push(trim_ws(src[i as int]), keep);
            }
            if t.len() > 0 {
                rules.push(string_of(&t));
            }
            proof {
                assert(all_texts(rules@) =~= kept_rules(src.take(i + 1)));
            }
        }
        proof {
            assert(src.take(src.len() as int) =~= src);
        }
        Ok(Preset { name, description, match_rules: rules, fsrs_parameters: None, trained_at: None })
    }
}

/// The review tab: its filter and search, the card picked and the cards
/// with their paths.
pub struct ReviewTabState {
    pub urgency_filter: Option<u32>,
    pub search_query: String,
    pub selected_card: Option<String>,
    pub cards: Vec<(String, Card)>,
}

impl ReviewTabState {
    /// No filter, no search, nothing picked, no cards.
    pub fn new() -> (r: ReviewTabState)
        ensures
            r.urgency_filter is None,
            r.search_query@.len() == 0,
            r.selected_card is None,
            r.cards@.len() == 0,
    {
        ReviewTabState { urgency_filter: None, search_query: String::new(), selected_card: None, cards: Vec::new() }
    }
}

/// The figures shown for one card.
pub struct CardStats {
    pub sessions: usize,
    pub total_duration_ms: i64,
    pub avg_duration_ms: i64,
    pub last_review: Option<i64>,
    pub next_review: Option<i64>,
}

/// The review durations added up.
pub open spec fn total_duration(s: Seq<ReviewRecord>) -> int
    decreases s.len(),
{
    if s.len() == 0 {
        0
    } else {
        total_duration(s.drop_last()) + s.last().duration_ms
    }
}

/// Every running total of the durations fits an `i64`, as summing them
/// needs.
pub open spec fn totals_fit(s: Seq<ReviewRecord>) -> bool {
    forall|k: int| 0 <= k <= s.len() ==> i64::MIN <= #[trigger] total_duration(s.take(k)) <= i64::MAX
}

impl CardStats {
    /// The number of reviews, their total and mean duration (rounded toward
    /// zero; zero without reviews), the time of the last one and when the
    /// card is due.
    pub fn from_card(card: &Card) -> (r: CardStats)
        requires
            totals_fit(card.review_records@),
            card.review_records@.len() <= i64::MAX,
        ensures
            r.sessions == card.review_records@.len(),
            r.total_duration_ms == total_duration(card.review_records@),
            r.avg_duration_ms == (if r.sessions > 0 {
                div_trunc(total_duration(card.review_records@), r.sessions as int)
            } else {
                0
            }),
            r.last_review == (if card.review_records@.len() > 0 {
                Some(card.review_records@.last().timestamp)
            } else {
                None::<i64>
            }),
            r.next_review == (match card.prediction {
                Some(p) => Some(p.next_review),
                None => None::<i64>,
            }),
    {
        let recs = &card.review_records;
        let sessions = recs.len();
        let mut total: i64 = 0;
        for i in 0..sessions
            invariant
                sessions == recs@.len(),
                totals_fit(recs@),
                total == total_duration(recs@.take(i as int)),
        {
            proof {
                assert(recs@.take(i + 1).drop_last() =~= recs@.take(i as int));
                assert(i64::MIN <= total_duration(recs@.take(i + 1)) <= i64::MAX);
            }
            total = total + recs[i].duration_ms;
        }
        proof {
            assert(recs@.take(sessions as int) =~= recs@);
        }
        let avg = if sessions > 0 { div_t(total, sessions as i64) } else { 0 };
        let last_review = if sessions > 0 { Some(recs[sessions - 1].timestamp) } else { None };
        let next_review = match &card.prediction {
            Some(p) => Some(p.next_review),
            None => None,
        };
        CardStats { sessions, total_duration_ms: total, avg_duration_ms: avg, last_review, next_review }
    }
}

/// The to-do tab: the form for one item (due date in five fields), the item
/// being edited or picked, and the items.
pub struct TodoTabState {
    pub form_content: String,
    pub form_priority: Option<u32>,
    pub form_due_year: String,
    pub form_due_month: String,
    pub form_due_day: String,
    pub form_due_hour: String,
    pub form_due_minute: String,
    pub form_tags: String,
    pub editing_todo_id: Option<u128>,
    pub selected_todo: Option<u128>,
    pub todos: Vec<Todo>,
}

/// The due-date fields hold this date at 23:59.
pub open spec fn due_fields_default(t: TodoTabState, year: i32, month: u32, day: u32) -> bool {
    &&& t.form_due_year@ == decimal(year as int)
    &&& t.form_due_month@ == padded2(month as int)
    &&& t.form_due_day@ == padded2(day as int)
    &&& t.form_due_hour@ == "23"@
    &&& t.form_due_minute@ == "59"@
}

/// The due-date fields hold these calendar fields.
pub open spec fn due_fields_of(t: TodoTabState, f: (i32, u32, u32, u32, u32)) -> bool {
    &&& t.form_due_year@ == decimal(f.0 as int)
    &&& t.form_due_month@ == padded2(f.1 as int)
    &&& t.form_due_day@ == padded2(f.2 as int)
    &&& t.form_due_hour@ == padded2(f.3 as int)
    &&& t.form_due_minute@ == padded2(f.4 as int)
}

/// Everything but the due-date fields is the same.
pub open spec fn same_but_due(a: TodoTabState, b: TodoTabState) -> bool {
    &&& a.form_content == b.form_content
    &&& a.form_priority == b.form_priority
    &&& a.form_tags == b.form_tags
    &&& a.editing_todo_id == b.editing_todo_id
    &&& a.selected_todo == b.selected_todo
    &&& a.todos == b.todos
}

/// The form holds the item `todo` for editing: its content, priority and
/// tags (space-separated), its due date in UTC, or 23:59 on `today` where it
/// has none; the picked item and the list are as before.
pub open spec fn todo_loaded(n: TodoTabState, o: TodoTabState, todo: Todo, today: (i32, u32, u32)) -> bool {
    &&& n.editing_todo_id == Some(todo.id)
    &&& n.form_content@ == todo.content@
    &&& n.form_priority == todo.priority
    &&& n.form_tags@ == join_with(all_texts(todo.tags@), ' ')
    &&& match todo.due_date {
        Some(t) => due_fields_of(n, utc_fields_of(t)),
        None => due_fields_default(n, today.0, today.1, today.2),
    }
    &&& n.selected_todo == o.selected_todo
    &&& n.todos == o.todos
}

fn decimal_string(v: i64) -> (r: String)
    ensures
        r@ == decimal(v as int),
{
    let mut s = String::new();
    push_decimal(&mut s, v);
    s
}

fn padded2_string(v: i64) -> (r: String)
    ensures
        r@ == padded2(v as int),
{
    let mut s = String::new();
    push_padded2(&mut s, v);
    s
}

impl TodoTabState {
    /// An empty form and no items.
    pub fn new() -> (r: TodoTabState)
        ensures
            r.form_content@.len() == 0,
            r.form_priority is None,
            r.form_due_year@.len() == 0,
            r.form_due_month@.len() == 0,
            r.form_due_day@.len() == 0,
            r.form_due_hour@.len() == 0,
            r.form_due_minute@.len() == 0,
            r.form_tags@.len() == 0,
            r.editing_todo_id is None,
            r.selected_todo is None,
            r.todos@.len() == 0,
    {
        TodoTabState {
            form_content: String::new(),
            form_priority: None,
            form_due_year: String::new(),
            form_due_month: String::new(),
            form_due_day: String::new(),
            form_due_hour: String::new(),
            form_due_minute: String::new(),
            form_tags: String::new(),
            editing_todo_id: None,
            selected_todo: None,
            todos: Vec::new(),
        }
    }

    /// Sets the due date to 23:59 on the given day: the year as written,
    /// month and day in two digits.
    pub fn set_default_due_date_on(&mut self, year: i32, month: u32, day: u32)
        ensures
            due_fields_default(*final(self), year, month, day),
            same_but_due(*final(self), *old(self)),
    {
        self.form_due_year = decimal_string(year as i64);
        self.form_due_month = padded2_string(month as i64);
        self.form_due_day = padded2_string(day as i64);
        self.form_due_hour = owned("23");
        self.form_due_minute = owned("59");
    }

    /// Sets the due date to 23:59 today, in this machine's time zone.
    pub fn set_default_due_date(&mut self)
        ensures
            exists|y: i32, m: u32, d: u32|
                1 <= m <= 12 && 1 <= d <= 31 && #[trigger] due_fields_default(*final(self), y, m, d),
            same_but_due(*final(self), *old(self)),
    {
        let (y, m, d) = local_today();
        self.set_default_due_date_on(y, m, d);
    }

    /// Fills the form from an item and edits it: its content, priority and
    /// tags (space-separated), and its due date in UTC; an item without
    /// one gets 23:59 on `today`.
    pub fn load_todo_for_edit_on(&mut self, todo: &Todo, today: (i32, u32, u32))
        requires
            todo.due_date matches Some(t) ==> in_range(t),
        ensures
            todo_loaded(*final(self), *old(self), *todo, today),
    {
        self.editing_todo_id = Some(todo.id);
        self.form_content = todo.content.clone();
        self.form_priority = todo.priority;
        match todo.due_date {
            Some(t) => {
                let f = utc_fields(t);
                self.form_due_year = decimal_string(f.0 as i64);
                self.form_due_month = padded2_string(f.1 as i64);
                self.form_due_day = padded2_string(f.2 as i64);
                self.form_due_hour = padded2_string(f.3 as i64);
                self.form_due_minute = padded2_string(f.4 as i64);
            },
            None => {
                self.set_default_due_date_on(today.0, today.1, today.2);
            },
        }
        self.form_tags = join_by(&todo.tags, ' ');
    }

    /// Fills the form from an item and edits it; an item without a due date
    /// gets 23:59 today, in this machine's time zone.
    pub fn load_todo_for_edit(&mut self, todo: &Todo)
        requires
            todo.due_date matches Some(t) ==> in_range(t),
        ensures
            final(self).editing_todo_id == Some(todo.id),
            final(self).form_content@ == todo.content@,
            final(self).form_priority == todo.priority,
            final(self).form_tags@ == join_with(all_texts(todo.tags@), ' '),
            match todo.due_date {
                Some(t) => due_fields_of(*final(self), utc_fields_of(t)),
                None => exists|y: i32, m: u32, d: u32|
                    1 <= m <= 12 && 1 <= d <= 31 && #[trigger] due_fields_default(*final(self), y, m, d),
            },
            final(self).selected_todo == old(self).selected_todo,
            final(self).todos == old(self).todos,
    {
        match todo.due_date {
            Some(_) => self.load_todo_for_edit_on(todo, (1970, 1, 1)),
            None => {
                let today = local_today();
                self.load_todo_for_edit_on(todo, today);
                assert(due_fields_default(*self, today.0, today.1, today.2));
            },
        }
    }
}

/// One timer run as the history lists it.
pub struct TimerRecord {
    pub id: u128,
    pub start_time: i64,
    pub end_time: i64,
    pub duration_ms: i64,
    pub linked_card: Option<String>,
    pub memory_quality: Option<MemoryQuality>,
}

/// The timer tab: the timer, the time shown, and the form that links a
/// finished run to a card or makes a new card.
pub struct TimerTabState {
    pub state: TimerState,
    pub elapsed_ms: i64,
    pub link_mode: bool,
    pub card_path_input: String,
    pub card_dropdown: Vec<String>,
    pub selected_card: Option<String>,
    pub memory_quality: MemoryQuality,
    pub show_history: bool,
    pub timer_history: Vec<TimerRecord>,
    pub current_card: Option<String>,
    pub show_new_card_form: bool,
    pub new_card_name: String,
    pub new_card_preset: String,
    pub new_card_type: NodeType,
}

impl TimerTabState {
    /// The tab around a timer: nothing shown or linked yet, quality `Good`,
    /// new cards under the `default` preset.
    pub fn new(state: TimerState) -> (r: TimerTabState)
        ensures
            r.state == state,
            r.elapsed_ms == 0,
            !r.link_mode,
            r.card_path_input@.len() == 0,
            r.card_dropdown@.len() == 0,
            r.selected_card is None,
            r.memory_quality == MemoryQuality::Good,
            !r.show_history,
            r.timer_history@.len() == 0,
            r.current_card is None,
            !r.show_new_card_form,
            r.new_card_name@.len() == 0,
            r.new_card_preset@ == "default"@,
            r.new_card_type == NodeType::Card,
    {
        TimerTabState {
            state,
            elapsed_ms: 0,
            link_mode: false,
            card_path_input: String::new(),
            card_dropdown: Vec::new(),
            selected_card: None,
            memory_quality: MemoryQuality::Good,
            show_history: false,
            timer_history: Vec::new(),
            current_card: None,
            show_new_card_form: false,
            new_card_name: String::new(),
            new_card_preset: owned("default"),
            new_card_type: NodeType::Card,
        }
    }
}

impl Default for TimerTabState {
    /// The tab around an idle timer.
    fn default() -> (r: TimerTabState)
        ensures
            r.state is Idle,
            r.elapsed_ms == 0,
            !r.link_mode,
            r.memory_quality == MemoryQuality::Good,
            r.new_card_preset@ == "default"@,
    {
        TimerTabState::new(TimerState::new())
    }
}

/// The part of a path after its last slash: the whole path where it has
/// none.
pub open spec fn after_last_slash(p: Seq<char>) -> Seq<char>
    decreases p.len(),
{
    if p.len() == 0 {
        p
    } else if p.last() == '/' {
        Seq::empty()
    } else {
        after_last_slash(p.drop_last()).push(p.last())
    }
}

fn last_segment(p: &str) -> (r: String)
    ensures
        r@ == after_last_slash(p@),
{
    let cs = chars_of(p);
    let n = cs.len();
    let mut j = n;
    proof {
        assert(cs@.take(n as int) =~= cs@);
        assert(cs@.subrange(n as int, n as int) =~= Seq::<char>::empty());
    }
    while j > 0 && cs[j - 1] != '/'
        invariant
            j <= n,
            n == cs@.len(),
            after_last_slash(cs@.take(j as int)) + cs@.subrange(j as int, n as int) == after_last_slash(cs@),
        decreases j,
    {
        proof {
            let t = cs@.take(j as int);
            assert(t.drop_last() =~= cs@.take(j - 1));
            assert(t.last() == cs@[j - 1]);
            assert(after_last_slash(t) == after_last_slash(cs@.take(j - 1)).push(cs@[j - 1]));
            assert(after_last_slash(cs@.take(j - 1)) + cs@.subrange(j - 1, n as int) =~= after_last_slash(t)
                + cs@.subrange(j as int, n as int));
        }
        j = j - 1;
    }
    proof {
        if j > 0 {
            let t = cs@.take(j as int);
            assert(t.last() == cs@[j - 1]);
        }
        assert(after_last_slash(cs@.take(j as int)) =~= Seq::<char>::empty());
    }
    string_of(&slice_chars(&cs, j, n))
}

/// The form `EditCardForm::new` makes for the card at `path`.
pub open spec fn edit_form_for(r: EditCardForm, path: String, card: Card) -> bool {
    &&& r.path == path
    &&& r.name@ == after_last_slash(path@)
    &&& r.original_name@ == after_last_slash(path@)
    &&& r.new_name@ == after_last_slash(path@)
    &&& r.preset@ == (match card.prediction {
        Some(p) => p.preset_used@,
        None => "default"@,
    })
    &&& r.next_review == (match card.prediction {
        Some(p) => Some(p.next_review),
        None => None::<i64>,
    })
    &&& !r.clear_prediction
    &&& r.review_records@ == card.review_records@
    &&& r.new_review_duration@.len() == 0
    &&& r.new_review_quality == MemoryQuality::Good
    &&& all_texts(r.expanded_groups@) == seq!["basic"@, "prediction"@]
    &&& r.fsrs_state_bytes@ == (match card.prediction {
        Some(p) => p.fsrs_state_bytes@,
        None => Seq::<u8>::empty(),
    })
    &&& match (r.prediction, card.prediction) {
        (Some(x), Some(y)) => x.algorithm@ == y.algorithm@ && x.next_review == y.next_review
            && x.fsrs_state_bytes@ == y.fsrs_state_bytes@ && x.preset_used@ == y.preset_used@,
        (None, None) => true,
        _ => false,
    }
}

/// The form that edits one card: its name, preset, due date and reviews,
/// and which of its groups show open.
pub struct EditCardForm {
    pub path: String,
    pub name: String,
    pub original_name: String,
    pub new_name: String,
    pub preset: String,
    pub next_review: Option<i64>,
    pub clear_prediction: bool,
    pub review_records: Vec<ReviewRecord>,
    pub new_review_duration: String,
    pub new_review_quality: MemoryQuality,
    pub expanded_groups: Vec<String>,
    pub fsrs_state_bytes: Vec<u8>,
    pub prediction: Option<Prediction>,
}

impl EditCardForm {
    /// The form for the card at `path`: named after the path's last
    /// segment, with the card's preset (`default` where it has no
    /// prediction), due date, reviews and scheduler state; the basic and
    /// prediction groups open.
    pub fn new(path: String, card: &Card) -> (r: EditCardForm)
        ensures
            edit_form_for(r, path, *card),
    {
        let name = last_segment(path.as_str());
        let preset = match &card.prediction {
            Some(p) => p.preset_used.clone(),
            None => owned("default"),
        };
        let mut groups: Vec<String> = Vec::new();
        groups.push(owned("basic"));
        groups.push(owned("prediction"));
        proof {
            assert(all_texts(groups@) =~= seq!["basic"@, "prediction"@]);
        }
        let records = card.review_records.clone();
        proof {
            assert(records@ =~= card.review_records@);
        }
        let (next_review, bytes, prediction) = match &card.prediction {
            Some(p) => {
                let b = p.fsrs_state_bytes.clone();
                proof {
                    assert(b@ =~= p.fsrs_state_bytes@);
                }
                (Some(p.next_review), b, Some(p.duplicate()))
            },
            None => (None, Vec::new(), None),
        };
        EditCardForm {
            path,
            name: name.clone(),
            original_name: name.clone(),
            new_name: name,
            preset,
            next_review,
            clear_prediction: false,
            review_records: records,
            new_review_duration: String::new(),
            new_review_quality: MemoryQuality::Good,
            expanded_groups: groups,
            fsrs_state_bytes: bytes,
            prediction,
        }
    }
}

/// Some entry of `v` reads `g`.
pub open spec fn has_group(v: Seq<String>, g: Seq<char>) -> bool {
    exists|i: int| 0 <= i < v.len() && #[trigger] v[i]@ == g
}

/// `n` holds the groups of `o` with `g` taken out where it was in, put in
/// where it was not.
pub open spec fn toggled(n: Seq<String>, o: Seq<String>, g: Seq<char>) -> bool {
    forall|h: Seq<char>| #[trigger] has_group(n, h) == (if h == g { !has_group(o, g) } else { has_group(o, h) })
}

/// Opens a closed group, or closes an open one.
pub fn toggle_group(groups: &Vec<String>, g: &str) -> (r: Vec<String>)
    ensures
        toggled(r@, groups@, g@),
{
    let n = groups.len();
    let mut found = false;
    for i in 0..n
        invariant
            n == groups@.len(),
            found == has_group(groups@.take(i as int), g@),
    {
        proof {
            let t = groups@.take(i + 1);
            assert forall|h: Seq<char>| has_group(t, h) == (has_group(groups@.take(i as int), h) || groups@[i as int]@ == h) by {
                if has_group(t, h) {
                    let j = choose|j: int| 0 <= j < t.len() && #[trigger] t[j]@ == h;
                    if j < i {
                        assert(groups@.take(i as int)[j] == t[j]);
                    }
                }
                if has_group(groups@.take(i as int), h) {
                    let j = choose|j: int| 0 <= j < i && #[trigger] groups@.take(i as int)[j]@ == h;
                    assert(t[j] == groups@.take(i as int)[j]);
                }
                if groups@[i as int]@ == h {
                    assert(t[i as int] == groups@[i as int]);
                }
            }
        }
        if str_eq(groups[i].as_str(), g) {
            found = true;
        }
    }
    let mut r: Vec<String> = Vec::new();
    for i in 0..n
        invariant
            n == groups@.len(),
            found == has_group(groups@.take(n as int), g@),
            forall|h: Seq<char>| #[trigger] has_group(r@, h) == (has_group(groups@.take(i as int), h) && !(found && h == g@)),
    {
        let ghost before = r@;
        let keep = !(found && str_eq(groups[i].as_str(), g));
        if keep {
            r.push(groups[i].clone());
        }
        proof {
            let t = groups@.take(i + 1);
            assert forall|h: Seq<char>| #[trigger] has_group(r@, h) == (has_group(t, h) && !(found && h == g@)) by {
                if has_group(t, h) {
                    let j = choose|j: int| 0 <= j < t.len() && #[trigger] t[j]@ == h;
                    if j < i {
                        assert(groups@.take(i as int)[j] == t[j]);
                        assert(has_group(groups@.take(i as int), h));
                    }
                }
                if has_group(groups@.take(i as int), h) {
                    let j = choose|j: int| 0 <= j < i && #[trigger] groups@.take(i as int)[j]@ == h;
                    assert(t[j] == groups@.take(i as int)[j]);
                }
                if has_group(before, h) {
                    let j = choose|j: int| 0 <= j < before.len() && #[trigger] before[j]@ == h;
                    if keep {
                        assert(r@[j] == before[j]);
                    }
                }
                if has_group(r@, h) {
                    let j = choose|j: int| 0 <= j < r@.len() && #[trigger] r@[j]@ == h;
                    if j < before.len() {
                        assert(r@[j] == before[j]);
                    }
                }
                if keep && groups@[i as int]@ == h {
                    assert(r@[r@.len() - 1]@ == h);
                    assert(t[i as int] == groups@[i as int]);
                }
                if !keep {
                    assert(r@ == before);
                }
                if groups@[i as int]@ == h {
                    assert(t[i as int] == groups@[i as int]);
                }
            }
        }
    }
    proof {
        assert(groups@.take(n as int) =~= groups@);
    }
    if !found {
        let ghost before = r@;
        r.push(String::from_str(g));
        proof {
            assert forall|h: Seq<char>| #[trigger] has_group(r@, h) == (has_group(before, h) || h == g@) by {
                if has_group(before, h) {
                    let j = choose|j: int| 0 <= j < before.len() && #[trigger] before[j]@ == h;
                    assert(r@[j] == before[j]);
                }
                if has_group(r@, h) {
                    let j = choose|j: int| 0 <= j < r@.len() && #[trigger] r@[j]@ == h;
                    if j < before.len() {
                        assert(r@[j] == before[j]);
                    }
                }
                if h == g@ {
                    assert(r@[r@.len() - 1]@ == h);
                }
            }
        }
    }
    r
}

/// The trees tab: the trees and how they show, the search over them, and
/// the forms and confirmation that change them.
pub struct CategoryTabState {
    pub tree_name: String,
    pub selected_path: Option<String>,
    pub search_query: String,
    pub tree_nodes: Vec<TreeNode>,
    pub tree_view: TreeView,
    pub search_results: Vec<SearchResult>,
    pub search_selected_index: Option<usize>,
    pub search_focused: bool,
    pub new_tree_name: String,
    pub new_tree_import_path: String,
    pub new_tree_import_rules_path: String,
    pub new_node_form: Option<NewNodeForm>,
    pub edit_card_form: Option<EditCardForm>,
    pub delete_target: Option<(String, bool)>,
}

impl CategoryTabState {
    /// No trees, nothing selected, searched or being edited.
    pub fn new() -> (r: CategoryTabState)
        ensures
            r.tree_name@.len() == 0,
            r.selected_path is None,
            r.search_query@.len() == 0,
            r.tree_nodes@.len() == 0,
            r.tree_view.wf(),
            r.tree_view@ == Map::<Seq<char>, bool>::empty(),
            r.search_results@.len() == 0,
            r.search_selected_index is None,
            !r.search_focused,
            r.new_tree_name@.len() == 0,
            r.new_tree_import_path@.len() == 0,
            r.new_tree_import_rules_path@.len() == 0,
            r.new_node_form is None,
            r.edit_card_form is None,
            r.delete_target is None,
    {
        CategoryTabState {
            tree_name: String::new(),
            selected_path: None,
            search_query: String::new(),
            tree_nodes: Vec::new(),
            tree_view: TreeView::default(),
            search_results: Vec::new(),
            search_selected_index: None,
            search_focused: false,
            new_tree_name: String::new(),
            new_tree_import_path: String::new(),
            new_tree_import_rules_path: String::new(),
            new_node_form: None,
            edit_card_form: None,
            delete_target: None,
        }
    }
}

/// The schedule tab: the events, the form and the event it edits.
pub struct ScheduleTabState {
    pub schedules: Vec<Schedule>,
    pub form: ScheduleForm,
    pub show_form: bool,
    pub editing_id: Option<u128>,
    pub form_error: Option<String>,
}

impl Default for ScheduleTabState {
    /// No events, an empty form, nothing edited.
    fn default() -> (r: ScheduleTabState)
        ensures
            r.schedules@.len() == 0,
            is_blank(r.form),
            !r.show_form,
            r.editing_id is None,
            r.form_error is None,
    {
        ScheduleTabState { schedules: Vec::new(), form: ScheduleForm::new(), show_form: false, editing_id: None, form_error: None }
    }
}

} // verus!
