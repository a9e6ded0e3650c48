//! The interface's state and what each message does to it. Reading and
//! writing the data directory, the timer file and the configuration is the
//! caller's part: a message that needs it yields an `Effect`, and the
//! outcome comes back through the methods that take it.
use vstd::prelude::*;
use crate::app_state::NewNodeForm;
use crate::data::cards::{Card, Prediction, Preset, ReviewRecord};
use crate::data::config::Config;
use crate::data::error::{DataError, error_text};
use crate::data::models::{MemoryQuality, RecurrenceRule, Schedule, ScheduleView, Todo, TodoView};
use crate::obsidian::ImportResult;
use crate::schedule_form::{ScheduleForm, form_outcome, instant_input, is_blank, loaded_from};
use crate::data::stamps::in_range;
use crate::gui::messages::{ButtonId, NodeType, TabId};
use crate::gui::theme::{AppTheme, theme_name};
use crate::gui::tree_ops::{build_tree_nodes, card_at, is_card_path, hits, search_from, search_nodes, tree_of, model, part_texts};
use crate::gui::tree_view::{TreeNode, expand_toward, folder_paths};
use crate::numbers::{parse_i64, parse_i64_spec};
use crate::learning::import::{parent_of, parent_part};
use crate::tabs::{
    edit_form_for, toggle_group, toggled, CategoryTabState, EditCardForm, PresetTabState, ReviewTabState, ScheduleTabState, TimerRecord, TimerTabState,
    TodoTabState, due_fields_default, filled_from, form_emptied, made_from_form, name_taken, same_but_due, todo_loaded,
};
use crate::text::{chars_of, decimal, forward_slashes, has_char, lowercase_of, push_digits, slashed, split_words, words, owned, push_str, str_eq, string_of, trim_chars, trim_ws};
use crate::data::models::{all_texts, clone_opt_string, opt_text};
use crate::schedule_form::optional_input;
use crate::data::stamps::{day_minute_parsed, day_parsed, form_instant_parsed, parse_day, parse_day_minute};
use crate::timer::TimerState;

verus! {

/// The dialog shown over the tabs.
pub enum Modal {
    NewCard { path: String },
    LinkTimer { timer_path: String, duration_ms: i64 },
    NewTodo,
    EditTodo { id: u128 },
    NewSchedule,
    PresetDetail { name: String },
    ConfirmDelete { item: String },
    Error { message: String },
    Info { message: String },
    NewNode,
    EditCard { path: String },
    CreateTree,
}

/// What the data directory held when it was read: the tree names with the
/// folders found on disk for each, the cards with their paths, the presets,
/// the to-do items and the events.
pub struct DataSnapshot {
    pub trees: Vec<String>,
    pub folders: Vec<Vec<TreeNode>>,
    pub cards: Vec<(String, Card)>,
    pub presets: Vec<Preset>,
    pub todos: Vec<Todo>,
    pub schedules: Vec<Schedule>,
}

/// What the user or the data directory tells the interface.
pub enum Message {
    SwitchTab(TabId),
    DataLoaded(Result<DataSnapshot, DataError>),
    CardsLoaded(Result<Vec<(String, Card)>, DataError>),
    PresetsLoaded(Result<Vec<Preset>, DataError>),
    TodosLoaded(Result<Vec<Todo>, DataError>),
    TimerStarted,
    TimerPaused,
    TimerStopped(Result<String, String>),
    TimerTick(i64),
    TimerLinkModeOpen,
    TimerLinkModeClose,
    TimerCardPathChanged(String),
    TimerCardSelected(String),
    TimerMemoryQualityChanged(MemoryQuality),
    TimerLinkConfirm,
    TimerCreateNewCard,
    TimerNewCardNameChanged(String),
    TimerNewCardPresetChanged(String),
    TimerNewCardTypeChanged(NodeType),
    TimerNewCardConfirm,
    TimerHistoryLoad,
    TimerHistoryLoaded(Vec<TimerRecord>),
    TimerHistoryEdit(u128),
    TimerHistoryDelete(u128),
    TimerHistoryUpdate(TimerRecord),
    TimerHistoryShow,
    TimerHistoryHide,
    QuickTimerStart(String),
    CategorySelected(String),
    CardSelected(String),
    SearchChanged(String),
    SearchQueryChanged(String),
    SearchItemSelected(usize),
    SearchFocusChanged(bool),
    UrgencyFilterChanged(Option<u32>),
    ButtonPressed(ButtonId),
    InputChanged(String),
    ModalOpen(Modal),
    ModalClose,
    ModalConfirm,
    NewTodoContentChanged(String),
    NewTodoPriorityChanged(Option<u32>),
    NewTodoDueYearChanged(String),
    NewTodoDueMonthChanged(String),
    NewTodoDueDayChanged(String),
    NewTodoDueHourChanged(String),
    NewTodoDueMinuteChanged(String),
    NewTodoTagsChanged(String),
    TodoSelected(u128),
    ToggleTodo(u128),
    DeleteTodo(u128),
    NewNodeOpen(NodeType),
    NewNodeNameChanged(String),
    NewNodeTypeChanged(NodeType),
    NewNodePresetChanged(String),
    NewNodeConfirm,
    EditCardOpen(String),
    EditCardNameChanged(String),
    EditCardPresetChanged(String),
    EditCardNextReviewChanged(String),
    EditCardClearPrediction,
    EditCardPredict,
    EditCardToggleGroup(String),
    EditCardAddReview,
    EditCardRemoveReview(usize),
    EditCardNewReviewDurationChanged(String),
    EditCardNewReviewQualityChanged(MemoryQuality),
    EditCardConfirm,
    CreateTreeNameChanged(String),
    CreateTreeImportPathChanged(String),
    CreateTreeImportRulesPathChanged(String),
    DeleteNodeOpen(String, bool),
    DeleteNodeConfirm,
    ReviewCardSelected(String),
    StartReviewTimer(String),
    RefreshPredictions,
    ScheduleCreateOpen,
    ScheduleCreateConfirm,
    ScheduleEditOpen(u128),
    ScheduleEditConfirm,
    ScheduleDelete(u128),
    ScheduleFormSummaryChanged(String),
    ScheduleFormStartDateChanged(String),
    ScheduleFormStartTimeChanged(String),
    ScheduleFormEndDateChanged(String),
    ScheduleFormEndTimeChanged(String),
    ScheduleFormDescriptionChanged(String),
    ScheduleFormLocationChanged(String),
    ScheduleFormReminderChanged(String),
    ScheduleFormRruleChanged(RecurrenceRule),
    PresetCreateOpen,
    PresetEditOpen(String),
    PresetFormDismissed,
    PresetFormNameChanged(String),
    PresetFormDescriptionChanged(String),
    PresetFormMatchRuleAdded,
    PresetFormMatchRuleChanged(usize, String),
    PresetFormMatchRuleRemoved(usize),
    PresetFormSaveRequested,
    PresetDeleteRequested(String),
    PresetDeleteConfirmed(String),
    PresetDeleteDismissed,
    SettingsFormDataDirChanged(String),
    SettingsFormDefaultPresetChanged(String),
    SettingsFormSaveRequested,
    SettingsFormDismissMessage,
    ThemeChanged(AppTheme),
    Error(String),
    ClearError,
}

/// How a tree path is deleted: a whole tree, a folder or a card.
#[derive(Debug, Clone, Copy, PartialEq, Eq, Structural)]
pub enum DeleteKind {
    Tree,
    Folder,
    Card,
}

/// The work a message leaves to the caller, and the method its outcome goes
/// back through.
pub enum Effect {
    Nothing,
    /// Read everything and send `DataLoaded`.
    LoadData,
    /// Read the trees, their folders and the cards; then `trees_loaded`.
    LoadTrees,
    /// Rename the preset `old_name` where it is another name, else save it;
    /// then list the presets and send `PresetsLoaded` (or `Error`).
    SavePreset { old_name: Option<String>, preset: Preset },
    /// Delete the preset, list the presets and send `PresetsLoaded` (or `Error`).
    DeletePreset(String),
    /// Write the configuration; then `settings_saved`.
    SaveSettings(Config),
    /// Write the configuration; the outcome is not looked at.
    SaveConfig(Config),
    /// Make the folder, or save a new card with the preset; then `node_created`.
    CreateNode { path: String, node_type: NodeType, preset: String },
    /// Read the card; then `card_opened`.
    OpenCard(String),
    /// Schedule the card being edited from its reviews; then `card_predicted`.
    PredictCard,
    /// Rename the card to `new_name` where given, then save it; then `card_saved`.
    SaveCard { path: String, new_name: Option<String>, card: Card },
    /// Delete the tree, folder or card; then `node_deleted`.
    DeleteNode { path: String, kind: DeleteKind },
    /// Start, pause or stop the timer; then `timer_changed`.
    StartTimer,
    PauseTimer,
    StopTimer,
    /// Schedule every reviewed card again and save it, then send `DataLoaded`.
    RefreshPredictions { default_preset: String },
    /// Add the review to the card, schedule it under the preset and save it.
    LinkReview { card_path: String, record: ReviewRecord, preset: String },
    /// Make the folder, or save a new card with the preset; then `timer_node_created`.
    CreateTimerNode { path: String, node_type: NodeType, preset: String },
    /// Save the item; then `todo_saved`.
    SaveTodo { todo: Todo, editing: bool },
    /// Save the item; then `toggle_saved`.
    SaveToggledTodo(Todo),
    /// Delete the item; then `todo_deleted`.
    DeleteTodo(u128),
    /// Make the tree and import into it; then `tree_created`.
    CreateTree { name: String, import_path: String, rules_path: String },
    /// Save the event; then `schedule_saved`.
    SaveSchedule { schedule: Schedule, editing: bool },
    /// Delete the event; then `schedule_deleted`.
    DeleteSchedule(u128),
}

/// A reading of the clock for one step: the instant, today's date where the
/// user is, and a fresh random id.
pub struct Moment {
    pub now: i64,
    pub today: (i32, u32, u32),
    pub fresh_id: u128,
}

pub struct App {
    pub default_preset: String,
    pub theme: AppTheme,
    pub active_tab: TabId,
    pub data_dir: String,
    pub category_tab: CategoryTabState,
    pub review_tab: ReviewTabState,
    pub timer_tab: TimerTabState,
    pub schedule_tab: ScheduleTabState,
    pub todo_tab: TodoTabState,
    pub preset_tab: PresetTabState,
    pub settings_tab: crate::app_state::SettingsTabState,
    pub error_message: Option<String>,
    pub modal: Option<Modal>,
}

/// The due dates of the items and the times of the events are instants
/// chrono holds.
pub open spec fn items_in_range(todos: Seq<Todo>, schedules: Seq<Schedule>) -> bool {
    &&& forall|i: int| 0 <= i < todos.len() ==> ((#[trigger] todos[i]).due_date matches Some(t) ==> in_range(t))
    &&& forall|i: int| 0 <= i < schedules.len() ==> in_range((#[trigger] schedules[i]).dtstart) && in_range(schedules[i].dtend)
}

/// A day in microseconds.
pub const DAY_MICROS: i64 = 86_400_000_000;

/// The minutes a review's duration field reads as: the number it holds,
/// or zero where it holds none.
pub open spec fn review_minutes(s: Seq<char>) -> int {
    match parse_i64_spec(s) {
        Some(v) => v as int,
        None => 0,
    }
}

/// The paths of the cards.
pub open spec fn card_paths(cards: Seq<(String, Card)>) -> Seq<Seq<char>> {
    cards.map_values(|c: (String, Card)| c.0@)
}

/// The error message is the text of `e`.
pub open spec fn shows_error(a: App, e: DataError) -> bool {
    a.error_message matches Some(m) && m@ == error_text(e)
}

/// Only the error message differs, and it shows `e`.
pub open spec fn error_set(n: App, o: App, e: DataError) -> bool {
    n == (App { error_message: n.error_message, ..o }) && shows_error(n, e)
}

impl App {
    /// The folder view's map is well formed, and the items and events hold
    /// instants chrono holds.
    pub open spec fn wf(self) -> bool {
        &&& self.category_tab.tree_view.wf()
        &&& items_in_range(self.todo_tab.todos@, self.schedule_tab.schedules@)
    }

    /// The message meets what handling it needs: a snapshot with the
    /// folders of each tree and items and events in range.
    pub open spec fn accepts(self, message: Message) -> bool {
        match message {
            Message::DataLoaded(Ok(s)) => s.trees@.len() == s.folders@.len() && items_in_range(s.todos@, s.schedules@),
            Message::EditCardAddReview => match self.category_tab.edit_card_form {
                Some(f) => review_minutes(f.new_review_duration@) * 60000 <= i64::MAX,
                None => true,
            },
            _ => true,
        }
    }

    /// What `update` does with a message of `in_data`.
    pub open spec fn data_step(o: App, message: Message, m: Moment, n: App, e: Effect) -> bool {
        match message {
            Message::SwitchTab(t) => n == (App { active_tab: t, ..o }) && e is Nothing,
            Message::DataLoaded(Ok(s)) => {
                &&& n == (App {
                    category_tab: CategoryTabState {
                        tree_nodes: n.category_tab.tree_nodes,
                        tree_view: n.category_tab.tree_view,
                        ..o.category_tab
                    },
                    review_tab: ReviewTabState { cards: s.cards, ..o.review_tab },
                    preset_tab: PresetTabState { presets: s.presets, ..o.preset_tab },
                    todo_tab: TodoTabState { todos: s.todos, ..o.todo_tab },
                    schedule_tab: ScheduleTabState { schedules: s.schedules, ..o.schedule_tab },
                    ..o
                })
                &&& n.category_tab.tree_nodes@.len() == s.trees@.len()
                &&& forall|i: int| 0 <= i < s.trees@.len() ==> model(#[trigger] n.category_tab.tree_nodes@[i]) == tree_of(
                    s.trees@[i]@,
                    s.folders@[i]@,
                    card_paths(s.cards@),
                )
                &&& n.category_tab.tree_view@ == o.category_tab.tree_view@.union_prefer_right(
                    Map::new(|k: Seq<char>| folder_paths(n.category_tab.tree_nodes@).contains(k), |k: Seq<char>| true),
                )
                &&& e is Nothing
            },
            Message::DataLoaded(Err(er)) => error_set(n, o, er) && e is Nothing,
            Message::PresetsLoaded(Ok(p)) => n == (App { preset_tab: PresetTabState { presets: p, ..o.preset_tab }, ..o })
                && e is Nothing,
            Message::PresetsLoaded(Err(er)) => error_set(n, o, er) && e is Nothing,
            _ => false,
        }
    }

    /// What `update` does with a message of `in_fields`.
    pub open spec fn fields_step(o: App, message: Message, m: Moment, n: App, e: Effect) -> bool {
        match message {
            Message::CardSelected(v) => n == (App { category_tab: CategoryTabState { selected_path: Some(v), ..o.category_tab }, ..o }) && e is Nothing,
            Message::SearchChanged(v) => n == (App { review_tab: ReviewTabState { search_query: v, ..o.review_tab }, ..o }) && e is Nothing,
            Message::UrgencyFilterChanged(v) => n == (App { review_tab: ReviewTabState { urgency_filter: v, ..o.review_tab }, ..o }) && e is Nothing,
            Message::SearchFocusChanged(v) => n == (App { category_tab: CategoryTabState { search_focused: v, ..o.category_tab }, ..o }) && e is Nothing,
            Message::CreateTreeNameChanged(v) => n == (App { category_tab: CategoryTabState { new_tree_name: v, ..o.category_tab }, ..o }) && e is Nothing,
            Message::CreateTreeImportPathChanged(v) => n == (App { category_tab: CategoryTabState { new_tree_import_path: v, ..o.category_tab }, ..o }) && e is Nothing,
            Message::CreateTreeImportRulesPathChanged(v) => n == (App { category_tab: CategoryTabState { new_tree_import_rules_path: v, ..o.category_tab }, ..o }) && e is Nothing,
            Message::ReviewCardSelected(v) => n == (App { review_tab: ReviewTabState { selected_card: Some(v), ..o.review_tab }, ..o }) && e is Nothing,
            Message::TimerLinkModeClose => n == (App { timer_tab: TimerTabState { link_mode: false, ..o.timer_tab }, ..o }) && e is Nothing,
            Message::TimerMemoryQualityChanged(v) => n == (App { timer_tab: TimerTabState { memory_quality: v, ..o.timer_tab }, ..o }) && e is Nothing,
            Message::TimerHistoryShow => n == (App { timer_tab: TimerTabState { show_history: true, ..o.timer_tab }, ..o }) && e is Nothing,
            Message::TimerHistoryHide => n == (App { timer_tab: TimerTabState { show_history: false, ..o.timer_tab }, ..o }) && e is Nothing,
            Message::Error(v) => n == (App { error_message: Some(v), ..o }) && e is Nothing,
            Message::ClearError => n == (App { error_message: None, ..o }) && e is Nothing,
            Message::ModalClose => n == (App { modal: None, ..o }) && e is Nothing,
            Message::NewTodoContentChanged(v) => n == (App { todo_tab: TodoTabState { form_content: v, ..o.todo_tab }, ..o }) && e is Nothing,
            Message::NewTodoPriorityChanged(v) => n == (App { todo_tab: TodoTabState { form_priority: v, ..o.todo_tab }, ..o }) && e is Nothing,
            Message::NewTodoDueYearChanged(v) => n == (App { todo_tab: TodoTabState { form_due_year: v, ..o.todo_tab }, ..o }) && e is Nothing,
            Message::NewTodoDueMonthChanged(v) => n == (App { todo_tab: TodoTabState { form_due_month: v, ..o.todo_tab }, ..o }) && e is Nothing,
            Message::NewTodoDueDayChanged(v) => n == (App { todo_tab: TodoTabState { form_due_day: v, ..o.todo_tab }, ..o }) && e is Nothing,
            Message::NewTodoDueHourChanged(v) => n == (App { todo_tab: TodoTabState { form_due_hour: v, ..o.todo_tab }, ..o }) && e is Nothing,
            Message::NewTodoDueMinuteChanged(v) => n == (App { todo_tab: TodoTabState { form_due_minute: v, ..o.todo_tab }, ..o }) && e is Nothing,
            Message::NewTodoTagsChanged(v) => n == (App { todo_tab: TodoTabState { form_tags: v, ..o.todo_tab }, ..o }) && e is Nothing,
            Message::TodoSelected(v) => n == (App { todo_tab: TodoTabState { selected_todo: Some(v), ..o.todo_tab }, ..o }) && e is Nothing,
            Message::PresetFormNameChanged(v) => n == (App { preset_tab: PresetTabState { form_name: v, ..o.preset_tab }, ..o }) && e is Nothing,
            Message::PresetFormDescriptionChanged(v) => n == (App { preset_tab: PresetTabState { form_description: v, ..o.preset_tab }, ..o }) && e is Nothing,
            Message::PresetDeleteRequested(v) => n == (App { preset_tab: PresetTabState { delete_target: Some(v), ..o.preset_tab }, ..o }) && e is Nothing,
            Message::PresetDeleteDismissed => n == (App { preset_tab: PresetTabState { delete_target: None, ..o.preset_tab }, ..o }) && e is Nothing,
            Message::SettingsFormDataDirChanged(v) => n == (App { settings_tab: crate::app_state::SettingsTabState { form_data_dir: v, ..o.settings_tab }, ..o }) && e is Nothing,
            Message::SettingsFormDefaultPresetChanged(v) => n == (App { settings_tab: crate::app_state::SettingsTabState { form_default_preset: v, ..o.settings_tab }, ..o }) && e is Nothing,
            Message::TimerNewCardNameChanged(v) => n == (App { timer_tab: TimerTabState { new_card_name: v, ..o.timer_tab }, error_message: None, ..o }) && e is Nothing,
            Message::TimerNewCardPresetChanged(v) => n == (App { timer_tab: TimerTabState { new_card_preset: v, ..o.timer_tab }, error_message: None, ..o }) && e is Nothing,
            Message::TimerNewCardTypeChanged(v) => n == (App { timer_tab: TimerTabState { new_card_type: v, ..o.timer_tab }, error_message: None, ..o }) && e is Nothing,
            Message::TimerLinkModeOpen => n == (App { timer_tab: TimerTabState { link_mode: true, ..o.timer_tab }, error_message: None, ..o }) && e is Nothing,
            Message::ScheduleFormSummaryChanged(v) => n == (App { schedule_tab: ScheduleTabState { form: crate::schedule_form::ScheduleForm { summary: v, ..o.schedule_tab.form }, form_error: None, ..o.schedule_tab }, ..o }) && e is Nothing,
            Message::ScheduleFormStartDateChanged(v) => n == (App { schedule_tab: ScheduleTabState { form: crate::schedule_form::ScheduleForm { start_date: v, ..o.schedule_tab.form }, form_error: None, ..o.schedule_tab }, ..o }) && e is Nothing,
            Message::ScheduleFormStartTimeChanged(v) => n == (App { schedule_tab: ScheduleTabState { form: crate::schedule_form::ScheduleForm { start_time: v, ..o.schedule_tab.form }, form_error: None, ..o.schedule_tab }, ..o }) && e is Nothing,
            Message::ScheduleFormEndDateChanged(v) => n == (App { schedule_tab: ScheduleTabState { form: crate::schedule_form::ScheduleForm { end_date: v, ..o.schedule_tab.form }, form_error: None, ..o.schedule_tab }, ..o }) && e is Nothing,
            Message::ScheduleFormEndTimeChanged(v) => n == (App { schedule_tab: ScheduleTabState { form: crate::schedule_form::ScheduleForm { end_time: v, ..o.schedule_tab.form }, form_error: None, ..o.schedule_tab }, ..o }) && e is Nothing,
            Message::ScheduleFormDescriptionChanged(v) => n == (App { schedule_tab: ScheduleTabState { form: crate::schedule_form::ScheduleForm { description: v, ..o.schedule_tab.form }, ..o.schedule_tab }, ..o }) && e is Nothing,
            Message::ScheduleFormLocationChanged(v) => n == (App { schedule_tab: ScheduleTabState { form: crate::schedule_form::ScheduleForm { location: v, ..o.schedule_tab.form }, ..o.schedule_tab }, ..o }) && e is Nothing,
            Message::ScheduleFormReminderChanged(v) => n == (App { schedule_tab: ScheduleTabState { form: crate::schedule_form::ScheduleForm { reminder: v, ..o.schedule_tab.form }, ..o.schedule_tab }, ..o }) && e is Nothing,
            Message::ScheduleFormRruleChanged(v) => n == (App { schedule_tab: ScheduleTabState { form: crate::schedule_form::ScheduleForm { rrule: v, ..o.schedule_tab.form }, ..o.schedule_tab }, ..o }) && e is Nothing,
            _ => false,
        }
    }

    /// What `update` does with a message of `in_presets`.
    pub open spec fn presets_step(o: App, message: Message, m: Moment, n: App, e: Effect) -> bool {
        match message {
            Message::PresetCreateOpen => n == (App { preset_tab: n.preset_tab, ..o }) && form_emptied(n.preset_tab, o.preset_tab)
                && n.preset_tab.show_form && e is Nothing,
            Message::PresetEditOpen(name) => n == (App { preset_tab: n.preset_tab, ..o }) && filled_from(
                n.preset_tab,
                o.preset_tab,
                name@,
            ) && n.preset_tab.show_form && e is Nothing,
            Message::PresetFormDismissed => n == (App { preset_tab: n.preset_tab, ..o }) && form_emptied(n.preset_tab, o.preset_tab)
                && !n.preset_tab.show_form && e is Nothing,
            Message::PresetFormMatchRuleAdded => {
                let r = n.preset_tab.form_match_rules@;
                &&& n == (App { preset_tab: PresetTabState { form_match_rules: n.preset_tab.form_match_rules, ..o.preset_tab }, ..o })
                &&& r.len() == o.preset_tab.form_match_rules@.len() + 1
                &&& r.drop_last() == o.preset_tab.form_match_rules@
                &&& r.last()@.len() == 0
                &&& e is Nothing
            },
            Message::PresetFormMatchRuleChanged(i, v) => if i < o.preset_tab.form_match_rules@.len() {
                &&& n == (App { preset_tab: PresetTabState { form_match_rules: n.preset_tab.form_match_rules, ..o.preset_tab }, ..o })
                &&& n.preset_tab.form_match_rules@ == o.preset_tab.form_match_rules@.update(i as int, v)
                &&& e is Nothing
            } else {
                n == o && e is Nothing
            },
            Message::PresetFormMatchRuleRemoved(i) => if i < o.preset_tab.form_match_rules@.len() {
                &&& n == (App { preset_tab: PresetTabState { form_match_rules: n.preset_tab.form_match_rules, ..o.preset_tab }, ..o })
                &&& n.preset_tab.form_match_rules@ == o.preset_tab.form_match_rules@.remove(i as int)
                &&& e is Nothing
            } else {
                n == o && e is Nothing
            },
            Message::PresetFormSaveRequested => {
                let name = trim_ws(o.preset_tab.form_name@);
                if name.len() == 0 {
                    &&& n == (App { preset_tab: PresetTabState { form_error: n.preset_tab.form_error, ..o.preset_tab }, ..o })
                    &&& n.preset_tab.form_error matches Some(x) && x@ == "名称不能为空"@
                    &&& e is Nothing
                } else if name_taken(o.preset_tab.presets@, name, opt_text(o.preset_tab.editing_name)) {
                    &&& n == (App { preset_tab: PresetTabState { form_error: n.preset_tab.form_error, ..o.preset_tab }, ..o })
                    &&& n.preset_tab.form_error matches Some(x) && x@ == "名称已存在"@
                    &&& e is Nothing
                } else {
                    &&& n == (App { preset_tab: n.preset_tab, ..o })
                    &&& form_emptied(n.preset_tab, o.preset_tab)
                    &&& !n.preset_tab.show_form
                    &&& e matches Effect::SavePreset { old_name, preset }
                    &&& old_name == o.preset_tab.editing_name
                    &&& made_from_form(preset, name, o.preset_tab.form_description@, all_texts(o.preset_tab.form_match_rules@))
                }
            },
            Message::PresetDeleteConfirmed(name) => n == (App { preset_tab: PresetTabState { delete_target: None, ..o.preset_tab }, ..o })
                && e == Effect::DeletePreset(name),
            _ => false,
        }
    }

    /// What `update` does with a message of `in_settings`.
    pub open spec fn settings_step(o: App, message: Message, m: Moment, n: App, e: Effect) -> bool {
        match message {
            Message::SettingsFormSaveRequested => {
                &&& n == o
                &&& e matches Effect::SaveSettings(c)
                &&& opt_text(c.data_dir) == optional_input(o.settings_tab.form_data_dir@)
                &&& opt_text(c.default_preset) == optional_input(o.settings_tab.form_default_preset@)
                &&& c.theme == o.settings_tab.config.theme
            },
            Message::SettingsFormDismissMessage => n == (App {
                settings_tab: crate::app_state::SettingsTabState { message: None, ..o.settings_tab },
                ..o
            }) && e is Nothing,
            Message::ThemeChanged(t) => {
                &&& n == (App {
                    theme: t,
                    settings_tab: crate::app_state::SettingsTabState {
                        config: Config { theme: n.settings_tab.config.theme, ..o.settings_tab.config },
                        ..o.settings_tab
                    },
                    ..o
                })
                &&& n.settings_tab.config.theme matches Some(x) && x@ == theme_name(t)
                &&& e == Effect::SaveConfig(n.settings_tab.config)
            },
            _ => false,
        }
    }

    /// What `update` does with a message of `in_nodes`.
    pub open spec fn nodes_step(o: App, message: Message, m: Moment, n: App, e: Effect) -> bool {
        match message {
            Message::SearchQueryChanged(q) => {
                let r = n.category_tab.search_results;
                &&& n == (App {
                    category_tab: CategoryTabState {
                        search_query: q,
                        search_results: r,
                        search_selected_index: if r@.len() == 0 { None } else { Some(0usize) },
                        ..o.category_tab
                    },
                    ..o
                })
                &&& hits(r@) == (if q@.len() == 0 {
                    Seq::empty()
                } else {
                    search_from(o.category_tab.tree_nodes@, lowercase_of(q@), Seq::empty())
                })
                &&& e is Nothing
            },
            Message::SearchItemSelected(i) => if i < o.category_tab.search_results@.len() {
                let path = o.category_tab.search_results@[i as int].path;
                &&& n == (App {
                    category_tab: CategoryTabState {
                        tree_view: n.category_tab.tree_view,
                        selected_path: Some(path),
                        search_query: n.category_tab.search_query,
                        search_results: n.category_tab.search_results,
                        search_selected_index: None,
                        search_focused: false,
                        ..o.category_tab
                    },
                    ..o
                })
                &&& n.category_tab.tree_view@ == expand_toward(o.category_tab.tree_view@, o.category_tab.tree_nodes@, path@)
                &&& n.category_tab.search_query@.len() == 0
                &&& n.category_tab.search_results@.len() == 0
                &&& e is Nothing
            } else {
                n == o && e is Nothing
            },
            Message::NewNodeOpen(t) => match o.category_tab.selected_path {
                Some(p) => {
                    &&& n == (App {
                        category_tab: CategoryTabState { new_node_form: n.category_tab.new_node_form, ..o.category_tab },
                        modal: Some(Modal::NewNode),
                        ..o
                    })
                    &&& n.category_tab.new_node_form matches Some(f) && f.parent_path == p && f.node_type == t
                        && f.name@.len() == 0 && f.preset@ == o.default_preset@
                    &&& e is Nothing
                },
                None => n == o && e is Nothing,
            },
            Message::NewNodeNameChanged(v) => match o.category_tab.new_node_form {
                Some(f) => n == (App {
                    category_tab: CategoryTabState { new_node_form: Some(NewNodeForm { name: v, ..f }), ..o.category_tab },
                    ..o
                }) && e is Nothing,
                None => n == o && e is Nothing,
            },
            Message::NewNodeTypeChanged(v) => match o.category_tab.new_node_form {
                Some(f) => n == (App {
                    category_tab: CategoryTabState { new_node_form: Some(NewNodeForm { node_type: v, ..f }), ..o.category_tab },
                    ..o
                }) && e is Nothing,
                None => n == o && e is Nothing,
            },
            Message::NewNodePresetChanged(v) => match o.category_tab.new_node_form {
                Some(f) => n == (App {
                    category_tab: CategoryTabState { new_node_form: Some(NewNodeForm { preset: v, ..f }), ..o.category_tab },
                    ..o
                }) && e is Nothing,
                None => n == o && e is Nothing,
            },
            Message::NewNodeConfirm => match o.category_tab.new_node_form {
                Some(f) => if f.name@.len() == 0 {
                    &&& n == (App { error_message: n.error_message, ..o })
                    &&& n.error_message matches Some(x) && x@ == "名称不能为空"@
                    &&& e is Nothing
                } else {
                    &&& n == o
                    &&& e matches Effect::CreateNode { path, node_type, preset }
                    &&& path@ == f.parent_path@ + "/"@ + f.name@
                    &&& node_type == f.node_type
                    &&& preset == f.preset
                },
                None => n == o && e is Nothing,
            },
            Message::DeleteNodeOpen(p, folder) => n == (App {
                category_tab: CategoryTabState { delete_target: Some((p, folder)), ..o.category_tab },
                modal: Some(Modal::ConfirmDelete { item: p }),
                ..o
            }) && e is Nothing,
            Message::DeleteNodeConfirm => match o.category_tab.delete_target {
                Some((p, folder)) => {
                    &&& n == (App { category_tab: CategoryTabState { delete_target: None, ..o.category_tab }, ..o })
                    &&& e == Effect::DeleteNode {
                        path: p,
                        kind: if !p@.contains('/') {
                            DeleteKind::Tree
                        } else if folder {
                            DeleteKind::Folder
                        } else {
                            DeleteKind::Card
                        },
                    }
                },
                None => n == o && e is Nothing,
            },

            _ => false,
        }
    }

    /// What `update` does with a message of `in_cards`.
    pub open spec fn cards_step(o: App, message: Message, m: Moment, n: App, e: Effect) -> bool {
        match message {
            Message::EditCardOpen(p) => n == o && e == Effect::OpenCard(p),
            Message::EditCardNameChanged(v) => match o.category_tab.edit_card_form {
                Some(f) => n == (App {
                    category_tab: CategoryTabState { edit_card_form: Some(EditCardForm { new_name: v, ..f }), ..o.category_tab },
                    ..o
                }) && e is Nothing,
                None => n == o && e is Nothing,
            },
            Message::EditCardPresetChanged(v) => match o.category_tab.edit_card_form {
                Some(f) => n == (App {
                    category_tab: CategoryTabState { edit_card_form: Some(EditCardForm { preset: v, ..f }), ..o.category_tab },
                    ..o
                }) && e is Nothing,
                None => n == o && e is Nothing,
            },
            Message::EditCardNewReviewDurationChanged(v) => match o.category_tab.edit_card_form {
                Some(f) => n == (App {
                    category_tab: CategoryTabState { edit_card_form: Some(EditCardForm { new_review_duration: v, ..f }), ..o.category_tab },
                    ..o
                }) && e is Nothing,
                None => n == o && e is Nothing,
            },
            Message::EditCardNewReviewQualityChanged(v) => match o.category_tab.edit_card_form {
                Some(f) => n == (App {
                    category_tab: CategoryTabState { edit_card_form: Some(EditCardForm { new_review_quality: v, ..f }), ..o.category_tab },
                    ..o
                }) && e is Nothing,
                None => n == o && e is Nothing,
            },
            Message::EditCardNextReviewChanged(v) => match o.category_tab.edit_card_form {
                Some(f) => n == (App {
                    category_tab: CategoryTabState { edit_card_form: Some(EditCardForm { next_review: day_parsed(v@), ..f }), ..o.category_tab },
                    ..o
                }) && e is Nothing,
                None => n == o && e is Nothing,
            },
            Message::EditCardClearPrediction => match o.category_tab.edit_card_form {
                Some(f) => n == (App {
                    category_tab: CategoryTabState {
                        edit_card_form: Some(EditCardForm { clear_prediction: true, next_review: None, ..f }),
                        ..o.category_tab
                    },
                    ..o
                }) && e is Nothing,
                None => n == o && e is Nothing,
            },
            Message::EditCardPredict => n == o && (if o.category_tab.edit_card_form is Some {
                e is PredictCard
            } else {
                e is Nothing
            }),
            Message::EditCardToggleGroup(g) => match o.category_tab.edit_card_form {
                Some(f) => {
                    &&& n == (App {
                        category_tab: CategoryTabState { edit_card_form: n.category_tab.edit_card_form, ..o.category_tab },
                        ..o
                    })
                    &&& n.category_tab.edit_card_form matches Some(x)
                    &&& x == (EditCardForm { expanded_groups: x.expanded_groups, ..f })
                    &&& toggled(x.expanded_groups@, f.expanded_groups@, g@)
                    &&& e is Nothing
                },
                None => n == o && e is Nothing,
            },
            Message::EditCardAddReview => match o.category_tab.edit_card_form {
                Some(f) => {
                    let d = review_minutes(f.new_review_duration@);
                    if d > 0 {
                        &&& n == (App {
                            category_tab: CategoryTabState { edit_card_form: n.category_tab.edit_card_form, ..o.category_tab },
                            ..o
                        })
                        &&& n.category_tab.edit_card_form matches Some(x)
                        &&& x == (EditCardForm {
                            review_records: x.review_records,
                            new_review_duration: x.new_review_duration,
                            ..f
                        })
                        &&& x.review_records@ == f.review_records@.push(ReviewRecord {
                            timestamp: m.now,
                            duration_ms: (d * 60000) as i64,
                            memory_quality: f.new_review_quality,
                        })
                        &&& x.new_review_duration@.len() == 0
                        &&& e is Nothing
                    } else {
                        n == o && e is Nothing
                    }
                },
                None => n == o && e is Nothing,
            },
            Message::EditCardRemoveReview(i) => match o.category_tab.edit_card_form {
                Some(f) => if i < f.review_records@.len() {
                    &&& n == (App {
                        category_tab: CategoryTabState { edit_card_form: n.category_tab.edit_card_form, ..o.category_tab },
                        ..o
                    })
                    &&& n.category_tab.edit_card_form matches Some(x)
                    &&& x == (EditCardForm { review_records: x.review_records, ..f })
                    &&& x.review_records@ == f.review_records@.remove(i as int)
                    &&& e is Nothing
                } else {
                    n == o && e is Nothing
                },
                None => n == o && e is Nothing,
            },
            Message::EditCardConfirm => match o.category_tab.edit_card_form {
                Some(f) => {
                    &&& n == o
                    &&& e matches Effect::SaveCard { path, new_name, card }
                    &&& path == f.path
                    &&& new_name == (if f.original_name@ != f.new_name@ { Some(f.new_name) } else { None })
                    &&& card.review_records@ == f.review_records@
                    &&& (f.clear_prediction ==> card.prediction is None)
                    &&& (!f.clear_prediction ==> (card.prediction matches Some(p) && p.algorithm@ == "fsrs"@
                        && p.next_review == (match f.next_review {
                        Some(t) => t,
                        None => m.now,
                    }) && p.fsrs_state_bytes@ == f.fsrs_state_bytes@ && p.preset_used == f.preset))
                },
                None => n == o && e is Nothing,
            },
            _ => false,
        }
    }

    /// What `update` does with a message of `in_timer`.
    pub open spec fn timer_step(o: App, message: Message, m: Moment, n: App, e: Effect) -> bool {
        match message {
            Message::StartReviewTimer(p) => n == (App {
                timer_tab: TimerTabState { current_card: Some(p), ..o.timer_tab },
                active_tab: TabId::Timer,
                ..o
            }) && e is StartTimer,
            Message::QuickTimerStart(p) => n == (App {
                timer_tab: TimerTabState { current_card: Some(p), ..o.timer_tab },
                active_tab: TabId::Timer,
                ..o
            }) && e is StartTimer,
            Message::RefreshPredictions => n == o && e == Effect::RefreshPredictions { default_preset: o.default_preset },
            Message::TimerStarted => n == o && e is StartTimer,
            Message::TimerPaused => n == o && e is PauseTimer,
            Message::TimerStopped(Ok(_)) => n == (App {
                timer_tab: TimerTabState {
                    link_mode: true,
                    current_card: None,
                    card_path_input: match o.timer_tab.current_card {
                        Some(c) => c,
                        None => o.timer_tab.card_path_input,
                    },
                    ..o.timer_tab
                },
                ..o
            }) && e is StopTimer,
            Message::TimerStopped(Err(msg)) => n == (App { error_message: Some(msg), ..o }) && e is Nothing,
            Message::TimerTick(_) => {
                &&& n == (App { timer_tab: TimerTabState { elapsed_ms: n.timer_tab.elapsed_ms, ..o.timer_tab }, ..o })
                &&& n.timer_tab.elapsed_ms == o.timer_tab.state.elapsed_at(m.now)
                &&& e is Nothing
            },
            Message::TimerCardPathChanged(p) => {
                &&& n == (App { timer_tab: TimerTabState { card_path_input: n.timer_tab.card_path_input, ..o.timer_tab }, ..o })
                &&& n.timer_tab.card_path_input@ == slashed(p@)
                &&& e is Nothing
            },
            Message::TimerCardSelected(p) => n == (App {
                timer_tab: TimerTabState { selected_card: Some(p), card_path_input: p, ..o.timer_tab },
                ..o
            }) && e is Nothing,
            Message::TimerLinkConfirm => if link_path(o.timer_tab).len() > 0 {
                &&& n == (App { timer_tab: TimerTabState { link_mode: false, elapsed_ms: 0, ..o.timer_tab }, ..o })
                &&& e matches Effect::LinkReview { card_path, record, preset }
                &&& card_path@ == link_path(o.timer_tab)
                &&& record == (ReviewRecord {
                    timestamp: m.now,
                    duration_ms: o.timer_tab.elapsed_ms,
                    memory_quality: o.timer_tab.memory_quality,
                })
                &&& preset == o.default_preset
            } else {
                n == o && e is Nothing
            },
            Message::TimerNewCardConfirm => if o.timer_tab.new_card_name@.len() > 0 {
                &&& n == o
                &&& e matches Effect::CreateTimerNode { path, node_type, preset }
                &&& path@ == new_node_target(
                    o.category_tab.tree_nodes@,
                    slashed(o.timer_tab.card_path_input@),
                    o.timer_tab.new_card_name@,
                )
                &&& node_type == o.timer_tab.new_card_type
                &&& preset == o.timer_tab.new_card_preset
            } else {
                n == o && e is Nothing
            },
            _ => false,
        }
    }

    /// What `update` does with a message of `in_todos`.
    pub open spec fn todos_step(o: App, message: Message, m: Moment, n: App, e: Effect) -> bool {
        match message {
            Message::ModalOpen(md) => {
                &&& match md {
                    Modal::NewTodo => {
                        &&& n == (App { todo_tab: n.todo_tab, modal: Some(md), ..o })
                        &&& due_fields_default(n.todo_tab, m.today.0, m.today.1, m.today.2)
                        &&& same_but_due(n.todo_tab, o.todo_tab)
                    },
                    Modal::EditTodo { id } => match first_todo(o.todo_tab.todos@, id) {
                        Some(k) => n == (App { todo_tab: n.todo_tab, modal: Some(md), ..o }) && todo_loaded(
                            n.todo_tab,
                            o.todo_tab,
                            o.todo_tab.todos@[k],
                            m.today,
                        ),
                        None => n == (App { modal: Some(md), ..o }),
                    },
                    Modal::CreateTree => {
                        &&& n == (App {
                            category_tab: CategoryTabState {
                                new_tree_name: n.category_tab.new_tree_name,
                                new_tree_import_path: n.category_tab.new_tree_import_path,
                                new_tree_import_rules_path: n.category_tab.new_tree_import_rules_path,
                                ..o.category_tab
                            },
                            modal: Some(md),
                            ..o
                        })
                        &&& n.category_tab.new_tree_name@.len() == 0
                        &&& n.category_tab.new_tree_import_path@.len() == 0
                        &&& n.category_tab.new_tree_import_rules_path@.len() == 0
                    },
                    _ => n == (App { modal: Some(md), ..o }),
                }
                &&& e is Nothing
            },
            Message::ModalConfirm => match o.modal {
                Some(Modal::NewTodo) => {
                    let content = trim_ws(o.todo_tab.form_content@);
                    if content.len() == 0 {
                        n == o && e is Nothing
                    } else {
                        &&& n == o
                        &&& e matches Effect::SaveTodo { todo, editing }
                        &&& !editing
                        &&& todo@ == (TodoView {
                            id: m.fresh_id,
                            content,
                            completed: false,
                            created_at: m.now,
                            due_date: todo_due(o.todo_tab),
                            priority: o.todo_tab.form_priority,
                            tags: words(o.todo_tab.form_tags@),
                            notes: None,
                            completed_at: None,
                        })
                    }
                },
                Some(Modal::EditTodo { id }) => {
                    let content = trim_ws(o.todo_tab.form_content@);
                    if content.len() == 0 {
                        n == o && e is Nothing
                    } else {
                        match first_todo(o.todo_tab.todos@, id) {
                            Some(k) => {
                                let v = edited_todo(o.todo_tab.todos@[k]@, o.todo_tab);
                                &&& n == (App { todo_tab: TodoTabState { todos: n.todo_tab.todos, ..o.todo_tab }, ..o })
                                &&& n.todo_tab.todos@.len() == o.todo_tab.todos@.len()
                                &&& forall|j: int| 0 <= j < o.todo_tab.todos@.len() && j != k ==> #[trigger] n.todo_tab.todos@[j] == o.todo_tab.todos@[j]
                                &&& n.todo_tab.todos@[k]@ == v
                                &&& e matches Effect::SaveTodo { todo, editing }
                                &&& editing
                                &&& todo@ == v
                            },
                            None => n == o && e is Nothing,
                        }
                    }
                },
                Some(Modal::CreateTree) => {
                    let name = trim_ws(o.category_tab.new_tree_name@);
                    if name.len() == 0 {
                        n == o && e is Nothing
                    } else {
                        &&& n == o
                        &&& e matches Effect::CreateTree { name: nm, import_path, rules_path }
                        &&& nm@ == name
                        &&& import_path@ == trim_ws(o.category_tab.new_tree_import_path@)
                        &&& rules_path == o.category_tab.new_tree_import_rules_path
                    }
                },
                _ => n == o && e is Nothing,
            },
            Message::ToggleTodo(id) => match first_todo(o.todo_tab.todos@, id) {
                Some(k) => {
                    let v = toggled_todo(o.todo_tab.todos@[k]@, m.now);
                    &&& n == (App { todo_tab: TodoTabState { todos: n.todo_tab.todos, ..o.todo_tab }, ..o })
                    &&& n.todo_tab.todos@.len() == o.todo_tab.todos@.len()
                    &&& forall|j: int| 0 <= j < o.todo_tab.todos@.len() && j != k ==> #[trigger] n.todo_tab.todos@[j] == o.todo_tab.todos@[j]
                    &&& n.todo_tab.todos@[k]@ == v
                    &&& e matches Effect::SaveToggledTodo(todo)
                    &&& todo@ == v
                },
                None => n == o && e is Nothing,
            },
            Message::DeleteTodo(id) => n == o && e == Effect::DeleteTodo(id),
            _ => false,
        }
    }

    /// What `update` does with a message of `in_schedules`.
    pub open spec fn schedules_step(o: App, message: Message, m: Moment, n: App, e: Effect) -> bool {
        match message {
            Message::ScheduleCreateOpen => {
                &&& n == (App {
                    schedule_tab: ScheduleTabState {
                        form: n.schedule_tab.form,
                        editing_id: None,
                        show_form: true,
                        form_error: None,
                        ..o.schedule_tab
                    },
                    modal: Some(Modal::NewSchedule),
                    ..o
                })
                &&& is_blank(n.schedule_tab.form)
                &&& e is Nothing
            },
            Message::ScheduleCreateConfirm => match event_outcome(o.schedule_tab.form, m.fresh_id) {
                Ok(v) => n == o && (e matches Effect::SaveSchedule { schedule, editing } && !editing && schedule@ == v),
                Err(msg) => {
                    &&& n == (App { schedule_tab: ScheduleTabState { form_error: n.schedule_tab.form_error, ..o.schedule_tab }, ..o })
                    &&& n.schedule_tab.form_error matches Some(x) && x@ == msg
                    &&& e is Nothing
                },
            },
            Message::ScheduleEditOpen(id) => match first_event(o.schedule_tab.schedules@, id) {
                Some(k) => {
                    &&& n == (App {
                        schedule_tab: ScheduleTabState {
                            form: n.schedule_tab.form,
                            editing_id: Some(id),
                            show_form: true,
                            form_error: None,
                            ..o.schedule_tab
                        },
                        modal: Some(Modal::NewSchedule),
                        ..o
                    })
                    &&& loaded_from(n.schedule_tab.form, o.schedule_tab.schedules@[k]@)
                    &&& e is Nothing
                },
                None => n == o && e is Nothing,
            },
            Message::ScheduleEditConfirm => match event_outcome(o.schedule_tab.form, m.fresh_id) {
                Ok(v) => n == o && (e matches Effect::SaveSchedule { schedule, editing } && editing && schedule@ == (ScheduleView {
                    id: match o.schedule_tab.editing_id {
                        Some(i) => i,
                        None => m.fresh_id,
                    },
                    ..v
                })),
                Err(msg) => {
                    &&& n == (App { schedule_tab: ScheduleTabState { form_error: n.schedule_tab.form_error, ..o.schedule_tab }, ..o })
                    &&& n.schedule_tab.form_error matches Some(x) && x@ == msg
                    &&& e is Nothing
                },
            },
            Message::ScheduleDelete(id) => n == o && e == Effect::DeleteSchedule(id),
            _ => false,
        }
    }

    /// What `update` does with `message` at moment `m`: `n` is the state it
    /// leaves and `e` the work it leaves to the caller.
    pub open spec fn stepped(o: App, message: Message, m: Moment, n: App, e: Effect) -> bool {
        if App::in_data(message) {
            App::data_step(o, message, m, n, e)
        } else if App::in_fields(message) {
            App::fields_step(o, message, m, n, e)
        } else if App::in_presets(message) {
            App::presets_step(o, message, m, n, e)
        } else if App::in_settings(message) {
            App::settings_step(o, message, m, n, e)
        } else if App::in_nodes(message) {
            App::nodes_step(o, message, m, n, e)
        } else if App::in_cards(message) {
            App::cards_step(o, message, m, n, e)
        } else if App::in_timer(message) {
            App::timer_step(o, message, m, n, e)
        } else if App::in_todos(message) {
            App::todos_step(o, message, m, n, e)
        } else if App::in_schedules(message) {
            App::schedules_step(o, message, m, n, e)
        } else {
            n == o && e is Nothing
        }
    }

    /// The messages `step_data` handles.
    pub open spec fn in_data(message: Message) -> bool {
        message is SwitchTab
        || message is DataLoaded
        || message is PresetsLoaded
    }
    /// The messages `step_fields` handles.
    pub open spec fn in_fields(message: Message) -> bool {
        message is CardSelected
        || message is SearchChanged
        || message is UrgencyFilterChanged
        || message is SearchFocusChanged
        || message is CreateTreeNameChanged
        || message is CreateTreeImportPathChanged
        || message is CreateTreeImportRulesPathChanged
        || message is ReviewCardSelected
        || message is TimerLinkModeClose
        || message is TimerMemoryQualityChanged
        || message is TimerHistoryShow
        || message is TimerHistoryHide
        || message is Error
        || message is ClearError
        || message is ModalClose
        || message is NewTodoContentChanged
        || message is NewTodoPriorityChanged
        || message is NewTodoDueYearChanged
        || message is NewTodoDueMonthChanged
        || message is NewTodoDueDayChanged
        || message is NewTodoDueHourChanged
        || message is NewTodoDueMinuteChanged
        || message is NewTodoTagsChanged
        || message is TodoSelected
        || message is PresetFormNameChanged
        || message is PresetFormDescriptionChanged
        || message is PresetDeleteRequested
        || message is PresetDeleteDismissed
        || message is SettingsFormDataDirChanged
        || message is SettingsFormDefaultPresetChanged
        || message is TimerNewCardNameChanged
        || message is TimerNewCardPresetChanged
        || message is TimerNewCardTypeChanged
        || message is TimerLinkModeOpen
        || message is ScheduleFormSummaryChanged
        || message is ScheduleFormStartDateChanged
        || message is ScheduleFormStartTimeChanged
        || message is ScheduleFormEndDateChanged
        || message is ScheduleFormEndTimeChanged
        || message is ScheduleFormDescriptionChanged
        || message is ScheduleFormLocationChanged
        || message is ScheduleFormReminderChanged
        || message is ScheduleFormRruleChanged
    }
    /// The messages `step_presets` handles.
    pub open spec fn in_presets(message: Message) -> bool {
        message is PresetCreateOpen
        || message is PresetEditOpen
        || message is PresetFormDismissed
        || message is PresetFormMatchRuleAdded
        || message is PresetFormMatchRuleChanged
        || message is PresetFormMatchRuleRemoved
        || message is PresetFormSaveRequested
        || message is PresetDeleteConfirmed
    }
    /// The messages `step_settings` handles.
    pub open spec fn in_settings(message: Message) -> bool {
        message is SettingsFormSaveRequested
        || message is SettingsFormDismissMessage
        || message is ThemeChanged
    }

    /// The messages `step_nodes` handles.
    pub open spec fn in_nodes(message: Message) -> bool {
        message is SearchQueryChanged || message is SearchItemSelected || message is NewNodeOpen
            || message is NewNodeNameChanged || message is NewNodeTypeChanged || message is NewNodePresetChanged
            || message is NewNodeConfirm || message is DeleteNodeOpen || message is DeleteNodeConfirm
    }

    /// The messages `step_cards` handles.
    pub open spec fn in_cards(message: Message) -> bool {
        message is EditCardOpen
            || message is EditCardNameChanged
            || message is EditCardPresetChanged
            || message is EditCardNextReviewChanged
            || message is EditCardClearPrediction
            || message is EditCardPredict
            || message is EditCardToggleGroup
            || message is EditCardAddReview
            || message is EditCardRemoveReview
            || message is EditCardNewReviewDurationChanged
            || message is EditCardNewReviewQualityChanged
            || message is EditCardConfirm
    }

    /// The messages `step_timer` handles.
    pub open spec fn in_timer(message: Message) -> bool {
        message is StartReviewTimer
            || message is QuickTimerStart
            || message is RefreshPredictions
            || message is TimerStarted
            || message is TimerPaused
            || message is TimerStopped
            || message is TimerTick
            || message is TimerCardPathChanged
            || message is TimerCardSelected
            || message is TimerLinkConfirm
            || message is TimerNewCardConfirm
    }

    /// The messages `step_todos` handles.
    pub open spec fn in_todos(message: Message) -> bool {
        message is ModalOpen
            || message is ModalConfirm
            || message is ToggleTodo
            || message is DeleteTodo
    }

    /// The messages `step_schedules` handles.
    pub open spec fn in_schedules(message: Message) -> bool {
        message is ScheduleCreateOpen
            || message is ScheduleCreateConfirm
            || message is ScheduleEditOpen
            || message is ScheduleEditConfirm
            || message is ScheduleDelete
    }

    /// Handles one message at moment `m`.
    pub fn update(&mut self, message: Message, m: Moment) -> (e: Effect)
        requires
            old(self).wf(),
            old(self).accepts(message),
        ensures
            final(self).wf(),
            App::stepped(*old(self), message, m, *final(self), e),
    {
        match message {
            Message::SwitchTab(..) | Message::DataLoaded(..) | Message::PresetsLoaded(..) => self.step_data(message, m),
            Message::CardSelected(..) | Message::SearchChanged(..) | Message::UrgencyFilterChanged(..) | Message::SearchFocusChanged(..) | Message::CreateTreeNameChanged(..) | Message::CreateTreeImportPathChanged(..) | Message::CreateTreeImportRulesPathChanged(..) | Message::ReviewCardSelected(..) | Message::TimerLinkModeClose | Message::TimerMemoryQualityChanged(..) | Message::TimerHistoryShow | Message::TimerHistoryHide | Message::Error(..) | Message::ClearError | Message::ModalClose | Message::NewTodoContentChanged(..) | Message::NewTodoPriorityChanged(..) | Message::NewTodoDueYearChanged(..) | Message::NewTodoDueMonthChanged(..) | Message::NewTodoDueDayChanged(..) | Message::NewTodoDueHourChanged(..) | Message::NewTodoDueMinuteChanged(..) | Message::NewTodoTagsChanged(..) | Message::TodoSelected(..) | Message::PresetFormNameChanged(..) | Message::PresetFormDescriptionChanged(..) | Message::PresetDeleteRequested(..) | Message::PresetDeleteDismissed | Message::SettingsFormDataDirChanged(..) | Message::SettingsFormDefaultPresetChanged(..) | Message::TimerNewCardNameChanged(..) | Message::TimerNewCardPresetChanged(..) | Message::TimerNewCardTypeChanged(..) | Message::TimerLinkModeOpen | Message::ScheduleFormSummaryChanged(..) | Message::ScheduleFormStartDateChanged(..) | Message::ScheduleFormStartTimeChanged(..) | Message::ScheduleFormEndDateChanged(..) | Message::ScheduleFormEndTimeChanged(..) | Message::ScheduleFormDescriptionChanged(..) | Message::ScheduleFormLocationChanged(..) | Message::ScheduleFormReminderChanged(..) | Message::ScheduleFormRruleChanged(..) => self.step_fields(message, m),
            Message::PresetCreateOpen | Message::PresetEditOpen(..) | Message::PresetFormDismissed | Message::PresetFormMatchRuleAdded | Message::PresetFormMatchRuleChanged(..) | Message::PresetFormMatchRuleRemoved(..) | Message::PresetFormSaveRequested | Message::PresetDeleteConfirmed(..) => self.step_presets(message, m),
            Message::SettingsFormSaveRequested | Message::SettingsFormDismissMessage | Message::ThemeChanged(..) => self.step_settings(message, m),
            Message::SearchQueryChanged(..) | Message::SearchItemSelected(..) | Message::NewNodeOpen(..) | Message::NewNodeNameChanged(..) | Message::NewNodeTypeChanged(..) | Message::NewNodePresetChanged(..) | Message::NewNodeConfirm | Message::DeleteNodeOpen(..) | Message::DeleteNodeConfirm => self.step_nodes(message, m),
            Message::EditCardOpen(..) | Message::EditCardNameChanged(..) | Message::EditCardPresetChanged(..) | Message::EditCardNextReviewChanged(..) | Message::EditCardClearPrediction | Message::EditCardPredict | Message::EditCardToggleGroup(..) | Message::EditCardAddReview | Message::EditCardRemoveReview(..) | Message::EditCardNewReviewDurationChanged(..) | Message::EditCardNewReviewQualityChanged(..) | Message::EditCardConfirm => self.step_cards(message, m),
            Message::StartReviewTimer(..) | Message::QuickTimerStart(..) | Message::RefreshPredictions | Message::TimerStarted | Message::TimerPaused | Message::TimerStopped(..) | Message::TimerTick(..) | Message::TimerCardPathChanged(..) | Message::TimerCardSelected(..) | Message::TimerLinkConfirm | Message::TimerNewCardConfirm => self.step_timer(message, m),
            Message::ModalOpen(..) | Message::ModalConfirm | Message::ToggleTodo(..) | Message::DeleteTodo(..) => self.step_todos(message, m),
            Message::ScheduleCreateOpen | Message::ScheduleCreateConfirm | Message::ScheduleEditOpen(..) | Message::ScheduleEditConfirm | Message::ScheduleDelete(..) => self.step_schedules(message, m),
            _ => Effect::Nothing,
        }
    }

    #[verifier::spinoff_prover]
    fn step_nodes(&mut self, message: Message, m: Moment) -> (e: Effect)
        requires
            old(self).wf(),
            old(self).accepts(message),
            App::in_nodes(message),
        ensures
            final(self).wf(),
            App::nodes_step(*old(self), message, m, *final(self), e),
    {
        match message {
            Message::SearchQueryChanged(q) => {
                let results = search_nodes(self.category_tab.tree_nodes.as_slice(), q.as_str());
                let index = if results.len() == 0 { None } else { Some(0usize) };
                self.category_tab.search_query = q;
                self.category_tab.search_results = results;
                self.category_tab.search_selected_index = index;
                Effect::Nothing
            },
            Message::SearchItemSelected(i) => {
                if i < self.category_tab.search_results.len() {
                    let path = self.category_tab.search_results[i].path.clone();
                    self.category_tab.tree_view.expand_to_path(self.category_tab.tree_nodes.as_slice(), path.as_str());
                    self.category_tab.selected_path = Some(path);
                    self.category_tab.search_query = String::new();
                    self.category_tab.search_results = Vec::new();
                    self.category_tab.search_selected_index = None;
                    self.category_tab.search_focused = false;
                }
                Effect::Nothing
            },
            Message::NewNodeOpen(t) => {
                match &self.category_tab.selected_path {
                    Some(p) => {
                        let form = NewNodeForm::new(p.clone(), t, self.default_preset.as_str());
                        self.category_tab.new_node_form = Some(form);
                        self.modal = Some(Modal::NewNode);
                    },
                    None => {},
                }
                Effect::Nothing
            },
            Message::NewNodeNameChanged(v) => {
                match self.category_tab.new_node_form.take() {
                    Some(mut f) => {
                        f.name = v;
                        self.category_tab.new_node_form = Some(f);
                    },
                    None => {},
                }
                Effect::Nothing
            },
            Message::NewNodeTypeChanged(v) => {
                match self.category_tab.new_node_form.take() {
                    Some(mut f) => {
                        f.node_type = v;
                        self.category_tab.new_node_form = Some(f);
                    },
                    None => {},
                }
                Effect::Nothing
            },
            Message::NewNodePresetChanged(v) => {
                match self.category_tab.new_node_form.take() {
                    Some(mut f) => {
                        f.preset = v;
                        self.category_tab.new_node_form = Some(f);
                    },
                    None => {},
                }
                Effect::Nothing
            },
            Message::NewNodeConfirm => {
                match &self.category_tab.new_node_form {
                    Some(f) => {
                        if f.name.as_str().is_empty() {
                            self.error_message = Some(owned("名称不能为空"));
                            Effect::Nothing
                        } else {
                            let mut path = f.parent_path.clone();
                            push_str(&mut path, "/");
                            push_str(&mut path, f.name.as_str());
                            Effect::CreateNode { path, node_type: f.node_type, preset: f.preset.clone() }
                        }
                    },
                    None => Effect::Nothing,
                }
            },
            Message::DeleteNodeOpen(p, folder) => {
                let item = p.clone();
                self.category_tab.delete_target = Some((p, folder));
                self.modal = Some(Modal::ConfirmDelete { item });
                Effect::Nothing
            },
            Message::DeleteNodeConfirm => {
                match self.category_tab.delete_target.take() {
                    Some((p, folder)) => {
                        let kind = if !has_char(&chars_of(p.as_str()), '/') {
                            DeleteKind::Tree
                        } else if folder {
                            DeleteKind::Folder
                        } else {
                            DeleteKind::Card
                        };
                        Effect::DeleteNode { path: p, kind }
                    },
                    None => Effect::Nothing,
                }
            },
            _ => Effect::Nothing,
        }
    }

    #[verifier::spinoff_prover]
    #[verifier::rlimit(80)]
    fn step_cards(&mut self, message: Message, m: Moment) -> (e: Effect)
        requires
            old(self).wf(),
            old(self).accepts(message),
            App::in_cards(message),
        ensures
            final(self).wf(),
            App::cards_step(*old(self), message, m, *final(self), e),
    {
        match message {
            Message::EditCardOpen(p) => Effect::OpenCard(p),
            Message::EditCardNameChanged(v) => {
                match self.category_tab.edit_card_form.take() {
                    Some(mut f) => {
                        f.new_name = v;
                        self.category_tab.edit_card_form = Some(f);
                    },
                    None => {},
                }
                Effect::Nothing
            },
            Message::EditCardPresetChanged(v) => {
                match self.category_tab.edit_card_form.take() {
                    Some(mut f) => {
                        f.preset = v;
                        self.category_tab.edit_card_form = Some(f);
                    },
                    None => {},
                }
                Effect::Nothing
            },
            Message::EditCardNewReviewDurationChanged(v) => {
                match self.category_tab.edit_card_form.take() {
                    Some(mut f) => {
                        f.new_review_duration = v;
                        self.category_tab.edit_card_form = Some(f);
                    },
                    None => {},
                }
                Effect::Nothing
            },
            Message::EditCardNewReviewQualityChanged(v) => {
                match self.category_tab.edit_card_form.take() {
                    Some(mut f) => {
                        f.new_review_quality = v;
                        self.category_tab.edit_card_form = Some(f);
                    },
                    None => {},
                }
                Effect::Nothing
            },
            Message::EditCardNextReviewChanged(v) => {
                match self.category_tab.edit_card_form.take() {
                    Some(mut f) => {
                        f.next_review = parse_day(v.as_str());
                        self.category_tab.edit_card_form = Some(f);
                    },
                    None => {},
                }
                Effect::Nothing
            },
            Message::EditCardClearPrediction => {
                match self.category_tab.edit_card_form.take() {
                    Some(mut f) => {
                        f.clear_prediction = true;
                        f.next_review = None;
                        self.category_tab.edit_card_form = Some(f);
                    },
                    None => {},
                }
                Effect::Nothing
            },
            Message::EditCardPredict => {
                if self.category_tab.edit_card_form.is_some() {
                    Effect::PredictCard
                } else {
                    Effect::Nothing
                }
            },
            Message::EditCardToggleGroup(g) => self.edit_toggle_group(g, m),
            Message::EditCardAddReview => self.edit_add_review(m),
            Message::EditCardRemoveReview(i) => self.edit_remove_review(i, m),
            Message::EditCardConfirm => self.edit_confirm(m),
            _ => Effect::Nothing,
        }
    }

    #[verifier::spinoff_prover]
    fn edit_toggle_group(&mut self, g: String, m: Moment) -> (e: Effect)
        requires
            old(self).wf(),
        ensures
            final(self).wf(),
            App::cards_step(*old(self), Message::EditCardToggleGroup(g), m, *final(self), e),
    {
                match self.category_tab.edit_card_form.take() {
                    Some(mut f) => {
                        f.expanded_groups = toggle_group(&f.expanded_groups, g.as_str());
                        self.category_tab.edit_card_form = Some(f);
                    },
                    None => {},
                }
                Effect::Nothing
            
    }

    #[verifier::spinoff_prover]
    fn edit_add_review(&mut self, m: Moment) -> (e: Effect)
        requires
            old(self).wf(),
            old(self).accepts(Message::EditCardAddReview),
        ensures
            final(self).wf(),
            App::cards_step(*old(self), Message::EditCardAddReview, m, *final(self), e),
    {
                match self.category_tab.edit_card_form.take() {
                    Some(mut f) => {
                        let d: i64 = match parse_i64(f.new_review_duration.as_str()) {
                            Some(v) => v,
                            None => 0,
                        };
                        if d > 0 {
                            f.review_records.push(ReviewRecord {
                                timestamp: m.now,
                                duration_ms: d * 60000,
                                memory_quality: f.new_review_quality,
                            });
                            f.new_review_duration = String::new();
                        }
                        self.category_tab.edit_card_form = Some(f);
                    },
                    None => {},
                }
                Effect::Nothing
            
    }

    #[verifier::spinoff_prover]
    fn edit_remove_review(&mut self, i: usize, m: Moment) -> (e: Effect)
        requires
            old(self).wf(),
        ensures
            final(self).wf(),
            App::cards_step(*old(self), Message::EditCardRemoveReview(i), m, *final(self), e),
    {
                match self.category_tab.edit_card_form.take() {
                    Some(mut f) => {
                        if i < f.review_records.len() {
                            f.review_records.remove(i);
                        }
                        self.category_tab.edit_card_form = Some(f);
                    },
                    None => {},
                }
                Effect::Nothing
            
    }

    #[verifier::spinoff_prover]
    fn edit_confirm(&mut self, m: Moment) -> (e: Effect)
        requires
            old(self).wf(),
        ensures
            final(self).wf(),
            App::cards_step(*old(self), Message::EditCardConfirm, m, *final(self), e),
    {
                match &self.category_tab.edit_card_form {
                    Some(f) => {
                        let records = f.review_records.clone();
                        assert(records@ =~= f.review_records@);
                        let prediction = if !f.clear_prediction {
                            let bytes = f.fsrs_state_bytes.clone();
                            assert(bytes@ =~= f.fsrs_state_bytes@);
                            let due = match f.next_review {
                                Some(t) => t,
                                None => m.now,
                            };
                            Some(Prediction {
                                algorithm: owned("fsrs"),
                                next_review: due,
                                fsrs_state_bytes: bytes,
                                preset_used: f.preset.clone(),
                            })
                        } else {
                            None
                        };
                        let new_name = if !str_eq(f.original_name.as_str(), f.new_name.as_str()) {
                            Some(f.new_name.clone())
                        } else {
                            None
                        };
                        Effect::SaveCard { path: f.path.clone(), new_name, card: Card { review_records: records, prediction } }
                    },
                    None => Effect::Nothing,
                }
            
    }

    #[verifier::spinoff_prover]
    fn step_timer(&mut self, message: Message, m: Moment) -> (e: Effect)
        requires
            old(self).wf(),
            old(self).accepts(message),
            App::in_timer(message),
        ensures
            final(self).wf(),
            App::timer_step(*old(self), message, m, *final(self), e),
    {
        match message {
            Message::StartReviewTimer(p) => {
                self.timer_tab.current_card = Some(p);
                self.active_tab = TabId::Timer;
                Effect::StartTimer
            },
            Message::QuickTimerStart(p) => {
                self.timer_tab.current_card = Some(p);
                self.active_tab = TabId::Timer;
                Effect::StartTimer
            },
            Message::RefreshPredictions => Effect::RefreshPredictions { default_preset: self.default_preset.clone() },
            Message::TimerStarted => Effect::StartTimer,
            Message::TimerPaused => Effect::PauseTimer,
            Message::TimerStopped(r) => {
                match r {
                    Ok(_) => {
                        match self.timer_tab.current_card.take() {
                            Some(c) => {
                                self.timer_tab.card_path_input = c;
                            },
                            None => {},
                        }
                        self.timer_tab.link_mode = true;
                        Effect::StopTimer
                    },
                    Err(msg) => {
                        self.error_message = Some(msg);
                        Effect::Nothing
                    },
                }
            },
            Message::TimerTick(_) => {
                self.timer_tab.elapsed_ms = self.timer_tab.state.elapsed_ms_at(m.now);
                Effect::Nothing
            },
            Message::TimerCardPathChanged(p) => {
                self.timer_tab.card_path_input = forward_slashes(p.as_str());
                Effect::Nothing
            },
            Message::TimerCardSelected(p) => {
                self.timer_tab.selected_card = Some(p.clone());
                self.timer_tab.card_path_input = p;
                Effect::Nothing
            },
            Message::TimerLinkConfirm => self.link_confirm(m),
            Message::TimerNewCardConfirm => self.new_card_confirm(m),
            _ => Effect::Nothing,
        }
    }

    #[verifier::spinoff_prover]
    fn step_todos(&mut self, message: Message, m: Moment) -> (e: Effect)
        requires
            old(self).wf(),
            old(self).accepts(message),
            App::in_todos(message),
        ensures
            final(self).wf(),
            App::todos_step(*old(self), message, m, *final(self), e),
    {
        match message {
            Message::ModalOpen(md) => self.modal_open(md, m),
            Message::ModalConfirm => self.modal_confirm(m),
            Message::ToggleTodo(id) => self.toggle_todo(id, m),
            Message::DeleteTodo(id) => Effect::DeleteTodo(id),
            _ => Effect::Nothing,
        }
    }

    #[verifier::spinoff_prover]
    fn step_schedules(&mut self, message: Message, m: Moment) -> (e: Effect)
        requires
            old(self).wf(),
            old(self).accepts(message),
            App::in_schedules(message),
        ensures
            final(self).wf(),
            App::schedules_step(*old(self), message, m, *final(self), e),
    {
        match message {
            Message::ScheduleCreateOpen => {
                self.schedule_tab.form.reset();
                self.schedule_tab.editing_id = None;
                self.schedule_tab.show_form = true;
                self.schedule_tab.form_error = None;
                self.modal = Some(Modal::NewSchedule);
                Effect::Nothing
            },
            Message::ScheduleCreateConfirm => {
                match self.schedule_tab.form.validate_as(m.fresh_id) {
                    Ok(schedule) => Effect::SaveSchedule { schedule, editing: false },
                    Err(msg) => {
                        self.schedule_tab.form_error = Some(msg);
                        Effect::Nothing
                    },
                }
            },
            Message::ScheduleEditOpen(id) => {
                match find_event(&self.schedule_tab.schedules, id) {
                    Some(k) => {
                        self.schedule_tab.form.load_from_schedule(&self.schedule_tab.schedules[k]);
                        self.schedule_tab.editing_id = Some(id);
                        self.schedule_tab.show_form = true;
                        self.schedule_tab.form_error = None;
                        self.modal = Some(Modal::NewSchedule);
                    },
                    None => {},
                }
                Effect::Nothing
            },
            Message::ScheduleEditConfirm => {
                match self.schedule_tab.form.validate_as(m.fresh_id) {
                    Ok(mut schedule) => {
                        match self.schedule_tab.editing_id {
                            Some(i) => {
                                schedule.id = i;
                            },
                            None => {},
                        }
                        Effect::SaveSchedule { schedule, editing: true }
                    },
                    Err(msg) => {
                        self.schedule_tab.form_error = Some(msg);
                        Effect::Nothing
                    },
                }
            },
            Message::ScheduleDelete(id) => Effect::DeleteSchedule(id),
            _ => Effect::Nothing,
        }
    }

    #[verifier::spinoff_prover]
    fn step_data(&mut self, message: Message, m: Moment) -> (e: Effect)
        requires
            old(self).wf(),
            old(self).accepts(message),
            App::in_data(message),
        ensures
            final(self).wf(),
            App::data_step(*old(self), message, m, *final(self), e),
    {
        match message {
            Message::SwitchTab(t) => {
                self.active_tab = t;
                Effect::Nothing
            },
            Message::DataLoaded(Ok(s)) => {
                self.data_loaded(s);
                Effect::Nothing
            },
            Message::DataLoaded(Err(er)) => {
                self.error_message = Some(er.message());
                Effect::Nothing
            },
            Message::PresetsLoaded(Ok(p)) => {
                self.preset_tab.presets = p;
                Effect::Nothing
            },
            Message::PresetsLoaded(Err(er)) => {
                self.error_message = Some(er.message());
                Effect::Nothing
            },
            _ => Effect::Nothing,
        }
    }

    #[verifier::spinoff_prover]
    fn step_fields(&mut self, message: Message, m: Moment) -> (e: Effect)
        requires
            old(self).wf(),
            old(self).accepts(message),
            App::in_fields(message),
        ensures
            final(self).wf(),
            App::fields_step(*old(self), message, m, *final(self), e),
    {
        match message {
            Message::CardSelected(v) => {
                self.category_tab.selected_path = Some(v);
                Effect::Nothing
            },
            Message::SearchChanged(v) => {
                self.review_tab.search_query = v;
                Effect::Nothing
            },
            Message::UrgencyFilterChanged(v) => {
                self.review_tab.urgency_filter = v;
                Effect::Nothing
            },
            Message::SearchFocusChanged(v) => {
                self.category_tab.search_focused = v;
                Effect::Nothing
            },
            Message::CreateTreeNameChanged(v) => {
                self.category_tab.new_tree_name = v;
                Effect::Nothing
            },
            Message::CreateTreeImportPathChanged(v) => {
                self.category_tab.new_tree_import_path = v;
                Effect::Nothing
            },
            Message::CreateTreeImportRulesPathChanged(v) => {
                self.category_tab.new_tree_import_rules_path = v;
                Effect::Nothing
            },
            Message::ReviewCardSelected(v) => {
                self.review_tab.selected_card = Some(v);
                Effect::Nothing
            },
            Message::TimerLinkModeClose => {
                self.timer_tab.link_mode = false;
                Effect::Nothing
            },
            Message::TimerMemoryQualityChanged(v) => {
                self.timer_tab.memory_quality = v;
                Effect::Nothing
            },
            Message::TimerHistoryShow => {
                self.timer_tab.show_history = true;
                Effect::Nothing
            },
            Message::TimerHistoryHide => {
                self.timer_tab.show_history = false;
                Effect::Nothing
            },
            Message::Error(v) => {
                self.error_message = Some(v);
                Effect::Nothing
            },
            Message::ClearError => {
                self.error_message = None;
                Effect::Nothing
            },
            Message::ModalClose => {
                self.modal = None;
                Effect::Nothing
            },
            Message::NewTodoContentChanged(v) => {
                self.todo_tab.form_content = v;
                Effect::Nothing
            },
            Message::NewTodoPriorityChanged(v) => {
                self.todo_tab.form_priority = v;
                Effect::Nothing
            },
            Message::NewTodoDueYearChanged(v) => {
                self.todo_tab.form_due_year = v;
                Effect::Nothing
            },
            Message::NewTodoDueMonthChanged(v) => {
                self.todo_tab.form_due_month = v;
                Effect::Nothing
            },
            Message::NewTodoDueDayChanged(v) => {
                self.todo_tab.form_due_day = v;
                Effect::Nothing
            },
            Message::NewTodoDueHourChanged(v) => {
                self.todo_tab.form_due_hour = v;
                Effect::Nothing
            },
            Message::NewTodoDueMinuteChanged(v) => {
                self.todo_tab.form_due_minute = v;
                Effect::Nothing
            },
            Message::NewTodoTagsChanged(v) => {
                self.todo_tab.form_tags = v;
                Effect::Nothing
            },
            Message::TodoSelected(v) => {
                self.todo_tab.selected_todo = Some(v);
                Effect::Nothing
            },
            Message::PresetFormNameChanged(v) => {
                self.preset_tab.form_name = v;
                Effect::Nothing
            },
            Message::PresetFormDescriptionChanged(v) => {
                self.preset_tab.form_description = v;
                Effect::Nothing
            },
            Message::PresetDeleteRequested(v) => {
                self.preset_tab.delete_target = Some(v);
                Effect::Nothing
            },
            Message::PresetDeleteDismissed => {
                self.preset_tab.delete_target = None;
                Effect::Nothing
            },
            Message::SettingsFormDataDirChanged(v) => {
                self.settings_tab.form_data_dir = v;
                Effect::Nothing
            },
            Message::SettingsFormDefaultPresetChanged(v) => {
                self.settings_tab.form_default_preset = v;
                Effect::Nothing
            },
            Message::TimerNewCardNameChanged(v) => {
                self.timer_tab.new_card_name = v;
                self.error_message = None;
                Effect::Nothing
            },
            Message::TimerNewCardPresetChanged(v) => {
                self.timer_tab.new_card_preset = v;
                self.error_message = None;
                Effect::Nothing
            },
            Message::TimerNewCardTypeChanged(v) => {
                self.timer_tab.new_card_type = v;
                self.error_message = None;
                Effect::Nothing
            },
            Message::TimerLinkModeOpen => {
                self.timer_tab.link_mode = true;
                self.error_message = None;
                Effect::Nothing
            },
            Message::ScheduleFormSummaryChanged(v) => {
                self.schedule_tab.form.summary = v;
                self.schedule_tab.form_error = None;
                Effect::Nothing
            },
            Message::ScheduleFormStartDateChanged(v) => {
                self.schedule_tab.form.start_date = v;
                self.schedule_tab.form_error = None;
                Effect::Nothing
            },
            Message::ScheduleFormStartTimeChanged(v) => {
                self.schedule_tab.form.start_time = v;
                self.schedule_tab.form_error = None;
                Effect::Nothing
            },
            Message::ScheduleFormEndDateChanged(v) => {
                self.schedule_tab.form.end_date = v;
                self.schedule_tab.form_error = None;
                Effect::Nothing
            },
            Message::ScheduleFormEndTimeChanged(v) => {
                self.schedule_tab.form.end_time = v;
                self.schedule_tab.form_error = None;
                Effect::Nothing
            },
            Message::ScheduleFormDescriptionChanged(v) => {
                self.schedule_tab.form.description = v;
                Effect::Nothing
            },
            Message::ScheduleFormLocationChanged(v) => {
                self.schedule_tab.form.location = v;
                Effect::Nothing
            },
            Message::ScheduleFormReminderChanged(v) => {
                self.schedule_tab.form.reminder = v;
                Effect::Nothing
            },
            Message::ScheduleFormRruleChanged(v) => {
                self.schedule_tab.form.rrule = v;
                Effect::Nothing
            },
            _ => Effect::Nothing,
        }
    }

    #[verifier::spinoff_prover]
    fn step_presets(&mut self, message: Message, m: Moment) -> (e: Effect)
        requires
            old(self).wf(),
            old(self).accepts(message),
            App::in_presets(message),
        ensures
            final(self).wf(),
            App::presets_step(*old(self), message, m, *final(self), e),
    {
        let ghost o = *self;
        let ghost msg = message;
        match message {
            Message::PresetCreateOpen => {
                self.preset_tab.reset_form();
                self.preset_tab.show_form = true;
                assert(App::presets_step(o, msg, m, *self, Effect::Nothing));
                Effect::Nothing
            },
            Message::PresetEditOpen(name) => {
                self.preset_tab.load_from_preset(name.as_str());
                self.preset_tab.show_form = true;
                assert(App::presets_step(o, msg, m, *self, Effect::Nothing));
                Effect::Nothing
            },
            Message::PresetFormDismissed => {
                self.preset_tab.show_form = false;
                self.preset_tab.reset_form();
                assert(App::presets_step(o, msg, m, *self, Effect::Nothing));
                Effect::Nothing
            },
            Message::PresetFormMatchRuleAdded => {
                let blank = String::new();
                assert(blank@ =~= Seq::<char>::empty());
                self.preset_tab.form_match_rules.push(blank);
                assert(self.preset_tab.form_match_rules@.drop_last() =~= o.preset_tab.form_match_rules@);
                Effect::Nothing
            },
            Message::PresetFormMatchRuleChanged(i, v) => {
                if i < self.preset_tab.form_match_rules.len() {
                    self.preset_tab.form_match_rules.set(i, v);
                }
                assert(App::presets_step(o, msg, m, *self, Effect::Nothing));
                Effect::Nothing
            },
            Message::PresetFormMatchRuleRemoved(i) => {
                if i < self.preset_tab.form_match_rules.len() {
                    self.preset_tab.form_match_rules.remove(i);
                }
                assert(App::presets_step(o, msg, m, *self, Effect::Nothing));
                Effect::Nothing
            },
            Message::PresetFormSaveRequested => {
                match self.preset_tab.validate() {
                    Ok(preset) => {
                        let old_name = clone_opt_string(&self.preset_tab.editing_name);
                        self.preset_tab.show_form = false;
                        self.preset_tab.reset_form();
                        Effect::SavePreset { old_name, preset }
                    },
                    Err(msg) => {
                        self.preset_tab.form_error = Some(msg);
                        Effect::Nothing
                    },
                }
            },
            Message::PresetDeleteConfirmed(name) => {
                self.preset_tab.delete_target = None;
                Effect::DeletePreset(name)
            },
            _ => Effect::Nothing,
        }
    }

    #[verifier::spinoff_prover]
    fn step_settings(&mut self, message: Message, m: Moment) -> (e: Effect)
        requires
            old(self).wf(),
            old(self).accepts(message),
            App::in_settings(message),
        ensures
            final(self).wf(),
            App::settings_step(*old(self), message, m, *final(self), e),
    {
        match message {
            Message::SettingsFormSaveRequested => {
                let data_dir = optional_text(&self.settings_tab.form_data_dir);
                let default_preset = optional_text(&self.settings_tab.form_default_preset);
                let theme = clone_opt_string(&self.settings_tab.config.theme);
                Effect::SaveSettings(Config { data_dir, default_preset, theme })
            },
            Message::SettingsFormDismissMessage => {
                self.settings_tab.dismiss_message();
                Effect::Nothing
            },
            Message::ThemeChanged(t) => {
                self.theme = t;
                self.settings_tab.config.theme = Some(owned(t.as_str()));
                Effect::SaveConfig(self.settings_tab.config.duplicate())
            },

            _ => Effect::Nothing,
        }
    }

    fn data_loaded(&mut self, s: DataSnapshot)
        requires
            old(self).wf(),
            s.trees@.len() == s.folders@.len(),
            items_in_range(s.todos@, s.schedules@),
        ensures
            final(self).wf(),
            App::data_step(*old(self), Message::DataLoaded(Ok(s)), Moment { now: 0, today: (0, 0, 0), fresh_id: 0 }, *final(self), Effect::Nothing),
    {
        let mut paths: Vec<String> = Vec::new();
        for i in 0..s.cards.len()
            invariant
                part_texts(paths@) == card_paths(s.cards@.take(i as int)),
        {
            let p = s.cards[i].0.clone();
            proof {
                assert(card_paths(s.cards@.take(i + 1)) =~= card_paths(s.cards@.take(i as int)).push(p@));
                assert(part_texts(paths@.push(p)) =~= part_texts(paths@).push(p@));
            }
            paths.push(p);
        }
        proof {
            assert(s.cards@.take(s.cards@.len() as int) =~= s.cards@);
        }
        let ghost folders = s.folders@;
        let nodes = build_tree_nodes(&s.trees, s.folders, &paths);
        self.category_tab.tree_view.expand_all(nodes.as_slice());
        self.category_tab.tree_nodes = nodes;
        self.review_tab.cards = s.cards;
        self.preset_tab.presets = s.presets;
        self.todo_tab.todos = s.todos;
        self.schedule_tab.schedules = s.schedules;
    }
}


/// A form field as an optional setting: absent when blank, else trimmed.
fn optional_text(s: &String) -> (r: Option<String>)
    ensures
        opt_text(r) == optional_input(s@),
{
    let t = trim_chars(&chars_of(s.as_str()));
    if t.len() == 0 {
        None
    } else {
        Some(string_of(&t))
    }
}

impl App {
    /// Takes the outcome of writing the settings `config`: on success they
    /// are the settings in force, a default preset among them becomes the
    /// default, and the message says whether the data directory changes
    /// only after a restart; on failure the message says why.
    pub fn settings_saved(&mut self, config: Config, result: Result<(), DataError>)
        ensures
            match result {
                Ok(_) => {
                    let dir = match config.data_dir {
                        Some(d) => d@,
                        None => Seq::<char>::empty(),
                    };
                    &&& *final(self) == (App {
                        default_preset: final(self).default_preset,
                        settings_tab: crate::app_state::SettingsTabState {
                            config,
                            message: final(self).settings_tab.message,
                            message_is_error: false,
                            ..old(self).settings_tab
                        },
                        ..*old(self)
                    })
                    &&& final(self).default_preset == (match config.default_preset {
                        Some(d) => d,
                        None => old(self).default_preset,
                    })
                    &&& final(self).settings_tab.message matches Some(msg) && msg@ == (if dir != old(self).data_dir@ {
                        "配置已保存，数据目录修改需重启生效"@
                    } else {
                        "配置已保存"@
                    })
                },
                Err(er) => {
                    &&& *final(self) == (App {
                        settings_tab: crate::app_state::SettingsTabState {
                            message: final(self).settings_tab.message,
                            message_is_error: true,
                            ..old(self).settings_tab
                        },
                        ..*old(self)
                    })
                    &&& final(self).settings_tab.message matches Some(msg) && msg@ == "保存失败: "@ + error_text(er)
                },
            },
    {
        match result {
            Ok(_) => {
                let ghost dir = match &config.data_dir {
                    Some(d) => d@,
                    None => Seq::<char>::empty(),
                };
                let changed = match &config.data_dir {
                    Some(d) => !str_eq(d.as_str(), self.data_dir.as_str()),
                    None => {
                        proof {
                            reveal_strlit("");
                        }
                        assert(""@ =~= Seq::<char>::empty());
                        !str_eq("", self.data_dir.as_str())
                    },
                };
                assert(changed == (dir != self.data_dir@));
                match &config.default_preset {
                    Some(d) => {
                        self.default_preset = d.clone();
                    },
                    None => {},
                }
                self.settings_tab.config = config;
                let msg = if changed { owned("配置已保存，数据目录修改需重启生效") } else { owned("配置已保存") };
                self.settings_tab.message = Some(msg);
                self.settings_tab.message_is_error = false;
            },
            Err(er) => {
                let mut msg = owned("保存失败: ");
                push_str(&mut msg, er.message().as_str());
                self.settings_tab.message = Some(msg);
                self.settings_tab.message_is_error = true;
            },
        }
    }
}


impl App {
    /// Takes the outcome of making a folder or card from the new-node form:
    /// on success the form closes and everything is read again.
    pub fn node_created(&mut self, result: Result<(), DataError>) -> (e: Effect)
        ensures
            match result {
                Ok(_) => *final(self) == (App {
                    modal: None,
                    category_tab: CategoryTabState { new_node_form: None, ..old(self).category_tab },
                    ..*old(self)
                }) && e is LoadData,
                Err(er) => error_set(*final(self), *old(self), er) && e is Nothing,
            },
    {
        match result {
            Ok(_) => {
                self.modal = None;
                self.category_tab.new_node_form = None;
                Effect::LoadData
            },
            Err(er) => {
                self.error_message = Some(er.message());
                Effect::Nothing
            },
        }
    }

    /// Takes the outcome of a delete: on success the dialog closes, nothing
    /// stays selected and everything is read again.
    pub fn node_deleted(&mut self, result: Result<(), DataError>) -> (e: Effect)
        ensures
            match result {
                Ok(_) => *final(self) == (App {
                    modal: None,
                    category_tab: CategoryTabState { selected_path: None, ..old(self).category_tab },
                    ..*old(self)
                }) && e is LoadData,
                Err(er) => error_set(*final(self), *old(self), er) && e is Nothing,
            },
    {
        match result {
            Ok(_) => {
                self.modal = None;
                self.category_tab.selected_path = None;
                Effect::LoadData
            },
            Err(er) => {
                self.error_message = Some(er.message());
                Effect::Nothing
            },
        }
    }
}


impl App {
    /// Takes the card read for editing: its form opens, or the error shows.
    pub fn card_opened(&mut self, path: String, result: Result<Card, DataError>)
        ensures
            match result {
                Ok(card) => {
                    &&& *final(self) == (App {
                        category_tab: CategoryTabState {
                            edit_card_form: final(self).category_tab.edit_card_form,
                            ..old(self).category_tab
                        },
                        modal: Some(Modal::EditCard { path }),
                        ..*old(self)
                    })
                    &&& final(self).category_tab.edit_card_form matches Some(f) && edit_form_for(f, path, card)
                },
                Err(er) => error_set(*final(self), *old(self), er),
            },
    {
        match result {
            Ok(card) => {
                let form = EditCardForm::new(path.clone(), &card);
                self.category_tab.edit_card_form = Some(form);
                self.modal = Some(Modal::EditCard { path });
            },
            Err(er) => {
                self.error_message = Some(er.message());
            },
        }
    }

    /// Takes the schedule computed for the card being edited: its due time
    /// and scheduler state; where none could be computed, due a day after
    /// `now`.
    pub fn card_predicted(&mut self, result: Option<(i64, Vec<u8>)>, now: i64)
        requires
            in_range(now),
        ensures
            match old(self).category_tab.edit_card_form {
                Some(f) => *final(self) == (App {
                    category_tab: CategoryTabState {
                        edit_card_form: Some(match result {
                            Some((t, b)) => EditCardForm { next_review: Some(t), fsrs_state_bytes: b, clear_prediction: false, ..f },
                            None => EditCardForm { next_review: Some((now + DAY_MICROS) as i64), ..f },
                        }),
                        ..old(self).category_tab
                    },
                    ..*old(self)
                }),
                None => *final(self) == *old(self),
            },
    {
        match self.category_tab.edit_card_form.take() {
            Some(mut f) => {
                match result {
                    Some((t, b)) => {
                        f.next_review = Some(t);
                        f.fsrs_state_bytes = b;
                        f.clear_prediction = false;
                    },
                    None => {
                        f.next_review = Some(now + DAY_MICROS);
                    },
                }
                self.category_tab.edit_card_form = Some(f);
            },
            None => {},
        }
    }

    /// Takes the outcome of saving the edited card: on success the form
    /// closes and everything is read again.
    pub fn card_saved(&mut self, result: Result<(), DataError>) -> (e: Effect)
        ensures
            match result {
                Ok(_) => *final(self) == (App {
                    modal: None,
                    category_tab: CategoryTabState { edit_card_form: None, ..old(self).category_tab },
                    ..*old(self)
                }) && e is LoadData,
                Err(er) => error_set(*final(self), *old(self), er) && e is Nothing,
            },
    {
        match result {
            Ok(_) => {
                self.modal = None;
                self.category_tab.edit_card_form = None;
                Effect::LoadData
            },
            Err(er) => {
                self.error_message = Some(er.message());
                Effect::Nothing
            },
        }
    }
}


/// The card a finished run is linked to: the typed path, else the card
/// picked from the list, else none.
pub open spec fn link_path(t: TimerTabState) -> Seq<char> {
    if t.card_path_input@.len() > 0 {
        t.card_path_input@
    } else {
        match t.selected_card {
            Some(c) => c@,
            None => Seq::empty(),
        }
    }
}

/// Where the timer tab puts a new node named `name`, given the path typed:
/// at the top without a path; beside the card when the path is a card's;
/// else inside the path.
pub open spec fn new_node_target(nodes: Seq<TreeNode>, input: Seq<char>, name: Seq<char>) -> Seq<char> {
    if input.len() == 0 {
        name
    } else if card_at(nodes, input) {
        match parent_part(input) {
            Some(pp) => if pp.len() == 0 { name } else { pp + "/"@ + name },
            None => name,
        }
    } else {
        input + "/"@ + name
    }
}

impl App {
    #[verifier::spinoff_prover]
    fn link_confirm(&mut self, m: Moment) -> (e: Effect)
        requires
            old(self).wf(),
        ensures
            final(self).wf(),
            App::timer_step(*old(self), Message::TimerLinkConfirm, m, *final(self), e),
    {
        let card_path = if !self.timer_tab.card_path_input.as_str().is_empty() {
            self.timer_tab.card_path_input.clone()
        } else {
            match &self.timer_tab.selected_card {
                Some(c) => c.clone(),
                None => String::new(),
            }
        };
        if card_path.as_str().is_empty() {
            return Effect::Nothing;
        }
        let record = ReviewRecord {
            timestamp: m.now,
            duration_ms: self.timer_tab.elapsed_ms,
            memory_quality: self.timer_tab.memory_quality,
        };
        let preset = self.default_preset.clone();
        self.timer_tab.link_mode = false;
        self.timer_tab.elapsed_ms = 0;
        Effect::LinkReview { card_path, record, preset }
    }

    #[verifier::spinoff_prover]
    fn new_card_confirm(&mut self, m: Moment) -> (e: Effect)
        requires
            old(self).wf(),
        ensures
            final(self).wf(),
            App::timer_step(*old(self), Message::TimerNewCardConfirm, m, *final(self), e),
    {
        if self.timer_tab.new_card_name.as_str().is_empty() {
            return Effect::Nothing;
        }
        let input = forward_slashes(self.timer_tab.card_path_input.as_str());
        let name = self.timer_tab.new_card_name.clone();
        let path = if input.as_str().is_empty() {
            name
        } else if is_card_path(&self.category_tab.tree_nodes, input.as_str()) {
            match parent_of(input.as_str()) {
                Some(pp) => {
                    if pp.as_str().is_empty() {
                        name
                    } else {
                        let mut t = pp;
                        push_str(&mut t, "/");
                        push_str(&mut t, name.as_str());
                        t
                    }
                },
                None => name,
            }
        } else {
            let mut t = input;
            push_str(&mut t, "/");
            push_str(&mut t, name.as_str());
            t
        };
        Effect::CreateTimerNode {
            path,
            node_type: self.timer_tab.new_card_type,
            preset: self.timer_tab.new_card_preset.clone(),
        }
    }

    /// Takes the timer's state after a start, pause or stop.
    pub fn timer_changed(&mut self, state: TimerState)
        ensures
            *final(self) == (App { timer_tab: TimerTabState { state, ..old(self).timer_tab }, ..*old(self) }),
    {
        self.timer_tab.state = state;
    }

    /// Takes the outcome of making a node from the timer tab: on success the
    /// name field empties and the trees are read again.
    pub fn timer_node_created(&mut self, result: Result<(), DataError>) -> (e: Effect)
        ensures
            match result {
                Ok(_) => {
                    &&& *final(self) == (App {
                        timer_tab: TimerTabState { new_card_name: final(self).timer_tab.new_card_name, ..old(self).timer_tab },
                        ..*old(self)
                    })
                    &&& final(self).timer_tab.new_card_name@.len() == 0
                    &&& e is LoadTrees
                },
                Err(er) => error_set(*final(self), *old(self), er) && e is Nothing,
            },
    {
        match result {
            Ok(_) => {
                self.timer_tab.new_card_name = String::new();
                Effect::LoadTrees
            },
            Err(er) => {
                self.error_message = Some(er.message());
                Effect::Nothing
            },
        }
    }

    /// Takes the trees read again: the tree nodes are built from them and
    /// every folder shows expanded.
    pub fn trees_loaded(&mut self, trees: Vec<String>, folders: Vec<Vec<TreeNode>>, cards: Vec<String>)
        requires
            old(self).wf(),
            trees@.len() == folders@.len(),
        ensures
            final(self).wf(),
            *final(self) == (App {
                category_tab: CategoryTabState {
                    tree_nodes: final(self).category_tab.tree_nodes,
                    tree_view: final(self).category_tab.tree_view,
                    ..old(self).category_tab
                },
                ..*old(self)
            }),
            final(self).category_tab.tree_nodes@.len() == trees@.len(),
            forall|i: int| 0 <= i < trees@.len() ==> model(#[trigger] final(self).category_tab.tree_nodes@[i]) == tree_of(
                trees@[i]@,
                folders@[i]@,
                part_texts(cards@),
            ),
            final(self).category_tab.tree_view@ == old(self).category_tab.tree_view@.union_prefer_right(
                Map::new(|k: Seq<char>| folder_paths(final(self).category_tab.tree_nodes@).contains(k), |k: Seq<char>| true),
            ),
    {
        let nodes = build_tree_nodes(&trees, folders, &cards);
        self.category_tab.tree_view.expand_all(nodes.as_slice());
        self.category_tab.tree_nodes = nodes;
    }
}


/// The index of the first item with this id.
pub open spec fn first_todo(todos: Seq<Todo>, id: u128) -> Option<int>
    decreases todos.len(),
{
    if todos.len() == 0 {
        None
    } else if todos.last().id == id && first_todo(todos.drop_last(), id) is None {
        Some(todos.len() - 1)
    } else {
        first_todo(todos.drop_last(), id)
    }
}

fn find_todo(todos: &Vec<Todo>, id: u128) -> (r: Option<usize>)
    ensures
        match (r, first_todo(todos@, id)) {
            (Some(i), Some(k)) => i as int == k && 0 <= k < todos@.len(),
            (None, None) => true,
            _ => false,
        },
{
    let n = todos.len();
    for i in 0..n
        invariant
            n == todos@.len(),
            first_todo(todos@.take(i as int), id) is None,
    {
        proof {
            assert(todos@.take(i + 1).drop_last() =~= todos@.take(i as int));
            assert(todos@.take(i + 1).last() == todos@[i as int]);
        }
        if todos[i].id == id {
            proof {
                lemma_first_todo_prefix(todos@, i + 1, id);
            }
            return Some(i);
        }
    }
    proof {
        assert(todos@.take(n as int) =~= todos@);
    }
    None
}

proof fn lemma_first_todo_prefix(s: Seq<Todo>, k: int, id: u128)
    requires
        0 < k <= s.len(),
        first_todo(s.take(k), id) matches Some(j) && j == k - 1,
    ensures
        first_todo(s, id) == Some(k - 1),
    decreases s.len(),
{
    if k < s.len() {
        assert(s.drop_last().take(k) =~= s.take(k));
        lemma_first_todo_prefix(s.drop_last(), k, id);
    } else {
        assert(s.take(k) =~= s);
    }
}

/// The due date the to-do form gives: the five fields, trimmed, read as
/// `year-month-day hour:minute` in UTC when none is blank; else none.
pub open spec fn todo_due(t: TodoTabState) -> Option<i64> {
    let y = trim_ws(t.form_due_year@);
    let mo = trim_ws(t.form_due_month@);
    let d = trim_ws(t.form_due_day@);
    let h = trim_ws(t.form_due_hour@);
    let mi = trim_ws(t.form_due_minute@);
    if y.len() > 0 && mo.len() > 0 && d.len() > 0 && h.len() > 0 && mi.len() > 0 {
        day_minute_parsed(y + "-"@ + mo + "-"@ + d + " "@ + h + ":"@ + mi)
    } else {
        None
    }
}

/// An item as the form edits it: trimmed content, the form's priority,
/// due date and words as tags.
pub open spec fn edited_todo(v: TodoView, t: TodoTabState) -> TodoView {
    TodoView {
        content: trim_ws(t.form_content@),
        priority: t.form_priority,
        due_date: todo_due(t),
        tags: words(t.form_tags@),
        ..v
    }
}

/// An item ticked or unticked at `now`: done items carry when they were
/// done.
pub open spec fn toggled_todo(v: TodoView, now: i64) -> TodoView {
    TodoView { completed: !v.completed, completed_at: if !v.completed { Some(now) } else { None }, ..v }
}

fn trimmed_string(s: &String) -> (r: String)
    ensures
        r@ == trim_ws(s@),
{
    string_of(&trim_chars(&chars_of(s.as_str())))
}

impl App {
    #[verifier::spinoff_prover]
    fn due_from_form(&self) -> (r: Option<i64>)
        ensures
            r == todo_due(self.todo_tab),
            r matches Some(t) ==> in_range(t),
    {
        let y = trimmed_string(&self.todo_tab.form_due_year);
        let mo = trimmed_string(&self.todo_tab.form_due_month);
        let d = trimmed_string(&self.todo_tab.form_due_day);
        let h = trimmed_string(&self.todo_tab.form_due_hour);
        let mi = trimmed_string(&self.todo_tab.form_due_minute);
        if y.as_str().is_empty() || mo.as_str().is_empty() || d.as_str().is_empty() || h.as_str().is_empty()
            || mi.as_str().is_empty() {
            return None;
        }
        let mut text = y;
        push_str(&mut text, "-");
        push_str(&mut text, mo.as_str());
        push_str(&mut text, "-");
        push_str(&mut text, d.as_str());
        push_str(&mut text, " ");
        push_str(&mut text, h.as_str());
        push_str(&mut text, ":");
        push_str(&mut text, mi.as_str());
        parse_day_minute(text.as_str())
    }

    fn form_tags(&self) -> (r: Vec<String>)
        ensures
            all_texts(r@) == words(self.todo_tab.form_tags@),
    {
        let w = split_words(self.todo_tab.form_tags.as_str());
        proof {
            assert(all_texts(w@) =~= words(self.todo_tab.form_tags@));
        }
        w
    }

    #[verifier::spinoff_prover]
    fn modal_open(&mut self, md: Modal, m: Moment) -> (e: Effect)
        requires
            old(self).wf(),
        ensures
            final(self).wf(),
            App::todos_step(*old(self), Message::ModalOpen(md), m, *final(self), e),
    {
        match &md {
            Modal::NewTodo => {
                self.todo_tab.set_default_due_date_on(m.today.0, m.today.1, m.today.2);
            },
            Modal::EditTodo { id } => {
                match find_todo(&self.todo_tab.todos, *id) {
                    Some(k) => {
                        let t = self.todo_tab.todos[k].duplicate();
                        proof {
                            assert(t.due_date == self.todo_tab.todos@[k as int].due_date);
                        }
                        self.todo_tab.load_todo_for_edit_on(&t, m.today);
                        proof {
                            assert(t@ == old(self).todo_tab.todos@[k as int]@);
                        }
                    },
                    None => {},
                }
            },
            Modal::CreateTree => {
                self.category_tab.new_tree_name = String::new();
                self.category_tab.new_tree_import_path = String::new();
                self.category_tab.new_tree_import_rules_path = String::new();
            },
            _ => {},
        }
        self.modal = Some(md);
        Effect::Nothing
    }

    #[verifier::spinoff_prover]
    fn modal_confirm(&mut self, m: Moment) -> (e: Effect)
        requires
            old(self).wf(),
        ensures
            final(self).wf(),
            App::todos_step(*old(self), Message::ModalConfirm, m, *final(self), e),
    {
        let (is_todo, edit_id, is_tree) = match &self.modal {
            Some(Modal::NewTodo) => (true, None, false),
            Some(Modal::EditTodo { id }) => (true, Some(*id), false),
            Some(Modal::CreateTree) => (false, None, true),
            _ => (false, None, false),
        };
        if is_todo {
            let content = trimmed_string(&self.todo_tab.form_content);
            if content.as_str().is_empty() {
                return Effect::Nothing;
            }
            let due = self.due_from_form();
            let tags = self.form_tags();
            match edit_id {
                Some(id) => {
                    match find_todo(&self.todo_tab.todos, id) {
                        Some(k) => {
                            let mut t = self.todo_tab.todos[k].duplicate();
                            t.content = content;
                            t.priority = self.todo_tab.form_priority;
                            t.due_date = due;
                            t.tags = tags;
                            let copy = t.duplicate();
                            self.todo_tab.todos.set(k, t);
                            Effect::SaveTodo { todo: copy, editing: true }
                        },
                        None => Effect::Nothing,
                    }
                },
                None => {
                    let mut t = Todo::new_at(content, m.fresh_id, m.now);
                    t.priority = self.todo_tab.form_priority;
                    t.due_date = due;
                    t.tags = tags;
                    Effect::SaveTodo { todo: t, editing: false }
                },
            }
        } else if is_tree {
            let name = trimmed_string(&self.category_tab.new_tree_name);
            if name.as_str().is_empty() {
                return Effect::Nothing;
            }
            let import_path = trimmed_string(&self.category_tab.new_tree_import_path);
            let rules_path = self.category_tab.new_tree_import_rules_path.clone();
            Effect::CreateTree { name, import_path, rules_path }
        } else {
            Effect::Nothing
        }
    }

    #[verifier::spinoff_prover]
    fn toggle_todo(&mut self, id: u128, m: Moment) -> (e: Effect)
        requires
            old(self).wf(),
        ensures
            final(self).wf(),
            App::todos_step(*old(self), Message::ToggleTodo(id), m, *final(self), e),
    {
        match find_todo(&self.todo_tab.todos, id) {
            Some(k) => {
                let mut t = self.todo_tab.todos[k].duplicate();
                t.completed = !t.completed;
                t.completed_at = if t.completed { Some(m.now) } else { None };
                let copy = t.duplicate();
                self.todo_tab.todos.set(k, t);
                Effect::SaveToggledTodo(copy)
            },
            None => Effect::Nothing,
        }
    }

    /// Takes the outcome of saving an item from the form: on success a new
    /// item joins the list, the dialog closes, editing ends and the form
    /// empties.
    pub fn todo_saved(&mut self, todo: Todo, editing: bool, result: Result<(), DataError>)
        requires
            old(self).wf(),
            todo.due_date matches Some(t) ==> in_range(t),
        ensures
            final(self).wf(),
            match result {
                Ok(_) => {
                    &&& final(self).modal is None
                    &&& final(self).todo_tab.todos@ == (if editing {
                        old(self).todo_tab.todos@
                    } else {
                        old(self).todo_tab.todos@.push(todo)
                    })
                    &&& final(self).todo_tab.editing_todo_id == (if editing {
                        None
                    } else {
                        old(self).todo_tab.editing_todo_id
                    })
                    &&& final(self).todo_tab.selected_todo == old(self).todo_tab.selected_todo
                    &&& final(self).todo_tab.form_content@.len() == 0
                    &&& final(self).todo_tab.form_priority is None
                    &&& final(self).todo_tab.form_due_year@.len() == 0
                    &&& final(self).todo_tab.form_due_month@.len() == 0
                    &&& final(self).todo_tab.form_due_day@.len() == 0
                    &&& final(self).todo_tab.form_due_hour@.len() == 0
                    &&& final(self).todo_tab.form_due_minute@.len() == 0
                    &&& final(self).todo_tab.form_tags@.len() == 0
                    &&& *final(self) == (App { modal: None, todo_tab: final(self).todo_tab, ..*old(self) })
                },
                Err(er) => error_set(*final(self), *old(self), er),
            },
    {
        match result {
            Ok(_) => {
                if editing {
                    self.todo_tab.editing_todo_id = None;
                } else {
                    self.todo_tab.todos.push(todo);
                }
                self.modal = None;
                self.todo_tab.form_content = String::new();
                self.todo_tab.form_priority = None;
                self.todo_tab.form_due_year = String::new();
                self.todo_tab.form_due_month = String::new();
                self.todo_tab.form_due_day = String::new();
                self.todo_tab.form_due_hour = String::new();
                self.todo_tab.form_due_minute = String::new();
                self.todo_tab.form_tags = String::new();
            },
            Err(er) => {
                self.error_message = Some(er.message());
            },
        }
    }

    /// Takes the outcome of saving a ticked item: a failure shows.
    pub fn toggle_saved(&mut self, result: Result<(), DataError>)
        ensures
            match result {
                Ok(_) => *final(self) == *old(self),
                Err(er) => error_set(*final(self), *old(self), er),
            },
    {
        match result {
            Ok(_) => {},
            Err(er) => {
                self.error_message = Some(er.message());
            },
        }
    }

    /// Takes the outcome of deleting the item `id`: on success it leaves
    /// the list.
    pub fn todo_deleted(&mut self, id: u128, result: Result<(), DataError>)
        requires
            old(self).wf(),
        ensures
            final(self).wf(),
            match result {
                Ok(_) => *final(self) == (App {
                    todo_tab: TodoTabState { todos: final(self).todo_tab.todos, ..old(self).todo_tab },
                    ..*old(self)
                }) && final(self).todo_tab.todos@ == old(self).todo_tab.todos@.filter(|t: Todo| t.id != id),
                Err(er) => error_set(*final(self), *old(self), er),
            },
    {
        match result {
            Ok(_) => {
                let mut kept: Vec<Todo> = Vec::new();
                let mut rest: Vec<Todo> = Vec::new();
                std::mem::swap(&mut rest, &mut self.todo_tab.todos);
                let ghost src = rest@;
                let n = rest.len();
                let mut i: usize = 0;
                proof {
                    assert(src.skip(0) =~= src);
                }
                while i < n
                    invariant
                        n == src.len(),
                        i <= n,
                        rest@ == src.skip(i as int),
                        kept@ == src.take(i as int).filter(|t: Todo| t.id != id),
                        forall|j: int| 0 <= j < src.len() ==> ((#[trigger] src[j]).due_date matches Some(t) ==> in_range(t)),
                        forall|j: int| 0 <= j < kept@.len() ==> ((#[trigger] kept@[j]).due_date matches Some(t) ==> in_range(t)),
                    decreases n - i,
                {
                    proof {
                        src.take(i as int).lemma_filter_push(src[i as int], |t: Todo| t.id != id);
                        assert(src.take(i + 1) =~= src.take(i as int).push(src[i as int]));
                        assert(src.skip(i as int)[0] == src[i as int]);
                    }
                    let t = rest.remove(0);
                    proof {
                        assert(rest@ =~= src.skip(i + 1));
                        assert(t == src[i as int]);
                    }
                    if t.id != id {
                        kept.push(t);
                    }
                    i = i + 1;
                }
                proof {
                    assert(src.take(n as int) =~= src);
                }
                self.todo_tab.todos = kept;
            },
            Err(er) => {
                self.error_message = Some(er.message());
            },
        }
    }
}


/// What checking the event form gives with id `id`, its start and end read
/// by chrono.
pub open spec fn event_outcome(f: ScheduleForm, id: u128) -> Result<ScheduleView, Seq<char>> {
    form_outcome(
        f,
        id,
        form_instant_parsed(instant_input(f.start_date@, f.start_time@)),
        form_instant_parsed(instant_input(f.end_date@, f.end_time@)),
    )
}

/// The index of the first event with this id.
pub open spec fn first_event(s: Seq<Schedule>, id: u128) -> Option<int>
    decreases s.len(),
{
    if s.len() == 0 {
        None
    } else if s.last().id == id && first_event(s.drop_last(), id) is None {
        Some(s.len() - 1)
    } else {
        first_event(s.drop_last(), id)
    }
}

proof fn lemma_first_event_prefix(s: Seq<Schedule>, k: int, id: u128)
    requires
        0 < k <= s.len(),
        first_event(s.take(k), id) matches Some(j) && j == k - 1,
    ensures
        first_event(s, id) == Some(k - 1),
    decreases s.len(),
{
    if k < s.len() {
        assert(s.drop_last().take(k) =~= s.take(k));
        lemma_first_event_prefix(s.drop_last(), k, id);
    } else {
        assert(s.take(k) =~= s);
    }
}

fn find_event(s: &Vec<Schedule>, id: u128) -> (r: Option<usize>)
    ensures
        match (r, first_event(s@, id)) {
            (Some(i), Some(k)) => i as int == k && 0 <= k < s@.len(),
            (None, None) => true,
            _ => false,
        },
{
    let n = s.len();
    for i in 0..n
        invariant
            n == s@.len(),
            first_event(s@.take(i as int), id) is None,
    {
        proof {
            assert(s@.take(i + 1).drop_last() =~= s@.take(i as int));
            assert(s@.take(i + 1).last() == s@[i as int]);
        }
        if s[i].id == id {
            proof {
                lemma_first_event_prefix(s@, i + 1, id);
            }
            return Some(i);
        }
    }
    proof {
        assert(s@.take(n as int) =~= s@);
    }
    None
}

/// How an import into a new tree went.
pub enum ImportOutcome {
    /// No import path was given.
    NotAsked,
    /// The import path does not exist.
    MissingPath,
    Failed(DataError),
    Done(ImportResult),
}

/// How making a tree went, with the trees and their folders as read
/// afterwards.
pub enum TreeCreation {
    Failed(DataError),
    Created { import: ImportOutcome, trees: Vec<String>, folders: Vec<Vec<TreeNode>> },
}

/// The message an import shows when it is done.
pub open spec fn import_done_text(created: int, skipped: int) -> Seq<char> {
    "导入完成: 创建 "@ + decimal(created) + " 个目录, 跳过 "@ + decimal(skipped) + " 个路径"@
}

impl App {
    /// Takes the outcome of saving the event form: on success the form and
    /// dialog close, editing ends, and the events are those listed now; on
    /// failure the form shows why.
    pub fn schedule_saved(&mut self, editing: bool, result: Result<(), DataError>, schedules: Vec<Schedule>)
        requires
            old(self).wf(),
            items_in_range(Seq::empty(), schedules@),
        ensures
            final(self).wf(),
            match result {
                Ok(_) => *final(self) == (App {
                    schedule_tab: ScheduleTabState {
                        show_form: false,
                        editing_id: if editing { None } else { old(self).schedule_tab.editing_id },
                        schedules,
                        ..old(self).schedule_tab
                    },
                    modal: None,
                    ..*old(self)
                }),
                Err(er) => {
                    &&& *final(self) == (App {
                        schedule_tab: ScheduleTabState { form_error: final(self).schedule_tab.form_error, ..old(self).schedule_tab },
                        ..*old(self)
                    })
                    &&& final(self).schedule_tab.form_error matches Some(x) && x@ == error_text(er)
                },
            },
    {
        match result {
            Ok(_) => {
                self.schedule_tab.show_form = false;
                self.modal = None;
                if editing {
                    self.schedule_tab.editing_id = None;
                }
                self.schedule_tab.schedules = schedules;
            },
            Err(er) => {
                self.schedule_tab.form_error = Some(er.message());
            },
        }
    }

    /// Takes the outcome of deleting the event `id`: on success it leaves
    /// the list.
    pub fn schedule_deleted(&mut self, id: u128, result: Result<(), DataError>)
        requires
            old(self).wf(),
        ensures
            final(self).wf(),
            match result {
                Ok(_) => *final(self) == (App {
                    schedule_tab: ScheduleTabState { schedules: final(self).schedule_tab.schedules, ..old(self).schedule_tab },
                    ..*old(self)
                }) && final(self).schedule_tab.schedules@ == old(self).schedule_tab.schedules@.filter(|s: Schedule| s.id != id),
                Err(er) => error_set(*final(self), *old(self), er),
            },
    {
        match result {
            Ok(_) => {
                let mut kept: Vec<Schedule> = Vec::new();
                let mut rest: Vec<Schedule> = Vec::new();
                std::mem::swap(&mut rest, &mut self.schedule_tab.schedules);
                let ghost src = rest@;
                let n = rest.len();
                let mut i: usize = 0;
                proof {
                    assert(src.skip(0) =~= src);
                }
                while i < n
                    invariant
                        n == src.len(),
                        i <= n,
                        rest@ == src.skip(i as int),
                        kept@ == src.take(i as int).filter(|s: Schedule| s.id != id),
                        forall|j: int| 0 <= j < src.len() ==> in_range((#[trigger] src[j]).dtstart) && in_range(src[j].dtend),
                        forall|j: int| 0 <= j < kept@.len() ==> in_range((#[trigger] kept@[j]).dtstart) && in_range(kept@[j].dtend),
                    decreases n - i,
                {
                    proof {
                        src.take(i as int).lemma_filter_push(src[i as int], |s: Schedule| s.id != id);
                        assert(src.take(i + 1) =~= src.take(i as int).push(src[i as int]));
                        assert(src.skip(i as int)[0] == src[i as int]);
                    }
                    let t = rest.remove(0);
                    proof {
                        assert(rest@ =~= src.skip(i + 1));
                        assert(t == src[i as int]);
                    }
                    if t.id != id {
                        kept.push(t);
                    }
                    i = i + 1;
                }
                proof {
                    assert(src.take(n as int) =~= src);
                }
                self.schedule_tab.schedules = kept;
            },
            Err(er) => {
                self.error_message = Some(er.message());
            },
        }
    }

    /// Takes the outcome of making a tree: a failure shows; else the form
    /// empties, the trees are built again from what was read, and the
    /// import's outcome shows as an error or in a closing message.
    pub fn tree_created(&mut self, outcome: TreeCreation)
        requires
            old(self).wf(),
            outcome matches TreeCreation::Created { trees, folders, .. } ==> trees@.len() == folders@.len(),
        ensures
            final(self).wf(),
            match outcome {
                TreeCreation::Failed(er) => error_set(*final(self), *old(self), er),
                TreeCreation::Created { import, trees, folders } => {
                    let ct = final(self).category_tab;
                    &&& *final(self) == (App {
                        category_tab: CategoryTabState {
                            new_tree_name: ct.new_tree_name,
                            new_tree_import_path: ct.new_tree_import_path,
                            new_tree_import_rules_path: ct.new_tree_import_rules_path,
                            tree_nodes: ct.tree_nodes,
                            tree_view: ct.tree_view,
                            ..old(self).category_tab
                        },
                        error_message: final(self).error_message,
                        modal: final(self).modal,
                        ..*old(self)
                    })
                    &&& ct.new_tree_name@.len() == 0
                    &&& ct.new_tree_import_path@.len() == 0
                    &&& ct.new_tree_import_rules_path@.len() == 0
                    &&& ct.tree_nodes@.len() == trees@.len()
                    &&& forall|i: int| 0 <= i < trees@.len() ==> model(#[trigger] ct.tree_nodes@[i]) == tree_of(
                        trees@[i]@,
                        folders@[i]@,
                        card_paths(old(self).review_tab.cards@),
                    )
                    &&& ct.tree_view@ == old(self).category_tab.tree_view@.union_prefer_right(
                        Map::new(|k: Seq<char>| folder_paths(ct.tree_nodes@).contains(k), |k: Seq<char>| true),
                    )
                    &&& match import {
                        ImportOutcome::MissingPath => final(self).error_message matches Some(x) && x@ == "导入路径不存在"@,
                        ImportOutcome::Failed(er) => final(self).error_message matches Some(x) && x@ == "导入失败: "@
                            + error_text(er),
                        _ => final(self).error_message == old(self).error_message,
                    }
                    &&& match import {
                        ImportOutcome::Done(res) => final(self).modal matches Some(Modal::Info { message }) && message@
                            == import_done_text(res.created_dirs@.len() as int, res.skipped_paths@.len() as int),
                        _ => final(self).modal is None,
                    }
                },
            },
    {
        match outcome {
            TreeCreation::Failed(er) => {
                self.error_message = Some(er.message());
            },
            TreeCreation::Created { import, trees, folders } => {
                match &import {
                    ImportOutcome::MissingPath => {
                        self.error_message = Some(owned("导入路径不存在"));
                    },
                    ImportOutcome::Failed(er) => {
                        let mut msg = owned("导入失败: ");
                        push_str(&mut msg, er.message().as_str());
                        self.error_message = Some(msg);
                    },
                    _ => {},
                }
                self.category_tab.new_tree_name = String::new();
                self.category_tab.new_tree_import_path = String::new();
                self.category_tab.new_tree_import_rules_path = String::new();
                let mut paths: Vec<String> = Vec::new();
                for i in 0..self.review_tab.cards.len()
                    invariant
                        part_texts(paths@) == card_paths(self.review_tab.cards@.take(i as int)),
                {
                    let p = self.review_tab.cards[i].0.clone();
                    proof {
                        assert(card_paths(self.review_tab.cards@.take(i + 1)) =~= card_paths(self.review_tab.cards@.take(i as int)).push(p@));
                        assert(part_texts(paths@.push(p)) =~= part_texts(paths@).push(p@));
                    }
                    paths.push(p);
                }
                proof {
                    assert(self.review_tab.cards@.take(self.review_tab.cards@.len() as int) =~= self.review_tab.cards@);
                }
                let nodes = build_tree_nodes(&trees, folders, &paths);
                self.category_tab.tree_view.expand_all(nodes.as_slice());
                self.category_tab.tree_nodes = nodes;
                match import {
                    ImportOutcome::Done(res) => {
                        let mut msg = owned("导入完成: 创建 ");
                        push_digits(&mut msg, res.created_dirs.len() as u64);
                        push_str(&mut msg, " 个目录, 跳过 ");
                        push_digits(&mut msg, res.skipped_paths.len() as u64);
                        push_str(&mut msg, " 个路径");
                        self.modal = Some(Modal::Info { message: msg });
                    },
                    _ => {
                        self.modal = None;
                    },
                }
            },
        }
    }
}


impl App {
    /// The interface as it opens: the configured data directory, else
    /// `default_dir`; the configured default preset, else `default`; the
    /// configured theme, else the default one; the first tab; empty tabs
    /// around the timer's saved state; the settings filled from the
    /// configuration.
    pub fn new(
        default_dir: String,
        config: Config,
        config_dir: std::path::PathBuf,
        config_path: std::path::PathBuf,
        timer_state: TimerState,
    ) -> (r: App)
        ensures
            r.wf(),
            r.data_dir@ == (match config.data_dir {
                Some(d) => d@,
                None => default_dir@,
            }),
            r.default_preset@ == (match config.default_preset {
                Some(p) => p@,
                None => "default"@,
            }),
            r.theme == (match config.theme {
                Some(t) => if t@ == "light"@ {
                    AppTheme::Light
                } else if t@ == "dark"@ {
                    AppTheme::Dark
                } else {
                    AppTheme::Transparent
                },
                None => AppTheme::Transparent,
            }),
            r.active_tab == TabId::Category,
            r.timer_tab.state == timer_state,
            r.settings_tab.config == config,
            r.settings_tab.form_data_dir@ == r.data_dir@,
            r.category_tab.tree_nodes@.len() == 0,
            r.review_tab.cards@.len() == 0,
            r.todo_tab.todos@.len() == 0,
            r.preset_tab.presets@.len() == 0,
            r.schedule_tab.schedules@.len() == 0,
            r.error_message is None,
            r.modal is None,
    {
        let data_dir = match &config.data_dir {
            Some(d) => d.clone(),
            None => default_dir,
        };
        let default_preset = match &config.default_preset {
            Some(p) => p.clone(),
            None => owned("default"),
        };
        let theme = match &config.theme {
            Some(t) => AppTheme::from_str(t.as_str()),
            None => AppTheme::default(),
        };
        let settings_tab = crate::app_state::SettingsTabState::new(config_dir, config_path, config, data_dir.as_str());
        App {
            default_preset,
            theme,
            active_tab: TabId::Category,
            data_dir,
            category_tab: CategoryTabState::new(),
            review_tab: ReviewTabState::new(),
            timer_tab: TimerTabState::new(timer_state),
            schedule_tab: ScheduleTabState::default(),
            todo_tab: TodoTabState::new(),
            preset_tab: PresetTabState::new(),
            settings_tab,
            error_message: None,
            modal: None,
        }
    }
}

} // verus!
