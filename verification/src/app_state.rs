//! The state the interface keeps between events: screens, dialogs, forms.
use vstd::prelude::*;
use crate::data::config::Config;
use crate::data::models::{CategoryInsert, Difficulty, NodeType, Preset, Quality, SessionParams};
use crate::gui::messages::NodeType as TreeNodeType;
use crate::learning::category_tree::{CategoryForest, CategoryNode, any_node, collect_seq, first_with_id, first_with_path};
use crate::learning::import::{parent_of, parent_part};
use crate::learning::params::{apply_preset, resolve_params};
use crate::learning::timer_machine::{lemma_wf_bounds, TimerState, TimerStateMachine, secs_between};
use crate::learning::vault::VaultEntry;
use crate::text::{chars_of, owned, push_str, string_of, trim_chars, trim_ws};

verus! {

pub enum Screen {
    CategoryTree,
    ReviewDashboard,
}

pub enum Dialog {
    NewCategory { parent_id: Option<i64>, name: String, node_type: NodeType },
    ObsidianImport { path: String },
    Search { query: String },
    ConfirmDeleteCategory { id: i64, name: String },
}

/// A finished session waiting for the user to confirm its parameters.
pub struct PendingSession {
    pub category_id: i64,
    pub category_path: String,
    pub duration_secs: i64,
    pub params: SessionParams,
}

/// One hit of a tree search.
pub struct SearchResult {
    pub path: String,
    pub name: String,
    pub is_card: bool,
}

/// The form for a new folder or card below `parent_path`.
pub struct NewNodeForm {
    pub parent_path: String,
    pub node_type: TreeNodeType,
    pub name: String,
    pub preset: String,
}

impl NewNodeForm {
    /// An empty form with the given kind and preset chosen.
    pub fn new(parent_path: String, default_type: TreeNodeType, default_preset: &str) -> (r: NewNodeForm)
        ensures
            r.parent_path == parent_path,
            r.node_type == default_type,
            r.name@ == Seq::<char>::empty(),
            r.preset@ == default_preset@,
    {
        NewNodeForm { parent_path, node_type: default_type, name: String::new(), preset: owned(default_preset) }
    }
}

pub struct SettingsTabState {
    pub config_dir: std::path::PathBuf,
    pub config_path: std::path::PathBuf,
    pub config: Config,
    pub form_data_dir: String,
    pub form_default_preset: String,
    pub message: Option<String>,
    pub message_is_error: bool,
}

impl SettingsTabState {
    /// The settings form filled from the configuration: the configured data
    /// directory, else the one in use; the configured default preset, else
    /// `default`.
    pub fn new(config_dir: std::path::PathBuf, config_path: std::path::PathBuf, config: Config, actual_data_dir: &str) -> (r: SettingsTabState)
        ensures
            r.config_dir == config_dir,
            r.config_path == config_path,
            r.config == config,
            r.form_data_dir@ == (match config.data_dir { Some(d) => d@, None => actual_data_dir@ }),
            r.form_default_preset@ == (match config.default_preset { Some(p) => p@, None => "default"@ }),
            r.message is None,
            !r.message_is_error,
    {
        let form_data_dir = match &config.data_dir {
            Some(d) => d.clone(),
            None => owned(actual_data_dir),
        };
        let form_default_preset = match &config.default_preset {
            Some(p) => p.clone(),
            None => owned("default"),
        };
        SettingsTabState {
            config_dir,
            config_path,
            config,
            form_data_dir,
            form_default_preset,
            message: None,
            message_is_error: false,
        }
    }

    pub fn dismiss_message(&mut self)
        ensures
            final(self).message is None,
            final(self).config_dir == old(self).config_dir,
            final(self).config_path == old(self).config_path,
            final(self).config == old(self).config,
            final(self).form_data_dir == old(self).form_data_dir,
            final(self).form_default_preset == old(self).form_default_preset,
            final(self).message_is_error == old(self).message_is_error,
    {
        self.message = None;
    }
}


/// What the study screens are told.
pub enum Message {
    SwitchScreen(Screen),
    SelectCategory(i64),
    OpenNewCategory,
    OpenSearch,
    OpenImport,
    OpenSettings,
    SetNewCategoryName(String),
    SetNewCategoryType(NodeType),
    CreateCategory,
    SetObsidianPath(String),
    ImportObsidian,
    SetSearchQuery(String),
    DismissDialog,
    DeleteCategory(i64),
    ConfirmDeleteCategory,
    StartTimer(i64),
    PauseTimer,
    ResumeTimer,
    StopTimer,
    ConfirmSession,
    CancelSession,
    SetQuality(Quality),
    SetUnderstandingDifficulty(Difficulty),
    SetMemoryDifficulty(Difficulty),
    SetCompletionRate(u8),
    ApplyPreset(usize),
    RefreshReviewDashboard,
    Tick,
    BackFromTimer,
}

/// The work a message leaves to the caller.
pub enum Effect {
    Nothing,
    /// Add the category, then build the forest again.
    InsertCategory(CategoryInsert),
    /// Walk the vault at this path, add what `import_plan` gives, then
    /// build the forest again.
    ImportVault(String),
    /// Delete the category; then `category_deleted`.
    DeleteCategory(i64),
    /// Record the session ending now, schedule its category and store the
    /// prediction.
    RecordSession(PendingSession),
    /// Read the presets; then `preset_loaded`.
    LoadPresets(usize),
}

/// The study screens: the category forest, the timer, the parameters the
/// next session is recorded with, and the session waiting to be confirmed.
pub struct App {
    pub forest: CategoryForest,
    pub screen: Screen,
    pub selected_category_id: Option<i64>,
    pub timer: TimerStateMachine,
    pub timer_display_secs: i64,
    pub global_params: SessionParams,
    pub current_params: SessionParams,
    pub pending_session: Option<PendingSession>,
    pub dialog: Option<Dialog>,
    pub return_screen: Screen,
}

/// The first node of the forest with this id.
pub open spec fn node_with_id(f: CategoryForest, id: i64) -> Option<CategoryNode> {
    first_with_id(collect_seq(f.roots@, any_node()), id)
}

/// The first node of the forest with this path.
pub open spec fn node_with_path(f: CategoryForest, path: Seq<char>) -> Option<CategoryNode> {
    first_with_path(collect_seq(f.roots@, any_node()), path)
}

/// The path of a new category named `name`: below its parent's path, or
/// the name alone at the top.
pub open spec fn category_path(f: CategoryForest, parent: Option<i64>, name: Seq<char>) -> Seq<char> {
    match parent {
        Some(p) => (match node_with_id(f, p) {
            Some(n) => n.path@,
            None => Seq::empty(),
        }) + "/"@ + name,
        None => name,
    }
}

/// The parameters a session of category `id` starts with: its own
/// defaults where it has them, else the global ones.
pub open spec fn params_for(f: CategoryForest, global: SessionParams, id: i64) -> SessionParams {
    match node_with_id(f, id) {
        Some(n) => SessionParams {
            quality: match n.default_quality {
                Some(q) => q,
                None => global.quality,
            },
            understanding_difficulty: match n.default_understanding_difficulty {
                Some(d) => d,
                None => global.understanding_difficulty,
            },
            memory_difficulty: match n.default_memory_difficulty {
                Some(d) => d,
                None => global.memory_difficulty,
            },
            completion_rate: global.completion_rate,
        },
        None => global,
    }
}

/// `n` is the timer after `start_at(id, now)` on `o`.
pub open spec fn timer_started(o: TimerStateMachine, n: TimerStateMachine, id: i64, now: i64) -> bool {
    &&& o.state is Idle ==> {
        &&& n.category_id == Some(id)
        &&& n.state matches TimerState::Running { start_time, pause_total_secs, pauses }
        &&& start_time == now && pause_total_secs == 0 && pauses@.len() == 0
    }
    &&& !(o.state is Idle) ==> n == o
}

/// `n` is the timer after `pause_at(now)` on `o`.
pub open spec fn timer_paused(o: TimerStateMachine, n: TimerStateMachine, now: i64) -> bool {
    ||| (o.state matches TimerState::Running { start_time, pause_total_secs, pauses } && {
        &&& n.category_id == o.category_id
        &&& n.state matches TimerState::Paused { start_time: s2, pause_total_secs: t2, pauses: p2, pause_start }
        &&& s2 == start_time && t2 == pause_total_secs && p2@ == pauses@ && pause_start == now
    })
    ||| (!(o.state is Running) && n == o)
}

/// `n` is the timer after `resume_at(now)` on `o`.
pub open spec fn timer_resumed(o: TimerStateMachine, n: TimerStateMachine, now: i64) -> bool {
    ||| (o.state matches TimerState::Paused { start_time, pause_total_secs, pauses, pause_start } && {
        &&& n.category_id == o.category_id
        &&& n.state matches TimerState::Running { start_time: s2, pause_total_secs: t2, pauses: p2 }
        &&& s2 == start_time
        &&& t2 == pause_total_secs + secs_between(now, pause_start)
        &&& p2@ == pauses@.push(crate::data::models::PauseRecord { pause_start, resume_time: now })
    })
    ||| (!(o.state is Paused) && n == o)
}

/// A pause under way can be added to the pause total at `now`.
pub open spec fn pause_fits(t: TimerStateMachine, now: i64) -> bool {
    t.state matches TimerState::Paused { pause_total_secs, pause_start, .. } ==> pause_total_secs + secs_between(
        now,
        pause_start,
    ) <= i64::MAX
}

impl App {
    /// The timer's pause total is the sum of its pauses.
    pub open spec fn wf(self) -> bool {
        self.timer.wf()
    }

    /// The message meets what handling it at `now` needs.
    pub open spec fn accepts(self, message: Message, now: i64) -> bool {
        match message {
            Message::ResumeTimer | Message::StopTimer => pause_fits(self.timer, now),
            _ => true,
        }
    }

    /// What `update` does with `message` at `now`.
    pub open spec fn stepped(o: App, message: Message, now: i64, n: App, e: Effect) -> bool {
        match message {
            Message::SwitchScreen(s) => n == (App { selected_category_id: None, screen: s, ..o }) && e is Nothing,
            Message::SelectCategory(id) => n == (App { selected_category_id: Some(id), ..o }) && e is Nothing,
            Message::OpenNewCategory => {
                &&& n == (App { dialog: n.dialog, ..o })
                &&& n.dialog matches Some(Dialog::NewCategory { parent_id, name, node_type })
                &&& parent_id == o.selected_category_id && name@.len() == 0 && node_type == NodeType::Directory
                &&& e is Nothing
            },
            Message::OpenSearch => {
                &&& n == (App { dialog: n.dialog, ..o })
                &&& n.dialog matches Some(Dialog::Search { query }) && query@.len() == 0
                &&& e is Nothing
            },
            Message::OpenImport => {
                &&& n == (App { dialog: n.dialog, ..o })
                &&& n.dialog matches Some(Dialog::ObsidianImport { path }) && path@.len() == 0
                &&& e is Nothing
            },
            Message::SetNewCategoryName(v) => match o.dialog {
                Some(Dialog::NewCategory { parent_id, node_type, .. }) => n == (App {
                    dialog: Some(Dialog::NewCategory { parent_id, name: v, node_type }),
                    ..o
                }) && e is Nothing,
                _ => n == o && e is Nothing,
            },
            Message::SetNewCategoryType(t) => match o.dialog {
                Some(Dialog::NewCategory { parent_id, name, .. }) => n == (App {
                    dialog: Some(Dialog::NewCategory { parent_id, name, node_type: t }),
                    ..o
                }) && e is Nothing,
                _ => n == o && e is Nothing,
            },
            Message::SetObsidianPath(v) => match o.dialog {
                Some(Dialog::ObsidianImport { .. }) => n == (App { dialog: Some(Dialog::ObsidianImport { path: v }), ..o })
                    && e is Nothing,
                _ => n == o && e is Nothing,
            },
            Message::SetSearchQuery(v) => match o.dialog {
                Some(Dialog::Search { .. }) => n == (App { dialog: Some(Dialog::Search { query: v }), ..o }) && e is Nothing,
                _ => n == o && e is Nothing,
            },
            Message::CreateCategory => {
                &&& n == (App { dialog: None, ..o })
                &&& match o.dialog {
                    Some(Dialog::NewCategory { parent_id, name, node_type }) => {
                        let nm = trim_ws(name@);
                        if nm.len() == 0 {
                            e is Nothing
                        } else {
                            &&& e matches Effect::InsertCategory(ins)
                            &&& ins.parent_id == parent_id
                            &&& ins.name@ == nm
                            &&& ins.path@ == category_path(o.forest, parent_id, nm)
                            &&& ins.node_type == node_type
                            &&& ins.source is None
                            &&& ins.default_quality is None
                            &&& ins.default_understanding_difficulty is None
                            &&& ins.default_memory_difficulty is None
                        }
                    },
                    _ => e is Nothing,
                }
            },
            Message::ImportObsidian => {
                &&& n == (App { dialog: None, ..o })
                &&& match o.dialog {
                    Some(Dialog::ObsidianImport { path }) => if trim_ws(path@).len() == 0 {
                        e is Nothing
                    } else {
                        e == Effect::ImportVault(path)
                    },
                    _ => e is Nothing,
                }
            },
            Message::DismissDialog => n == (App { dialog: None, ..o }) && e is Nothing,
            Message::DeleteCategory(id) => match node_with_id(o.forest, id) {
                Some(nd) => n == (App { dialog: Some(Dialog::ConfirmDeleteCategory { id, name: nd.name }), ..o })
                    && e is Nothing,
                None => n == o && e is Nothing,
            },
            Message::ConfirmDeleteCategory => {
                &&& n == (App { dialog: None, ..o })
                &&& match o.dialog {
                    Some(Dialog::ConfirmDeleteCategory { id, .. }) => e == Effect::DeleteCategory(id),
                    _ => e is Nothing,
                }
            },
            Message::StartTimer(id) => {
                &&& n == (App {
                    current_params: params_for(o.forest, o.global_params, id),
                    timer: n.timer,
                    return_screen: o.screen,
                    ..o
                })
                &&& timer_started(o.timer, n.timer, id, now)
                &&& e is Nothing
            },
            Message::PauseTimer => n == (App { timer: n.timer, ..o }) && timer_paused(o.timer, n.timer, now) && e is Nothing,
            Message::ResumeTimer => n == (App { timer: n.timer, ..o }) && timer_resumed(o.timer, n.timer, now) && e is Nothing,
            Message::StopTimer => if o.timer.state is Idle {
                n == o && e is Nothing
            } else {
                let id = match o.timer.category_id {
                    Some(c) => c,
                    None => 0,
                };
                &&& n == (App { timer: n.timer, pending_session: n.pending_session, ..o })
                &&& n.timer.state is Idle
                &&& n.timer.category_id is None
                &&& n.pending_session matches Some(p)
                &&& p.category_id == id
                &&& p.category_path@ == (match node_with_id(o.forest, id) {
                    Some(nd) => nd.path@,
                    None => Seq::empty(),
                })
                &&& p.duration_secs == o.timer.session_secs_at(now)
                &&& p.params == o.current_params
                &&& e is Nothing
            },
            Message::ConfirmSession => {
                &&& n == (App { pending_session: None, screen: o.return_screen, selected_category_id: None, ..o })
                &&& match o.pending_session {
                    Some(p) => e == Effect::RecordSession(p),
                    None => e is Nothing,
                }
            },
            Message::CancelSession => n == (App { pending_session: None, ..o }) && e is Nothing,
            Message::SetQuality(q) => (match o.pending_session {
                Some(p) => n == (App {
                    pending_session: Some(PendingSession { params: SessionParams { quality: q, ..p.params }, ..p }),
                    ..o
                }),
                None => n == (App { current_params: SessionParams { quality: q, ..o.current_params }, ..o }),
            }) && e is Nothing,
            Message::SetUnderstandingDifficulty(d) => (match o.pending_session {
                Some(p) => n == (App {
                    pending_session: Some(PendingSession { params: SessionParams { understanding_difficulty: d, ..p.params }, ..p }),
                    ..o
                }),
                None => n == (App { current_params: SessionParams { understanding_difficulty: d, ..o.current_params }, ..o }),
            }) && e is Nothing,
            Message::SetMemoryDifficulty(d) => (match o.pending_session {
                Some(p) => n == (App {
                    pending_session: Some(PendingSession { params: SessionParams { memory_difficulty: d, ..p.params }, ..p }),
                    ..o
                }),
                None => n == (App { current_params: SessionParams { memory_difficulty: d, ..o.current_params }, ..o }),
            }) && e is Nothing,
            Message::SetCompletionRate(r) => (match o.pending_session {
                Some(p) => n == (App {
                    pending_session: Some(PendingSession { params: SessionParams { completion_rate: r, ..p.params }, ..p }),
                    ..o
                }),
                None => n == (App { current_params: SessionParams { completion_rate: r, ..o.current_params }, ..o }),
            }) && e is Nothing,
            Message::ApplyPreset(i) => n == o && e == Effect::LoadPresets(i),
            Message::Tick => if o.timer.state is Idle {
                n == o && e is Nothing
            } else {
                n == (App { timer_display_secs: n.timer_display_secs, ..o }) && n.timer_display_secs == o.timer.effective_at(now)
                    && e is Nothing
            },
            Message::BackFromTimer => n == (App { screen: o.return_screen, selected_category_id: None, ..o }) && e is Nothing,
            _ => n == o && e is Nothing,
        }
    }

    /// Handles one message at `now`.
    pub fn update(&mut self, message: Message, now: i64) -> (e: Effect)
        requires
            old(self).wf(),
            old(self).accepts(message, now),
        ensures
            final(self).wf(),
            App::stepped(*old(self), message, now, *final(self), e),
    {
        match message {
            Message::SwitchScreen(..) | Message::SelectCategory(..) | Message::OpenNewCategory | Message::OpenSearch
            | Message::OpenImport | Message::SetNewCategoryName(..) | Message::SetNewCategoryType(..)
            | Message::SetObsidianPath(..) | Message::SetSearchQuery(..) | Message::DismissDialog => self.step_dialogs(message, now),
            Message::CreateCategory | Message::ImportObsidian | Message::DeleteCategory(..) | Message::ConfirmDeleteCategory => self.step_categories(message, now),
            Message::StartTimer(..) | Message::PauseTimer | Message::ResumeTimer | Message::StopTimer | Message::Tick => self.step_timer(message, now),
            Message::ConfirmSession | Message::CancelSession | Message::SetQuality(..) | Message::SetUnderstandingDifficulty(..)
            | Message::SetMemoryDifficulty(..) | Message::SetCompletionRate(..) | Message::ApplyPreset(..)
            | Message::BackFromTimer => self.step_session(message, now),
            _ => Effect::Nothing,
        }
    }

    #[verifier::spinoff_prover]
    fn step_dialogs(&mut self, message: Message, now: i64) -> (e: Effect)
        requires
            old(self).wf(),
            message is SwitchScreen || message is SelectCategory || message is OpenNewCategory || message is OpenSearch
                || message is OpenImport || message is SetNewCategoryName || message is SetNewCategoryType
                || message is SetObsidianPath || message is SetSearchQuery || message is DismissDialog,
        ensures
            final(self).wf(),
            App::stepped(*old(self), message, now, *final(self), e),
    {
        match message {
            Message::SwitchScreen(s) => {
                self.selected_category_id = None;
                self.screen = s;
            },
            Message::SelectCategory(id) => {
                self.selected_category_id = Some(id);
            },
            Message::OpenNewCategory => {
                self.dialog = Some(Dialog::NewCategory {
                    parent_id: self.selected_category_id,
                    name: String::new(),
                    node_type: NodeType::Directory,
                });
            },
            Message::OpenSearch => {
                self.dialog = Some(Dialog::Search { query: String::new() });
            },
            Message::OpenImport => {
                self.dialog = Some(Dialog::ObsidianImport { path: String::new() });
            },
            Message::SetNewCategoryName(v) => {
                match self.dialog.take() {
                    Some(Dialog::NewCategory { parent_id, node_type, .. }) => {
                        self.dialog = Some(Dialog::NewCategory { parent_id, name: v, node_type });
                    },
                    other => {
                        self.dialog = other;
                    },
                }
            },
            Message::SetNewCategoryType(t) => {
                match self.dialog.take() {
                    Some(Dialog::NewCategory { parent_id, name, .. }) => {
                        self.dialog = Some(Dialog::NewCategory { parent_id, name, node_type: t });
                    },
                    other => {
                        self.dialog = other;
                    },
                }
            },
            Message::SetObsidianPath(v) => {
                match self.dialog.take() {
                    Some(Dialog::ObsidianImport { .. }) => {
                        self.dialog = Some(Dialog::ObsidianImport { path: v });
                    },
                    other => {
                        self.dialog = other;
                    },
                }
            },
            Message::SetSearchQuery(v) => {
                match self.dialog.take() {
                    Some(Dialog::Search { .. }) => {
                        self.dialog = Some(Dialog::Search { query: v });
                    },
                    other => {
                        self.dialog = other;
                    },
                }
            },
            Message::DismissDialog => {
                self.dialog = None;
            },
            _ => {},
        }
        Effect::Nothing
    }

    #[verifier::spinoff_prover]
    fn step_categories(&mut self, message: Message, now: i64) -> (e: Effect)
        requires
            old(self).wf(),
            message is CreateCategory || message is ImportObsidian || message is DeleteCategory
                || message is ConfirmDeleteCategory,
        ensures
            final(self).wf(),
            App::stepped(*old(self), message, now, *final(self), e),
    {
        match message {
            Message::CreateCategory => match self.dialog.take() {
                Some(Dialog::NewCategory { parent_id, name, node_type }) => {
                    let nm = string_of(&trim_chars(&chars_of(name.as_str())));
                    if nm.as_str().is_empty() {
                        return Effect::Nothing;
                    }
                    let path = match parent_id {
                        Some(pid) => {
                            let mut p = match self.forest.find(pid) {
                                Some(nd) => nd.path.clone(),
                                None => String::new(),
                            };
                            push_str(&mut p, "/");
                            push_str(&mut p, nm.as_str());
                            p
                        },
                        None => nm.clone(),
                    };
                    Effect::InsertCategory(CategoryInsert {
                        parent_id,
                        name: nm,
                        path,
                        node_type,
                        source: None,
                        default_quality: None,
                        default_understanding_difficulty: None,
                        default_memory_difficulty: None,
                    })
                },
                _ => Effect::Nothing,
            },
            Message::ImportObsidian => match self.dialog.take() {
                Some(Dialog::ObsidianImport { path }) => {
                    if trim_chars(&chars_of(path.as_str())).len() == 0 {
                        Effect::Nothing
                    } else {
                        Effect::ImportVault(path)
                    }
                },
                _ => Effect::Nothing,
            },
            Message::DeleteCategory(id) => {
                match self.forest.find(id) {
                    Some(nd) => {
                        let name = nd.name.clone();
                        self.dialog = Some(Dialog::ConfirmDeleteCategory { id, name });
                    },
                    None => {},
                }
                Effect::Nothing
            },
            Message::ConfirmDeleteCategory => match self.dialog.take() {
                Some(Dialog::ConfirmDeleteCategory { id, .. }) => Effect::DeleteCategory(id),
                _ => Effect::Nothing,
            },
            _ => Effect::Nothing,
        }
    }

    #[verifier::spinoff_prover]
    fn step_timer(&mut self, message: Message, now: i64) -> (e: Effect)
        requires
            old(self).wf(),
            old(self).accepts(message, now),
            message is StartTimer || message is PauseTimer || message is ResumeTimer || message is StopTimer
                || message is Tick,
        ensures
            final(self).wf(),
            App::stepped(*old(self), message, now, *final(self), e),
    {
        match message {
            Message::StartTimer(id) => {
                let params = match self.forest.find(id) {
                    Some(nd) => resolve_params(
                        &self.global_params,
                        nd.default_quality.as_ref(),
                        nd.default_understanding_difficulty.as_ref(),
                        nd.default_memory_difficulty.as_ref(),
                    ),
                    None => resolve_params(&self.global_params, None, None, None),
                };
                self.current_params = params;
                let _ = self.timer.start_at(id, now);
                self.return_screen = match self.screen {
                    Screen::CategoryTree => Screen::CategoryTree,
                    Screen::ReviewDashboard => Screen::ReviewDashboard,
                };
            },
            Message::PauseTimer => {
                let _ = self.timer.pause_at(now);
            },
            Message::ResumeTimer => {
                let _ = self.timer.resume_at(now);
            },
            Message::StopTimer => {
                proof { lemma_wf_bounds(self.timer, now); }
                match self.timer.stop_at(now) {
                    Ok(stopped) => {
                        let path = match self.forest.find(stopped.category_id) {
                            Some(nd) => nd.path.clone(),
                            None => String::new(),
                        };
                        self.pending_session = Some(PendingSession {
                            category_id: stopped.category_id,
                            category_path: path,
                            duration_secs: stopped.duration_secs,
                            params: SessionParams {
                                quality: self.current_params.quality,
                                understanding_difficulty: self.current_params.understanding_difficulty,
                                memory_difficulty: self.current_params.memory_difficulty,
                                completion_rate: self.current_params.completion_rate,
                            },
                        });
                    },
                    Err(_) => {},
                }
            },
            Message::Tick => {
                if self.timer.is_running() {
                    proof { lemma_wf_bounds(self.timer, now); }
                    self.timer_display_secs = self.timer.effective_secs_at(now);
                }
            },
            _ => {},
        }
        Effect::Nothing
    }

    #[verifier::spinoff_prover]
    fn step_session(&mut self, message: Message, now: i64) -> (e: Effect)
        requires
            old(self).wf(),
            message is ConfirmSession || message is CancelSession || message is SetQuality
                || message is SetUnderstandingDifficulty || message is SetMemoryDifficulty
                || message is SetCompletionRate || message is ApplyPreset || message is BackFromTimer,
        ensures
            final(self).wf(),
            App::stepped(*old(self), message, now, *final(self), e),
    {
        match message {
            Message::ConfirmSession => {
                let e = match self.pending_session.take() {
                    Some(p) => Effect::RecordSession(p),
                    None => Effect::Nothing,
                };
                self.screen = match self.return_screen {
                    Screen::CategoryTree => Screen::CategoryTree,
                    Screen::ReviewDashboard => Screen::ReviewDashboard,
                };
                self.selected_category_id = None;
                e
            },
            Message::CancelSession => {
                self.pending_session = None;
                Effect::Nothing
            },
            Message::SetQuality(q) => {
                match self.pending_session.take() {
                    Some(mut p) => {
                        p.params.quality = q;
                        self.pending_session = Some(p);
                    },
                    None => {
                        self.current_params.quality = q;
                    },
                }
                Effect::Nothing
            },
            Message::SetUnderstandingDifficulty(d) => {
                match self.pending_session.take() {
                    Some(mut p) => {
                        p.params.understanding_difficulty = d;
                        self.pending_session = Some(p);
                    },
                    None => {
                        self.current_params.understanding_difficulty = d;
                    },
                }
                Effect::Nothing
            },
            Message::SetMemoryDifficulty(d) => {
                match self.pending_session.take() {
                    Some(mut p) => {
                        p.params.memory_difficulty = d;
                        self.pending_session = Some(p);
                    },
                    None => {
                        self.current_params.memory_difficulty = d;
                    },
                }
                Effect::Nothing
            },
            Message::SetCompletionRate(r) => {
                match self.pending_session.take() {
                    Some(mut p) => {
                        p.params.completion_rate = r;
                        self.pending_session = Some(p);
                    },
                    None => {
                        self.current_params.completion_rate = r;
                    },
                }
                Effect::Nothing
            },
            Message::ApplyPreset(i) => Effect::LoadPresets(i),
            Message::BackFromTimer => {
                self.screen = match self.return_screen {
                    Screen::CategoryTree => Screen::CategoryTree,
                    Screen::ReviewDashboard => Screen::ReviewDashboard,
                };
                self.selected_category_id = None;
                Effect::Nothing
            },
            _ => Effect::Nothing,
        }
    }

    /// The study screens as they open on a forest, with the global
    /// defaults: the category tree shown, nothing selected, the timer idle,
    /// the next session with the plain defaults.
    pub fn new(forest: CategoryForest, global_params: SessionParams) -> (r: App)
        ensures
            r.wf(),
            r.forest == forest,
            r.screen == Screen::CategoryTree,
            r.selected_category_id is None,
            r.timer.state is Idle,
            r.timer.category_id is None,
            r.timer_display_secs == 0,
            r.global_params == global_params,
            r.current_params == (SessionParams {
                quality: Quality::Medium,
                understanding_difficulty: Difficulty::Medium,
                memory_difficulty: Difficulty::Medium,
                completion_rate: 100,
            }),
            r.pending_session is None,
            r.dialog is None,
            r.return_screen == Screen::CategoryTree,
    {
        App {
            forest,
            screen: Screen::CategoryTree,
            selected_category_id: None,
            timer: TimerStateMachine::new(),
            timer_display_secs: 0,
            global_params,
            current_params: SessionParams::default(),
            pending_session: None,
            dialog: None,
            return_screen: Screen::CategoryTree,
        }
    }

    /// A session is under way, running or paused.
    pub fn is_timer_active(&self) -> (r: bool)
        ensures
            r == !(self.timer.state is Idle),
    {
        self.timer.is_running()
    }

    /// Takes the presets read for `ApplyPreset(index)`: the preset at that
    /// index, where there is one, sets the parameters of the session
    /// waiting to be confirmed, else those of the next session.
    pub fn preset_loaded(&mut self, presets: &Vec<Preset>, index: usize)
        ensures
            index < presets@.len() ==> {
                let p = presets@[index as int];
                let set = SessionParams {
                    quality: p.quality,
                    understanding_difficulty: p.understanding_difficulty,
                    memory_difficulty: p.memory_difficulty,
                    completion_rate: p.completion_rate,
                };
                match old(self).pending_session {
                    Some(s) => *final(self) == (App { pending_session: Some(PendingSession { params: set, ..s }), ..*old(self) }),
                    None => *final(self) == (App { current_params: set, ..*old(self) }),
                }
            },
            index >= presets@.len() ==> *final(self) == *old(self),
    {
        if index < presets.len() {
            match self.pending_session.take() {
                Some(mut s) => {
                    apply_preset(&presets[index], &mut s.params);
                    self.pending_session = Some(s);
                },
                None => {
                    apply_preset(&presets[index], &mut self.current_params);
                },
            }
        }
    }

    /// Takes the outcome of deleting category `id`, with the forest built
    /// again afterwards: on success the selection goes if it was that
    /// category.
    pub fn category_deleted(&mut self, id: i64, deleted: bool, forest: CategoryForest)
        ensures
            deleted ==> *final(self) == (App {
                forest,
                selected_category_id: if old(self).selected_category_id == Some(id) {
                    None
                } else {
                    old(self).selected_category_id
                },
                ..*old(self)
            }),
            !deleted ==> *final(self) == *old(self),
    {
        if deleted {
            self.forest = forest;
            if self.selected_category_id == Some(id) {
                self.selected_category_id = None;
            }
        }
    }

    /// The categories an import adds for the entries of a vault: first the
    /// folders, then the notes, each only where the forest has no node at
    /// its path yet, under the node at the path before its last slash.
    pub fn import_plan(&self, entries: &Vec<VaultEntry>) -> (r: Vec<CategoryInsert>)
        ensures
            r@.len() == planned(self.forest, entries@, true).len() + planned(self.forest, entries@, false).len(),
            forall|i: int| 0 <= i < r@.len() ==> {
                let all = planned(self.forest, entries@, true) + planned(self.forest, entries@, false);
                imported_as(#[trigger] r@[i], all[i], self.forest)
            },
    {
        let mut out: Vec<CategoryInsert> = Vec::new();
        let ghost dirs = planned(self.forest, entries@, true);
        self.plan_kind(entries, true, &mut out);
        assert(out@.len() == dirs.len());
        let ghost after = out@;
        self.plan_kind(entries, false, &mut out);
        proof {
            let all = dirs + planned(self.forest, entries@, false);
            assert forall|i: int| 0 <= i < out@.len() implies imported_as(#[trigger] out@[i], all[i], self.forest) by {
                if i < dirs.len() {
                    assert(out@[i] == after[i]);
                    assert(all[i] == dirs[i]);
                    assert(imported_as(after[0 + i], dirs[i], self.forest));
                } else {
                    let j = i - dirs.len();
                    assert(after.len() == dirs.len());
                    assert(all[i] == planned(self.forest, entries@, false)[j]);
                    assert(imported_as(out@[after.len() + j], planned(self.forest, entries@, false)[j], self.forest));
                }
            }
        }
        out
    }

    fn plan_kind(&self, entries: &Vec<VaultEntry>, dirs: bool, out: &mut Vec<CategoryInsert>)
        ensures
            final(out)@.len() == old(out)@.len() + planned(self.forest, entries@, dirs).len(),
            forall|i: int| 0 <= i < old(out)@.len() ==> #[trigger] final(out)@[i] == old(out)@[i],
            forall|i: int| 0 <= i < planned(self.forest, entries@, dirs).len() ==> imported_as(
                #[trigger] final(out)@[old(out)@.len() + i],
                planned(self.forest, entries@, dirs)[i],
                self.forest,
            ),
    {
        let ghost start = out@;
        let n = entries.len();
        for k in 0..n
            invariant
                n == entries@.len(),
                out@.len() == start.len() + planned(self.forest, entries@.take(k as int), dirs).len(),
                start == old(out)@,
                forall|i: int| 0 <= i < start.len() ==> #[trigger] out@[i] == start[i],
                forall|i: int| 0 <= i < planned(self.forest, entries@.take(k as int), dirs).len() ==> imported_as(
                    #[trigger] out@[start.len() + i],
                    planned(self.forest, entries@.take(k as int), dirs)[i],
                    self.forest,
                ),
        {
            let entry = &entries[k];
            let ghost prev = planned(self.forest, entries@.take(k as int), dirs);
            proof {
                assert(entries@.take(k + 1).drop_last() =~= entries@.take(k as int));
                assert(entries@.take(k + 1).last() == entries@[k as int]);
            }
            if entry.is_dir == dirs && self.forest.find_by_path(entry.relative_path.as_str()).is_none() {
                let parent = match parent_of(entry.relative_path.as_str()) {
                    Some(pp) => match self.forest.find_by_path(pp.as_str()) {
                        Some(nd) => Some(nd.id),
                        None => None,
                    },
                    None => None,
                };
                let ins = CategoryInsert {
                    parent_id: parent,
                    name: entry.name.clone(),
                    path: entry.relative_path.clone(),
                    node_type: if dirs { NodeType::Directory } else { NodeType::Learning },
                    source: Some(owned("obsidian")),
                    default_quality: None,
                    default_understanding_difficulty: None,
                    default_memory_difficulty: None,
                };
                let ghost before = out@;
                out.push(ins);
                proof {
                    assert(planned(self.forest, entries@.take(k + 1), dirs) == prev.push(entries@[k as int]));
                    assert forall|i: int| 0 <= i < start.len() implies #[trigger] out@[i] == start[i] by {
                        assert(out@[i] == before[i]);
                    }
                    assert forall|i: int| 0 <= i < prev.len() + 1 implies imported_as(
                        #[trigger] out@[start.len() + i],
                        prev.push(entries@[k as int])[i],
                        self.forest,
                    ) by {
                        if i < prev.len() {
                            assert(out@[start.len() + i] == before[start.len() + i]);
                        }
                    }
                }
            } else {
                proof {
                    assert(planned(self.forest, entries@.take(k + 1), dirs) == prev);
                }
            }
        }
        proof {
            assert(entries@.take(n as int) =~= entries@);
        }
    }
}

/// The entries of one kind, folders or notes, that an import adds: those
/// whose path the forest does not hold yet, in order.
pub open spec fn planned(f: CategoryForest, entries: Seq<VaultEntry>, dirs: bool) -> Seq<VaultEntry>
    decreases entries.len(),
{
    if entries.len() == 0 {
        Seq::empty()
    } else {
        let rest = planned(f, entries.drop_last(), dirs);
        let e = entries.last();
        if e.is_dir == dirs && node_with_path(f, e.relative_path@) is None {
            rest.push(e)
        } else {
            rest
        }
    }
}

/// The category an imported entry becomes: named and placed as the entry,
/// under the node at the path before its last slash, from Obsidian.
pub open spec fn imported_as(ins: CategoryInsert, e: VaultEntry, f: CategoryForest) -> bool {
    &&& ins.parent_id == (match parent_part(e.relative_path@) {
        Some(pp) => match node_with_path(f, pp) {
            Some(n) => Some(n.id),
            None => None,
        },
        None => None,
    })
    &&& ins.name@ == e.name@
    &&& ins.path@ == e.relative_path@
    &&& ins.node_type == (if e.is_dir { NodeType::Directory } else { NodeType::Learning })
    &&& ins.source matches Some(s) && s@ == "obsidian"@
    &&& ins.default_quality is None
    &&& ins.default_understanding_difficulty is None
    &&& ins.default_memory_difficulty is None
}

} // verus!
