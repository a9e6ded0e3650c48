//! Identifiers the interface passes around.
use vstd::prelude::*;

verus! {

/// What a node of the card tree is.
#[derive(Debug, Clone, Copy, PartialEq, Eq, Structural)]
pub enum NodeType {
    Folder,
    Card,
}

#[derive(Debug, Clone, Copy, PartialEq, Eq, Structural)]
pub enum TabId {
    Category,
    Review,
    Timer,
    Schedule,
    Todo,
    Preset,
    Settings,
}

#[derive(Debug, Clone, Copy, PartialEq, Eq, Structural)]
pub enum ButtonId {
    StartTimer,
    PauseTimer,
    StopTimer,
    NewCard,
    NewTodo,
    NewSchedule,
    NewPreset,
    ImportObsidian,
    TrainPreset,
    Delete,
}

} // verus!
