//! What can go wrong with the data directory.
use vstd::prelude::*;
use crate::text::{owned, push_str};

verus! {

#[derive(Debug)]
pub enum DataError {
    Io(String),
    Json(String),
    InvalidPath(String),
    CardNotFound(String),
    TimerNotFound(String),
    PresetNotFound(String),
    TodoNotFound(String),
    ScheduleNotFound(String),
    FolderNotFound(String),
    InvalidNodeName(String),
    NodeAlreadyExists(String),
    InvalidData(String),
    ConfigParse(String),
    ConfigSerialize(String),
}

/// The text an error shows: a label for its kind, a colon and its detail.
pub open spec fn error_text(e: DataError) -> Seq<char> {
    match e {
        DataError::Io(m) => "io error: "@ + m@,
        DataError::Json(m) => "json error: "@ + m@,
        DataError::InvalidPath(m) => "invalid path: "@ + m@,
        DataError::CardNotFound(m) => "card not found: "@ + m@,
        DataError::TimerNotFound(m) => "timer not found: "@ + m@,
        DataError::PresetNotFound(m) => "preset not found: "@ + m@,
        DataError::TodoNotFound(m) => "todo not found: "@ + m@,
        DataError::ScheduleNotFound(m) => "schedule not found: "@ + m@,
        DataError::FolderNotFound(m) => "folder not found: "@ + m@,
        DataError::InvalidNodeName(m) => "invalid node name: "@ + m@,
        DataError::NodeAlreadyExists(m) => "node already exists: "@ + m@,
        DataError::InvalidData(m) => "invalid data: "@ + m@,
        DataError::ConfigParse(m) => "config parse error: "@ + m@,
        DataError::ConfigSerialize(m) => "config serialize error: "@ + m@,
    }
}

impl DataError {
    /// The text the error shows.
    pub fn message(&self) -> (r: String)
        ensures
            r@ == error_text(*self),
    {
        let (label, detail) = match self {
            DataError::Io(m) => ("io error: ", m),
            DataError::Json(m) => ("json error: ", m),
            DataError::InvalidPath(m) => ("invalid path: ", m),
            DataError::CardNotFound(m) => ("card not found: ", m),
            DataError::TimerNotFound(m) => ("timer not found: ", m),
            DataError::PresetNotFound(m) => ("preset not found: ", m),
            DataError::TodoNotFound(m) => ("todo not found: ", m),
            DataError::ScheduleNotFound(m) => ("schedule not found: ", m),
            DataError::FolderNotFound(m) => ("folder not found: ", m),
            DataError::InvalidNodeName(m) => ("invalid node name: ", m),
            DataError::NodeAlreadyExists(m) => ("node already exists: ", m),
            DataError::InvalidData(m) => ("invalid data: ", m),
            DataError::ConfigParse(m) => ("config parse error: ", m),
            DataError::ConfigSerialize(m) => ("config serialize error: ", m),
        };
        let mut out = owned(label);
        push_str(&mut out, detail.as_str());
        out
    }
}

} // verus!
