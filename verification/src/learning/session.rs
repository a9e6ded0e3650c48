//! A finished session turned into the record the store keeps.
use vstd::prelude::*;
use crate::data::models::{SessionInsert, SessionParams};
use crate::learning::timer_machine::StoppedSession;

verus! {

/// The record of a stopped session with the parameters and note it is
/// kept with.
pub fn create_session_insert(stopped: StoppedSession, params: SessionParams, note: Option<String>) -> (r: SessionInsert)
    ensures
        r.category_id == stopped.category_id,
        r.start_time == stopped.start_time,
        r.end_time == stopped.end_time,
        r.duration_secs == stopped.duration_secs,
        r.pause_records == stopped.pause_records,
        r.params == params,
        r.note == note,
{
    SessionInsert {
        category_id: stopped.category_id,
        start_time: stopped.start_time,
        end_time: stopped.end_time,
        duration_secs: stopped.duration_secs,
        pause_records: stopped.pause_records,
        params,
        note,
    }
}

} // verus!
