//! The user-facing metadata of API objects, and how long objects may stay in a state.

use vstd::prelude::*;

verus! {

/// The name, description and labels of an API object.
#[derive(Debug, Clone, Default)]
pub struct Metadata {
    pub name: String,
    pub description: String,
    /// Label keys and values, each key once.
    pub labels: Vec<(String, String)>,
}

/// The service-level agreement of an object's state: how long the object may stay in it, if
/// there is a limit, and whether it has stayed longer.
#[derive(Debug, Clone, Copy, PartialEq, Eq, Structural)]
pub struct StateSla {
    pub sla_secs: Option<u64>,
    pub time_in_state_above_sla: bool,
}

impl StateSla {
    /// A state with no time limit.
    pub fn no_sla() -> (r: StateSla)
        ensures
            r == (StateSla { sla_secs: None, time_in_state_above_sla: false }),
    {
        StateSla { sla_secs: None, time_in_state_above_sla: false }
    }

    /// A state with a time limit of `sla_secs`, where the object has been for
    /// `time_in_state_secs`.
    pub fn with_sla(sla_secs: u64, time_in_state_secs: u64) -> (r: StateSla)
        ensures
            r == (StateSla { sla_secs: Some(sla_secs), time_in_state_above_sla: time_in_state_secs > sla_secs }),
    {
        StateSla { sla_secs: Some(sla_secs), time_in_state_above_sla: time_in_state_secs > sla_secs }
    }
}

/// How long an object has been in its state, in seconds, given the time now and when the
/// state was entered: where the state seems to be entered in the future, a day.
pub open spec fn time_in_state(now_secs: i64, entered_secs: i64) -> u64 {
    if now_secs >= entered_secs {
        (now_secs - entered_secs) as u64
    } else {
        86400
    }
}

/// How long an object has been in its state, in seconds.
pub fn time_in_state_secs(now_secs: i64, entered_secs: i64) -> (r: u64)
    ensures
        r == time_in_state(now_secs, entered_secs),
{
    if now_secs >= entered_secs {
        let d: i128 = now_secs as i128 - entered_secs as i128;
        d as u64
    } else {
        86400
    }
}

} // verus!
