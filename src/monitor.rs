//! The API connection monitor: classifies each status check and describes
//! the latest classification for display.
use vstd::prelude::*;
use vstd::string::*;
use crate::api::{ApiError, ApiStatus, failure_message};
use crate::text::{clock, clock_text, decimal, decimal_text};

verus! {

/// A point in time, in whole seconds since the Unix epoch (UTC).
#[derive(Debug, Clone, Copy, PartialEq, Eq, Structural)]
pub struct Timestamp {
    pub unix_secs: u64,
}

/// The latest knowledge about the API's reachability.
#[derive(Debug, Clone)]
pub enum ApiConnectionStatus {
    /// No check has finished yet.
    Pending,
    /// The last check succeeded at the given time.
    Available(ApiStatus, Timestamp),
    /// The last check failed at the given time.
    Unavailable(ApiError, Timestamp),
}

/// Classifies the outcome of a status check made at `checked_at`.
pub fn classify_status_check(result: Result<ApiStatus, ApiError>, checked_at: Timestamp) -> (r: ApiConnectionStatus)
    ensures
        result is Ok ==> r == ApiConnectionStatus::Available(result->Ok_0, checked_at),
        result is Err ==> r == ApiConnectionStatus::Unavailable(result->Err_0, checked_at),
{
    match result {
        Ok(status) => ApiConnectionStatus::Available(status, checked_at),
        Err(e) => ApiConnectionStatus::Unavailable(e, checked_at),
    }
}

/// The colour of the status flag.
#[derive(Debug, Clone, Copy, PartialEq, Eq, Structural)]
pub enum FlagColor {
    Green,
    Red,
    Yellow,
}

impl FlagColor {
    /// The style class naming the colour.
    pub fn css_class(&self) -> (r: &'static str)
        ensures
            *self == FlagColor::Green ==> r@ == "green"@,
            *self == FlagColor::Red ==> r@ == "red"@,
            *self == FlagColor::Yellow ==> r@ == "yellow"@,
    {
        match self {
            FlagColor::Green => "green",
            FlagColor::Red => "red",
            FlagColor::Yellow => "yellow",
        }
    }
}

/// What the status display shows.
pub struct StatusDisplay {
    pub flag: FlagColor,
    pub message: String,
    /// Empty when there is nothing to show.
    pub queue_info: String,
    /// Empty when there is nothing to show.
    pub last_checked: String,
}

/// The queue line of an available API.
pub open spec fn queue_text(queued: u32, processing: u32) -> Seq<char> {
    decimal(queued as nat) + " jobs in queue, "@ + decimal(processing as nat) + " jobs processing"@
}

impl ApiConnectionStatus {
    /// Describes the status for display.
    pub fn display(&self) -> (r: StatusDisplay)
        ensures
            self is Pending ==> r.flag == FlagColor::Yellow && r.message@ == "Checking API status..."@
                && r.queue_info@.len() == 0 && r.last_checked@.len() == 0,
            self matches ApiConnectionStatus::Available(s, t) ==> r.flag == FlagColor::Green
                && r.message@ == "API Online"@
                && r.queue_info@ == queue_text(s.queue_state.queued_jobs, s.queue_state.processing_jobs)
                && r.last_checked@ == "Last checked at "@ + clock(t.unix_secs as nat),
            self matches ApiConnectionStatus::Unavailable(e, t) ==> r.flag == FlagColor::Red
                && r.message@ == failure_message(e@) && r.queue_info@.len() == 0
                && r.last_checked@ == "Last check failed at "@ + clock(t.unix_secs as nat),
    {
        match self {
            ApiConnectionStatus::Available(s, t) => {
                let q = decimal_text(s.queue_state.queued_jobs as u64).concat(" jobs in queue, ");
                let q = q.concat(decimal_text(s.queue_state.processing_jobs as u64).as_str());
                StatusDisplay {
                    flag: FlagColor::Green,
                    message: String::from_str("API Online"),
                    queue_info: q.concat(" jobs processing"),
                    last_checked: String::from_str("Last checked at ").concat(clock_text(t.unix_secs).as_str()),
                }
            },
            ApiConnectionStatus::Unavailable(e, t) => StatusDisplay {
                flag: FlagColor::Red,
                message: e.message(),
                queue_info: String::new(),
                last_checked: String::from_str("Last check failed at ").concat(clock_text(t.unix_secs).as_str()),
            },
            ApiConnectionStatus::Pending => StatusDisplay {
                flag: FlagColor::Yellow,
                message: String::from_str("Checking API status..."),
                queue_info: String::new(),
                last_checked: String::new(),
            },
        }
    }

    /// A one-line summary of reachability.
    pub fn summary(&self) -> (r: &'static str)
        ensures
            self is Pending ==> r@ == "Checking API status..."@,
            self is Available ==> r@ == "API is online"@,
            self is Unavailable ==> r@ == "API is unreachable"@,
    {
        match self {
            ApiConnectionStatus::Pending => "Checking API status...",
            ApiConnectionStatus::Available(_, _) => "API is online",
            ApiConnectionStatus::Unavailable(_, _) => "API is unreachable",
        }
    }
}

} // verus!
