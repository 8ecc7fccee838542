//! Configuration constants.
use vstd::prelude::*;

verus! {

/// Default URL of the transcription API.
pub const DEFAULT_API_URL: &'static str = "https://llm.iut-rodez.fr/leontine/api";

/// Path of the API status endpoint.
pub const API_STATUS_ENDPOINT: &'static str = "/status";

/// Path of the transcription submission endpoint; a job's status lives below it.
pub const API_TRANSCRIPTION_ENDPOINT: &'static str = "/transcriptions";

/// Delay before the first API status check, in milliseconds.
pub const API_STATUS_INITIAL_CHECK_MS: u64 = 100;

/// Interval between API status checks, in milliseconds.
pub const API_STATUS_CHECK_INTERVAL_MS: u64 = 30000;

/// Interval between two polls of the active job, in milliseconds.
pub const JOB_POLL_INTERVAL_MS: u32 = 5000;

/// Storage key of the configured API URL.
pub const API_URL_KEY: &'static str = "api_url";

/// Storage key of the active job.
pub const ACTIVE_JOB_KEY: &'static str = "leontine-active-job";

} // verus!
