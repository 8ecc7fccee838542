//! The transcription API's data types, its error taxonomy, and the decisions
//! that the client makes around each request: which URL to call, and what an
//! HTTP status means for the operation.
use vstd::prelude::*;
use vstd::string::*;
use crate::config::{API_STATUS_ENDPOINT, API_TRANSCRIPTION_ENDPOINT};
use crate::text::{decimal, decimal_text};

verus! {

/// Error of an API operation.
#[derive(Debug, Clone, PartialEq)]
pub enum ApiError {
    /// Transport failure: the request could not be sent or answered.
    RequestFailed(String),
    /// The server answered with a non-2xx status and this body.
    HttpError(u16, String),
    /// The response body does not match the expected schema.
    ParseError(String),
    /// The selected local file could not be read.
    FileNotAvailable,
    /// No base URL is configured.
    NotConfigured,
    /// The job is unknown to the server (HTTP 404 on its status).
    NotFound,
}

/// What an `ApiError` holds, with its texts as character sequences.
pub enum ApiFailure {
    RequestFailed(Seq<char>),
    HttpError(u16, Seq<char>),
    ParseError(Seq<char>),
    FileNotAvailable,
    NotConfigured,
    NotFound,
}

impl View for ApiError {
    type V = ApiFailure;

    open spec fn view(&self) -> ApiFailure {
        match self {
            ApiError::RequestFailed(m) => ApiFailure::RequestFailed(m@),
            ApiError::HttpError(c, b) => ApiFailure::HttpError(*c, b@),
            ApiError::ParseError(m) => ApiFailure::ParseError(m@),
            ApiError::FileNotAvailable => ApiFailure::FileNotAvailable,
            ApiError::NotConfigured => ApiFailure::NotConfigured,
            ApiError::NotFound => ApiFailure::NotFound,
        }
    }
}

/// The text shown to a user for an error.
pub open spec fn failure_message(e: ApiFailure) -> Seq<char> {
    match e {
        ApiFailure::RequestFailed(m) => "Request failed: "@ + m,
        ApiFailure::HttpError(c, b) => "HTTP error "@ + decimal(c as nat) + ": "@ + b,
        ApiFailure::ParseError(m) => "Invalid response: "@ + m,
        ApiFailure::FileNotAvailable => "File not available for submission."@,
        ApiFailure::NotConfigured => "API URL is not configured"@,
        ApiFailure::NotFound => "Job not found on the server"@,
    }
}

impl ApiError {
    /// The text shown to a user for this error.
    pub fn message(&self) -> (r: String)
        ensures
            r@ == failure_message(self@),
    {
        match self {
            ApiError::RequestFailed(m) => String::from_str("Request failed: ").concat(m.as_str()),
            ApiError::HttpError(c, b) => {
                let r = String::from_str("HTTP error ").concat(decimal_text(*c as u64).as_str());
                r.concat(": ").concat(b.as_str())
            },
            ApiError::ParseError(m) => String::from_str("Invalid response: ").concat(m.as_str()),
            ApiError::FileNotAvailable => String::from_str("File not available for submission."),
            ApiError::NotConfigured => String::from_str("API URL is not configured"),
            ApiError::NotFound => String::from_str("Job not found on the server"),
        }
    }
}

/// The status of a job as the server reports it.
#[derive(Debug, Clone, Copy, PartialEq, Eq, Structural)]
pub enum JobStatus {
    Queued,
    Processing,
    Completed,
    Failed,
}

/// A job's state as returned by the job-status endpoint.
#[derive(Debug, Clone, PartialEq)]
pub struct JobState {
    pub status: JobStatus,
    /// Position in the server's queue, meaningful while `Queued`.
    pub queue_position: Option<u32>,
    /// The transcription when `Completed`, or the failure detail when `Failed`.
    pub data: Option<String>,
}

/// What a `JobState` holds, with its texts as character sequences.
pub struct JobProgress {
    pub status: JobStatus,
    pub queue_position: Option<u32>,
    pub data: Option<Seq<char>>,
}

/// The view of an optional string.
pub open spec fn opt_view(s: Option<String>) -> Option<Seq<char>> {
    match s {
        Some(t) => Some(t@),
        None => None,
    }
}

impl View for JobState {
    type V = JobProgress;

    open spec fn view(&self) -> JobProgress {
        JobProgress { status: self.status, queue_position: self.queue_position, data: opt_view(self.data) }
    }
}

/// The answer to a successful asynchronous submission.
#[derive(Debug, Clone, PartialEq)]
pub struct TranscriptionJob {
    pub job_id: String,
    pub job_status: String,
    pub queued_at: String,
    pub message: String,
    pub url: String,
}

/// What a `TranscriptionJob` holds, as character sequences.
pub struct JobRecord {
    pub job_id: Seq<char>,
    pub job_status: Seq<char>,
    pub queued_at: Seq<char>,
    pub message: Seq<char>,
    pub url: Seq<char>,
}

impl View for TranscriptionJob {
    type V = JobRecord;

    open spec fn view(&self) -> JobRecord {
        JobRecord {
            job_id: self.job_id@,
            job_status: self.job_status@,
            queued_at: self.queued_at@,
            message: self.message@,
            url: self.url@,
        }
    }
}

/// Snapshot returned by the status endpoint.
#[derive(Debug, Clone)]
pub struct ApiStatus {
    pub server: ServerConfig,
    pub processing: ProcessingConfig,
    pub resources: ResourcesConfig,
    pub security: SecurityConfig,
    pub queue_state: QueueState,
    pub error: Option<String>,
}

/// Server section of the status snapshot.
#[derive(Debug, Clone)]
pub struct ServerConfig {
    pub host: String,
    pub port: String,
    pub timeout: u32,
    pub keepalive: u32,
    pub worker_number: u32,
}

/// Processing section of the status snapshot.
#[derive(Debug, Clone)]
pub struct ProcessingConfig {
    pub concurrent_mode: bool,
    pub max_concurrent_jobs: u32,
    pub device: String,
    pub device_index: String,
    pub default_output_format: String,
    pub default_sync_mode: bool,
    pub sync_timeout: u32,
}

/// Resource limits section of the status snapshot.
#[derive(Debug, Clone)]
pub struct ResourcesConfig {
    pub max_file_size: u64,
    pub job_retention_hours: u32,
    pub cleanup_interval_hours: u32,
}

/// Security section of the status snapshot.
#[derive(Debug, Clone)]
pub struct SecurityConfig {
    pub authorization_enabled: bool,
}

/// Queue counts of the status snapshot.
#[derive(Debug, Clone)]
pub struct QueueState {
    pub queued_jobs: u32,
    pub processing_jobs: u32,
}

/// Whether an HTTP status is a success (2xx).
pub open spec fn http_success(status: u16) -> bool {
    200 <= status <= 299
}

/// `base` followed by `path`, or `NotConfigured` when `base` is empty.
pub open spec fn endpoint(base: Seq<char>, path: Seq<char>) -> Result<Seq<char>, ApiFailure> {
    if base.len() == 0 {
        Err(ApiFailure::NotConfigured)
    } else {
        Ok(base + path)
    }
}

/// The view of a URL result.
pub open spec fn url_view(r: Result<String, ApiError>) -> Result<Seq<char>, ApiFailure> {
    match r {
        Ok(u) => Ok(u@),
        Err(e) => Err(e@),
    }
}

fn join_url(api_url: &str, path: &str) -> (r: Result<String, ApiError>)
    ensures
        url_view(r) == endpoint(api_url@, path@),
{
    if api_url.is_empty() {
        Err(ApiError::NotConfigured)
    } else {
        Ok(String::from_str(api_url).concat(path))
    }
}

/// URL of the status endpoint; an empty base URL is refused before any request.
pub fn status_url(api_url: &str) -> (r: Result<String, ApiError>)
    ensures
        url_view(r) == endpoint(api_url@, API_STATUS_ENDPOINT@),
{
    join_url(api_url, API_STATUS_ENDPOINT)
}

/// URL of the submission endpoint; an empty base URL is refused before any request.
pub fn submission_url(api_url: &str) -> (r: Result<String, ApiError>)
    ensures
        url_view(r) == endpoint(api_url@, API_TRANSCRIPTION_ENDPOINT@),
{
    join_url(api_url, API_TRANSCRIPTION_ENDPOINT)
}

/// URL of one job's status; an empty base URL is refused before any request.
pub fn job_status_url(api_url: &str, job_id: &str) -> (r: Result<String, ApiError>)
    ensures
        url_view(r) == endpoint(api_url@, API_TRANSCRIPTION_ENDPOINT@ + "/"@ + job_id@),
{
    let path = String::from_str(API_TRANSCRIPTION_ENDPOINT).concat("/").concat(job_id);
    join_url(api_url, path.as_str())
}

/// Hands back the body of a 2xx response; any other status is an `HttpError`
/// carrying the status and the body.
pub fn check_http_status(status: u16, body: String) -> (r: Result<String, ApiError>)
    ensures
        http_success(status) ==> r == Ok::<String, ApiError>(body),
        !http_success(status) ==> r == Err::<String, ApiError>(ApiError::HttpError(status, body)),
{
    if 200 <= status && status <= 299 {
        Ok(body)
    } else {
        Err(ApiError::HttpError(status, body))
    }
}

/// As `check_http_status`, for the job-status endpoint, where a 404 means
/// that the job is gone (`NotFound`) rather than a transient failure.
pub fn check_job_status_http(status: u16, body: String) -> (r: Result<String, ApiError>)
    ensures
        status == 404 ==> r == Err::<String, ApiError>(ApiError::NotFound),
        status != 404 && http_success(status) ==> r == Ok::<String, ApiError>(body),
        status != 404 && !http_success(status) ==> r == Err::<String, ApiError>(
            ApiError::HttpError(status, body),
        ),
{
    if status == 404 {
        Err(ApiError::NotFound)
    } else {
        check_http_status(status, body)
    }
}

} // verus!
