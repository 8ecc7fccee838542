//! Client-side orchestration of asynchronous transcription jobs: the API's
//! error taxonomy and response classification, the job lifecycle state
//! machine with its persisted slot, the polling scheduler, and the API
//! connection monitor.
pub mod api;
pub mod config;
pub mod lifecycle;
pub mod monitor;
pub mod scheduler;
pub mod text;
