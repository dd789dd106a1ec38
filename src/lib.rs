//! Job execution and status-reporting core of a media-conversion service.
//!
//! The library holds the decisions of a job: the state machine that says
//! which media tool to run next and when the audio and video stages join,
//! the quality parameter of the video encode, the per-job status record and
//! its update rule, the service that answers status requests while stage
//! events arrive, the discovery of audio tracks, the argument vectors handed
//! to the tools, the readers of the tools' reports, the query-string reader
//! and the error bodies of the upload endpoint, and the table of a server's
//! jobs. Running processes, channels and the web server are left to the
//! caller.

pub mod commands;
pub mod error_responses;
pub mod folder_dance;
pub mod job_manager;
pub mod lines;
pub mod pipeline;
pub mod quality;
pub mod query_string;
pub mod reports;
pub mod run_app;
pub mod service;
pub mod status;
pub mod text;
pub mod tracks;

pub use quality::crf;
pub use status::{AudioConstants, AudioVideoStatus, JobStatus, JobToOverseerMessage, RequestForJobStatus};
