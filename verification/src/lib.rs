//! Resilient batch upload of session logs: partitioning, retry and backoff,
//! error classification and idempotent upload-state bookkeeping.

pub mod batch_uploader;
pub mod bigquery_upload_repository;
pub mod client;
pub mod config;
pub mod deduplication;
pub mod engine;
pub mod engine_laws;
pub mod failure;
pub mod log_repository;
pub mod parse_logs;
pub mod retry;
pub mod session_log;
pub mod state_repository;
pub mod system;
pub mod text;
pub mod upload_batch;
pub mod upload_logs;
pub mod upload_repository;
pub mod uuid_set;
pub mod workflow;
