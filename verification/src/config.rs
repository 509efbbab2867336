//! What an upload is configured with.

use vstd::prelude::*;

verus! {

/// The configuration of the uploader as it is kept on disk.
#[derive(Debug, Clone)]
pub struct Config {
    pub project_id: String,
    pub dataset: String,
    pub table: String,
    pub location: String,
    /// How many records go into one request; zero for all in one.
    pub upload_batch_size: u32,
    pub enable_auto_upload: bool,
    pub enable_deduplication: bool,
    pub developer_id: String,
    pub user_email: String,
    pub project_name: String,
    pub service_account_key_path: String,
}

/// What one upload needs to know.
#[derive(Debug, Clone)]
pub struct UploadConfig {
    pub project_id: String,
    pub dataset: String,
    pub table: String,
    pub location: String,
    /// How many records go into one batch; zero for all in one.
    pub batch_size: usize,
    /// Whether records that were uploaded before are left out.
    pub enable_deduplication: bool,
    pub developer_id: String,
    pub user_email: String,
    pub project_name: String,
}

impl UploadConfig {
    /// A configuration of the given parts.
    pub fn new(
        project_id: String,
        dataset: String,
        table: String,
        location: String,
        batch_size: usize,
        enable_deduplication: bool,
        developer_id: String,
        user_email: String,
        project_name: String,
    ) -> (config: Self)
        ensures
            config == (UploadConfig {
                project_id,
                dataset,
                table,
                location,
                batch_size,
                enable_deduplication,
                developer_id,
                user_email,
                project_name,
            }),
    {
        UploadConfig {
            project_id,
            dataset,
            table,
            location,
            batch_size,
            enable_deduplication,
            developer_id,
            user_email,
            project_name,
        }
    }
}

} // verus!
