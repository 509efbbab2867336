//! Where session logs are read from.

use vstd::prelude::*;
use crate::failure::Failure;
use crate::session_log::SessionLogInput;

verus! {

/// Finds and reads log files.
pub trait LogRepository {
    /// The paths of the log files under `log_dir`.
    fn discover_log_files(&mut self, log_dir: &str) -> Result<Vec<String>, Failure>;

    /// The records of the log file at `file_path`, in the order of the file.
    fn parse_log_file(&mut self, file_path: &str) -> Result<Vec<SessionLogInput>, Failure>;
}

} // verus!
