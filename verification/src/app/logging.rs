//! Where the program writes what it does, and how much of it.
use crate::text::{lowered, same_ignoring_case};
use vstd::prelude::*;

verus! {

/// A file in a directory.
#[derive(Debug, Clone)]
pub struct LogPath {
    pub directory: String,
    pub file: String,
}

/// The file for a run that started at the given time.
pub fn runtime_log_path(timestamp: &str) -> (path: LogPath)
    ensures
        path.directory@ == "logs"@,
        path.file@ == "kterm_"@ + timestamp@ + ".log"@,
{
    LogPath {
        directory: String::from_str("logs"),
        file: String::from_str("kterm_").concat(timestamp).concat(".log"),
    }
}

/// Whether frames are written down: where the environment says 1, true, yes or on.
pub fn rdp_trace_enabled(value: Option<&str>) -> (enabled: bool)
    ensures
        enabled == (match value {
            Some(v) => lowered(v@) == "1"@ || lowered(v@) == "true"@ || lowered(v@) == "yes"@
                || lowered(v@) == "on"@,
            None => false,
        }),
{
    match value {
        Some(v) => same_ignoring_case(v, "1") || same_ignoring_case(v, "true")
            || same_ignoring_case(v, "yes") || same_ignoring_case(v, "on"),
        None => false,
    }
}

} // verus!
