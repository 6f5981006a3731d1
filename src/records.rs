use vstd::prelude::*;
use vstd::string::*;

verus! {

/// What a job hands back to the user interface when it succeeds.
#[derive(Debug)]
pub struct OperationResult {
    pub status: String,
    pub message: String,
    pub progress: u8,
}

/// One progress notification of a running job.
#[derive(Debug)]
pub struct ProgressUpdate {
    pub progress: u8,
    pub message: String,
    pub timestamp: String,
}

/// Versions of the application and of what it runs on.
#[derive(Debug)]
pub struct VersionInfo {
    pub app_version: String,
    pub tauri_version: String,
    pub rust_version: String,
    pub platform: String,
}

/// An RFC 3339 time stamp in UTC: at least year, month, day, hour, minute
/// and second, ending in the offset `+00:00`.
pub open spec fn is_utc_stamp(s: Seq<char>) -> bool {
    &&& s.len() >= 25
    &&& s.subrange(s.len() - 6, s.len() as int) == "+00:00"@
}

/// Relies on chrono's `Utc::now` and `DateTime::to_rfc3339`: the current time
/// written with a year of four digits or more, then month, day, hour, minute,
/// second, an optional fraction and the offset `+00:00`. `Utc::now` panics
/// only where the system clock reads a time before 1970.
#[verifier::external_body]
fn utc_now_rfc3339() -> (r: String)
    ensures
        is_utc_stamp(r@),
{
    chrono::Utc::now().to_rfc3339()
}

impl ProgressUpdate {
    /// A notification of `progress` percent with `message`, stamped with the
    /// current time.
    pub fn stamped(progress: u8, message: String) -> (r: ProgressUpdate)
        ensures
            r.progress == progress,
            r.message == message,
            is_utc_stamp(r.timestamp@),
    {
        ProgressUpdate { progress, message, timestamp: utc_now_rfc3339() }
    }
}

impl VersionInfo {
    /// The version record; a compiler version that could not be learnt reads
    /// `Unknown`.
    pub fn new(
        app_version: String,
        tauri_version: String,
        rust_version: Option<String>,
        platform: String,
    ) -> (r: VersionInfo)
        ensures
            r.app_version == app_version,
            r.tauri_version == tauri_version,
            r.platform == platform,
            r.rust_version@ == match rust_version {
                Some(v) => v@,
                None => "Unknown"@,
            },
    {
        let rust_version = match rust_version {
            Some(v) => v,
            None => String::from_str("Unknown"),
        };
        VersionInfo { app_version, tauri_version, rust_version, platform }
    }
}

} // verus!
