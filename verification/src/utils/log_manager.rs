use vstd::prelude::*;

verus! {

/// Severity of a log entry.
#[derive(Clone, Copy, Debug, PartialEq, Eq, Structural)]
pub enum LogLevel {
    Debug,
    Info,
    Warning,
    Error,
}

/// One structured log record as handed to the logger sink.
#[derive(Clone, Debug)]
pub struct LogEntry {
    pub level: LogLevel,
    pub message: String,
    pub timestamp: u64,
    pub target: String,
}

/// Relies on std's `SystemTime`: seconds elapsed since the Unix epoch, or 0
/// if the clock reads before it. Nothing can be promised of the clock's
/// value.
#[verifier::external_body]
fn current_unix_secs() -> u64 {
    std::time::SystemTime::now()
        .duration_since(std::time::UNIX_EPOCH)
        .unwrap_or_default()
        .as_secs()
}

impl LogEntry {
    /// Stamps a record with the current wall-clock time.
    pub fn new(level: LogLevel, message: &str, target: &str) -> (r: Self)
        ensures
            r.level == level,
            r.message@ == message@,
            r.target@ == target@,
    {
        let timestamp = current_unix_secs();
        Self { level, timestamp, target: target.to_owned(), message: message.to_owned() }
    }
}

} // verus!
