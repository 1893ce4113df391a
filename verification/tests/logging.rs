use mahjong_core::utils::log_manager::{LogEntry, LogLevel};

#[test]
fn log_entries_keep_their_text_and_target() {
    let entry = LogEntry::new(LogLevel::Info, "server started", "core");
    assert_eq!(entry.level, LogLevel::Info);
    assert_eq!(entry.message, "server started");
    assert_eq!(entry.target, "core");
}

#[test]
fn log_entries_are_stamped_with_wall_clock_seconds() {
    let a = LogEntry::new(LogLevel::Debug, "first", "core");
    let b = LogEntry::new(LogLevel::Error, "second", "core");
    // the clock is monotonic enough across two immediate calls
    assert!(b.timestamp >= a.timestamp);
    assert!(a.timestamp > 0);
}
