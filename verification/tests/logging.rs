use cthulhu_bot::logging::{lines_of, BotEventCounter, LogLevel, Logger};

#[test]
fn record_pads_date_and_level() {
    let date = "2024-01-01T00:00:00+00:00";
    let s = Logger::format_record(date, LogLevel::Info, "hello\nworld");
    let head = format!("{:35} [INFO ] ", date);
    assert_eq!(s, format!("{}hello\n{}world\n", head, head));
}

#[test]
fn record_of_empty_message_is_empty() {
    assert_eq!(Logger::format_record("d", LogLevel::Error, ""), "");
}

#[test]
fn record_matches_format_macro() {
    let date = "2024-05-06T07:08:09.123456789+00:00";
    for (level, name) in [
        (LogLevel::Error, "ERROR"),
        (LogLevel::Warn, "WARN"),
        (LogLevel::Info, "INFO"),
        (LogLevel::Debug, "DEBUG"),
        (LogLevel::Trace, "TRACE"),
    ] {
        let msg = "one\r\ntwo\n\nthree\n";
        let expected: String = msg.lines().map(|l| format!("{:35} [{:5}] {}\n", date, name, l)).collect();
        assert_eq!(Logger::format_record(date, level, msg), expected);
    }
}

#[test]
fn lines_like_std() {
    for s in ["", "\n", "a", "a\n", "a\r\nb", "a\rb\r", "x\n\ny", "\r\n\r\n"] {
        let expected: Vec<String> = s.lines().map(|l| l.to_string()).collect();
        assert_eq!(lines_of(s), expected);
    }
}

#[test]
fn enabled_only_for_package() {
    assert!(Logger::enabled("cthulhu_bot::handler", "cthulhu_bot"));
    assert!(Logger::enabled("cthulhu_bot", "cthulhu_bot"));
    assert!(!Logger::enabled("serenity::gateway", "cthulhu_bot"));
    assert!(!Logger::enabled("cthulhu", "cthulhu_bot"));
}

#[test]
fn warnings_go_to_stderr() {
    assert!(Logger::to_stderr(LogLevel::Error));
    assert!(Logger::to_stderr(LogLevel::Warn));
    assert!(!Logger::to_stderr(LogLevel::Info));
    assert!(!Logger::to_stderr(LogLevel::Trace));
}

#[test]
fn error_report_lists_causes() {
    let chain = vec!["top".to_string(), "mid".to_string(), "root".to_string()];
    assert_eq!(Logger::error_report(&chain), "top\n  because: mid\n  because: root\n");
    assert_eq!(Logger::error_report(&vec!["only".to_string()]), "only\n");
    assert_eq!(Logger::fatal_notice("x"), "\n[치명적 오류 발생 - 봇 종료됨]\nx\n");
}

#[test]
fn delay_until_midnight_values() {
    assert_eq!(Logger::delay_until_midnight(0, 0), Some(86_400_000_000_000));
    assert_eq!(Logger::delay_until_midnight(86_399, 999_999_999), Some(1));
    assert_eq!(Logger::delay_until_midnight(-1, 0), Some(1_000_000_000));
    assert_eq!(Logger::delay_until_midnight(1_700_000_000, 500), Some((86_400 - 1_700_000_000 % 86_400) * 1_000_000_000 - 500));
    assert_eq!(Logger::delay_until_midnight(59, 1_500_000_000), None);
}

#[test]
fn next_report_is_within_a_day() {
    let d = Logger::duration_to_next_report().unwrap();
    assert!(d > 0 && d <= 86_400_000_000_000);
    let w = Logger::wait_before_report();
    assert!(w > 0 && w <= 86_400_000_000_000);
}

#[test]
fn counters_count_and_reset() {
    let mut c = BotEventCounter::new();
    c.increment("sk7");
    c.increment("op7");
    c.increment("sk7");
    assert_eq!(c.count("sk7"), 2);
    assert_eq!(c.count("op7"), 1);
    assert_eq!(c.count("선택"), 0);
    assert_eq!(c.report_to_log(), "Usage report\n  sk7: 2\n  op7: 1\n");
    assert_eq!(c.count("sk7"), 0);
    assert_eq!(c.report_to_log(), "Usage report\n  Nothing");
}
