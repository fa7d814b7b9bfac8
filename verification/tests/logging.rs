use minilog::current_timestamp;
use minilog::ConsoleLogger;
use minilog::LogBackend;
use minilog::LogLevel;
use minilog::LogMessage;

#[test]
fn label_literals() {
    assert_eq!(LogLevel::Info.label(), "Info");
    assert_eq!(LogLevel::Warning.label(), "Warning");
    assert_eq!(LogLevel::Error.label(), "Error");
}

#[test]
fn render_exact() {
    let m = LogMessage::new(42, LogLevel::Info, String::from("hello"));
    assert_eq!(m.render(), "[42][Info] hello");
}

#[test]
fn render_each_level() {
    let i = LogMessage::new(7, LogLevel::Info, String::from("a"));
    let w = LogMessage::new(7, LogLevel::Warning, String::from("a"));
    let e = LogMessage::new(7, LogLevel::Error, String::from("a"));
    assert_eq!(i.render(), "[7][Info] a");
    assert_eq!(w.render(), "[7][Warning] a");
    assert_eq!(e.render(), "[7][Error] a");
}

#[test]
fn render_empty_content() {
    let m = LogMessage::new(1000, LogLevel::Warning, String::new());
    assert_eq!(m.render(), "[1000][Warning] ");
}

#[test]
fn render_zero_timestamp() {
    let m = LogMessage::new(0, LogLevel::Error, String::from("boot"));
    assert_eq!(m.render(), "[0][Error] boot");
}

#[test]
fn render_largest_timestamp() {
    let m = LogMessage::new(u64::MAX, LogLevel::Info, String::from("x"));
    assert_eq!(m.render(), "[18446744073709551615][Info] x");
}

#[test]
fn render_round_number_timestamps() {
    let m = LogMessage::new(10, LogLevel::Info, String::from("t"));
    assert_eq!(m.render(), "[10][Info] t");
    let m = LogMessage::new(1000000000, LogLevel::Info, String::from("t"));
    assert_eq!(m.render(), "[1000000000][Info] t");
}

#[test]
fn render_long_content() {
    let content = "z".repeat(10000);
    let m = LogMessage::new(5, LogLevel::Info, content.clone());
    let mut expected = String::from("[5][Info] ");
    expected.push_str(&content);
    assert_eq!(m.render(), expected);
}

#[test]
fn render_repeatable() {
    let m = LogMessage::new(123456789, LogLevel::Warning, String::from("again and again"));
    let first = m.render();
    let second = m.render();
    assert_eq!(first, second);
}

#[test]
fn clock_nondecreasing() {
    let t1 = current_timestamp();
    let t2 = current_timestamp();
    assert!(t2 >= t1);
}

#[test]
fn console_log_returns_unit() {
    let logger = ConsoleLogger::new();
    let m = LogMessage::new(3, LogLevel::Info, String::from("console check"));
    let r: () = logger.log(&m);
    assert_eq!(r, ());
}
