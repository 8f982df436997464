use simple_api_rs::logging::{
    get_output, render, startup_announcement, ConsoleLogger, LogMessage, LogSink, LogType,
    LOG_CAPACITY,
};

#[test]
fn messages_carry_their_severity() {
    let i = LogMessage::info("a".to_string());
    let w = LogMessage::warn("b".to_string());
    let e = LogMessage::error("c".to_string());
    assert_eq!((i.0, i.1.as_str()), (LogType::Info, "a"));
    assert_eq!((w.0, w.1.as_str()), (LogType::Warning, "b"));
    assert_eq!((e.0, e.1.as_str()), (LogType::Error, "c"));
}

#[test]
fn clone_of_a_message_is_equal() {
    let m = LogMessage::warn("careful".to_string());
    let c = m.clone();
    assert_eq!(c.0, LogType::Warning);
    assert_eq!(c.1, "careful");
}

#[test]
fn render_info() {
    let line = render("2024-01-01 00:00:00 UTC", &LogMessage::info("started".to_string()));
    assert_eq!(line, "2024-01-01 00:00:00 UTC ---| Info: started");
}

#[test]
fn render_warning_has_two_blanks_before_the_label() {
    let line = render("2024-01-01 00:00:00 UTC", &LogMessage::warn("slow".to_string()));
    assert_eq!(line, "2024-01-01 00:00:00 UTC  ---| Warning: slow");
}

#[test]
fn render_error() {
    let line = render("2024-01-01 00:00:00 UTC", &LogMessage::error("broken".to_string()));
    assert_eq!(line, "2024-01-01 00:00:00 UTC ---| Error: broken");
}

#[test]
fn render_of_empty_parts() {
    assert_eq!(render("", &LogMessage::info(String::new())), " ---| Info: ");
}

#[test]
fn every_name_stands_for_the_console() {
    assert_eq!(get_output("console"), LogSink::Console);
    assert_eq!(get_output("file"), LogSink::Console);
    assert_eq!(get_output(""), LogSink::Console);
}

#[test]
fn console_line_ends_with_label_and_text() {
    let line = ConsoleLogger.log(LogMessage::error("it broke".to_string()));
    assert!(line.ends_with(" ---| Error: it broke"));
    let stamp = &line[..line.len() - " ---| Error: it broke".len()];
    assert!(stamp.ends_with("UTC"), "no timestamp in {:?}", line);
    assert!(stamp.len() > 10);
    let year: u32 = stamp[..4].parse().expect("the timestamp starts with the year");
    assert!(year >= 2024);
}

#[test]
fn capacity_is_one_hundred() {
    assert_eq!(LOG_CAPACITY, 100);
}

#[test]
fn announcement_of_the_start() {
    let m = startup_announcement();
    assert_eq!(m.0, LogType::Info);
    assert_eq!(m.1, "Starting logger");
}

#[test]
fn console_lines_carry_a_timestamp_in_utc() {
    for text in ["", "a", "UTC"] {
        let line = ConsoleLogger.log(LogMessage::info(text.to_string()));
        let tail = format!(" UTC ---| Info: {}", text);
        assert!(line.ends_with(&tail), "{:?} does not end with {:?}", line, tail);
        assert!(line.len() > tail.len());
    }
}
