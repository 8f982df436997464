//! Log messages and their rendering.
//!
//! The logging actor itself, one consumer behind a bounded channel, is
//! for an async runtime to run. What it is given from here: the
//! messages, the capacity of its channel, the choice of its sink, and the
//! line that the sink writes for a message.

use vstd::prelude::*;

verus! {

/// How many messages the channel of the logging actor holds. A producer
/// that finds it full waits for room.
pub const LOG_CAPACITY: usize = 100;

/// Severity of a log message.
#[derive(Clone, Copy, Debug, PartialEq, Eq, Structural)]
pub enum LogType {
    Info,
    Warning,
    Error,
}

/// A log message: its severity and its text.
#[derive(Debug)]
pub struct LogMessage(pub LogType, pub String);

/// A log message with its text as a sequence of characters.
pub struct LogMessageView {
    pub severity: LogType,
    pub text: Seq<char>,
}

impl View for LogMessage {
    type V = LogMessageView;

    open spec fn view(&self) -> LogMessageView {
        LogMessageView { severity: self.0, text: self.1@ }
    }
}

impl Clone for LogMessage {
    fn clone(&self) -> (r: Self)
        ensures
            r@ == self@,
    {
        LogMessage(self.0, self.1.clone())
    }
}

impl LogMessage {
    pub fn info(message: String) -> (r: Self)
        ensures
            r@ == (LogMessageView { severity: LogType::Info, text: message@ }),
    {
        LogMessage(LogType::Info, message)
    }

    pub fn warn(message: String) -> (r: Self)
        ensures
            r@ == (LogMessageView { severity: LogType::Warning, text: message@ }),
    {
        LogMessage(LogType::Warning, message)
    }

    pub fn error(message: String) -> (r: Self)
        ensures
            r@ == (LogMessageView { severity: LogType::Error, text: message@ }),
    {
        LogMessage(LogType::Error, message)
    }
}

/// The label that a rendered line shows for a severity, with the blanks
/// that separate it from the timestamp before it and the text after it.
pub open spec fn label(severity: LogType) -> Seq<char> {
    match severity {
        LogType::Info => " ---| Info: "@,
        LogType::Warning => "  ---| Warning: "@,
        LogType::Error => " ---| Error: "@,
    }
}

/// A rendered line: the timestamp, the label of the severity, the text.
pub open spec fn rendered(timestamp: Seq<char>, message: LogMessageView) -> Seq<char> {
    timestamp + label(message.severity) + message.text
}

/// Renders a message as one line of log output.
pub fn render(timestamp: &str, message: &LogMessage) -> (line: String)
    ensures
        line@ == rendered(timestamp@, message@),
{
    let head = timestamp.to_owned();
    let labelled = match message.0 {
        LogType::Info => head.concat(" ---| Info: "),
        LogType::Warning => head.concat("  ---| Warning: "),
        LogType::Error => head.concat(" ---| Error: "),
    };
    labelled.concat(message.1.as_str())
}

/// Where rendered lines go.
#[derive(Clone, Copy, Debug, PartialEq, Eq, Structural)]
pub enum LogSink {
    /// Standard output.
    Console,
}

/// Picks the sink that a configured name stands for. Every name stands for
/// the console, which is the only sink.
pub fn get_output(output: &str) -> (sink: LogSink)
    ensures
        sink == LogSink::Console,
{
    LogSink::Console
}

/// Whether a text ends as a timestamp in UTC does: with a blank and `UTC`.
pub open spec fn is_utc_stamp(text: Seq<char>) -> bool {
    text.len() >= 4 && text.subrange(text.len() - 4, text.len() as int) == " UTC"@
}

/// Calls `chrono::Utc::now` and renders the time with its `Display`, as
/// `to_string` does. The text depends on the clock; what holds of every
/// such text is that chrono writes the date and time, then a blank, then
/// `UTC`. chrono gives up where the clock reads a time before 1970.
#[verifier::external_body]
fn utc_timestamp() -> (stamp: String)
    ensures
        is_utc_stamp(stamp@),
{
    chrono::Utc::now().to_string()
}

/// The sink that writes to standard output.
#[derive(Clone, Copy, Debug)]
pub struct ConsoleLogger;

impl ConsoleLogger {
    /// Renders the line that the console shows for a message: the current
    /// time in UTC, then the label of the severity, then the text.
    pub fn log(&self, log_message: LogMessage) -> (line: String)
        ensures
            exists|timestamp: Seq<char>|
                is_utc_stamp(timestamp) && line@ == rendered(timestamp, log_message@),
    {
        let timestamp = utc_timestamp();
        let line = render(timestamp.as_str(), &log_message);
        assert(is_utc_stamp(timestamp@) && line@ == rendered(timestamp@, log_message@));
        line
    }
}

/// The announcement that the logging actor makes when it starts.
pub open spec fn startup_message() -> LogMessageView {
    LogMessageView { severity: LogType::Info, text: "Starting logger"@ }
}

/// Makes the announcement of the start. It is sent without waiting, and
/// is lost where the channel has no room for it.
pub fn startup_announcement() -> (message: LogMessage)
    ensures
        message@ == startup_message(),
{
    LogMessage::info("Starting logger".to_owned())
}

} // verus!
