use vstd::prelude::*;

verus! {

/// The level of verbosity to write logs with. The levels are ordered: each
/// is more urgent than the one before it.
#[derive(Clone, Copy, Debug, PartialEq, Eq, PartialOrd, Ord, Structural)]
pub enum LogLevel {
    Debug,
    Info,
    Warning,
    Error,
    Critical,
}

impl LogLevel {
    /// The place of the level in the order of urgency, from 0 for `Debug`
    /// to 4 for `Critical`.
    pub open spec fn rank(self) -> nat {
        match self {
            LogLevel::Debug => 0,
            LogLevel::Info => 1,
            LogLevel::Warning => 2,
            LogLevel::Error => 3,
            LogLevel::Critical => 4,
        }
    }

    /// Whether this level is as urgent as `threshold`, or more.
    pub open spec fn spec_at_least(self, threshold: LogLevel) -> bool {
        self.rank() >= threshold.rank()
    }

    /// The place of the level in the order of urgency.
    fn rank_number(self) -> (rank: u8)
        ensures
            rank == self.rank(),
    {
        match self {
            LogLevel::Debug => 0,
            LogLevel::Info => 1,
            LogLevel::Warning => 2,
            LogLevel::Error => 3,
            LogLevel::Critical => 4,
        }
    }

    /// Whether this level is as urgent as `threshold`, or more.
    #[verifier::when_used_as_spec(spec_at_least)]
    pub fn at_least(self, threshold: LogLevel) -> (reached: bool)
        ensures
            reached == self.spec_at_least(threshold),
    {
        self.rank_number() >= threshold.rank_number()
    }
}

/// The levels are told apart by their place in the order: two levels of the
/// same rank are the same level. So the order is total, with `Debug` below
/// `Info`, below `Warning`, below `Error`, below `Critical`.
pub proof fn lemma_log_levels_are_ordered(a: LogLevel, b: LogLevel)
    ensures
        a.rank() == b.rank() <==> a == b,
        a.at_least(b) || b.at_least(a),
        LogLevel::Debug.rank() < LogLevel::Info.rank() < LogLevel::Warning.rank()
            < LogLevel::Error.rank() < LogLevel::Critical.rank(),
{
}

/// The name of a level, as it is shown in a log line.
pub open spec fn level_name(level: LogLevel) -> Seq<char> {
    match level {
        LogLevel::Debug => "Debug"@,
        LogLevel::Info => "Info"@,
        LogLevel::Warning => "Warning"@,
        LogLevel::Error => "Error"@,
        LogLevel::Critical => "Critical"@,
    }
}

/// Returns the name of the level.
pub fn get_readable_loglevel(ll: &LogLevel) -> (name: &'static str)
    ensures
        name@ == level_name(*ll),
{
    match ll {
        LogLevel::Debug => "Debug",
        LogLevel::Info => "Info",
        LogLevel::Warning => "Warning",
        LogLevel::Error => "Error",
        LogLevel::Critical => "Critical",
    }
}

/// The line that reports `message` at `level`: the level's name in square
/// brackets, a space, and the message.
pub open spec fn log_line(level: LogLevel, message: Seq<char>) -> Seq<char> {
    "["@ + level_name(level) + "] "@ + message
}

/// A message to log, with the level to log it at.
#[derive(Debug, PartialEq, Eq)]
pub struct LogRecord {
    pub level: LogLevel,
    pub message: String,
}

/// What a [`LogRecord`] holds, with the message as a sequence of characters.
pub struct LogRecordView {
    pub level: LogLevel,
    pub message: Seq<char>,
}

impl View for LogRecord {
    type V = LogRecordView;

    open spec fn view(&self) -> LogRecordView {
        LogRecordView { level: self.level, message: self.message@ }
    }
}

/// What logging a message comes to: the line to append to the log file, and
/// whether the line is shown on the console as well.
#[derive(Debug, PartialEq, Eq)]
pub struct LogOutput {
    pub line: String,
    pub to_console: bool,
}

/// What a [`LogOutput`] holds, with the line as a sequence of characters.
pub struct LogOutputView {
    pub line: Seq<char>,
    pub to_console: bool,
}

impl View for LogOutput {
    type V = LogOutputView;

    open spec fn view(&self) -> LogOutputView {
        LogOutputView { line: self.line@, to_console: self.to_console }
    }
}

/// What logging `message` at `level` comes to when the console shows the
/// levels from `threshold` up: the line always goes to the log file, and to
/// the console if its level reaches the threshold.
pub open spec fn log_output(threshold: LogLevel, level: LogLevel, message: Seq<char>)
    -> LogOutputView {
    LogOutputView { line: log_line(level, message), to_console: level.at_least(threshold) }
}

/// Works out what logging `message` at `level` comes to when the console
/// shows the levels from `threshold` up.
pub fn write_log(threshold: LogLevel, level: LogLevel, message: &str) -> (output: LogOutput)
    ensures
        output@ == log_output(threshold, level, message@),
{
    let mut line = String::from_str("[");
    line.append(get_readable_loglevel(&level));
    line.append("] ");
    line.append(message);
    LogOutput { line, to_console: level.at_least(threshold) }
}

} // verus!
