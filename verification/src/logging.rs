//! Which log messages are passed on, where to, and how they are printed.

use vstd::prelude::*;

use crate::error::Error;
use crate::text;

verus! {

/// How serious a log message is, from the most verbose up.
#[derive(Clone, Copy, PartialEq, Eq, Debug, Structural)]
pub enum LogLevel {
    Gossip,
    Trace,
    Debug,
    Info,
    Warn,
    Error,
}

#[derive(Clone, PartialEq, Eq, Debug)]
pub struct LogMessage {
    pub level: LogLevel,
    pub module: String,
    pub line: u32,
    pub message: String,
}

/// The name of a level.
pub open spec fn level_name(level: LogLevel) -> Seq<char> {
    match level {
        LogLevel::Gossip => "GOSSIP"@,
        LogLevel::Trace => "TRACE"@,
        LogLevel::Debug => "DEBUG"@,
        LogLevel::Info => "INFO"@,
        LogLevel::Warn => "WARN"@,
        LogLevel::Error => "ERROR"@,
    }
}

/// The place of a level, counted from the most verbose one.
pub open spec fn level_rank(level: LogLevel) -> int {
    match level {
        LogLevel::Gossip => 0,
        LogLevel::Trace => 1,
        LogLevel::Debug => 2,
        LogLevel::Info => 3,
        LogLevel::Warn => 4,
        LogLevel::Error => 5,
    }
}

/// The level that a name in upper case stands for. `WARNING` is another name of `WARN`.
pub open spec fn level_named(name: Seq<char>) -> Option<LogLevel> {
    if name == "GOSSIP"@ {
        Some(LogLevel::Gossip)
    } else if name == "TRACE"@ {
        Some(LogLevel::Trace)
    } else if name == "DEBUG"@ {
        Some(LogLevel::Debug)
    } else if name == "INFO"@ {
        Some(LogLevel::Info)
    } else if name == "WARN"@ || name == "WARNING"@ {
        Some(LogLevel::Warn)
    } else if name == "ERROR"@ {
        Some(LogLevel::Error)
    } else {
        None
    }
}

/// The level that a text names, in whatever case it is written.
pub open spec fn parsed_level(input: Seq<char>) -> Option<LogLevel> {
    level_named(text::ascii_upper(input))
}

/// The line that is printed for a message.
pub open spec fn log_line(message: LogMessage) -> Seq<char> {
    "[ldk-node "@ + level_name(message.level) + " "@ + message.module@ + ":"@ + text::decimal(
        message.line as nat,
    ) + "] "@ + message.message@
}

pub fn level_to_str(level: LogLevel) -> (res: &'static str)
    ensures
        res@ == level_name(level),
{
    match level {
        LogLevel::Gossip => "GOSSIP",
        LogLevel::Trace => "TRACE",
        LogLevel::Debug => "DEBUG",
        LogLevel::Info => "INFO",
        LogLevel::Warn => "WARN",
        LogLevel::Error => "ERROR",
    }
}

pub fn level_to_rank(level: LogLevel) -> (res: u8)
    ensures
        res == level_rank(level),
{
    match level {
        LogLevel::Gossip => 0,
        LogLevel::Trace => 1,
        LogLevel::Debug => 2,
        LogLevel::Info => 3,
        LogLevel::Warn => 4,
        LogLevel::Error => 5,
    }
}

/// Reads the name of a level, in whatever case it is written.
pub fn parse_level(level: &str) -> (res: Option<LogLevel>)
    ensures
        res == parsed_level(level@),
{
    let name = text::to_ascii_upper(level);
    if name == "GOSSIP".to_string() {
        Some(LogLevel::Gossip)
    } else if name == "TRACE".to_string() {
        Some(LogLevel::Trace)
    } else if name == "DEBUG".to_string() {
        Some(LogLevel::Debug)
    } else if name == "INFO".to_string() {
        Some(LogLevel::Info)
    } else if name == "WARN".to_string() || name == "WARNING".to_string() {
        Some(LogLevel::Warn)
    } else if name == "ERROR".to_string() {
        Some(LogLevel::Error)
    } else {
        None
    }
}

/// The line that is printed for a message.
pub fn format_log_line(message: &LogMessage) -> (res: String)
    ensures
        res@ == log_line(*message),
{
    let mut res = "[ldk-node ".to_string();
    res.append(level_to_str(message.level));
    res.append(" ");
    res.append(&message.module);
    res.append(":");
    text::push_decimal(&mut res, message.line as u64);
    res.append("] ");
    res.append(&message.message);
    res
}

/// What happens to a message.
#[derive(Clone, PartialEq, Eq, Debug)]
pub enum LogAction {
    /// It is below the minimum level.
    Ignore,
    /// The listener gets it.
    Notify(LogMessage),
    /// There is no listener, so this line is printed.
    Print(String),
}

/// The minimum level of the messages that are passed on.
pub struct LogFilter {
    min_level: u8,
}

impl View for LogFilter {
    type V = int;

    closed spec fn view(&self) -> int {
        self.min_level as int
    }
}

impl LogFilter {
    /// Messages of level `Info` and above are passed on.
    pub fn new() -> (res: Self)
        ensures
            res@ == level_rank(LogLevel::Info),
    {
        LogFilter { min_level: level_to_rank(LogLevel::Info) }
    }

    /// Sets the minimum level where one is given. A name that is no level is refused, and
    /// changes nothing.
    pub fn set_min_level(&mut self, min_level: Option<String>) -> (res: Result<(), Error>)
        ensures
            min_level is None ==> res is Ok && final(self)@ == old(self)@,
            min_level matches Some(name) ==> match parsed_level(name@) {
                Some(level) => res is Ok && final(self)@ == level_rank(level),
                None => res == Err::<(), Error>(Error::UnknownLogLevel(name)) && final(self)@ == old(
                    self,
                )@,
            },
    {
        if let Some(name) = min_level {
            match parse_level(&name) {
                Some(level) => {
                    self.min_level = level_to_rank(level);
                },
                None => {
                    return Err(Error::UnknownLogLevel(name));
                },
            }
        }
        Ok(())
    }

    /// Decides where a message goes.
    pub fn dispatch(&self, message: LogMessage, has_listener: bool) -> (res: LogAction)
        ensures
            res is Ignore <==> level_rank(message.level) < self@,
            res is Notify <==> level_rank(message.level) >= self@ && has_listener,
            res matches LogAction::Notify(notified) ==> notified == message,
            res matches LogAction::Print(line) ==> line@ == log_line(message),
    {
        if level_to_rank(message.level) < self.min_level {
            LogAction::Ignore
        } else if has_listener {
            LogAction::Notify(message)
        } else {
            LogAction::Print(format_log_line(&message))
        }
    }
}

/// The line that is printed after the listener was given a message: none where it took the
/// message, the message itself where it did not.
pub fn after_notify(message: &LogMessage, delivered: bool) -> (res: Option<String>)
    ensures
        res is None <==> delivered,
        res matches Some(line) ==> line@ == log_line(*message),
{
    if delivered {
        None
    } else {
        Some(format_log_line(message))
    }
}

/// Every level is known by its own name.
pub proof fn law_level_names_read_back(level: LogLevel)
    ensures
        parsed_level(level_name(level)) == Some(level),
{
    reveal_strlit("GOSSIP");
    reveal_strlit("TRACE");
    reveal_strlit("DEBUG");
    reveal_strlit("INFO");
    reveal_strlit("WARN");
    reveal_strlit("WARNING");
    reveal_strlit("ERROR");
    assert("TRACE"@[0] == 'T' && "DEBUG"@[0] == 'D' && "ERROR"@[0] == 'E');
    assert("INFO"@[0] == 'I' && "WARN"@[0] == 'W');
    assert(text::ascii_upper(level_name(level)) =~= level_name(level));
}

/// The case of a name does not matter.
pub proof fn law_level_case_is_ignored(input: Seq<char>)
    ensures
        parsed_level(text::ascii_upper(input)) == parsed_level(input),
{
    assert(text::ascii_upper(text::ascii_upper(input)) =~= text::ascii_upper(input));
}

/// A text stands for a level exactly where, in whatever case, it is one of the seven names.
pub proof fn law_a_text_names_a_level_by_its_name_alone(input: Seq<char>)
    ensures
        ({
            let name = text::ascii_upper(input);
            &&& parsed_level(input) == Some(LogLevel::Gossip) <==> name == "GOSSIP"@
            &&& parsed_level(input) == Some(LogLevel::Trace) <==> name == "TRACE"@
            &&& parsed_level(input) == Some(LogLevel::Debug) <==> name == "DEBUG"@
            &&& parsed_level(input) == Some(LogLevel::Info) <==> name == "INFO"@
            &&& parsed_level(input) == Some(LogLevel::Warn) <==> name == "WARN"@ || name
                == "WARNING"@
            &&& parsed_level(input) == Some(LogLevel::Error) <==> name == "ERROR"@
        }),
{
    reveal_strlit("GOSSIP");
    reveal_strlit("TRACE");
    reveal_strlit("DEBUG");
    reveal_strlit("INFO");
    reveal_strlit("WARN");
    reveal_strlit("WARNING");
    reveal_strlit("ERROR");
    assert("TRACE"@[0] == 'T' && "DEBUG"@[0] == 'D' && "ERROR"@[0] == 'E');
    assert("INFO"@[0] == 'I' && "WARN"@[0] == 'W');
    assert("GOSSIP"@.len() == 6 && "WARNING"@.len() == 7 && "INFO"@.len() == 4);
    assert("WARN"@.len() == 4 && "TRACE"@.len() == 5 && "DEBUG"@.len() == 5);
    assert("ERROR"@.len() == 5);
    let name = text::ascii_upper(input);
    assert(name == "GOSSIP"@ ==> level_named(name) == Some(LogLevel::Gossip));
    assert(name == "TRACE"@ ==> level_named(name) == Some(LogLevel::Trace));
    assert(name == "DEBUG"@ ==> level_named(name) == Some(LogLevel::Debug));
    assert(name == "INFO"@ ==> level_named(name) == Some(LogLevel::Info));
    assert(name == "WARN"@ || name == "WARNING"@ ==> level_named(name) == Some(LogLevel::Warn));
    assert(name == "ERROR"@ ==> level_named(name) == Some(LogLevel::Error));
}

/// The levels are ranked in one order, without a gap or a tie.
pub proof fn law_levels_are_ranked_in_order(level: LogLevel, other: LogLevel)
    ensures
        level_rank(LogLevel::Gossip) == 0,
        level_rank(LogLevel::Trace) == level_rank(LogLevel::Gossip) + 1,
        level_rank(LogLevel::Debug) == level_rank(LogLevel::Trace) + 1,
        level_rank(LogLevel::Info) == level_rank(LogLevel::Debug) + 1,
        level_rank(LogLevel::Warn) == level_rank(LogLevel::Info) + 1,
        level_rank(LogLevel::Error) == level_rank(LogLevel::Warn) + 1,
        level_rank(level) == level_rank(other) <==> level == other,
        level_name(level) == level_name(other) <==> level == other,
{
    law_level_names_read_back(level);
    law_level_names_read_back(other);
}

/// The line of a message holds its level, where it comes from and the whole of its text, each
/// unchanged and in its place.
pub proof fn law_a_line_holds_the_whole_message(message: LogMessage)
    ensures
        log_line(message) == "[ldk-node "@ + level_name(message.level) + " "@ + message.module@
            + ":"@ + text::decimal(message.line as nat) + "] "@ + message.message@,
{
}

} // verus!
