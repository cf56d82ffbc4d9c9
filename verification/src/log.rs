use vstd::prelude::*;
use crate::decimal::{dec_int, decimal_i32};

verus! {

/// The logging level of the native codec layer: a closed set of recognized
/// level codes with an escape that keeps any other code verbatim. The codes
/// step by eight from quiet at -8 up to trace at 56.
#[derive(Debug, Clone, Copy, PartialEq, Eq, Structural)]
pub enum LogLevel {
    /// Print nothing; code -8.
    Quiet,
    /// Something went really wrong; code 0.
    Panic,
    /// A fatal error; code 8.
    Fatal,
    /// An error; code 16.
    Error,
    /// A warning; code 24.
    Warning,
    /// Informational; code 32.
    Info,
    /// Detailed information; code 40.
    Verbose,
    /// Debugging information; code 48.
    Debug,
    /// Extremely verbose debugging; code 56.
    Trace,
    /// A code this library does not recognize, kept verbatim.
    Unknown(i32),
}

impl LogLevel {
    /// Classification of a level code: total, with every unrecognized code
    /// kept in the escape.
    pub open spec fn spec_from_code(code: i32) -> LogLevel {
        if code == -8 {
            LogLevel::Quiet
        } else if code == 0 {
            LogLevel::Panic
        } else if code == 8 {
            LogLevel::Fatal
        } else if code == 16 {
            LogLevel::Error
        } else if code == 24 {
            LogLevel::Warning
        } else if code == 32 {
            LogLevel::Info
        } else if code == 40 {
            LogLevel::Verbose
        } else if code == 48 {
            LogLevel::Debug
        } else if code == 56 {
            LogLevel::Trace
        } else {
            LogLevel::Unknown(code)
        }
    }

    /// The code a level stands for.
    pub open spec fn spec_code(self) -> i32 {
        match self {
            LogLevel::Quiet => -8i32,
            LogLevel::Panic => 0i32,
            LogLevel::Fatal => 8i32,
            LogLevel::Error => 16i32,
            LogLevel::Warning => 24i32,
            LogLevel::Info => 32i32,
            LogLevel::Verbose => 40i32,
            LogLevel::Debug => 48i32,
            LogLevel::Trace => 56i32,
            LogLevel::Unknown(c) => c,
        }
    }

    /// Whether the escape variant holds no recognized code.
    pub open spec fn is_canonical(self) -> bool {
        match self {
            LogLevel::Unknown(c) => LogLevel::spec_from_code(c) == LogLevel::Unknown(c),
            _ => true,
        }
    }

    /// Classify a level code.
    pub fn from_code(code: i32) -> (r: LogLevel)
        ensures
            r == LogLevel::spec_from_code(code),
            r.is_canonical(),
    {
        if code == -8 {
            LogLevel::Quiet
        } else if code == 0 {
            LogLevel::Panic
        } else if code == 8 {
            LogLevel::Fatal
        } else if code == 16 {
            LogLevel::Error
        } else if code == 24 {
            LogLevel::Warning
        } else if code == 32 {
            LogLevel::Info
        } else if code == 40 {
            LogLevel::Verbose
        } else if code == 48 {
            LogLevel::Debug
        } else if code == 56 {
            LogLevel::Trace
        } else {
            LogLevel::Unknown(code)
        }
    }

    /// The code this level stands for.
    pub fn code(self) -> (r: i32)
        ensures
            r == self.spec_code(),
    {
        match self {
            LogLevel::Quiet => -8,
            LogLevel::Panic => 0,
            LogLevel::Fatal => 8,
            LogLevel::Error => 16,
            LogLevel::Warning => 24,
            LogLevel::Info => 32,
            LogLevel::Verbose => 40,
            LogLevel::Debug => 48,
            LogLevel::Trace => 56,
            LogLevel::Unknown(c) => c,
        }
    }

    /// The rendering `display_string` produces: the lower-case name of a
    /// recognized level, the code in parentheses for the escape.
    pub open spec fn spec_display_string(self) -> Seq<char> {
        match self {
            LogLevel::Quiet => "quiet"@,
            LogLevel::Panic => "panic"@,
            LogLevel::Fatal => "fatal"@,
            LogLevel::Error => "error"@,
            LogLevel::Warning => "warning"@,
            LogLevel::Info => "info"@,
            LogLevel::Verbose => "verbose"@,
            LogLevel::Debug => "debug"@,
            LogLevel::Trace => "trace"@,
            LogLevel::Unknown(c) => "unknown("@ + dec_int(c as int) + ")"@,
        }
    }

    /// A readable rendering of the level, code included for the escape.
    pub fn display_string(self) -> (r: String)
        ensures
            r@ == self.spec_display_string(),
    {
        match self {
            LogLevel::Quiet => String::from_str("quiet"),
            LogLevel::Panic => String::from_str("panic"),
            LogLevel::Fatal => String::from_str("fatal"),
            LogLevel::Error => String::from_str("error"),
            LogLevel::Warning => String::from_str("warning"),
            LogLevel::Info => String::from_str("info"),
            LogLevel::Verbose => String::from_str("verbose"),
            LogLevel::Debug => String::from_str("debug"),
            LogLevel::Trace => String::from_str("trace"),
            LogLevel::Unknown(c) => {
                let mut s = String::from_str("unknown(");
                let digits = decimal_i32(c);
                s.append(digits.as_str());
                s.append(")");
                s
            },
        }
    }
}

/// Law: classification of level codes and the code of a level are inverse
/// to one another, so no code is lost and no level is unreachable.
pub proof fn lemma_log_level_round_trip(code: i32, l: LogLevel)
    ensures
        LogLevel::spec_from_code(code).spec_code() == code,
        l.is_canonical() ==> LogLevel::spec_from_code(l.spec_code()) == l,
{
}

/// The severity under which a tracing bridge reports one event.
#[derive(Debug, Clone, Copy, PartialEq, Eq, Structural)]
pub enum TracingLevel {
    /// The trace severity.
    Trace,
    /// The debug severity.
    Debug,
    /// The info severity.
    Info,
    /// The warn severity.
    Warn,
    /// The error severity.
    Error,
}

/// A message of the native codec layer that is a known false positive: the
/// bridge demotes it to the debug level.
pub const DEMOTED_NOTICE: &'static str = "deprecated pixel format used, make sure you did set range correctly";

/// The level an event is reported under once the known false positive has
/// been demoted.
pub open spec fn spec_effective_level(level: LogLevel, message: Seq<char>) -> LogLevel {
    if message == DEMOTED_NOTICE@ {
        LogLevel::Debug
    } else {
        level
    }
}

/// The tracing severity for one level: verbose joins trace, everything at
/// warning severity and beyond (quiet included) is reported as an error, and
/// an unrecognized code is reported as debug.
pub open spec fn spec_tracing_level(level: LogLevel) -> TracingLevel {
    match level {
        LogLevel::Trace => TracingLevel::Trace,
        LogLevel::Verbose => TracingLevel::Trace,
        LogLevel::Debug => TracingLevel::Debug,
        LogLevel::Info => TracingLevel::Info,
        LogLevel::Warning => TracingLevel::Warn,
        LogLevel::Quiet => TracingLevel::Error,
        LogLevel::Error => TracingLevel::Error,
        LogLevel::Panic => TracingLevel::Error,
        LogLevel::Fatal => TracingLevel::Error,
        LogLevel::Unknown(_) => TracingLevel::Debug,
    }
}

/// The line a tracing bridge logs for one event: the effective level's name,
/// the class name of the reporting component (or `ffmpeg` when there is
/// none), and the message.
pub open spec fn spec_tracing_line(
    level: LogLevel,
    class: Option<Seq<char>>,
    message: Seq<char>,
) -> Seq<char> {
    spec_effective_level(level, message).spec_display_string() + ": "@ + (match class {
        Some(c) => c,
        None => "ffmpeg"@,
    }) + " @ "@ + message
}

/// The tracing severity for one level, as a value.
fn tracing_level_of(level: LogLevel) -> (r: TracingLevel)
    ensures
        r == spec_tracing_level(level),
{
    match level {
        LogLevel::Trace => TracingLevel::Trace,
        LogLevel::Verbose => TracingLevel::Trace,
        LogLevel::Debug => TracingLevel::Debug,
        LogLevel::Info => TracingLevel::Info,
        LogLevel::Warning => TracingLevel::Warn,
        LogLevel::Quiet => TracingLevel::Error,
        LogLevel::Error => TracingLevel::Error,
        LogLevel::Panic => TracingLevel::Error,
        LogLevel::Fatal => TracingLevel::Error,
        LogLevel::Unknown(_) => TracingLevel::Debug,
    }
}

/// The decision a tracing bridge takes for one callback event: under which
/// severity to report it and the exact line to log. The known false positive
/// is demoted to debug; a missing class name falls back to `ffmpeg`. The
/// bridge that registers the process-wide callback emits exactly this.
pub fn log_callback_tracing(level: LogLevel, class: Option<&str>, message: &str) -> (r: (
    TracingLevel,
    String,
))
    ensures
        r.0 == spec_tracing_level(spec_effective_level(level, message@)),
        r.1@ == spec_tracing_line(
            level,
            match class {
                Some(c) => Some(c@),
                None => None,
            },
            message@,
        ),
{
    let message_owned = message.to_owned();
    let demoted = DEMOTED_NOTICE.to_owned();
    let effective = if message_owned == demoted {
        LogLevel::Debug
    } else {
        level
    };
    let mut line = effective.display_string();
    line.append(": ");
    match class {
        Some(c) => line.append(c),
        None => line.append("ffmpeg"),
    }
    line.append(" @ ");
    line.append(message);
    (tracing_level_of(effective), line)
}

/// The swappable, optionally absent callback slot of the logging bridge:
/// registration is fire-and-forget, setting replaces whatever was there, and
/// unsetting leaves the slot empty. The process boundary owns one such slot
/// and performs the call; the slot itself decides only who, if anyone,
/// receives an event.
pub struct LogCallbackSlot<C> {
    callback: Option<C>,
}

impl<C> LogCallbackSlot<C> {
    /// The callback the slot currently holds, if any.
    pub closed spec fn spec_current(self) -> Option<C> {
        self.callback
    }

    /// An empty slot: no callback receives events.
    pub fn new() -> (r: Self)
        ensures
            r.spec_current() is None,
    {
        LogCallbackSlot { callback: None }
    }

    /// The callback that receives the next event, if any.
    pub fn current(&self) -> (r: &Option<C>)
        ensures
            *r == self.spec_current(),
    {
        &self.callback
    }
}

/// Set the callback of a slot. The last writer wins: whatever the slot held
/// before is replaced.
pub fn log_callback_set<C>(slot: &mut LogCallbackSlot<C>, callback: C)
    ensures
        final(slot).spec_current() == Some(callback),
{
    slot.callback = Some(callback);
}

/// Unset the callback of a slot: afterwards no callback receives events,
/// whatever the slot held before.
pub fn log_callback_unset<C>(slot: &mut LogCallbackSlot<C>)
    ensures
        final(slot).spec_current() is None,
{
    slot.callback = None;
}

} // verus!
