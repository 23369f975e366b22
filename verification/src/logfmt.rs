//! Log formatting: every message the engine emits is `[LEVEL] timestamp -
//! body`.  The timestamp comes from the wall clock and is the one part no
//! contract pins down; everything around it is exact.

use vstd::prelude::*;
use vstd::string::*;

verus! {

/// Severity of a log message.
#[derive(Debug, Clone, Copy, PartialEq, Eq, Structural)]
pub enum StdLogLevel {
    INFO,
    WARN,
    ERROR,
    /// Output the running program itself asked for.
    UserPrint,
}

/// One log message: formatted text and its severity.
#[derive(Debug, Clone, PartialEq)]
pub struct StdLogMessage {
    pub message: String,
    pub log_level: StdLogLevel,
}

/// Ghost form of [`StdLogMessage`].
pub struct StdLogMessageV {
    pub message: Seq<char>,
    pub log_level: StdLogLevel,
}

impl View for StdLogMessage {
    type V = StdLogMessageV;

    open spec fn view(&self) -> StdLogMessageV {
        StdLogMessageV { message: self.message@, log_level: self.log_level }
    }
}

/// The name of a severity, as the log format writes it.
pub open spec fn level_name_of(l: StdLogLevel) -> Seq<char> {
    match l {
        StdLogLevel::INFO => "INFO"@,
        StdLogLevel::WARN => "WARN"@,
        StdLogLevel::ERROR => "ERROR"@,
        StdLogLevel::UserPrint => "UserPrint"@,
    }
}

/// A full log line: `[LEVEL] timestamp - body`.
pub open spec fn log_line(level: StdLogLevel, ts: Seq<char>, body: Seq<char>) -> Seq<char> {
    "["@ + level_name_of(level) + "] "@ + ts + " - "@ + body
}

/// Whether `m` is a correctly formatted message of the given severity and
/// body, whatever timestamp the clock gave it.
pub open spec fn is_log_for(m: StdLogMessageV, level: StdLogLevel, body: Seq<char>) -> bool {
    m.log_level == level && exists|ts: Seq<char>| m.message == log_line(level, ts, body)
}

impl StdLogLevel {
    /// The name of this severity.
    pub fn name(&self) -> (r: String)
        ensures
            r@ == level_name_of(*self),
    {
        match self {
            StdLogLevel::INFO => "INFO".to_owned(),
            StdLogLevel::WARN => "WARN".to_owned(),
            StdLogLevel::ERROR => "ERROR".to_owned(),
            StdLogLevel::UserPrint => "UserPrint".to_owned(),
        }
    }
}

/// Relies on chrono's `Local::now` and `DateTime::format`: the current
/// local time written as year-month-day hour:minute:second.  The result
/// depends on the clock, so nothing is promised of it.
#[verifier::external_body]
fn now_timestamp() -> (r: String) {
    chrono::Local::now().format("%Y-%m-%d %H:%M:%S").to_string()
}

/// Builds a log message of the given severity and body, stamped with the
/// current local time.
pub fn make_log(level: StdLogLevel, body: &str) -> (r: StdLogMessage)
    ensures
        is_log_for(r@, level, body@),
{
    let ts = now_timestamp();
    let ghost tsv = ts@;
    let message = "[".to_owned().concat(level.name().as_str()).concat("] ").concat(
        ts.as_str(),
    ).concat(" - ").concat(body);
    proof {
        assert(message@ == log_line(level, tsv, body@));
    }
    StdLogMessage { message, log_level: level }
}

} // verus!
