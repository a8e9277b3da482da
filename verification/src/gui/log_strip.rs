//! The execution log shown at the bottom of the window.
use vstd::prelude::*;

use crate::clock::{now_stamp, Stamp};
use crate::text::{chars_of, concat2, decimal, string_of, u64_to_decimal};

verus! {

/// Severity classification for a log entry.
#[derive(Debug, Clone, Copy, PartialEq, Eq, Structural)]
pub enum LogLevel {
    Info,
    Success,
    Warn,
    Error,
}

/// A single timestamped log line shown in the bottom console strip.
#[derive(Debug, Clone)]
pub struct LogEntry {
    pub timestamp: Stamp,
    pub level: LogLevel,
    pub message: String,
}

/// The pages that the log strip links to.
#[derive(Debug, Clone, Copy, PartialEq, Eq, Structural)]
pub enum Link {
    Documentation,
    Github,
}

/// Messages emitted by the log strip.
#[derive(Debug, Clone, Copy, PartialEq, Eq, Structural)]
pub enum Msg {
    Open(Link),
}

impl LogEntry {
    /// An entry of the given level and message at the given time.
    pub fn at(level: LogLevel, message: String, timestamp: Stamp) -> (r: Self)
        ensures
            r.level == level,
            r.message == message,
            r.timestamp == timestamp,
    {
        LogEntry { timestamp, level, message }
    }

    /// An informational entry stamped with the current time.
    pub fn info(message: String) -> (r: Self)
        ensures
            r.level == LogLevel::Info,
            r.message == message,
            r.timestamp.millis < 1000,
    {
        Self::at(LogLevel::Info, message, now_stamp())
    }

    /// A success entry stamped with the current time.
    pub fn ok(message: String) -> (r: Self)
        ensures
            r.level == LogLevel::Success,
            r.message == message,
            r.timestamp.millis < 1000,
    {
        Self::at(LogLevel::Success, message, now_stamp())
    }

    /// A failure entry stamped with the current time.
    pub fn error(message: String) -> (r: Self)
        ensures
            r.level == LogLevel::Error,
            r.message == message,
            r.timestamp.millis < 1000,
    {
        Self::at(LogLevel::Error, message, now_stamp())
    }

    /// A warning entry stamped with the current time.
    pub fn warn(message: String) -> (r: Self)
        ensures
            r.level == LogLevel::Warn,
            r.message == message,
            r.timestamp.millis < 1000,
    {
        Self::at(LogLevel::Warn, message, now_stamp())
    }
}

/// The bracketed tag of each level.
pub open spec fn level_label_spec(level: LogLevel) -> Seq<char> {
    match level {
        LogLevel::Info => "[INFO]"@,
        LogLevel::Success => "[OK]"@,
        LogLevel::Warn => "[WARN]"@,
        LogLevel::Error => "[ERROR]"@,
    }
}

/// The bracketed tag shown before a log message.
pub fn level_label(level: LogLevel) -> (r: &'static str)
    ensures
        r@ == level_label_spec(level),
{
    match level {
        LogLevel::Info => "[INFO]",
        LogLevel::Success => "[OK]",
        LogLevel::Warn => "[WARN]",
        LogLevel::Error => "[ERROR]",
    }
}

/// Decimal text of `n`, left-padded with zeros to at least `width` characters.
pub open spec fn zero_padded(n: nat, width: nat) -> Seq<char> {
    let d = decimal(n);
    if d.len() >= width {
        d
    } else {
        Seq::new((width - d.len()) as nat, |i: int| '0') + d
    }
}

/// Zero-padded decimal text.
pub fn pad_decimal(n: u64, width: usize) -> (r: String)
    ensures
        r@ == zero_padded(n as nat, width as nat),
{
    let digits = u64_to_decimal(n);
    let d = chars_of(digits.as_str());
    if d.len() >= width {
        return digits;
    }
    let pad = width - d.len();
    let mut v: Vec<char> = Vec::new();
    while v.len() < pad
        invariant
            v.len() <= pad,
            forall|i: int| 0 <= i < v.len() ==> v@[i] == '0',
        decreases pad - v.len(),
    {
        v.push('0');
    }
    let mut rest = d;
    v.append(&mut rest);
    assert(v@ =~= Seq::new((width - decimal(n as nat).len()) as nat, |i: int| '0') + decimal(n as nat));
    string_of(v.as_slice())
}

/// `hh:mm:ss.mmm` of the time of day (UTC) of a timestamp.
pub open spec fn timestamp_text(t: Stamp) -> Seq<char> {
    zero_padded(((t.secs / 3600) % 24) as nat, 2) + ":"@ + zero_padded(((t.secs / 60) % 60) as nat, 2) + ":"@
        + zero_padded((t.secs % 60) as nat, 2) + "."@ + zero_padded(t.millis as nat, 3)
}

/// Formats the time of day of a log entry as `hh:mm:ss.mmm`.
pub fn format_timestamp(time: Stamp) -> (r: String)
    ensures
        r@ == timestamp_text(time),
{
    let h = pad_decimal((time.secs / 3600) % 24, 2);
    let m = pad_decimal((time.secs / 60) % 60, 2);
    let s = pad_decimal(time.secs % 60, 2);
    let ms = pad_decimal(time.millis as u64, 3);
    let a = concat2(h.as_str(), ":");
    let b = concat2(a.as_str(), m.as_str());
    let c = concat2(b.as_str(), ":");
    let d = concat2(c.as_str(), s.as_str());
    let e = concat2(d.as_str(), ".");
    concat2(e.as_str(), ms.as_str())
}

/// A log line as shown: time, level tag and message, separated by spaces.
pub open spec fn log_line_spec(entry: LogEntry) -> Seq<char> {
    timestamp_text(entry.timestamp) + " "@ + level_label_spec(entry.level) + " "@ + entry.message@
}

/// The text of a log line.
pub fn log_line(entry: &LogEntry) -> (r: String)
    ensures
        r@ == log_line_spec(*entry),
{
    let ts = format_timestamp(entry.timestamp);
    let a = concat2(ts.as_str(), " ");
    let b = concat2(a.as_str(), level_label(entry.level));
    let c = concat2(b.as_str(), " ");
    concat2(c.as_str(), entry.message.as_str())
}

} // verus!
