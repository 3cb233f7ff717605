//! The logger, the stopwatch around one operation and the memory report.

use crate::text::{decimal, decimal_digits};
use std::time::{Duration, Instant};
use vstd::prelude::*;
use vstd::string::StringExecFns;

verus! {

/// `std::time::Instant`, a reading of the monotonic clock. It is only
/// handed from `Instant::now` to `Instant::elapsed`.
#[verifier::external_type_specification]
#[verifier::external_body]
pub struct ExInstant(std::time::Instant);

/// `Instant::now` reads the clock: nothing is known of what it returns.
pub assume_specification[ std::time::Instant::now ]() -> Instant;

/// `Instant::elapsed` reads the clock again: nothing is known of the
/// duration it returns.
pub assume_specification[ std::time::Instant::elapsed ](start: &Instant) -> Duration;

/// Runs `f` once and returns its result with the time that it took.
pub fn measure_time<F, T>(f: F) -> (r: (T, Duration)) where F: FnOnce() -> T
    requires
        f.requires(()),
    ensures
        f.ensures((), r.0),
{
    let start = Instant::now();
    let result = f();
    let duration = start.elapsed();
    (result, duration)
}

/// A log line: the timestamp in square brackets, a space, the message.
pub open spec fn log_line(timestamp: Seq<char>, message: Seq<char>) -> Seq<char> {
    seq!['['] + timestamp + seq![']', ' '] + message
}

/// Puts a timestamp in front of a message.
pub fn format_log_line(timestamp: &str, message: &str) -> (line: String)
    ensures
        line@ == log_line(timestamp@, message@),
{
    proof {
        reveal_strlit("[");
        reveal_strlit("] ");
    }
    let mut line = String::from_str("[");
    line.append(timestamp);
    line.append("] ");
    line.append(message);
    assert(line@ =~= log_line(timestamp@, message@));
    line
}

/// The format of a log line's timestamp: hours, minutes, seconds and
/// milliseconds of the local time of day.
pub open spec fn time_of_day_format() -> Seq<char> {
    "%H:%M:%S%.3f"@
}

/// The local time as `chrono::Local::now` gives it, rendered by
/// `DateTime::format`. The format is the one that the library uses, which
/// `format` is known to take. The text depends on the clock and the time
/// zone: nothing is claimed of it.
#[verifier::external_body]
fn timestamp_now(format: &str) -> String
    requires
        format@ == time_of_day_format(),
{
    chrono::Local::now().format(format).to_string()
}

/// An append-only buffer of timestamped log lines.
pub struct Logger {
    lines: Vec<String>,
}

impl View for Logger {
    type V = Seq<Seq<char>>;

    closed spec fn view(&self) -> Seq<Seq<char>> {
        Seq::new(self.lines@.len(), |i: int| self.lines@[i]@)
    }
}

impl Logger {
    /// A logger without lines.
    pub fn new() -> (logger: Logger)
        ensures
            logger@ == Seq::<Seq<char>>::empty(),
    {
        let logger = Logger { lines: Vec::new() };
        assert(logger@ =~= Seq::<Seq<char>>::empty());
        logger
    }

    /// Appends `line` as it is.
    pub fn push_line(&mut self, line: String)
        ensures
            final(self)@ == old(self)@.push(line@),
    {
        self.lines.push(line);
        assert(self@ =~= old(self)@.push(line@));
    }

    /// Appends the message under the current time of day. The lines that
    /// were there stay as they are.
    pub fn log(&mut self, message: String)
        ensures
            final(self)@.len() == old(self)@.len() + 1,
            final(self)@.drop_last() == old(self)@,
            exists|timestamp: Seq<char>| final(self)@.last() == log_line(timestamp, message@),
    {
        let timestamp = timestamp_now("%H:%M:%S%.3f");
        let line = format_log_line(timestamp.as_str(), message.as_str());
        self.push_line(line);
        assert(self@.drop_last() =~= old(self)@);
        assert(self@.last() == log_line(timestamp@, message@));
    }

    /// The number of lines.
    pub fn len(&self) -> (n: usize)
        ensures
            n == self@.len(),
    {
        self.lines.len()
    }

    /// The line at `index`.
    pub fn line(&self, index: usize) -> (line: &String)
        requires
            index < self@.len(),
        ensures
            line@ == self@[index as int],
    {
        &self.lines[index]
    }

    /// Hands the lines out, oldest first, and leaves the logger empty.
    pub fn take_lines(&mut self) -> (lines: Vec<String>)
        ensures
            final(self)@ == Seq::<Seq<char>>::empty(),
            lines@.len() == old(self)@.len(),
            forall|i: int| 0 <= i < lines@.len() ==> (#[trigger] lines@[i])@ == old(self)@[i],
    {
        let mut lines = Vec::new();
        std::mem::swap(&mut self.lines, &mut lines);
        assert(self@ =~= Seq::<Seq<char>>::empty());
        lines
    }
}

/// `needle` occurs in `haystack` as a run of consecutive characters.
pub open spec fn occurs_in(needle: Seq<char>, haystack: Seq<char>) -> bool {
    exists|start: int|
        0 <= start && start + needle.len() <= haystack.len() && #[trigger] haystack.subrange(
            start,
            start + needle.len(),
        ) == needle
}

/// `str::contains` with a text as the pattern: whether the pattern matches
/// a sub-slice of the text. Both are valid UTF-8, so a match of the bytes is
/// a match of the characters.
#[verifier::external_body]
fn text_contains(haystack: &str, needle: &str) -> (found: bool)
    ensures
        found == occurs_in(needle@, haystack@),
{
    haystack.contains(needle)
}

/// A log line tells of a failure where it mentions `error` or `failed`.
pub open spec fn tells_of_failure(line: Seq<char>) -> bool {
    occurs_in("error"@, line) || occurs_in("failed"@, line)
}

/// Whether a log line is to be shown as a failure.
pub fn is_error_line(line: &str) -> (b: bool)
    ensures
        b == tells_of_failure(line@),
{
    text_contains(line, "error") || text_contains(line, "failed")
}

/// The memory report for a machine with `total_kb` KiB of memory of which
/// `free_kb` KiB are free, in whole MiB. Used memory is total less free, and
/// nothing where more is reported free than there is.
pub open spec fn memory_usage_text(total_kb: nat, free_kb: nat) -> Seq<char> {
    let used_kb: nat = if free_kb <= total_kb {
        (total_kb - free_kb) as nat
    } else {
        0
    };
    "Memory: Total: "@ + decimal_digits(total_kb / 1024) + " MB, Free: "@ + decimal_digits(
        free_kb / 1024,
    ) + " MB, Used: "@ + decimal_digits(used_kb / 1024) + " MB"@
}

/// Renders the memory report from the two figures.
pub fn memory_usage_message(total_kb: u64, free_kb: u64) -> (s: String)
    ensures
        s@ == memory_usage_text(total_kb as nat, free_kb as nat),
{
    let used_kb: u64 = if free_kb <= total_kb {
        total_kb - free_kb
    } else {
        0
    };
    let mut s = String::from_str("Memory: Total: ");
    s.append(decimal(total_kb / 1024).as_str());
    s.append(" MB, Free: ");
    s.append(decimal(free_kb / 1024).as_str());
    s.append(" MB, Used: ");
    s.append(decimal(used_kb / 1024).as_str());
    s.append(" MB");
    assert(s@ =~= memory_usage_text(total_kb as nat, free_kb as nat));
    s
}

/// Total and free memory in KiB as `sys_info::mem_info` reports them, or
/// `None` where it fails. The figures are the machine's at the moment of the
/// call: nothing is claimed of them.
#[verifier::external_body]
fn read_memory_info() -> Option<(u64, u64)> {
    match sys_info::mem_info() {
        Ok(info) => Some((info.total, info.free)),
        Err(_) => None,
    }
}

/// What `get_memory_usage` says when the figures cannot be had.
pub open spec fn memory_unavailable_text() -> Seq<char> {
    "Unable to get memory info"@
}

/// The memory report for what the machine says of itself, given or not.
pub fn memory_report(info: Option<(u64, u64)>) -> (s: String)
    ensures
        s@ == match info {
            Some((total_kb, free_kb)) => memory_usage_text(total_kb as nat, free_kb as nat),
            None => memory_unavailable_text(),
        },
{
    match info {
        Some((total_kb, free_kb)) => memory_usage_message(total_kb, free_kb),
        None => String::from_str("Unable to get memory info"),
    }
}

/// A one-line report of this machine's memory.
pub fn get_memory_usage() -> (s: String)
    ensures
        s@ == memory_unavailable_text() || exists|total_kb: nat, free_kb: nat|
            s@ == memory_usage_text(total_kb, free_kb),
{
    let info = read_memory_info();
    let s = memory_report(info);
    proof {
        if let Some((total_kb, free_kb)) = info {
            assert(s@ == memory_usage_text(total_kb as nat, free_kb as nat));
        }
    }
    s
}

} // verus!
