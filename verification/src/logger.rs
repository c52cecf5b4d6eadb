//! The logger: severity gating, line assembly, and the serialized write.
//!
//! A [`Logger`] is built once from a [`LoggerBuilder`], then shared. For a
//! record that meets the severity threshold it captures the time, renders the
//! header, terminates the message with exactly one newline, and writes the
//! finished line to its sink as one call under the guard, so lines from
//! concurrent callers never interleave. Write and flush failures are
//! swallowed: logging never fails its caller.

use crate::flags::Flag;
use crate::flags::L_STD;
use crate::header::header_with_flags;
use crate::header::opt_view;
use crate::header::spec_header;
use crate::level::spec_enabled;
use crate::level::Level;
use crate::level::LevelFilter;
use crate::sink::new_mutex;
use crate::sink::Sink;
use crate::sink::StderrSink;
use crate::timestamp::Timestamp;
use vstd::prelude::*;

verus! {

/// Whether a message already carries its line terminator.
pub open spec fn ends_with_newline(s: Seq<char>) -> bool {
    s.len() > 0 && s[s.len() - 1] == '\n'
}

/// A message with exactly one guaranteed line terminator: unchanged when it
/// already ends in one, with a single newline appended otherwise.
pub open spec fn spec_terminated(s: Seq<char>) -> Seq<char> {
    if ends_with_newline(s) {
        s
    } else {
        s + seq!['\n']
    }
}

/// Line termination is idempotent: an unterminated message gains exactly
/// one newline, an already terminated message gains none, and the result
/// always ends in a newline, so terminating twice changes nothing.
pub proof fn lemma_terminated_round_trip(s: Seq<char>)
    ensures
        !ends_with_newline(s) ==> spec_terminated(s) == s + seq!['\n'],
        ends_with_newline(s) ==> spec_terminated(s) == s,
        ends_with_newline(spec_terminated(s)),
        spec_terminated(spec_terminated(s)) == spec_terminated(s),
{
}

/// A line number, with `0` standing in for an absent one.
pub open spec fn line_or_zero(line: Option<u32>) -> u32 {
    match line {
        Option::Some(n) => n,
        Option::None => 0,
    }
}

/// The message with its line terminator, as [`spec_terminated`] states.
pub fn terminated_message(s: &str) -> (r: String)
    ensures
        r@ =~= spec_terminated(s@),
{
    proof {
        reveal_strlit("\n");
    }
    let n = s.unicode_len();
    let mut buf = s.to_owned();
    if n == 0 || s.get_char(n - 1) != '\n' {
        buf.append("\n");
    }
    buf
}

/// Collects the configuration of a [`Logger`]: the threshold, the sink, the
/// flags and the prefix. Every field a setter does not touch keeps the
/// default: threshold `Trace` (everything passes), flags [`L_STD`], empty
/// prefix.
pub struct LoggerBuilder<W: Sink + Send> {
    level: LevelFilter,
    out: Option<W>,
    flag: Flag,
    prefix: String,
}

impl<W: Sink + Send> LoggerBuilder<W> {
    /// The threshold this builder will give the logger.
    pub closed spec fn spec_level(&self) -> LevelFilter {
        self.level
    }

    /// The sink this builder will give the logger.
    pub closed spec fn spec_out(&self) -> Option<W> {
        self.out
    }

    /// The flags this builder will give the logger.
    pub closed spec fn spec_flag(&self) -> Flag {
        self.flag
    }

    /// The prefix this builder will give the logger.
    pub closed spec fn spec_prefix(&self) -> Seq<char> {
        self.prefix@
    }

    /// Set the minimum severity that is emitted.
    pub fn set_level(self, level: LevelFilter) -> (r: LoggerBuilder<W>)
        ensures
            r.spec_level() == level,
            r.spec_out() == self.spec_out(),
            r.spec_flag() == self.spec_flag(),
            r.spec_prefix() == self.spec_prefix(),
    {
        LoggerBuilder { level, ..self }
    }

    /// Set the formatting flags.
    pub fn set_flags(self, flag: Flag) -> (r: LoggerBuilder<W>)
        ensures
            r.spec_flag() == flag,
            r.spec_out() == self.spec_out(),
            r.spec_level() == self.spec_level(),
            r.spec_prefix() == self.spec_prefix(),
    {
        LoggerBuilder { flag, ..self }
    }

    /// Set the prefix.
    pub fn set_prefix(self, prefix: &str) -> (r: LoggerBuilder<W>)
        ensures
            r.spec_prefix() == prefix@,
            r.spec_out() == self.spec_out(),
            r.spec_level() == self.spec_level(),
            r.spec_flag() == self.spec_flag(),
    {
        LoggerBuilder { prefix: prefix.to_owned(), ..self }
    }

    /// Construct the [`Logger`]. Consumes the builder, which must still
    /// hold its sink.
    pub fn build(self) -> (r: Logger<W>)
        requires
            self.spec_out() is Some,
        ensures
            r.spec_level() == self.spec_level(),
            r.spec_flag() == self.spec_flag(),
            r.spec_prefix() == self.spec_prefix(),
    {
        let LoggerBuilder { level, out, flag, prefix } = self;
        let w = match out {
            Option::Some(w) => w,
            Option::None => unreached(),
        };
        Logger { level, out: new_mutex(w), flag, prefix }
    }
}

/// A logging object that writes to its sink. It can be shared across
/// threads; writes are serialized under its guard.
#[verifier::reject_recursive_types(W)]
pub struct Logger<W: Sink + Send> {
    level: LevelFilter,
    out: std::sync::Mutex<W>,
    flag: Flag,
    prefix: String,
}

impl<W: Sink + Send> Logger<W> {
    /// The configured threshold.
    pub closed spec fn spec_level(&self) -> LevelFilter {
        self.level
    }

    /// The configured flags.
    pub closed spec fn spec_flag(&self) -> Flag {
        self.flag
    }

    /// The configured prefix.
    pub closed spec fn spec_prefix(&self) -> Seq<char> {
        self.prefix@
    }

    /// A builder writing to `w`, with the default threshold (`Trace`),
    /// flags ([`L_STD`]) and prefix (empty).
    pub fn builder(w: W) -> (r: LoggerBuilder<W>)
        ensures
            r.spec_level() == LevelFilter::Trace,
            r.spec_out() == Option::Some(w),
            r.spec_flag() == L_STD,
            r.spec_prefix() =~= Seq::<char>::empty(),
    {
        LoggerBuilder { level: LevelFilter::Trace, out: Option::Some(w), flag: L_STD, prefix: String::new() }
    }

    /// The configured threshold.
    pub fn level(&self) -> (r: LevelFilter)
        ensures
            r == self.spec_level(),
    {
        self.level
    }

    /// The configured flags.
    pub fn flags(&self) -> (r: Flag)
        ensures
            r == self.spec_flag(),
    {
        self.flag
    }

    /// The configured prefix.
    pub fn prefix(&self) -> (r: &str)
        ensures
            r@ == self.spec_prefix(),
    {
        self.prefix.as_str()
    }

    /// The level filter: whether a record of severity `level` is emitted.
    pub fn enabled(&self, level: Level) -> (r: bool)
        ensures
            r == spec_enabled(self.spec_level(), level),
    {
        level.ord() <= self.level.ord()
    }

    /// The header for one record under this logger's flags and prefix.
    pub fn header(&self, target: &str, file: Option<&str>, line: u32, level: Level, now: &Timestamp) -> (r: String)
        ensures
            r@ =~= spec_header(
                target@,
                opt_view(file),
                line,
                level,
                *now,
                self.spec_flag(),
                self.spec_prefix(),
            ),
    {
        header_with_flags(target, file, line, level, now, self.flag, self.prefix.as_str())
    }

    /// The full line written for one record at instant `now`: the header,
    /// then the message with its line terminator. An absent line number
    /// prints as `0`.
    pub fn render_record(
        &self,
        level: Level,
        target: &str,
        file: Option<&str>,
        line: Option<u32>,
        now: &Timestamp,
        s: &str,
    ) -> (r: String)
        ensures
            r@ =~= spec_header(
                target@,
                opt_view(file),
                line_or_zero(line),
                level,
                *now,
                self.spec_flag(),
                self.spec_prefix(),
            ) + spec_terminated(s@),
    {
        let line_no = match line {
            Option::Some(n) => n,
            Option::None => 0,
        };
        let mut text = self.header(target, file, line_no, level, now);
        let msg = terminated_message(s);
        text.append(msg.as_str());
        text
    }

    /// Emits one record: a no-op when `level` is below the threshold;
    /// otherwise the header, the message and its line terminator are
    /// written to the sink as one call under the guard. The time is
    /// captured before the guard is taken, so the header reflects the
    /// instant the record was accepted, not the instant the lock was won.
    pub fn write_output(
        &self,
        level: Level,
        target: &str,
        file: Option<&str>,
        line: Option<u32>,
        s: &str,
    ) {
        if !self.enabled(level) {
            return;
        }
        let now = Timestamp::now();
        let text = self.render_record(level, target, file, line, &now, s);
        self.write_guarded(text.as_str());
    }

    /// Relies on `std::sync::Mutex::lock` for exclusive access to the sink,
    /// then forwards the line's bytes to it in one `write_all` call. A
    /// failed write, or a guard poisoned by a caller that panicked while
    /// writing, is swallowed.
    #[verifier::external_body]
    fn write_guarded(&self, s: &str) {
        if let Ok(mut out) = self.out.lock() {
            let _ = out.write_all(s.as_bytes());
        }
    }

    /// Relies on `std::sync::Mutex::lock`, then forwards a flush request to
    /// the sink. Failure is swallowed.
    #[verifier::external_body]
    pub fn flush(&self) {
        if let Ok(mut out) = self.out.lock() {
            let _ = out.flush();
        }
    }
}

impl Default for Logger<StderrSink> {
    /// A logger writing to standard error, with the default threshold
    /// (`Trace`), flags ([`L_STD`]) and prefix (empty).
    fn default() -> (r: Logger<StderrSink>)
        ensures
            r.spec_level() == LevelFilter::Trace,
            r.spec_flag() == L_STD,
            r.spec_prefix() =~= Seq::<char>::empty(),
    {
        Logger::builder(StderrSink).build()
    }
}

} // verus!
