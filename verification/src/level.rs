//! Severities and the level filter.
//!
//! A record carries a [`Level`]; a logger carries a [`LevelFilter`] as its
//! threshold. Error is the most severe level and Trace the least severe; a
//! record is emitted exactly when its severity ordinal is at most the
//! threshold's ordinal, the ordering the standard logging facade uses.

use vstd::prelude::*;

verus! {

/// Severity of a single log record, from most severe to least severe.
#[derive(Clone, Copy, Debug, PartialEq, Eq, Structural)]
pub enum Level {
    Error,
    Warn,
    Info,
    Debug,
    Trace,
}

/// Minimum-severity threshold of a logger. `Off` suppresses everything.
#[derive(Clone, Copy, Debug, PartialEq, Eq, Structural)]
pub enum LevelFilter {
    Off,
    Error,
    Warn,
    Info,
    Debug,
    Trace,
}

/// Ordinal of a severity: low means severe. Error is 1 so that the ordinal
/// of every level sits above `LevelFilter::Off`'s 0.
pub open spec fn level_ord(l: Level) -> nat {
    match l {
        Level::Error => 1,
        Level::Warn => 2,
        Level::Info => 3,
        Level::Debug => 4,
        Level::Trace => 5,
    }
}

/// Ordinal of a threshold: a record passes when its level ordinal is at
/// most this.
pub open spec fn filter_ord(f: LevelFilter) -> nat {
    match f {
        LevelFilter::Off => 0,
        LevelFilter::Error => 1,
        LevelFilter::Warn => 2,
        LevelFilter::Info => 3,
        LevelFilter::Debug => 4,
        LevelFilter::Trace => 5,
    }
}

/// The level filter: whether a record of level `l` meets threshold `f`.
pub open spec fn spec_enabled(f: LevelFilter, l: Level) -> bool {
    level_ord(l) <= filter_ord(f)
}

impl Level {
    /// Executable ordinal, equal to [`level_ord`].
    pub fn ord(self) -> (r: u8)
        ensures
            r == level_ord(self),
    {
        match self {
            Level::Error => 1,
            Level::Warn => 2,
            Level::Info => 3,
            Level::Debug => 4,
            Level::Trace => 5,
        }
    }
}

impl LevelFilter {
    /// Executable ordinal, equal to [`filter_ord`].
    pub fn ord(self) -> (r: u8)
        ensures
            r == filter_ord(self),
    {
        match self {
            LevelFilter::Off => 0,
            LevelFilter::Error => 1,
            LevelFilter::Warn => 2,
            LevelFilter::Info => 3,
            LevelFilter::Debug => 4,
            LevelFilter::Trace => 5,
        }
    }
}

/// The filter is monotone in severity: if a record meets some threshold,
/// every record at least as severe passes the same threshold.
pub proof fn lemma_enabled_monotone(t: LevelFilter, s1: Level, s2: Level)
    requires
        level_ord(s2) <= level_ord(s1),
        spec_enabled(t, s1),
    ensures
        spec_enabled(t, s2),
{
}

} // verus!
