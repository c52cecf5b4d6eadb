//! A logging sink in the style of the Go standard library's log package.
//!
//! A [`Logger`] filters records by severity, renders a header whose elements
//! are chosen by a bitmask of [`Flag`] values, terminates every message with
//! exactly one newline, and hands the finished line to a [`Sink`] under a
//! mutual-exclusion guard so that concurrent emissions never interleave.

pub mod decimal;
pub mod flags;
pub mod header;
pub mod level;
pub mod logger;
pub mod sink;
pub mod test_util;
pub mod timestamp;

pub use flags::Flag;
pub use flags::L_DATE;
pub use flags::L_LEVEL;
pub use flags::L_LONG_FILE;
pub use flags::L_MICROSECONDS;
pub use flags::L_MSG_PREFIX;
pub use flags::L_NONE;
pub use flags::L_SHORT_FILE;
pub use flags::L_STD;
pub use flags::L_TIME;
pub use flags::L_UTC;
pub use level::Level;
pub use level::LevelFilter;
pub use logger::Logger;
pub use logger::LoggerBuilder;
pub use sink::Sink;
pub use sink::StderrSink;
pub use test_util::SyncWriter;
