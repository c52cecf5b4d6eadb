//! Formatting flags for the header of a log line.
//!
//! Each bit independently enables one header element. Bits control only the
//! presence of an element, never its position: the header always lays its
//! elements out in the fixed order prefix (unless moved), level, date, time,
//! file and line, prefix (if moved).

use vstd::prelude::*;

verus! {

/// A bitmask of the `L_*` constants below.
pub type Flag = u8;

/// No header at all.
pub const L_NONE: Flag = 0;

/// Date in the local time zone: `2009/01/23`.
pub const L_DATE: Flag = 1;

/// Time in the local time zone: `17:05:23`.
pub const L_TIME: Flag = 2;

/// Microsecond resolution: `17:05:23.023123`; implies the time is printed
/// even when `L_TIME` is unset.
pub const L_MICROSECONDS: Flag = 4;

/// Module target, full file path, and line number: `foo src/file.rs:3`.
pub const L_LONG_FILE: Flag = 8;

/// Final file name element and line number: `file.rs:3`.
pub const L_SHORT_FILE: Flag = 16;

/// If `L_DATE` or `L_TIME` is set, use UTC rather than the local time.
pub const L_UTC: Flag = 32;

/// Move the prefix from the beginning of the header to the end of the
/// header, just before the message.
pub const L_MSG_PREFIX: Flag = 64;

/// Log level printed in capitalized form, padded to width 5: `INFO `.
pub const L_LEVEL: Flag = 128;

/// Initial flags for a freshly built logger.
pub const L_STD: Flag = L_DATE | L_TIME | L_LEVEL;

} // verus!
