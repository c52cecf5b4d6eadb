//! The instant a record was accepted, modeled as plain calendar fields.
//!
//! A [`Timestamp`] carries the broken-down local wall-clock fields and the
//! broken-down UTC fields of one instant, plus the microsecond fraction they
//! share. The header formatter picks one of the two renditions by the `L_UTC`
//! flag and works on the plain fields alone; only reading the clock itself is
//! delegated to the chrono crate, through [`RawNow::capture`].

use chrono::Datelike;
use chrono::Timelike;
use vstd::prelude::*;

verus! {

/// One calendar rendition of an instant: year, month, day, hour, minute and
/// second, without a time zone of its own.
#[derive(Clone, Copy, Debug, PartialEq, Eq, Structural)]
pub struct CivilTime {
    pub year: u16,
    pub month: u8,
    pub day: u8,
    pub hour: u8,
    pub minute: u8,
    pub second: u8,
}

impl CivilTime {
    /// The fields lie in the calendar's ranges.
    pub open spec fn wf(self) -> bool {
        &&& 1 <= self.month <= 12
        &&& 1 <= self.day <= 31
        &&& self.hour < 24
        &&& self.minute < 60
        &&& self.second < 60
    }
}

/// An instant, as its local rendition, its UTC rendition, and the
/// microseconds since the whole second (up to 1,999,999 during a leap
/// second).
#[derive(Clone, Copy, Debug, PartialEq, Eq, Structural)]
pub struct Timestamp {
    pub local: CivilTime,
    pub utc: CivilTime,
    pub micro: u32,
}

impl Timestamp {
    /// Both renditions are well formed and the fraction is below two whole
    /// seconds' worth of microseconds.
    pub open spec fn wf(self) -> bool {
        &&& self.local.wf()
        &&& self.utc.wf()
        &&& self.micro < 2000000
    }

    /// The rendition the `L_UTC` flag selects.
    pub open spec fn spec_civil(self, utc: bool) -> CivilTime {
        if utc {
            self.utc
        } else {
            self.local
        }
    }

    /// The current instant. Clamps a year outside 0..=65535 — a clock set
    /// to a time before the common era or tens of millennia ahead — to the
    /// nearest representable year.
    pub fn now() -> (r: Timestamp)
        ensures
            r.wf(),
    {
        let raw = RawNow::capture();
        Timestamp {
            local: CivilTime {
                year: clamp_year(raw.local_year),
                month: raw.local_month as u8,
                day: raw.local_day as u8,
                hour: raw.local_hour as u8,
                minute: raw.local_minute as u8,
                second: raw.local_second as u8,
            },
            utc: CivilTime {
                year: clamp_year(raw.utc_year),
                month: raw.utc_month as u8,
                day: raw.utc_day as u8,
                hour: raw.utc_hour as u8,
                minute: raw.utc_minute as u8,
                second: raw.utc_second as u8,
            },
            micro: raw.nanosecond / 1000,
        }
    }
}

/// A year as the clock reports it, forced into `u16` range.
fn clamp_year(y: i32) -> (r: u16)
    ensures
        r == if y < 0 {
            0
        } else if y > u16::MAX {
            u16::MAX as int
        } else {
            y as int
        },
{
    if y < 0 {
        0
    } else if y > 65535 {
        65535
    } else {
        y as u16
    }
}

/// The raw fields chrono reports for one instant, in the local time zone
/// and in UTC.
pub struct RawNow {
    pub local_year: i32,
    pub local_month: u32,
    pub local_day: u32,
    pub local_hour: u32,
    pub local_minute: u32,
    pub local_second: u32,
    pub utc_year: i32,
    pub utc_month: u32,
    pub utc_day: u32,
    pub utc_hour: u32,
    pub utc_minute: u32,
    pub utc_second: u32,
    pub nanosecond: u32,
}

impl RawNow {
    /// Relies on chrono's `Local::now` and on the documented ranges of the
    /// `Datelike` and `Timelike` accessors: month 1..=12, day 1..=31, hour
    /// 0..=23, minute 0..=59, second 0..=59, and nanosecond up to
    /// 1,999,999,999 (a leap second). `naive_local` and `naive_utc` are the
    /// two calendar renditions of the same instant, so the nanosecond field
    /// is read once.
    #[verifier::external_body]
    pub fn capture() -> (r: RawNow)
        ensures
            1 <= r.local_month <= 12,
            1 <= r.local_day <= 31,
            r.local_hour < 24,
            r.local_minute < 60,
            r.local_second < 60,
            1 <= r.utc_month <= 12,
            1 <= r.utc_day <= 31,
            r.utc_hour < 24,
            r.utc_minute < 60,
            r.utc_second < 60,
            r.nanosecond < 2000000000,
    {
        let now = chrono::Local::now();
        let (l, u) = (now.naive_local(), now.naive_utc());
        RawNow {
            local_year: l.year(), local_month: l.month(), local_day: l.day(),
            local_hour: l.hour(), local_minute: l.minute(), local_second: l.second(),
            utc_year: u.year(), utc_month: u.month(), utc_day: u.day(),
            utc_hour: u.hour(), utc_minute: u.minute(), utc_second: u.second(),
            nanosecond: l.nanosecond(),
        }
    }
}

} // verus!
