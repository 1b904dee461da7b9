//! FAT timestamp codec: conversion between the packed 16-bit DOS date/time
//! encoding and seconds since the Unix epoch, with timezone and leap-year
//! arithmetic, plus the coarse time-truncation policy for inode times.
//!
//! DOS dates run from 1980-01-01 through 2107-12-31. In the packed date,
//! bits 15-9 hold the year since 1980, bits 8-5 the month and bits 4-0 the
//! day; in the packed time, bits 15-11 hold the hour, bits 10-5 the minute
//! and bits 4-0 two-second units.

use vstd::prelude::*;

verus! {

use vstd::arithmetic::div_mod::{lemma_fundamental_div_mod, lemma_fundamental_div_mod_converse,
    lemma_div_is_ordered};
use crate::inode::{Inode, UpdateATime, UpdateCTime, UpdateMTime, FAT_ROOT_INO};

/// Smallest representable packed date: day 1, month 1, year offset 0.
pub const FAT_DATE_MIN: u16 = 0x0021;

/// Largest representable packed date: day 31, month 12, year offset 127.
pub const FAT_DATE_MAX: u16 = 0xff9f;

/// Largest representable packed time: 23 hours, 59 minutes, 29 two-second units.
pub const FAT_TIME_MAX: u16 = 0xbf7d;

pub const SECS_PER_MIN: i64 = 60;

pub const SECS_PER_HOUR: i64 = 60 * 60;

pub const SECS_PER_DAY: i64 = 60 * 60 * 24;

/// Days between 1970-01-01 and 1980-01-01 (two leap days among them).
pub const DAYS_DELTA: i64 = 365 * 10 + 2;

/// Year offset of 2100, the one year in range divisible by four that is
/// not a leap year.
pub const YEAR_2100: i64 = 120;

/// Seconds-since-epoch value of the earliest representable local time,
/// 1980-01-01 00:00:00.
pub const FAT_TIME_LOCAL_MIN: i64 = 315_532_800;

/// Seconds-since-epoch value of the latest representable local time,
/// 2107-12-31 23:59:58.
pub const FAT_TIME_LOCAL_MAX: i64 = 4_354_819_198;

/// A point in time: whole seconds since the Unix epoch plus nanoseconds.
#[derive(Clone, Copy, PartialEq, Eq, Structural, Debug)]
pub struct Timespec {
    pub tv_sec: i64,
    pub tv_nsec: i64,
}

/// A year offset from 1980 is a leap year when it is divisible by four,
/// except for the removed leap year 2100.
pub open spec fn spec_is_leap_year(year: int) -> bool {
    year % 4 == 0 && year != YEAR_2100
}

/// Whether the given year offset from 1980 is a leap year.
pub fn is_leap_year(year: i64) -> (r: bool)
    ensures
        r == spec_is_leap_year(year as int),
{
    year % 4 == 0 && year != YEAR_2100
}

/// Year field of a packed date: bits 15-9.
pub open spec fn spec_date_year(date: u16) -> int {
    date as int / 512
}

/// Month field of a packed date (bits 8-5), clamped up to 1.
pub open spec fn spec_date_month(date: u16) -> int {
    let m = (date as int / 32) % 16;
    if m < 1 {
        1
    } else {
        m
    }
}

/// Day field of a packed date (bits 4-0), clamped up to 1, then zero-based.
pub open spec fn spec_date_day(date: u16) -> int {
    let d = date as int % 32;
    (if d < 1 {
        1int
    } else {
        d
    }) - 1
}

/// Leap days that precede the given (year, month) position, counted from
/// the 1980 epoch: one for every fourth year begun, minus the removed leap
/// day once the year passes 2100, plus the current year's own leap day
/// once February is over.
pub open spec fn spec_leap_days(year: int, month: int) -> int {
    (year + 3) / 4 - (if year > YEAR_2100 {
        1int
    } else {
        0int
    }) + (if spec_is_leap_year(year) && month > 2 {
        1int
    } else {
        0int
    })
}

/// Days elapsed in a common year before the given month begins
/// (months 0 and 1 both map to 0; values above 12 are unused).
pub open spec fn spec_days_in_year_table(month: int) -> int {
    if month == 2 {
        31
    } else if month == 3 {
        59
    } else if month == 4 {
        90
    } else if month == 5 {
        120
    } else if month == 6 {
        151
    } else if month == 7 {
        181
    } else if month == 8 {
        212
    } else if month == 9 {
        243
    } else if month == 10 {
        273
    } else if month == 11 {
        304
    } else if month == 12 {
        334
    } else {
        0
    }
}

/// Days since the Unix epoch that a packed date denotes.
pub open spec fn spec_fat_days(date: u16) -> int {
    let year = spec_date_year(date);
    let month = spec_date_month(date);
    year * 365 + spec_leap_days(year, month) + spec_days_in_year_table(month)
        + spec_date_day(date) + DAYS_DELTA
}

/// Seconds into the day that a packed time denotes.
pub open spec fn spec_fat_secs_of_day(time: u16) -> int {
    (time as int % 32) * 2 + ((time as int / 32) % 64) * SECS_PER_MIN + (time as int / 2048)
        * SECS_PER_HOUR
}

/// Seconds since the Unix epoch, in UTC, that a packed (time, date) pair
/// denotes: the stored local value minus the timezone offset.
pub open spec fn spec_fat_decode_sec(time: u16, date: u16, timezone_offset_seconds: int) -> int {
    spec_fat_secs_of_day(time) + spec_fat_days(date) * SECS_PER_DAY - timezone_offset_seconds
}

/// Days-elapsed lookup for a month field, as executable code.
fn fat_days_in_year(month: i64) -> (r: i64)
    requires
        0 <= month < 16,
    ensures
        r == spec_days_in_year_table(month as int),
{
    if month == 2 {
        31
    } else if month == 3 {
        59
    } else if month == 4 {
        90
    } else if month == 5 {
        120
    } else if month == 6 {
        151
    } else if month == 7 {
        181
    } else if month == 8 {
        212
    } else if month == 9 {
        243
    } else if month == 10 {
        273
    } else if month == 11 {
        304
    } else if month == 12 {
        334
    } else {
        0
    }
}

/// Decodes a packed FAT time/date pair into seconds and nanoseconds since
/// the Unix epoch. Out-of-range month and day fields are clamped up to 1,
/// never rejected; `timezone_offset_seconds` is subtracted from the stored
/// local time, converting it to UTC.
pub fn fat_time_to_unix_time(time: u16, date: u16, time_cs: u8, timezone_offset_seconds: i64) -> (r:
    Timespec)
    requires
        -0x4000_0000_0000_0000 <= timezone_offset_seconds <= 0x4000_0000_0000_0000,
    ensures
        time_cs != 0 ==> r.tv_sec == spec_fat_decode_sec(time, date,
            timezone_offset_seconds as int) + time_cs / 100,
        time_cs != 0 ==> r.tv_nsec == (time_cs % 100) * 10_000_000,
        time_cs == 0 ==> r.tv_sec == spec_fat_decode_sec(time, date,
            timezone_offset_seconds as int),
        time_cs == 0 ==> r.tv_nsec == 0,
{
    let year: i64 = (date / 512) as i64;
    let month_raw: i64 = ((date / 32) % 16) as i64;
    let month: i64 = if month_raw < 1 {
        1
    } else {
        month_raw
    };
    let day_raw: i64 = (date % 32) as i64;
    let day: i64 = (if day_raw < 1 {
        1
    } else {
        day_raw
    }) - 1;

    let mut leap_day: i64 = (year + 3) / 4;
    if year > YEAR_2100 {
        leap_day = leap_day - 1;
    }
    if is_leap_year(year) && month > 2 {
        leap_day = leap_day + 1;
    }

    let t: i64 = time as i64;
    let mut second: i64 = (t % 32) * 2;
    second = second + ((t / 32) % 64) * SECS_PER_MIN;
    second = second + (t / 2048) * SECS_PER_HOUR;
    second = second + (year * 365 + leap_day + fat_days_in_year(month) + day + DAYS_DELTA)
        * SECS_PER_DAY;
    second = second - timezone_offset_seconds;

    if time_cs != 0 {
        let cs: i64 = time_cs as i64;
        Timespec { tv_sec: second + cs / 100, tv_nsec: (cs % 100) * 10_000_000 }
    } else {
        Timespec { tv_sec: second, tv_nsec: 0 }
    }
}

/// Days from the 1980 epoch to January 1 of the given year offset.
pub open spec fn spec_year_start(year: int) -> int {
    year * 365 + (year + 3) / 4 - if year > YEAR_2100 {
        1int
    } else {
        0int
    }
}

/// Days from January 1 to the first day of the given month, within the
/// given year.
pub open spec fn spec_month_start(year: int, month: int) -> int {
    spec_days_in_year_table(month) + if spec_is_leap_year(year) && month > 2 {
        1int
    } else {
        0int
    }
}

/// `spec_year_start`, as executable code.
fn fat_year_start(year: i64) -> (r: i64)
    requires
        0 <= year <= 128,
    ensures
        r == spec_year_start(year as int),
{
    year * 365 + (year + 3) / 4 - if year > YEAR_2100 {
        1
    } else {
        0
    }
}

/// `spec_month_start`, as executable code.
fn fat_month_start(year: i64, month: i64) -> (r: i64)
    requires
        0 <= year,
        0 <= month < 16,
    ensures
        r == spec_month_start(year as int, month as int),
{
    fat_days_in_year(month) + if is_leap_year(year) && month > 2 {
        1
    } else {
        0
    }
}

/// A year is 365 days long, or 366 when it is a leap year.
proof fn lemma_year_length(y: int)
    requires
        0 <= y,
    ensures
        spec_year_start(y + 1) - spec_year_start(y) == 365 + if spec_is_leap_year(y) {
            1int
        } else {
            0int
        },
{
    let q = y / 4;
    let r = y % 4;
    lemma_fundamental_div_mod(y, 4);
    if r == 0 {
        lemma_fundamental_div_mod_converse(y + 3, 4, q, 3);
        lemma_fundamental_div_mod_converse(y + 4, 4, q + 1, 0);
    } else if r == 1 {
        lemma_fundamental_div_mod_converse(y + 3, 4, q + 1, 0);
        lemma_fundamental_div_mod_converse(y + 4, 4, q + 1, 1);
    } else if r == 2 {
        lemma_fundamental_div_mod_converse(y + 3, 4, q + 1, 1);
        lemma_fundamental_div_mod_converse(y + 4, 4, q + 1, 2);
    } else {
        lemma_fundamental_div_mod_converse(y + 3, 4, q + 1, 2);
        lemma_fundamental_div_mod_converse(y + 4, 4, q + 1, 3);
    }
}

/// Encodes a UTC timestamp as a packed FAT (time, date, centiseconds)
/// triple. `timezone_offset_seconds` is added to reach the stored local
/// time, inverting the decode direction.
///
/// The contract states the round trip: decoding the returned pair with the
/// same offset gives back the seconds, rounded down to the two-second
/// granularity the packed time can hold, and the centiseconds carry the
/// odd second and the nanoseconds in ten-millisecond steps. In particular,
/// on an even local second with nanoseconds below ten milliseconds the
/// returned centiseconds are zero and the round trip is exact.
pub fn fat_unix_time_to_fat_time(ts: Timespec, timezone_offset_seconds: i64) -> (r: (u16, u16, u8))
    requires
        0 <= ts.tv_nsec < 1_000_000_000,
        FAT_TIME_LOCAL_MIN <= ts.tv_sec + timezone_offset_seconds <= FAT_TIME_LOCAL_MAX,
    ensures
        ({
            let local = ts.tv_sec + timezone_offset_seconds;
            &&& spec_fat_decode_sec(r.0, r.1, timezone_offset_seconds as int) == ts.tv_sec - local
                % 2
            &&& r.2 == (local % 2) * 100 + ts.tv_nsec / 10_000_000
            &&& (r.2 == 0 <==> (local % 2 == 0 && ts.tv_nsec < 10_000_000))
            &&& FAT_DATE_MIN <= r.1 <= FAT_DATE_MAX
            &&& r.0 <= FAT_TIME_MAX
        }),
{
    let local: i64 = ts.tv_sec + timezone_offset_seconds;
    let days_total: i64 = local / SECS_PER_DAY;
    let sod: i64 = local % SECS_PER_DAY;
    proof {
        lemma_fundamental_div_mod(local as int, 86400);
        lemma_div_is_ordered(FAT_TIME_LOCAL_MIN as int, local as int, 86400);
        lemma_div_is_ordered(local as int, FAT_TIME_LOCAL_MAX as int, 86400);
        assert(FAT_TIME_LOCAL_MIN as int / 86400 == 3652);
        assert(FAT_TIME_LOCAL_MAX as int / 86400 == 50402);
    }
    let days: i64 = days_total - DAYS_DELTA;

    let mut year: i64 = 0;
    while year < 127 && fat_year_start(year + 1) <= days
        invariant
            0 <= year <= 127,
            spec_year_start(year as int) <= days,
            0 <= days <= 46750,
        decreases 127 - year,
    {
        year = year + 1;
    }
    proof {
        // On exit the next year starts past `days`: either the loop
        // condition said so, or the year is 127 and 2108 starts at 46751.
        assert(spec_year_start(128) == 46751);
        assert(days < spec_year_start(year as int + 1));
        lemma_year_length(year as int);
    }
    let rem: i64 = days - fat_year_start(year);

    let mut month: i64 = 1;
    while month < 12 && fat_month_start(year, month + 1) <= rem
        invariant
            1 <= month <= 12,
            0 <= year <= 127,
            spec_month_start(year as int, month as int) <= rem,
            rem < spec_year_start(year as int + 1) - spec_year_start(year as int),
            spec_year_start(year as int + 1) - spec_year_start(year as int) == 365
                + if spec_is_leap_year(year as int) {
                1int
            } else {
                0int
            },
        decreases 12 - month,
    {
        month = month + 1;
    }
    let day: i64 = rem - fat_month_start(year, month);
    proof {
        assert(0 <= day <= 30);
    }

    let hours: i64 = sod / 3600;
    let rem3600: i64 = sod % 3600;
    let mins: i64 = rem3600 / 60;
    let secs: i64 = rem3600 % 60;
    proof {
        lemma_fundamental_div_mod(sod as int, 3600);
        lemma_fundamental_div_mod(rem3600 as int, 60);
        lemma_div_is_ordered(sod as int, 86399, 3600);
        assert(86399int / 3600 == 23);
        lemma_div_is_ordered(rem3600 as int, 3599, 60);
        assert(3599int / 60 == 59);
    }

    let time: u16 = (hours * 2048 + mins * 32 + secs / 2) as u16;
    let date: u16 = (year * 512 + month * 32 + (day + 1)) as u16;
    let cs: u8 = ((secs % 2) * 100 + ts.tv_nsec / 10_000_000) as u8;

    proof {
        lemma_fundamental_div_mod(secs as int, 2);
        // Unpacking the packed fields gives back exactly the pieces above.
        lemma_fundamental_div_mod_converse(time as int, 32, hours as int * 64 + mins, secs as int
            / 2);
        lemma_fundamental_div_mod_converse(hours as int * 64 + mins, 64, hours as int, mins as int);
        lemma_fundamental_div_mod_converse(time as int, 2048, hours as int, mins as int * 32
            + secs as int / 2);
        lemma_fundamental_div_mod_converse(date as int, 512, year as int, month as int * 32
            + day as int + 1);
        lemma_fundamental_div_mod_converse(date as int, 32, year as int * 16 + month, day as int
            + 1);
        lemma_fundamental_div_mod_converse(year as int * 16 + month, 16, year as int,
            month as int);
        // The local second's parity is the parity of the second of the day.
        lemma_fundamental_div_mod_converse(local as int, 2, days_total as int * 43200
            + hours as int * 1800 + mins as int * 30 + secs as int / 2, secs as int % 2);
    }

    (time, date, cs)
}

/// A timestamp floored to two-second granularity, nanoseconds discarded.
pub open spec fn spec_trunc_2secs(ts: Timespec) -> Timespec {
    Timespec { tv_sec: (ts.tv_sec - ts.tv_sec % 2) as i64, tv_nsec: 0 }
}

/// Floors a timestamp to the two-second granularity of on-disk FAT times.
pub fn fat_timespec64_trunc_2secs(ts: Timespec) -> (r: Timespec)
    ensures
        r == spec_trunc_2secs(ts),
{
    let rem: i64 = ts.tv_sec % 2;
    let adj: i64 = if rem < 0 {
        rem + 2
    } else {
        rem
    };
    Timespec { tv_sec: ts.tv_sec - adj, tv_nsec: 0 }
}

/// The remainder with the dividend's sign, as the `%` of executable code
/// computes it.
pub open spec fn spec_trunc_rem(a: int, b: int) -> int {
    if a >= 0 {
        a % b
    } else {
        -((-a) % b)
    }
}

/// The access time the truncation policy stores: the start of the local
/// day that `now` falls in, converted back to UTC.
pub open spec fn spec_atime_day_floor(now: Timespec, timezone_offset_seconds: int) -> Timespec {
    Timespec {
        tv_sec: (now.tv_sec - spec_trunc_rem(now.tv_sec - timezone_offset_seconds,
            SECS_PER_DAY as int)) as i64,
        tv_nsec: 0,
    }
}

/// Truncates the requested inode times to the granularities FAT can store:
/// nothing at all on the root inode, whose times are frozen; day
/// granularity in local time for the access time; two-second granularity
/// for the change and modification times.
pub fn fat_truncate_time(inode: &mut Inode, now: Timespec, a: UpdateATime, c: UpdateCTime,
    m: UpdateMTime, timezone_offset_seconds: i64)
    requires
        -0x2000_0000_0000_0000 <= now.tv_sec <= 0x2000_0000_0000_0000,
        -0x2000_0000_0000_0000 <= timezone_offset_seconds <= 0x2000_0000_0000_0000,
    ensures
        old(inode).i_ino == FAT_ROOT_INO ==> *final(inode) == *old(inode),
        old(inode).i_ino != FAT_ROOT_INO ==> *final(inode) == (Inode {
            i_atime: if a is Yes {
                spec_atime_day_floor(now, timezone_offset_seconds as int)
            } else {
                old(inode).i_atime
            },
            i_ctime: if c is Yes {
                spec_trunc_2secs(now)
            } else {
                old(inode).i_ctime
            },
            i_mtime: if m is Yes {
                spec_trunc_2secs(now)
            } else {
                old(inode).i_mtime
            },
            ..*old(inode)
        }),
{
    if inode.i_ino == FAT_ROOT_INO {
        return;
    }

    if matches!(a, UpdateATime::Yes) {
        let seconds: i64 = now.tv_sec - timezone_offset_seconds;
        let floored: i64 = seconds + timezone_offset_seconds - (seconds % SECS_PER_DAY);
        inode.i_atime = Timespec { tv_sec: floored, tv_nsec: 0 };
    }
    if matches!(c, UpdateCTime::Yes) {
        inode.i_ctime = fat_timespec64_trunc_2secs(now);
    }
    if matches!(m, UpdateMTime::Yes) {
        inode.i_mtime = fat_timespec64_trunc_2secs(now);
    }
}

} // verus!
