//! The real-time clock: a snapshot of the local date and time and the seven
//! bytes in which the guest reads it.

use chrono::{Datelike, Timelike};
use vstd::prelude::*;

verus! {

/// Temperature that the clock chip reports, in degrees Celsius.
pub const TEMPERATURE: u8 = 21;

/// Number of bytes of a date and time transfer.
pub const DATETIME_BYTES: u32 = 7;

/// A snapshot of the local date and time.
#[derive(Clone, Copy, PartialEq, Eq, Debug, Structural)]
pub struct WallClock {
    pub second: u8,
    pub minute: u8,
    pub hour: u8,
    pub day: u8,
    pub month: u8,
    pub year: i32,
}

/// The calendar fields of a moment as chrono hands them out.
#[derive(Clone, Copy, PartialEq, Eq, Debug, Structural)]
pub struct CivilFields {
    pub second: u32,
    pub minute: u32,
    pub hour: u32,
    pub day: u32,
    pub month: u32,
    pub year: i32,
}

/// The calendar fields of the moment that lies `seconds` after the start of
/// 1970, as chrono computes them; `None` for a moment outside chrono's range
/// of dates.
pub uninterp spec fn civil_fields(seconds: i64) -> Option<CivilFields>;

/// Makes a date and time of a count of seconds with
/// `chrono::DateTime::from_timestamp` and takes the result apart with
/// `second`, `minute`, `hour`, `day`, `month` and `year`.
///
/// The claim is only that the fields are a function of the count: chrono
/// computes them from the count alone, without looking at the host's clock
/// or time zone. `from_timestamp` returns `None` instead of failing.
#[verifier::external_body]
fn civil_fields_of(seconds: i64) -> (fields: Option<CivilFields>)
    ensures
        fields == civil_fields(seconds),
{
    let moment = chrono::DateTime::from_timestamp(seconds, 0)?;
    Some(
        CivilFields {
            second: moment.second(),
            minute: moment.minute(),
            hour: moment.hour(),
            day: moment.day(),
            month: moment.month(),
            year: moment.year(),
        },
    )
}

/// The local date and time at a moment: the calendar fields of the moment
/// moved by the offset of local time. `unix_seconds` counts the seconds since
/// the start of 1970 in universal time, `offset_seconds` is what local time
/// is ahead of it. `None` when the sum leaves the range of the count, when
/// chrono has no date for it, or when chrono's fields are no time of day and
/// day of a month.
pub open spec fn local_time(unix_seconds: i64, offset_seconds: i32) -> Option<WallClock> {
    let local = unix_seconds + offset_seconds;
    if i64::MIN <= local <= i64::MAX {
        match civil_fields(local as i64) {
            Some(fields) => WallClock::of_fields(fields),
            None => None,
        }
    } else {
        None
    }
}

impl WallClock {
    /// The fields name a time of day and a day of some month.
    pub open spec fn is_calendar(self) -> bool {
        &&& self.second <= 59
        &&& self.minute <= 59
        &&& self.hour <= 23
        &&& 1 <= self.day <= 31
        &&& 1 <= self.month <= 12
    }

    /// The last two digits of the year.
    pub open spec fn year_in_century(self) -> u8 {
        (self.year as int % 100) as u8
    }

    /// Byte `index` of the date and time transfer: second, minute, hour, day,
    /// month, the year within its century and the temperature; 0 beyond them.
    pub open spec fn frame_byte(self, index: int) -> u8 {
        if index == 0 {
            self.second
        } else if index == 1 {
            self.minute
        } else if index == 2 {
            self.hour
        } else if index == 3 {
            self.day
        } else if index == 4 {
            self.month
        } else if index == 5 {
            self.year_in_century()
        } else if index == 6 {
            TEMPERATURE
        } else {
            0
        }
    }

    /// The seven bytes of the date and time transfer.
    pub open spec fn frame(self) -> Seq<u8> {
        Seq::new(DATETIME_BYTES as nat, |i: int| self.frame_byte(i))
    }

    /// The snapshot that calendar fields make, if they are a time of day and
    /// a day of a month.
    pub open spec fn of_fields(fields: CivilFields) -> Option<WallClock> {
        if fields.second <= 59 && fields.minute <= 59 && fields.hour <= 23 && 1 <= fields.day <= 31
            && 1 <= fields.month <= 12 {
            Some(
                WallClock {
                    second: fields.second as u8,
                    minute: fields.minute as u8,
                    hour: fields.hour as u8,
                    day: fields.day as u8,
                    month: fields.month as u8,
                    year: fields.year,
                },
            )
        } else {
            None
        }
    }

    /// The date and time that stand in the clock register before the first
    /// snapshot: the start of the year 2000.
    pub open spec fn at_power_up() -> WallClock {
        WallClock { second: 0, minute: 0, hour: 0, day: 1, month: 1, year: 2000 }
    }

    /// The date and time that stand in the clock register before the first
    /// snapshot.
    pub fn power_up() -> (t: WallClock)
        ensures
            t == WallClock::at_power_up(),
            t.is_calendar(),
    {
        WallClock { second: 0, minute: 0, hour: 0, day: 1, month: 1, year: 2000 }
    }

    /// The snapshot that calendar fields make; `None` unless seconds and
    /// minutes are at most 59, the hour at most 23, the day from 1 to 31 and
    /// the month from 1 to 12.
    pub fn from_fields(fields: CivilFields) -> (t: Option<WallClock>)
        ensures
            t == WallClock::of_fields(fields),
            t matches Some(w) ==> w.is_calendar(),
    {
        if fields.second <= 59 && fields.minute <= 59 && fields.hour <= 23 && 1 <= fields.day
            && fields.day <= 31 && 1 <= fields.month && fields.month <= 12 {
            Some(
                WallClock {
                    second: fields.second as u8,
                    minute: fields.minute as u8,
                    hour: fields.hour as u8,
                    day: fields.day as u8,
                    month: fields.month as u8,
                    year: fields.year,
                },
            )
        } else {
            None
        }
    }

    /// The local date and time at the moment `unix_seconds` after the start of
    /// 1970, where local time is `offset_seconds` ahead of universal time.
    pub fn at(unix_seconds: i64, offset_seconds: i32) -> (t: Option<WallClock>)
        ensures
            t == local_time(unix_seconds, offset_seconds),
            t matches Some(w) ==> w.is_calendar(),
    {
        match unix_seconds.checked_add(offset_seconds as i64) {
            Some(local) => match civil_fields_of(local) {
                Some(fields) => WallClock::from_fields(fields),
                None => None,
            },
            None => None,
        }
    }

    /// The last two digits of the year.
    pub fn two_digit_year(&self) -> (y: u8)
        ensures
            y == self.year_in_century(),
            y <= 99,
    {
        let r: i32 = self.year % 100;
        if r < 0 {
            (r + 100) as u8
        } else {
            r as u8
        }
    }

    /// Byte `index` of the date and time transfer.
    pub fn byte(&self, index: u32) -> (b: u8)
        ensures
            b == self.frame_byte(index as int),
    {
        match index {
            0 => self.second,
            1 => self.minute,
            2 => self.hour,
            3 => self.day,
            4 => self.month,
            5 => self.two_digit_year(),
            6 => TEMPERATURE,
            _ => 0,
        }
    }
}

} // verus!
