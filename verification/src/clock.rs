//! The moment at which a page is made, and how it is written.

use vstd::prelude::*;

verus! {

/// A moment of the calendar in UTC, field by field.
#[derive(Debug, Clone, Copy, PartialEq, Eq)]
pub struct Timestamp {
    /// Days since Sunday, 0 to 6.
    pub weekday: i32,
    /// Months since January, 0 to 11.
    pub month: i32,
    /// Day of the month.
    pub day: i32,
    pub hour: i32,
    pub minute: i32,
    pub second: i32,
    /// Years since 1900.
    pub year: i32,
}

/// What the `asctime` format of the `time` crate writes for a moment with
/// these fields, such as `Thu Jan  1 00:00:00 1970`.
pub uninterp spec fn asctime_text(
    weekday: int,
    month: int,
    day: int,
    hour: int,
    minute: int,
    second: int,
    year: int,
) -> Seq<char>;

/// `time::now` of the `time` crate, taken to UTC by `Tm::to_utc`, field by
/// field. The crate fills the fields from the calendar time of the system
/// and documents where each of them lies: the weekday from 0 to 6, the month
/// from 0 to 11, the day from 1 to 31, the hour from 0 to 23, the minute
/// from 0 to 59 and the second from 0 to 60. That much is claimed. Which
/// moment it is depends on the clock of the machine, and of the year
/// nothing is claimed.
#[verifier::external_body]
fn now_utc() -> (now: Timestamp)
    ensures
        now.on_calendar(),
{
    let t = time::now().to_utc();
    Timestamp {
        weekday: t.tm_wday,
        month: t.tm_mon,
        day: t.tm_mday,
        hour: t.tm_hour,
        minute: t.tm_min,
        second: t.tm_sec,
        year: t.tm_year,
    }
}

/// `Tm::asctime` of the `time` crate, written out as a string. The format
/// reads the weekday, the month, the day, the time of day and the year; it
/// has a name for each weekday from 0 to 6 and each month from 0 to 11 and
/// for no other, and it adds 1900 to the year. On such fields the result
/// is the text that `asctime_text` names.
#[verifier::external_body]
fn asctime(ts: &Timestamp) -> (out: String)
    requires
        ts.printable(),
    ensures
        out@ == asctime_text(
            ts.weekday as int,
            ts.month as int,
            ts.day as int,
            ts.hour as int,
            ts.minute as int,
            ts.second as int,
            ts.year as int,
        ),
{
    let tm = time::Tm {
        tm_sec: ts.second, tm_min: ts.minute, tm_hour: ts.hour,
        tm_mday: ts.day, tm_mon: ts.month, tm_year: ts.year,
        tm_wday: ts.weekday, tm_yday: 0, tm_isdst: 0, tm_utcoff: 0, tm_nsec: 0,
    };
    tm.asctime().to_string()
}

impl Timestamp {
    /// The fields are such that the moment can be written: the weekday and
    /// the month have a name, and the year of the calendar fits.
    pub open spec fn printable(&self) -> bool {
        &&& 0 <= self.weekday <= 6
        &&& 0 <= self.month <= 11
        &&& self.year <= i32::MAX - 1900
    }

    /// The fields lie where the calendar puts them: the weekday and the
    /// month have a name, the day is one of a month, and the time is one of
    /// a day, the last second of which may be a leap second.
    pub open spec fn on_calendar(&self) -> bool {
        &&& 0 <= self.weekday <= 6
        &&& 0 <= self.month <= 11
        &&& 1 <= self.day <= 31
        &&& 0 <= self.hour <= 23
        &&& 0 <= self.minute <= 59
        &&& 0 <= self.second <= 60
    }

    /// The moment as it is written.
    pub open spec fn text(&self) -> Seq<char> {
        asctime_text(
            self.weekday as int,
            self.month as int,
            self.day as int,
            self.hour as int,
            self.minute as int,
            self.second as int,
            self.year as int,
        )
    }

    /// The moment as it stands on a page: as it is written, and nothing
    /// where it cannot be written.
    pub open spec fn stamp(&self) -> Seq<char> {
        if self.printable() {
            self.text()
        } else {
            Seq::empty()
        }
    }

    /// The present moment in UTC, as the clock of the machine gives it: a
    /// moment of the calendar, whichever it is.
    pub fn now() -> (now: Timestamp)
        ensures
            now.on_calendar(),
    {
        now_utc()
    }

    pub fn is_printable(&self) -> (yes: bool)
        ensures
            yes == self.printable(),
    {
        0 <= self.weekday && self.weekday <= 6 && 0 <= self.month && self.month <= 11 && self.year
            <= i32::MAX - 1900
    }

    /// Writes the moment in the `asctime` format.
    pub fn write(&self) -> (out: String)
        requires
            self.printable(),
        ensures
            out@ == self.text(),
    {
        asctime(self)
    }

    /// Writes the moment if it can be written.
    pub fn format(&self) -> (out: Option<String>)
        ensures
            match out {
                Some(written) => self.printable() && written@ == self.text(),
                None => !self.printable(),
            },
    {
        if self.is_printable() {
            Some(self.write())
        } else {
            None
        }
    }

    /// Writes the moment as it stands on a page.
    pub fn to_stamp(&self) -> (out: String)
        ensures
            out@ == self.stamp(),
    {
        match self.format() {
            Some(written) => written,
            None => String::new(),
        }
    }
}

} // verus!
