use time::OffsetDateTime;
use time::Weekday;
use vstd::prelude::*;

verus! {

#[verifier::external_type_specification]
#[verifier::external_body]
pub struct ExOffsetDateTime(OffsetDateTime);

#[verifier::external_type_specification]
#[verifier::external_body]
pub struct ExWeekday(Weekday);

/// A reading of the wall clock, field by field.
#[derive(Debug, Clone, Copy)]
pub struct ClockReading {
    pub year: i32,
    /// 1 (January) to 12.
    pub month: u8,
    /// 1 to 31.
    pub day: u8,
    /// Days since Sunday, 0 to 6.
    pub weekday: u8,
    pub hour: u8,
    pub minute: u8,
    pub second: u8,
}

/// The ranges every field of a reading lies in.
pub open spec fn clock_valid(c: ClockReading) -> bool {
    &&& 1 <= c.month <= 12
    &&& 1 <= c.day <= 31
    &&& c.weekday <= 6
    &&& c.hour < 24
    &&& c.minute < 60
    &&& c.second < 60
}

/// `OffsetDateTime::now_local`: the current time in the local offset, `None`
/// when that offset cannot be determined. The time itself is not stated.
#[verifier::external_body]
fn now_local() -> Option<OffsetDateTime> {
    OffsetDateTime::now_local().ok()
}

/// `OffsetDateTime::now_utc`: the current time in UTC. Not stated.
#[verifier::external_body]
fn now_utc() -> OffsetDateTime {
    OffsetDateTime::now_utc()
}

/// `OffsetDateTime::checked_sub` of `secs` seconds (a `Duration` made by
/// `Duration::seconds`): `None` when the result is out of range. Not stated.
#[verifier::external_body]
fn checked_sub_seconds(t: &OffsetDateTime, secs: i64) -> Option<OffsetDateTime> {
    t.checked_sub(time::Duration::seconds(secs))
}

/// `OffsetDateTime::year`. Not stated.
#[verifier::external_body]
fn year_of(t: &OffsetDateTime) -> i32 {
    t.year()
}

/// `OffsetDateTime::month`, as its number: 1 (January) to 12.
#[verifier::external_body]
fn month_of(t: &OffsetDateTime) -> (m: u8)
    ensures
        1 <= m <= 12,
{
    t.month() as u8
}

/// `OffsetDateTime::day`: the day of the month, 1 to 31.
#[verifier::external_body]
fn day_of(t: &OffsetDateTime) -> (d: u8)
    ensures
        1 <= d <= 31,
{
    t.day()
}

/// `OffsetDateTime::weekday`. Not stated.
#[verifier::external_body]
fn weekday_of(t: &OffsetDateTime) -> Weekday {
    t.weekday()
}

/// `Weekday::number_days_from_sunday`: 0 (Sunday) to 6.
#[verifier::external_body]
fn days_from_sunday(w: Weekday) -> (n: u8)
    ensures
        n <= 6,
{
    w.number_days_from_sunday()
}

/// `OffsetDateTime::hour`: 0 to 23.
#[verifier::external_body]
fn hour_of(t: &OffsetDateTime) -> (h: u8)
    ensures
        h < 24,
{
    t.hour()
}

/// `OffsetDateTime::minute`: 0 to 59.
#[verifier::external_body]
fn minute_of(t: &OffsetDateTime) -> (m: u8)
    ensures
        m < 60,
{
    t.minute()
}

/// `OffsetDateTime::second`: 0 to 59.
#[verifier::external_body]
fn second_of(t: &OffsetDateTime) -> (s: u8)
    ensures
        s < 60,
{
    t.second()
}

/// The local time (UTC where the local offset is unknown) moved back by
/// `offset_seconds`; where that falls out of range, the time is not moved.
pub fn read_clock(offset_seconds: i64) -> (c: ClockReading)
    ensures
        clock_valid(c),
{
    let now = match now_local() {
        Some(t) => t,
        None => now_utc(),
    };
    let t = match checked_sub_seconds(&now, offset_seconds) {
        Some(t) => t,
        None => now,
    };
    let w = weekday_of(&t);
    ClockReading {
        year: year_of(&t),
        month: month_of(&t),
        day: day_of(&t),
        weekday: days_from_sunday(w),
        hour: hour_of(&t),
        minute: minute_of(&t),
        second: second_of(&t),
    }
}

} // verus!
