//! Real-time clock: the binary-coded decimal fields of its registers.

use vstd::prelude::*;

verus! {

/// Splits `byte` into its tens digit and the byte holding the tens digit in
/// the upper nibble and the units digit in the lower one (upper bits beyond
/// the byte are lost).
pub fn byte_to_bcd2(byte: u8) -> (r: (u8, u8))
    ensures
        r.0 == byte / 10,
        r.1 == ((byte / 10) * 16 + byte % 10) % 256,
{
    let mut bcd_high: u8 = 0;
    let mut value = byte;
    while value >= 10
        invariant
            bcd_high * 10 + value == byte,
        decreases value,
    {
        bcd_high = bcd_high + 1;
        value = value - 10;
    }
    (bcd_high, ((bcd_high % 16) * 16 + value) as u8)
}

/// The number written as tens digit `bcd.0` and units digit `bcd.1`.
pub fn bcd2_to_byte(bcd: (u8, u8)) -> (r: u8)
    requires
        bcd.0 < 16,
        bcd.1 < 16,
    ensures
        r == bcd.0 * 10 + bcd.1,
{
    bcd.0 * 10 + bcd.1
}

/// A time of day as the calendar keeps it.
#[derive(Debug, Copy, Clone, PartialEq, Eq, Structural)]
pub struct Time {
    pub hours: u8,
    pub minutes: u8,
    pub seconds: u8,
    pub daylight_savings: bool,
}

/// A calendar date; `day` is the day of the week (1 = Monday).
#[derive(Debug, Copy, Clone, PartialEq, Eq, Structural)]
pub struct Date {
    pub day: u8,
    pub date: u8,
    pub month: u8,
    pub year: u16,
}

/// The TR word for `t`: hour tens (2 bits) at 20, hour units at 16, minute
/// tens (3 bits) at 12, minute units at 8, second tens (3 bits) at 4, second
/// units at 0; 24-hour format, so the PM bit is clear. A digit wider than its
/// field keeps its low bits.
pub open spec fn tr_word(t: Time) -> u32 {
    (((t.hours / 10) % 4) * 0x10_0000 + (t.hours % 10) * 0x1_0000 + ((t.minutes / 10) % 8) * 0x1000
        + (t.minutes % 10) * 0x100 + ((t.seconds / 10) % 8) * 0x10 + t.seconds % 10) as u32
}

/// The DR word for `d`: year tens at 20, year units at 16 (the year counted
/// from 1970), weekday (3 bits) at 13, month tens (1 bit) at 12, month units
/// at 8, date tens (2 bits) at 4, date units at 0.
pub open spec fn dr_word(d: Date) -> u32 {
    let y = ((d.year - 1970) % 256) as int;
    (((y / 10) % 16) * 0x10_0000 + (y % 10) * 0x1_0000 + (d.day % 8) * 0x2000 + (if d.month / 10 > 0 {
        0x1000int
    } else {
        0int
    }) + (d.month % 10) * 0x100 + ((d.date / 10) % 4) * 0x10 + d.date % 10) as u32
}

/// The TR word that sets the calendar to `time`.
pub fn time_register(time: &Time) -> (r: u32)
    ensures
        r == tr_word(*time),
{
    let (ht, _) = byte_to_bcd2(time.hours);
    let (mnt, _) = byte_to_bcd2(time.minutes);
    let (st, _) = byte_to_bcd2(time.seconds);
    (ht % 4) as u32 * 0x10_0000 + (time.hours % 10) as u32 * 0x1_0000 + (mnt % 8) as u32 * 0x1000
        + (time.minutes % 10) as u32 * 0x100 + (st % 8) as u32 * 0x10 + (time.seconds % 10) as u32
}

/// The DR word that sets the calendar to `date`.
pub fn date_register(date: &Date) -> (r: u32)
    requires
        date.year >= 1970,
    ensures
        r == dr_word(*date),
{
    let (dt, _) = byte_to_bcd2(date.date);
    let (mt, _) = byte_to_bcd2(date.month);
    let yr_offset = ((date.year - 1970) % 256) as u8;
    let (yt, _) = byte_to_bcd2(yr_offset);
    let month_tens: u32 = if mt > 0 {
        0x1000
    } else {
        0
    };
    (yt % 16) as u32 * 0x10_0000 + (yr_offset % 10) as u32 * 0x1_0000 + (date.day % 8) as u32 * 0x2000
        + month_tens + (date.month % 10) as u32 * 0x100 + (dt % 4) as u32 * 0x10 + (date.date % 10) as u32
}

/// The time a TR word holds; `fmt` is the CR format bit, reported as the
/// daylight-saving flag.
pub fn time_from_register(tr: u32, fmt: bool) -> (r: Time)
    ensures
        r.hours == ((tr / 0x10_0000) % 4) * 10 + (tr / 0x1_0000) % 16,
        r.minutes == ((tr / 0x1000) % 8) * 10 + (tr / 0x100) % 16,
        r.seconds == ((tr / 0x10) % 8) * 10 + tr % 16,
        r.daylight_savings == fmt,
{
    let hours = bcd2_to_byte((((tr / 0x10_0000) % 4) as u8, ((tr / 0x1_0000) % 16) as u8));
    let minutes = bcd2_to_byte((((tr / 0x1000) % 8) as u8, ((tr / 0x100) % 16) as u8));
    let seconds = bcd2_to_byte((((tr / 0x10) % 8) as u8, (tr % 16) as u8));
    Time { hours, minutes, seconds, daylight_savings: fmt }
}

/// The date a DR word holds.
pub fn date_from_register(dr: u32) -> (r: Date)
    ensures
        r.day == (dr / 0x2000) % 8,
        r.date == ((dr / 0x10) % 4) * 10 + dr % 16,
        r.month == ((dr / 0x1000) % 2) * 10 + (dr / 0x100) % 16,
        r.year == ((dr / 0x10_0000) % 16) * 10 + (dr / 0x1_0000) % 16 + 1970,
{
    let date = bcd2_to_byte((((dr / 0x10) % 4) as u8, (dr % 16) as u8));
    let month = bcd2_to_byte((((dr / 0x1000) % 2) as u8, ((dr / 0x100) % 16) as u8));
    let year = bcd2_to_byte((((dr / 0x10_0000) % 16) as u8, ((dr / 0x1_0000) % 16) as u8));
    Date { day: ((dr / 0x2000) % 8) as u8, date, month, year: year as u16 + 1970 }
}

} // verus!
