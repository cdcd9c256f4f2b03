//! Decoding of the real-time-clock register block.
//!
//! The clock peripheral answers a seven-byte burst read with packed
//! binary-coded-decimal registers: second, minute, hour, day-of-week, day,
//! month, year.  Device flag bits (the high bit of the seconds byte, the top
//! two bits of the hour byte, the top three bits of the month byte) are
//! masked off before decoding, and the two-digit year is anchored in the
//! 2000-2099 window.

use vstd::prelude::*;
use vstd::string::StringExecFns;
use crate::text::four_digits;
use crate::text::push_four_digits;
use crate::text::push_two_digits;
use crate::text::two_digits;

verus! {

/// Value of a packed binary-coded-decimal byte: the high nibble is the tens
/// digit, the low nibble the ones digit.
pub open spec fn bcd_value(b: u8) -> int {
    (b >> 4) * 10 + (b & 0x0f)
}

/// Decode one packed binary-coded-decimal byte.
///
/// For every byte whose two nibbles are each a decimal digit, the result is
/// `high_nibble * 10 + low_nibble`; the formula is applied to every byte, so
/// this also fixes the behaviour on out-of-range nibbles.
pub fn bcd_to_dec(b: u8) -> (r: u8)
    ensures
        r == bcd_value(b),
{
    proof {
        assert((b >> 4) <= 15 && (b & 0x0f) <= 15) by (bit_vector);
    }
    (b >> 4) * 10 + (b & 0x0f)
}

/// A calendar/time value read from the clock peripheral, fresh each cycle.
#[derive(Clone, Copy, PartialEq, Eq, Structural, Debug)]
pub struct ClockReading {
    pub year: u16,
    pub month: u8,
    pub day: u8,
    pub hour: u8,
    pub minute: u8,
    pub second: u8,
}

impl ClockReading {
    /// Field ranges of a calendar/time value.
    pub open spec fn wf(self) -> bool {
        &&& 2000 <= self.year <= 2099
        &&& 1 <= self.month <= 12
        &&& 1 <= self.day <= 31
        &&& self.hour <= 23
        &&& self.minute <= 59
        &&& self.second <= 59
    }

    /// Runtime check of the calendar/time ranges, for readings decoded from
    /// registers that may hold garbage after a bus fault or an unset clock.
    pub fn in_range(&self) -> (r: bool)
        ensures
            r == self.wf(),
    {
        2000 <= self.year && self.year <= 2099 && 1 <= self.month && self.month <= 12 && 1
            <= self.day && self.day <= 31 && self.hour <= 23 && self.minute <= 59 && self.second
            <= 59
    }
}

/// What a seven-byte register burst decodes to: flag bits masked off, each
/// field binary-coded decimal, and the year anchored at 2000.
pub open spec fn decoded_clock(regs: Seq<u8>) -> ClockReading
    recommends
        regs.len() == 7,
{
    ClockReading {
        second: bcd_value(regs[0] & 0x7f) as u8,
        minute: bcd_value(regs[1]) as u8,
        hour: bcd_value(regs[2] & 0x3f) as u8,
        day: bcd_value(regs[4]) as u8,
        month: bcd_value(regs[5] & 0x1f) as u8,
        year: (2000 + bcd_value(regs[6])) as u16,
    }
}

/// Decode the register block of one clock transaction.
///
/// The byte at index 3 is the day-of-week register, which the telemetry
/// record does not use.
pub fn decode_clock_registers(regs: &[u8; 7]) -> (r: ClockReading)
    ensures
        r == decoded_clock(regs@),
{
    let second = bcd_to_dec(regs[0] & 0x7f);
    let minute = bcd_to_dec(regs[1]);
    let hour = bcd_to_dec(regs[2] & 0x3f);
    let day = bcd_to_dec(regs[4]);
    let month = bcd_to_dec(regs[5] & 0x1f);
    let year: u16 = 2000 + bcd_to_dec(regs[6]) as u16;
    ClockReading { year, month, day, hour, minute, second }
}

/// The date field of a reading, rendered `YYYY-MM-DD`.
pub open spec fn date_chars(c: ClockReading) -> Seq<char> {
    four_digits(c.year as int) + seq!['-'] + two_digits(c.month as int) + seq!['-'] + two_digits(
        c.day as int,
    )
}

/// The time field of a reading, rendered `HH:MM:SS`.
pub open spec fn time_chars(c: ClockReading) -> Seq<char> {
    two_digits(c.hour as int) + seq![':'] + two_digits(c.minute as int) + seq![':'] + two_digits(
        c.second as int,
    )
}

/// Render the date of a reading as `YYYY-MM-DD`.
pub fn format_date(c: &ClockReading) -> (r: String)
    requires
        c.wf(),
    ensures
        r@ == date_chars(*c),
{
    let mut out = String::new();
    push_four_digits(&mut out, c.year);
    out.append("-");
    push_two_digits(&mut out, c.month);
    out.append("-");
    push_two_digits(&mut out, c.day);
    proof {
        reveal_strlit("-");
        assert(out@ =~= date_chars(*c));
    }
    out
}

/// Render the time of a reading as `HH:MM:SS`.
pub fn format_time(c: &ClockReading) -> (r: String)
    requires
        c.wf(),
    ensures
        r@ == time_chars(*c),
{
    let mut out = String::new();
    push_two_digits(&mut out, c.hour);
    out.append(":");
    push_two_digits(&mut out, c.minute);
    out.append(":");
    push_two_digits(&mut out, c.second);
    proof {
        reveal_strlit(":");
        assert(out@ =~= time_chars(*c));
    }
    out
}

} // verus!
