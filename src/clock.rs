//! The time sampler's logic: one instant of the wall clock, shown in the
//! local zone and in a fixed zone four hours east of UTC.
use vstd::prelude::*;
use chrono::{Datelike, Timelike};
use crate::text::{push_char, push_text, push_two_digits, two_digits};

verus! {

/// The offset of the second zone shown, in seconds east of UTC.
pub const GULF_OFFSET_SECS: i32 = 14400;

/// A civil date and time of day, to the minute.
#[derive(Debug, Clone, Copy, PartialEq, Eq, Structural)]
pub struct CivilTime {
    pub year: i32,
    pub month: u32,
    pub day: u32,
    pub hour: u32,
    pub minute: u32,
}

impl CivilTime {
    /// Each field lies in its calendar range.
    pub open spec fn wf(self) -> bool {
        1 <= self.month <= 12 && 1 <= self.day <= 31 && self.hour < 24 && self.minute < 60
    }
}

/// The civil time at a UNIX time seen at a fixed offset east of UTC, as chrono computes it.
pub uninterp spec fn civil_time_at(utc_secs: i64, offset_secs: i32) -> Option<CivilTime>;

/// Relies on chrono's `FixedOffset::east_opt`, `DateTime::from_timestamp` and
/// `DateTime::with_timezone`: the calendar fields at that instant and offset.
/// `east_opt` accepts offsets strictly within a day; `from_timestamp` has a
/// calendar time for every instant within chrono's years -262143 to 262142,
/// which holds all of +/- 8 * 10^12 seconds; the fields that chrono's
/// `Datelike` and `Timelike` give lie in their calendar ranges.
#[verifier::external_body]
fn civil_at(utc_secs: i64, offset_secs: i32) -> (r: Option<CivilTime>)
    requires
        -86400 < offset_secs < 86400,
    ensures
        r == civil_time_at(utc_secs, offset_secs),
        r matches Some(c) ==> c.wf(),
        -8_000_000_000_000 <= utc_secs <= 8_000_000_000_000 ==> r is Some,
{
    let off = chrono::FixedOffset::east_opt(offset_secs).unwrap();
    match chrono::DateTime::from_timestamp(utc_secs, 0) {
        Some(t) => {
            let l = t.with_timezone(&off);
            Some(CivilTime { year: l.year(), month: l.month(), day: l.day(), hour: l.hour(), minute: l.minute() })
        },
        None => None,
    }
}

/// The same instant in the local zone and in the fixed zone.
#[derive(Debug, Clone, Copy, PartialEq, Eq, Structural)]
pub struct TimeReading {
    pub local: CivilTime,
    pub gulf: CivilTime,
}

impl TimeReading {
    /// Both times are calendar times, and the year shown fits four digits.
    pub open spec fn wf(self) -> bool {
        self.local.wf() && self.gulf.wf() && 0 <= self.gulf.year <= 9999
    }

    /// Whether the reading can be shown.
    pub fn is_valid(&self) -> (r: bool)
        ensures
            r == self.wf(),
    {
        let l = &self.local;
        let g = &self.gulf;
        1 <= l.month && l.month <= 12 && 1 <= l.day && l.day <= 31 && l.hour < 24 && l.minute < 60
            && 1 <= g.month && g.month <= 12 && 1 <= g.day && g.day <= 31 && g.hour < 24 && g.minute
            < 60 && 0 <= g.year && g.year <= 9999
    }
}

/// The hour on a twelve-hour clock: 0 and 12 both read 12.
pub open spec fn hour12(h: nat) -> nat {
    if h % 12 == 0 {
        12
    } else {
        h % 12
    }
}

/// `AM` before noon, `PM` from noon.
pub open spec fn meridiem(h: nat) -> Seq<char> {
    if h < 12 {
        seq!['A', 'M']
    } else {
        seq!['P', 'M']
    }
}

/// `hh:mm` on a twenty-four-hour clock.
pub open spec fn clock24_text(c: CivilTime) -> Seq<char> {
    two_digits(c.hour as nat) + seq![':'] + two_digits(c.minute as nat)
}

/// `hh:mm` on a twelve-hour clock.
pub open spec fn clock12_text(c: CivilTime) -> Seq<char> {
    two_digits(hour12(c.hour as nat)) + seq![':'] + two_digits(c.minute as nat)
}

/// `hh:mm AM dd-mm-yyyy`, the hour on a twelve-hour clock.
pub open spec fn dated_text(c: CivilTime) -> Seq<char> {
    clock12_text(c) + seq![' '] + meridiem(c.hour as nat) + seq![' '] + two_digits(c.day as nat)
        + seq!['-'] + two_digits(c.month as nat) + seq!['-'] + two_digits((c.year / 100) as nat)
        + two_digits((c.year % 100) as nat)
}

/// The time fragment: `UK:<local HH:mm> AE:<gulf hh:mm AM dd-mm-yyyy>|`, the
/// local hour on a twenty-four-hour clock, the other on a twelve-hour one.
pub open spec fn time_text(t: TimeReading) -> Seq<char> {
    seq!['U', 'K', ':'] + clock24_text(t.local) + seq![' ', 'A', 'E', ':'] + dated_text(t.gulf)
        + seq!['|']
}

/// The reading at a UNIX time, given the local zone's offset: `None` when chrono
/// has no calendar time for it, or the year does not fit four digits.
pub open spec fn reading_at(utc_secs: i64, local_offset: i32) -> Option<TimeReading> {
    match (civil_time_at(utc_secs, local_offset), civil_time_at(utc_secs, GULF_OFFSET_SECS)) {
        (Some(local), Some(gulf)) => if 0 <= gulf.year <= 9999 {
            Some(TimeReading { local, gulf })
        } else {
            None
        },
        _ => None,
    }
}

/// The reading at a UNIX time, given the local zone's offset.
pub fn time_reading_at(utc_secs: i64, local_offset: i32) -> (r: Option<TimeReading>)
    requires
        -86400 < local_offset < 86400,
    ensures
        r == reading_at(utc_secs, local_offset),
        r matches Some(t) ==> t.wf(),
{
    let local = match civil_at(utc_secs, local_offset) {
        Some(c) => c,
        None => return None,
    };
    let gulf = match civil_at(utc_secs, GULF_OFFSET_SECS) {
        Some(c) => c,
        None => return None,
    };
    if 0 <= gulf.year && gulf.year <= 9999 {
        Some(TimeReading { local, gulf })
    } else {
        None
    }
}

fn push_clock24(s: &mut String, c: &CivilTime)
    requires
        c.wf(),
    ensures
        final(s)@ == old(s)@ + clock24_text(*c),
{
    push_two_digits(s, c.hour as u64);
    push_char(s, ':');
    push_two_digits(s, c.minute as u64);
    assert(final(s)@ =~= old(s)@ + clock24_text(*c));
}

fn push_clock12(s: &mut String, c: &CivilTime)
    requires
        c.wf(),
    ensures
        final(s)@ == old(s)@ + clock12_text(*c),
{
    let h = c.hour % 12;
    let h12 = if h == 0 { 12 } else { h };
    push_two_digits(s, h12 as u64);
    push_char(s, ':');
    push_two_digits(s, c.minute as u64);
    assert(final(s)@ =~= old(s)@ + clock12_text(*c));
}

fn push_dated(s: &mut String, g: &CivilTime)
    requires
        g.wf(),
        0 <= g.year <= 9999,
    ensures
        final(s)@ == old(s)@ + dated_text(*g),
{
    push_clock12(s, g);
    push_char(s, ' ');
    let ghost mid = s@;
    if g.hour < 12 {
        push_text(s, "AM");
    } else {
        push_text(s, "PM");
    }
    proof {
        reveal_strlit("AM");
        reveal_strlit("PM");
        assert(s@ =~= mid + meridiem(g.hour as nat));
    }
    push_char(s, ' ');
    push_two_digits(s, g.day as u64);
    push_char(s, '-');
    push_two_digits(s, g.month as u64);
    push_char(s, '-');
    push_two_digits(s, (g.year / 100) as u64);
    push_two_digits(s, (g.year % 100) as u64);
    assert(final(s)@ =~= old(s)@ + dated_text(*g));
}

/// The fragment for a time reading: `UK:<HH:mm> AE:<hh:mm AM dd-mm-yyyy>|`,
/// the local hour on a twenty-four-hour clock, the other on a twelve-hour one.
pub fn time_fragment(t: &TimeReading) -> (r: String)
    requires
        t.wf(),
    ensures
        r@ == time_text(*t),
{
    let mut s = String::new();
    push_text(&mut s, "UK:");
    push_clock24(&mut s, &t.local);
    push_text(&mut s, " AE:");
    push_dated(&mut s, &t.gulf);
    push_char(&mut s, '|');
    proof {
        reveal_strlit("UK:");
        reveal_strlit(" AE:");
    }
    assert(s@ =~= time_text(*t));
    s
}

} // verus!
