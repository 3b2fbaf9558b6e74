//! The battery sampler's logic: a percentage from the raw attribute texts and
//! a one-character charge direction from the status text.
use vstd::prelude::*;
use crate::text::{decimal, decimal_value, is_decimal, parse_decimal, push_char, push_decimal, push_text, text_eq};

verus! {

/// Why a battery reading failed.
#[derive(Debug, Clone, Copy, PartialEq, Eq, Structural)]
pub enum BatteryError {
    /// An attribute could not be read.
    Unavailable,
    /// The presence flag does not read `1`.
    NotPresent,
    /// A capacity is not a decimal number, or the percentage does not fit.
    Malformed,
    /// The design capacity reads zero.
    ZeroDesign,
}

/// A battery's charge and its status text, as sampled once.
#[derive(Debug, PartialEq, Eq)]
pub struct BatteryReading {
    pub percent: u64,
    pub status: String,
}

/// Charge as a percentage of the design capacity, truncated toward zero.
pub open spec fn percent_of(current: nat, design: nat) -> nat
    recommends
        design > 0,
{
    current * 100 / design
}

/// What a battery reading computes from the presence flag and the two capacities.
pub open spec fn percent_result(present: Seq<char>, design: Seq<char>, current: Seq<char>) -> Result<u64, BatteryError> {
    if present != seq!['1'] {
        Err(BatteryError::NotPresent)
    } else if !is_decimal(design) || decimal_value(design) > u64::MAX || !is_decimal(current)
        || decimal_value(current) > u64::MAX {
        Err(BatteryError::Malformed)
    } else if decimal_value(design) == 0 {
        Err(BatteryError::ZeroDesign)
    } else if percent_of(decimal_value(current), decimal_value(design)) > u64::MAX {
        Err(BatteryError::Malformed)
    } else {
        Ok(percent_of(decimal_value(current), decimal_value(design)) as u64)
    }
}

/// The suffix that shows the direction of charge.
pub open spec fn suffix_of(status: Seq<char>) -> char {
    if status == "Discharging"@ {
        '-'
    } else if status == "Charging"@ {
        '+'
    } else {
        '/'
    }
}

/// The battery fragment of the status line: `B:<percent>%<suffix>|`.
pub open spec fn battery_text(percent: nat, status: Seq<char>) -> Seq<char> {
    seq!['B', ':'] + decimal(percent) + seq!['%', suffix_of(status), '|']
}

/// Computes the charge percentage from the presence flag and the design and
/// current capacities, as the battery reports them in text.
pub fn battery_percent(present: &str, design: &str, current: &str) -> (r: Result<u64, BatteryError>)
    ensures
        r == percent_result(present@, design@, current@),
{
    proof {
        reveal_strlit("1");
        assert("1"@ =~= seq!['1']);
    }
    if !text_eq(present, "1") {
        return Err(BatteryError::NotPresent);
    }
    let full = match parse_decimal(design) {
        Some(v) => v,
        None => return Err(BatteryError::Malformed),
    };
    let now = match parse_decimal(current) {
        Some(v) => v,
        None => return Err(BatteryError::Malformed),
    };
    if full == 0 {
        return Err(BatteryError::ZeroDesign);
    }
    let p: u128 = (now as u128) * 100 / (full as u128);
    if p > u64::MAX as u128 {
        return Err(BatteryError::Malformed);
    }
    Ok(p as u64)
}

/// The one-character suffix for a status text: `-` discharging, `+` charging, `/` otherwise.
pub fn status_suffix(status: &str) -> (c: char)
    ensures
        c == suffix_of(status@),
{
    if text_eq(status, "Discharging") {
        '-'
    } else if text_eq(status, "Charging") {
        '+'
    } else {
        '/'
    }
}

/// Whether a status text reports discharging.
pub fn is_discharging(status: &str) -> (r: bool)
    ensures
        r == (status@ == "Discharging"@),
{
    text_eq(status, "Discharging")
}

/// The fragment for a battery reading: `B:<percent>%<suffix>|`.
pub fn battery_fragment(reading: &BatteryReading) -> (r: String)
    ensures
        r@ == battery_text(reading.percent as nat, reading.status@),
{
    let mut s = String::new();
    push_text(&mut s, "B:");
    push_decimal(&mut s, reading.percent);
    push_char(&mut s, '%');
    push_char(&mut s, status_suffix(reading.status.as_str()));
    push_char(&mut s, '|');
    proof {
        reveal_strlit("B:");
    }
    assert(s@ =~= battery_text(reading.percent as nat, reading.status@));
    s
}

/// A full battery reading from the attribute texts: the percentage as
/// `battery_percent` computes it, and the status text as it stands.
pub fn battery_reading(present: &str, design: &str, current: &str, status: String) -> (r: Result<BatteryReading, BatteryError>)
    ensures
        percent_result(present@, design@, current@) matches Err(e) ==> r == Err::<BatteryReading, BatteryError>(e),
        percent_result(present@, design@, current@) matches Ok(p) ==> (r matches Ok(b) && b.percent == p && b.status@ == status@),
{
    match battery_percent(present, design, current) {
        Ok(p) => Ok(BatteryReading { percent: p, status }),
        Err(e) => Err(e),
    }
}

} // verus!
