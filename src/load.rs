//! The load sampler's logic: the system's three load averages, held in
//! hundredths, and their fragment.
use vstd::prelude::*;
use crate::text::{decimal, push_char, push_decimal, push_text, push_two_digits, two_digits};

verus! {

/// The 1, 5 and 15 minute load averages, each in hundredths.
#[derive(Debug, Clone, Copy, PartialEq, Eq, Structural)]
pub struct LoadAvg {
    pub one: u64,
    pub five: u64,
    pub fifteen: u64,
}

/// Why a load reading failed.
#[derive(Debug, Clone, Copy, PartialEq, Eq, Structural)]
pub enum LoadError {
    /// The system call reported failure.
    Unavailable,
    /// The system call returned another count of averages than asked for.
    Malformed,
}

/// A number of hundredths written with two decimals: `12` is `0.12`.
pub open spec fn hundredths_text(n: nat) -> Seq<char> {
    decimal(n / 100) + seq!['.'] + two_digits(n % 100)
}

/// The load fragment: `L:<one> <five> <fifteen>|`.
pub open spec fn load_text(l: LoadAvg) -> Seq<char> {
    seq!['L', ':'] + hundredths_text(l.one as nat) + seq![' '] + hundredths_text(l.five as nat)
        + seq![' '] + hundredths_text(l.fifteen as nat) + seq!['|']
}

/// What a load reading yields from the count that the system call returned.
pub open spec fn load_result(count: i32, avg: LoadAvg) -> Result<LoadAvg, LoadError> {
    if count == 3 {
        Ok(avg)
    } else if count == -1 {
        Err(LoadError::Unavailable)
    } else {
        Err(LoadError::Malformed)
    }
}

/// Judges a load sample by the count of averages that the system call returned:
/// three is success, `-1` is failure, any other count is a malformed result.
pub fn load_from_call(count: i32, avg: LoadAvg) -> (r: Result<LoadAvg, LoadError>)
    ensures
        r == load_result(count, avg),
{
    if count == 3 {
        Ok(avg)
    } else if count == -1 {
        Err(LoadError::Unavailable)
    } else {
        Err(LoadError::Malformed)
    }
}

fn push_hundredths(s: &mut String, n: u64)
    ensures
        final(s)@ == old(s)@ + hundredths_text(n as nat),
{
    push_decimal(s, n / 100);
    push_char(s, '.');
    push_two_digits(s, n % 100);
    assert(final(s)@ =~= old(s)@ + hundredths_text(n as nat));
}

/// The fragment for a load reading: `L:<one> <five> <fifteen>|`, two decimals each.
pub fn load_fragment(l: &LoadAvg) -> (r: String)
    ensures
        r@ == load_text(*l),
{
    let mut s = String::new();
    push_text(&mut s, "L:");
    push_hundredths(&mut s, l.one);
    push_char(&mut s, ' ');
    push_hundredths(&mut s, l.five);
    push_char(&mut s, ' ');
    push_hundredths(&mut s, l.fifteen);
    push_char(&mut s, '|');
    proof {
        reveal_strlit("L:");
    }
    assert(s@ =~= load_text(*l));
    s
}

} // verus!
