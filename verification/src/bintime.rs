//! Fixed-point kernel time values and their conversion to nanoseconds.

use vstd::arithmetic::div_mod::{lemma_fundamental_div_mod, lemma_fundamental_div_mod_converse_mod};
use vstd::prelude::*;

verus! {

/// Nanoseconds in one second.
pub const NS_PER_SEC: u64 = 1_000_000_000;

/// The fraction is first reduced to units of 2^-34 second: one unit is this
/// many steps of the 64-bit fraction.
pub const FRAC_PER_UNIT: u64 = 0x4000_0000;

/// Whole units of 2^-34 second in one nanosecond (2^34 / 10^9, rounded down).
pub const UNITS_PER_NS: u64 = 17;

/// Largest value that `fraction_to_ns` can return.  It exceeds one second by
/// about one percent, because `UNITS_PER_NS` is rounded down.
pub const MAX_FRACTION_NS: u64 = 1_010_580_540;

/// A kernel time value: whole seconds and a 64-bit binary fraction of a second.
#[derive(Clone, Copy, Debug, PartialEq, Eq, Structural)]
pub struct Bintime {
    pub sec: i64,
    pub frac: u64,
}

/// Nanoseconds that are read from a binary fraction of a second: the fraction
/// in whole units of 2^-34 second, over the whole units in a nanosecond.
/// `lemma_fraction_ns_approximates` says how close this is to the fraction.
pub open spec fn fraction_ns(frac: u64) -> u64 {
    (frac / 0x4000_0000 / 17) as u64
}

/// The seconds of a time value read as an unsigned 64-bit word: a negative
/// count is taken in two's complement.
pub open spec fn seconds_word(sec: i64) -> u64 {
    if sec >= 0 {
        sec as u64
    } else {
        (sec + 0x1_0000_0000_0000_0000) as u64
    }
}

/// Nanoseconds that a time value stands for, modulo 2^64.
pub open spec fn bintime_ns(bintime: Bintime) -> u64 {
    ((seconds_word(bintime.sec) * 1_000_000_000 + fraction_ns(bintime.frac))
        % 0x1_0000_0000_0000_0000) as u64
}

/// Converts a binary fraction of a second to nanoseconds.  Defined for every
/// fraction.  The fraction stands for `frac * 10^9 / 2^64` nanoseconds; the
/// result is at least that value rounded down, and at most 1.1 percent above
/// that value.
pub fn fraction_to_ns(frac: u64) -> (ns: u64)
    ensures
        ns == fraction_ns(frac),
        ns <= MAX_FRACTION_NS,
        frac * 1_000_000_000 / 0x1_0000_0000_0000_0000 <= ns,
        ns * 0x1_0000_0000_0000_0000 * 1000 <= frac * 1_000_000_000 * 1011,
{
    proof {
        lemma_fraction_ns_approximates(frac);
    }
    frac / FRAC_PER_UNIT / UNITS_PER_NS
}

/// Converts a kernel time value to nanoseconds.  The arithmetic wraps at
/// 2^64: a long uptime loses its high bits rather than failing.
pub fn bintime_to_ns(bintime: &Bintime) -> (ns: u64)
    ensures
        ns == bintime_ns(*bintime),
{
    let sec: i64 = bintime.sec;
    let word: u64 = sec as u64;
    assert(word == seconds_word(sec)) by (bit_vector)
        requires
            word == sec as u64,
    ;
    let whole: u64 = word.wrapping_mul(NS_PER_SEC);
    let part: u64 = fraction_to_ns(bintime.frac);
    let ns: u64 = whole.wrapping_add(part);
    proof {
        let modulus: int = 0x1_0000_0000_0000_0000;
        let product: int = word * 1_000_000_000;
        let carry: int = if whole + part > u64::MAX { 1 } else { 0 };
        lemma_fundamental_div_mod(product, modulus);
        lemma_fundamental_div_mod_converse_mod(
            product + part,
            modulus,
            product / modulus + carry,
            ns as int,
        );
    }
    ns
}

/// A fraction never yields more than `MAX_FRACTION_NS` nanoseconds, and a
/// larger fraction never yields fewer nanoseconds than a smaller one.
pub proof fn lemma_fraction_ns_monotonic(a: u64, b: u64)
    requires
        a <= b,
    ensures
        fraction_ns(a) <= fraction_ns(b),
        fraction_ns(b) <= MAX_FRACTION_NS,
{
}

/// How the conversion relates to the binary fraction that it reads.  A
/// fraction stands for `frac * 10^9 / 2^64` nanoseconds.  The conversion never
/// yields less than that value rounded down, and never more than 1.1 percent
/// above that value.
pub proof fn lemma_fraction_ns_approximates(frac: u64)
    ensures
        frac * 1_000_000_000 / 0x1_0000_0000_0000_0000 <= fraction_ns(frac),
        fraction_ns(frac) * 0x1_0000_0000_0000_0000 * 1000 <= frac * 1_000_000_000 * 1011,
{
    let units: int = frac as int / 0x4000_0000;
    let ns: int = units / 17;
    assert(0x4000_0000 * units <= frac < 0x4000_0000 * (units + 1));
    assert(17 * ns <= units < 17 * (ns + 1));
    assert(frac * 1_000_000_000 < 0x1_0000_0000_0000_0000 * (ns + 1));
}

/// While the sum fits in 64 bits, a non-negative time value converts without
/// wrapping: seconds times 10^9, plus the nanoseconds of the fraction.
pub proof fn lemma_bintime_ns_exact(bintime: Bintime)
    requires
        bintime.sec >= 0,
        bintime.sec * 1_000_000_000 + fraction_ns(bintime.frac) <= u64::MAX,
    ensures
        bintime_ns(bintime) == bintime.sec * 1_000_000_000 + fraction_ns(bintime.frac),
{
}

} // verus!
