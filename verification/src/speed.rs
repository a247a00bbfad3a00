//! Validation of the clock-speed option: a decimal string that must name
//! a rate between 1 and 1000 hertz.

use vstd::prelude::*;
use vstd::string::StringSliceAdditionalSpecFns;

verus! {

/// Why a clock-speed string was rejected.
#[derive(Clone, Copy, Debug, PartialEq, Eq, Structural)]
pub enum ClockSpeedError {
    /// The string is not an unsigned decimal integer that fits in 32 bits.
    NotAnInteger,
    /// The string names an integer outside 1 to 1000.
    OutOfRange,
}

/// The byte `b` is an ASCII decimal digit.
pub open spec fn is_dec_digit(b: u8) -> bool {
    48 <= b <= 57
}

/// Every byte of `ds` is an ASCII decimal digit.
pub open spec fn all_dec_digits(ds: Seq<u8>) -> bool {
    forall|k: int| 0 <= k < ds.len() ==> is_dec_digit(#[trigger] ds[k])
}

/// The number the ASCII decimal digits `ds` spell, most significant
/// first.
pub open spec fn dec_value(ds: Seq<u8>) -> int
    decreases ds.len(),
{
    if ds.len() == 0 {
        0
    } else {
        dec_value(ds.drop_last()) * 10 + (ds.last() - 48)
    }
}

/// The digits of `s` after an optional leading ASCII plus sign.
pub open spec fn spec_digits(s: &str) -> Seq<u8> {
    let bs = s.spec_bytes();
    if bs.len() > 0 && bs[0] == 43 {
        bs.skip(1)
    } else {
        bs
    }
}

/// The string `s` parses as an unsigned 32-bit decimal integer: an
/// optional plus sign, then at least one digit, spelling a value that
/// fits.
pub open spec fn parses_as_u32(s: &str) -> bool {
    &&& spec_digits(s).len() > 0
    &&& all_dec_digits(spec_digits(s))
    &&& dec_value(spec_digits(s)) <= u32::MAX
}

proof fn lemma_dec_value_nonneg(ds: Seq<u8>)
    requires
        all_dec_digits(ds),
    ensures
        dec_value(ds) >= 0,
    decreases ds.len(),
{
    if ds.len() > 0 {
        assert(all_dec_digits(ds.drop_last()));
        lemma_dec_value_nonneg(ds.drop_last());
    }
}

/// A digit string spells at least what any of its prefixes spells.
proof fn lemma_dec_value_prefix(ds: Seq<u8>, k: int)
    requires
        all_dec_digits(ds),
        0 <= k <= ds.len(),
    ensures
        dec_value(ds) >= dec_value(ds.take(k)),
    decreases ds.len() - k,
{
    if k < ds.len() {
        assert(ds.take(k + 1).drop_last() =~= ds.take(k));
        assert(ds.take(k + 1).last() == ds[k]);
        assert(all_dec_digits(ds.take(k)));
        lemma_dec_value_nonneg(ds.take(k));
        assert(dec_value(ds.take(k + 1)) == dec_value(ds.take(k)) * 10 + (ds[k] - 48));
        lemma_dec_value_prefix(ds, k + 1);
    } else {
        assert(ds.take(k) =~= ds);
    }
}

/// Check a clock-speed string: accepted exactly when it parses as an
/// unsigned 32-bit decimal integer between 1 and 1000, in which case the
/// parsed rate is returned.
#[verifier::loop_isolation(false)]
pub fn validate_clock_speed(clock_speed_str: &str) -> (r: Result<u32, ClockSpeedError>)
    ensures
        r matches Ok(v) ==> parses_as_u32(clock_speed_str) && v == dec_value(
            spec_digits(clock_speed_str),
        ) && 1 <= v <= 1000,
        r == Err::<u32, ClockSpeedError>(ClockSpeedError::NotAnInteger) <==> !parses_as_u32(
            clock_speed_str,
        ),
        r == Err::<u32, ClockSpeedError>(ClockSpeedError::OutOfRange) <==> parses_as_u32(
            clock_speed_str,
        ) && !(1 <= dec_value(spec_digits(clock_speed_str)) <= 1000),
{
    let bs = clock_speed_str.as_bytes();
    let start: usize = if bs.len() > 0 && bs[0] == 43 {
        1
    } else {
        0
    };
    let ghost ds = spec_digits(clock_speed_str);
    proof {
        assert(ds =~= bs@.skip(start as int));
    }
    if bs.len() == start {
        return Err(ClockSpeedError::NotAnInteger);
    }
    let mut acc: u64 = 0;
    let mut idx: usize = start;
    while idx < bs.len()
        invariant
            start <= idx <= bs@.len(),
            all_dec_digits(ds.take(idx - start)),
            acc == dec_value(ds.take(idx - start)),
            acc <= u32::MAX,
        decreases bs@.len() - idx,
    {
        let b = bs[idx];
        if !(48 <= b && b <= 57) {
            proof {
                assert(ds[idx - start] == b);
                assert(!all_dec_digits(ds));
            }
            return Err(ClockSpeedError::NotAnInteger);
        }
        proof {
            assert(ds.take(idx - start + 1).drop_last() =~= ds.take(idx - start));
            assert(ds.take(idx - start + 1).last() == ds[idx - start]);
        }
        acc = acc * 10 + ((b - 48) as u64);
        idx = idx + 1;
        if acc > 0xFFFF_FFFF {
            proof {
                assert(all_dec_digits(ds.take(idx - start)));
                if all_dec_digits(ds) {
                    lemma_dec_value_prefix(ds, idx - start);
                }
            }
            return Err(ClockSpeedError::NotAnInteger);
        }
    }
    proof {
        assert(ds.take(idx - start) =~= ds);
    }
    let speed = acc as u32;
    if speed > 0 && speed <= 1000 {
        Ok(speed)
    } else {
        Err(ClockSpeedError::OutOfRange)
    }
}

} // verus!
