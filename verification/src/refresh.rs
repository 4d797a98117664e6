//! Client refresh-rate settings: the environment cap and how it combines with the
//! configured presentation interval. Intervals are nanosecond counts.
use vstd::prelude::*;
use vstd::string::StringSliceAdditionalSpecFns;

verus! {

/// The environment variable that caps the client refresh rate, in hertz.
pub const CLIENT_REFRESH_RATE_ENV_VAR: &'static str = "HERDR_CLIENT_REFRESH_RATE_HZ";

/// Nanoseconds in one second.
pub const NANOS_PER_SEC: u64 = 1_000_000_000;

/// The lowest accepted refresh rate.
pub const MIN_REFRESH_RATE_HZ: u64 = 1;

/// The highest accepted refresh rate.
pub const MAX_REFRESH_RATE_HZ: u64 = 60;

/// Whether `b` is an ASCII decimal digit.
pub open spec fn is_digit(b: u8) -> bool {
    48 <= b <= 57
}

/// The number that a string of ASCII decimal digits denotes.
pub open spec fn decimal_value(s: Seq<u8>) -> int
    decreases s.len(),
{
    if s.len() == 0 {
        0
    } else {
        decimal_value(s.drop_last()) * 10 + (s.last() - 48)
    }
}

/// The refresh rate, in hertz, that a setting denotes: a non-empty string of ASCII
/// digits whose value lies in 1 through 60; any other setting denotes none.
pub open spec fn refresh_rate_of(s: Seq<u8>) -> Option<int> {
    if s.len() > 0 && (forall|i: int| 0 <= i < s.len() ==> is_digit(#[trigger] s[i]))
        && MIN_REFRESH_RATE_HZ <= decimal_value(s) <= MAX_REFRESH_RATE_HZ {
        Some(decimal_value(s))
    } else {
        None
    }
}

/// The presentation interval, in nanoseconds, that a setting denotes: one second divided
/// by its refresh rate.
pub open spec fn refresh_interval_of(s: Seq<u8>) -> Option<u64> {
    match refresh_rate_of(s) {
        Some(hz) => Some((NANOS_PER_SEC / (hz as u64)) as u64),
        None => None,
    }
}

/// The slower of the configured interval and the optional environment cap.
pub open spec fn effective_interval(config_interval: u64, env_interval: Option<u64>) -> u64 {
    match env_interval {
        Some(e) => if config_interval >= e {
            config_interval
        } else {
            e
        },
        None => config_interval,
    }
}

/// The presentation interval denoted by the value of the refresh-rate variable, or `None`
/// when the value is not an integer from 1 through 60.
pub fn client_refresh_interval_from_value(value: &str) -> (r: Option<u64>)
    ensures
        r == refresh_interval_of(value.spec_bytes()),
{
    let bytes = value.as_bytes();
    let n = bytes.len();
    if n == 0 {
        return None;
    }
    // The value read so far, held at 61 once it exceeds the accepted range.
    let mut capped: u64 = 0;
    let mut i: usize = 0;
    while i < n
        invariant
            n == bytes@.len(),
            bytes@ == value.spec_bytes(),
            i <= n,
            forall|k: int| 0 <= k < i ==> is_digit(#[trigger] bytes@[k]),
            capped == if decimal_value(bytes@.subrange(0, i as int)) <= 61 {
                decimal_value(bytes@.subrange(0, i as int))
            } else {
                61
            },
        decreases n - i,
    {
        let b = bytes[i];
        if b < 48 || b > 57 {
            assert(!is_digit(bytes@[i as int]));
            return None;
        }
        proof {
            let prefix = bytes@.subrange(0, i as int);
            assert(bytes@.subrange(0, i + 1).drop_last() =~= prefix);
            lemma_decimal_value_nonneg(prefix);
        }
        let d = (b - 48) as u64;
        let step = capped * 10 + d;
        capped = if step > 61 {
            61
        } else {
            step
        };
        i = i + 1;
    }
    assert(bytes@.subrange(0, n as int) =~= bytes@);
    if capped < MIN_REFRESH_RATE_HZ || capped > MAX_REFRESH_RATE_HZ {
        return None;
    }
    Some(NANOS_PER_SEC / capped)
}

/// Digit strings denote non-negative numbers.
proof fn lemma_decimal_value_nonneg(s: Seq<u8>)
    requires
        forall|i: int| 0 <= i < s.len() ==> is_digit(#[trigger] s[i]),
    ensures
        decimal_value(s) >= 0,
    decreases s.len(),
{
    if s.len() > 0 {
        assert(forall|i: int| 0 <= i < s.drop_last().len() ==> #[trigger] s.drop_last()[i] == s[i]);
        lemma_decimal_value_nonneg(s.drop_last());
    }
}

/// Combines the config and environment caps by enforcing the slower effective interval.
///
/// The environment setting remains an optional cap; the configured cap is always active
/// for the client-owned shell.
pub fn effective_presentation_interval(config_interval: u64, env_interval: Option<u64>) -> (r:
    u64)
    ensures
        r == effective_interval(config_interval, env_interval),
        r >= config_interval,
        env_interval matches Some(e) ==> r >= e,
        r == config_interval || env_interval == Some(r),
{
    match env_interval {
        Some(env_interval) => if config_interval >= env_interval {
            config_interval
        } else {
            env_interval
        },
        None => config_interval,
    }
}

} // verus!
