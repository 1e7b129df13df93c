//! Reading the stored configuration: decimal setting values, with a default
//! whenever a value is absent or malformed.
use vstd::prelude::*;
use vstd::string::StringSliceAdditionalSpecFns;

verus! {

pub const DEFAULT_AFK_THRESHOLD_MIN: u64 = 5;

pub const DEFAULT_WARN_AT_MIN: u64 = 45;

pub const DEFAULT_SHAKE_AT_MIN: u64 = 75;

pub open spec fn is_digit(b: u8) -> bool {
    48 <= b <= 57
}

pub open spec fn all_digits(d: Seq<u8>) -> bool {
    forall|i: int| 0 <= i < d.len() ==> is_digit(#[trigger] d[i])
}

/// The number that the decimal digits `d` denote.
pub open spec fn digits_value(d: Seq<u8>) -> nat
    decreases d.len(),
{
    if d.len() == 0 {
        0
    } else {
        digits_value(d.drop_last()) * 10 + (d.last() - 48) as nat
    }
}

/// The digits of `b` after an optional leading `+`.
pub open spec fn unsigned_digits(b: Seq<u8>) -> Seq<u8> {
    if b.len() > 0 && b[0] == 43 {
        b.drop_first()
    } else {
        b
    }
}

/// The `u64` that the text `b` spells: an optional `+`, then one or more
/// decimal digits whose value fits in 64 bits; `None` for anything else.
pub open spec fn parsed_u64(b: Seq<u8>) -> Option<u64> {
    let d = unsigned_digits(b);
    if d.len() > 0 && all_digits(d) && digits_value(d) <= u64::MAX {
        Some(digits_value(d) as u64)
    } else {
        None
    }
}

/// The stored value read as a number, or `default` where it is absent or
/// does not parse.
pub open spec fn setting_value(value: Option<&str>, default: u64) -> u64 {
    match value {
        Some(v) => match parsed_u64(v.spec_bytes()) {
            Some(n) => n,
            None => default,
        },
        None => default,
    }
}

/// Minutes as seconds, saturating at the largest `u64`.
pub open spec fn minutes_to_seconds(m: u64) -> u64 {
    if m * 60 <= u64::MAX {
        (m * 60) as u64
    } else {
        u64::MAX
    }
}

proof fn lemma_prefix_value_le(d: Seq<u8>, k: int)
    requires
        0 <= k <= d.len(),
    ensures
        digits_value(d.subrange(0, k)) <= digits_value(d),
    decreases d.len(),
{
    if k < d.len() {
        assert(d.drop_last().subrange(0, k) =~= d.subrange(0, k));
        lemma_prefix_value_le(d.drop_last(), k);
    } else {
        assert(d.subrange(0, k) =~= d);
    }
}

/// Parses a decimal `u64`, as `str::parse::<u64>` does.
pub fn parse_u64(s: &str) -> (r: Option<u64>)
    ensures
        r == parsed_u64(s.spec_bytes()),
{
    parse_u64_bytes(s.as_bytes())
}

/// Parses a decimal `u64` from its text `b`.
pub fn parse_u64_bytes(b: &[u8]) -> (r: Option<u64>)
    ensures
        r == parsed_u64(b@),
{
    let ghost bs = b@;
    let start: usize = if b.len() > 0 && b[0] == 43u8 { 1 } else { 0 };
    let ghost d = unsigned_digits(bs);
    assert(d =~= bs.subrange(start as int, bs.len() as int));
    if start >= b.len() {
        return None;
    }
    let mut acc: u64 = 0;
    let mut i: usize = start;
    while i < b.len()
        invariant
            b@ == bs,
            d == unsigned_digits(bs),
            start <= i <= bs.len(),
            d =~= bs.subrange(start as int, bs.len() as int),
            all_digits(d.subrange(0, i - start)),
            acc as nat == digits_value(d.subrange(0, i - start)),
        decreases b.len() - i,
    {
        let c = b[i];
        let ghost p = d.subrange(0, i - start);
        let ghost q = d.subrange(0, i + 1 - start);
        assert(q.drop_last() =~= p);
        assert(d[i - start] == c && q.last() == c);
        if c < 48u8 || c > 57u8 {
            assert(!is_digit(d[i - start]));
            assert(!all_digits(d));
            return None;
        }
        let digit: u64 = (c - 48u8) as u64;
        if acc > (u64::MAX - digit) / 10 {
            assert(digits_value(q) > u64::MAX) by (nonlinear_arith)
                requires
                    digits_value(q) == acc * 10 + digit,
                    acc > (u64::MAX - digit) / 10,
                    digit <= 9,
            ;
            proof {
                if all_digits(d) {
                    lemma_prefix_value_le(d, i + 1 - start);
                }
                assert(!(all_digits(d) && digits_value(d) <= u64::MAX));
            }
            return None;
        }
        assert(acc * 10 + digit <= u64::MAX) by (nonlinear_arith)
            requires
                acc <= (u64::MAX - digit) / 10,
                digit <= 9,
        ;
        acc = acc * 10 + digit;
        i = i + 1;
    }
    assert(d.subrange(0, i - start) =~= d);
    Some(acc)
}

/// The stored value `value` as a number, `default` where it is absent or
/// malformed.
pub fn setting_or(value: Option<&str>, default: u64) -> (r: u64)
    ensures
        r == setting_value(value, default),
{
    match value {
        Some(v) => match parse_u64(v) {
            Some(n) => n,
            None => default,
        },
        None => default,
    }
}

/// The AFK threshold in seconds from its stored value in minutes.
pub fn afk_threshold_s_from_setting(value: Option<&str>) -> (r: u64)
    ensures
        r == minutes_to_seconds(setting_value(value, DEFAULT_AFK_THRESHOLD_MIN)),
{
    let m = setting_or(value, DEFAULT_AFK_THRESHOLD_MIN);
    if m <= u64::MAX / 60 {
        m * 60
    } else {
        u64::MAX
    }
}

/// The thresholds `(afk_threshold_s, warn_at_min, shake_at_min)` from the
/// stored values of `afk_threshold_min`, `warn_at_min` and `shake_at_min`.
pub fn config_from_settings(
    afk_threshold_min: Option<&str>,
    warn_at_min: Option<&str>,
    shake_at_min: Option<&str>,
) -> (r: (u64, u64, u64))
    ensures
        r == (
            minutes_to_seconds(setting_value(afk_threshold_min, DEFAULT_AFK_THRESHOLD_MIN)),
            setting_value(warn_at_min, DEFAULT_WARN_AT_MIN),
            setting_value(shake_at_min, DEFAULT_SHAKE_AT_MIN),
        ),
{
    (
        afk_threshold_s_from_setting(afk_threshold_min),
        setting_or(warn_at_min, DEFAULT_WARN_AT_MIN),
        setting_or(shake_at_min, DEFAULT_SHAKE_AT_MIN),
    )
}

} // verus!
