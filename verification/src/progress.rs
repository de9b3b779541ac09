//! Percentages: reading them from text and mapping the progress of one
//! download leg onto the progress of the whole session.
//!
//! Percentages are fixed-point numbers. A *raw* percentage, as read from the
//! tool's output, counts hundredths of a percent point (`4530` is 45.30 %). A
//! *session* percentage counts ten-thousandths (`453_000` is 45.3 %), so that
//! the mapping below is exact.

use vstd::prelude::*;
use crate::text::{find, find_in, to_chars};

verus! {

/// One percent point as a raw percentage.
pub const RAW_POINT: u32 = 100;

/// One percent point as a session percentage.
pub const POINT: u64 = 10_000;

/// The session percentage reported while the legs are merged: 99.0 %.
pub const MERGING_PERCENT: u64 = 990_000;

/// The session percentage reported while the result is post-processed: 99.5 %.
pub const PROCESSING_PERCENT: u64 = 995_000;

/// The largest raw percentage: 100 %.
pub const RAW_FULL: u32 = 10_000;

/// The largest session percentage: 100 %.
pub const FULL: u64 = 1_000_000;

/// A raw percentage held to the range of 0 % to 100 %.
pub open spec fn within_full(raw: u32) -> u32 {
    if raw > RAW_FULL {
        RAW_FULL
    } else {
        raw
    }
}

/// The session percentage for a raw percentage read while `legs` legs had
/// been seen. With no leg seen the raw value is passed through; the first leg
/// fills the first half, `raw * 0.5`; every later leg fills `50 + raw * 0.45`.
/// A raw value above 100 % counts as 100 %.
pub open spec fn session_percent(raw: u32, legs: u64) -> u64 {
    let r = within_full(raw);
    if legs == 0 {
        (r * 100) as u64
    } else if legs == 1 {
        (r * 50) as u64
    } else {
        (500_000 + r * 45) as u64
    }
}

/// Maps the raw percentage of the current leg to the session percentage.
pub fn remap(raw: u32, legs: u64) -> (percent: u64)
    ensures
        percent == session_percent(raw, legs),
        raw <= RAW_FULL && legs == 0 ==> percent == raw * 100,
        raw <= RAW_FULL && legs == 1 ==> percent == raw * 50,
        raw <= RAW_FULL && legs >= 2 ==> percent == 500_000 + raw * 45,
        percent <= FULL,
{
    let r: u64 = if raw > RAW_FULL {
        RAW_FULL as u64
    } else {
        raw as u64
    };
    if legs == 0 {
        r * 100
    } else if legs == 1 {
        r * 50
    } else {
        500_000 + r * 45
    }
}

/// On one leg, a raw percentage that is no smaller gives a session percentage
/// that is no smaller.
pub proof fn lemma_remap_monotonic(earlier: u32, later: u32, legs: u64)
    requires
        earlier <= later,
    ensures
        session_percent(earlier, legs) <= session_percent(later, legs),
{
}

/// Every session percentage lies within 0 % to 100 %, and within the share
/// of its leg: the first leg within 0 % to 50 %, a later leg within 50 % to
/// 95 %, below the percentages kept for merging and post-processing.
pub proof fn lemma_remap_range(raw: u32, legs: u64)
    ensures
        session_percent(raw, legs) <= FULL,
        legs == 1 ==> session_percent(raw, legs) <= 50 * POINT,
        legs >= 2 ==> 50 * POINT <= session_percent(raw, legs) <= 95 * POINT,
        legs >= 1 ==> session_percent(raw, legs) < MERGING_PERCENT,
        MERGING_PERCENT < PROCESSING_PERCENT < FULL,
{
}

/// Whether `c` is one of the digits `0` to `9`.
pub open spec fn is_digit(c: char) -> bool {
    0x30 <= c as u32 <= 0x39
}

/// The value of the digit `c`.
pub open spec fn digit_value(c: char) -> nat
    recommends
        is_digit(c),
{
    (c as u32 - 0x30) as nat
}

/// Whether `s` holds digits only.
pub open spec fn all_digits(s: Seq<char>) -> bool {
    forall|i: int| 0 <= i < s.len() ==> is_digit(#[trigger] s[i])
}

/// The number that the digits `s` denote; zero for no digits.
pub open spec fn digits_value(s: Seq<char>) -> nat
    decreases s.len(),
{
    if s.len() == 0 {
        0
    } else {
        digits_value(s.drop_last()) * 10 + digit_value(s.last())
    }
}

/// The part of `s` before its first point, or all of it.
pub open spec fn whole_part(s: Seq<char>) -> Seq<char> {
    match find(s, seq!['.']) {
        Some(i) => s.take(i),
        None => s,
    }
}

/// The part of `s` behind its first point, or nothing.
pub open spec fn fraction_part(s: Seq<char>) -> Seq<char> {
    match find(s, seq!['.']) {
        Some(i) => s.skip(i + 1),
        None => Seq::empty(),
    }
}

/// Whether `s` is a percentage numeral: one or more digits, which a point and
/// further digits may follow.
pub open spec fn is_numeral(s: Seq<char>) -> bool {
    &&& whole_part(s).len() > 0
    &&& all_digits(whole_part(s))
    &&& all_digits(fraction_part(s))
}

/// The first two digits of the fraction `f` as hundredths.
pub open spec fn fraction_hundredths(f: Seq<char>) -> nat {
    (if f.len() > 0 {
        digit_value(f[0]) * 10
    } else {
        0
    }) + (if f.len() > 1 {
        digit_value(f[1])
    } else {
        0
    })
}

/// The raw percentage that the text `s` denotes: for a numeral its value in
/// hundredths, digits behind the second decimal dropped, held to the range
/// of `u32`; zero for any other text.
pub open spec fn raw_percent(s: Seq<char>) -> u32 {
    if is_numeral(s) {
        let exact = digits_value(whole_part(s)) * 100 + fraction_hundredths(fraction_part(s));
        if exact > u32::MAX {
            u32::MAX
        } else {
            exact as u32
        }
    } else {
        0
    }
}

/// Executable form of [`is_digit`].
pub fn is_digit_char(c: char) -> (b: bool)
    ensures
        b == is_digit(c),
{
    let n: u32 = c as u32;
    0x30 <= n && n <= 0x39
}

/// The value of the digits `v[from..to]`, held to the range of `u32`; `None`
/// where one of the characters is no digit.
fn read_digits(v: &Vec<char>, from: usize, to: usize) -> (r: Option<u64>)
    requires
        from <= to <= v.len(),
    ensures
        r.is_some() == all_digits(v@.subrange(from as int, to as int)),
        r matches Some(n) ==> n == if digits_value(v@.subrange(from as int, to as int))
            > u32::MAX {
            u32::MAX as nat
        } else {
            digits_value(v@.subrange(from as int, to as int))
        },
{
    let mut acc: u64 = 0;
    let mut i: usize = from;
    assert(v@.subrange(from as int, from as int) =~= Seq::<char>::empty());
    while i < to
        invariant
            from <= i <= to <= v.len(),
            all_digits(v@.subrange(from as int, i as int)),
            acc <= u32::MAX,
            acc == if digits_value(v@.subrange(from as int, i as int)) > u32::MAX {
                u32::MAX as nat
            } else {
                digits_value(v@.subrange(from as int, i as int))
            },
        decreases to - i,
    {
        let c: char = v[i];
        if !is_digit_char(c) {
            assert(v@.subrange(from as int, to as int)[i - from] == c);
            return None;
        }
        let d: u64 = (c as u32 - 0x30) as u64;
        proof {
            let next = v@.subrange(from as int, i + 1);
            assert(next.drop_last() =~= v@.subrange(from as int, i as int));
            assert(next.last() == c);
            assert forall|k: int| 0 <= k < next.len() implies is_digit(#[trigger] next[k]) by {
                if k < i - from {
                    assert(next[k] == v@.subrange(from as int, i as int)[k]);
                }
            }
        }
        let grown: u64 = acc * 10 + d;
        acc = if grown > u32::MAX as u64 {
            u32::MAX as u64
        } else {
            grown
        };
        i += 1;
    }
    Some(acc)
}

/// Reads a raw percentage from `text`; text that is no numeral reads as zero.
pub fn parse_percent(text: &str) -> (raw: u32)
    ensures
        raw == raw_percent(text@),
{
    let v = to_chars(text);
    let mut point: Vec<char> = Vec::new();
    point.push('.');
    assert(point@ =~= seq!['.']);
    let n: usize = v.len();
    let (whole_end, fraction_start): (usize, usize) = match find_in(&v, &point) {
        Some(i) => (i, i + 1),
        None => (n, n),
    };
    proof {
        assert(whole_part(v@) =~= v@.subrange(0, whole_end as int));
        assert(fraction_part(v@) =~= v@.subrange(fraction_start as int, n as int));
    }
    if whole_end == 0 {
        return 0;
    }
    let whole: u64 = match read_digits(&v, 0, whole_end) {
        Some(w) => w,
        None => {
            return 0;
        },
    };
    let mut i: usize = fraction_start;
    while i < n
        invariant
            fraction_start <= i <= n == v.len(),
            v@ == text@,
            fraction_part(v@) == v@.subrange(fraction_start as int, n as int),
            all_digits(v@.subrange(fraction_start as int, i as int)),
        decreases n - i,
    {
        if !is_digit_char(v[i]) {
            proof {
                let fraction = fraction_part(v@);
                assert(fraction[i - fraction_start] == v@[i as int]);
                assert(!is_digit(fraction[i - fraction_start]));
                assert(!all_digits(fraction));
            }
            return 0;
        }
        proof {
            let next = v@.subrange(fraction_start as int, i + 1);
            assert forall|k: int| 0 <= k < next.len() implies is_digit(#[trigger] next[k]) by {
                if k < i - fraction_start {
                    assert(next[k] == v@.subrange(fraction_start as int, i as int)[k]);
                }
            }
        }
        i += 1;
    }
    let mut part: u64 = 0;
    if fraction_start < n {
        assert(v@.subrange(fraction_start as int, n as int)[0] == v@[fraction_start as int]);
        assert(is_digit(v@[fraction_start as int]));
        part = ((v[fraction_start] as u32 - 0x30) as u64) * 10;
        if fraction_start + 1 < n {
            assert(v@.subrange(fraction_start as int, n as int)[1] == v@[fraction_start + 1]);
            assert(is_digit(v@[fraction_start + 1]));
            part = part + (v[fraction_start + 1] as u32 - 0x30) as u64;
        }
    }
    let exact: u64 = whole * 100 + part;
    if exact > u32::MAX as u64 {
        u32::MAX
    } else {
        exact as u32
    }
}

} // verus!
