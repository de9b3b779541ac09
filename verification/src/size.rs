//! Byte sizes: estimating them from a bitrate and rendering them for display.

use vstd::prelude::*;
use vstd::arithmetic::div_mod::*;
use vstd::string::StringExecFns;
use crate::text::{decimal, digit, digit_char, push_decimal};

verus! {

/// Bytes in one kibibyte.
pub const KIB: u64 = 1024;

/// Bytes in one mebibyte.
pub const MIB: u64 = 1048576;

/// Bytes in one gibibyte.
pub const GIB: u64 = 1073741824;

/// Share, in percent, of the size that the advertised bitrate suggests which a
/// file is expected to fill. Sources advertise the peak bitrate of a
/// variable-rate stream, not its average. The value is a tunable, found by
/// observation, not a derived quantity.
pub const PEAK_CORRECTION_PERCENT: u64 = 18;

/// The size that a stream of `bitrate_bps` bits per second lasting
/// `duration_ms` milliseconds is expected to take: kilobits per second times
/// seconds, over 8, times 1024, times the peak correction; rounded down.
pub open spec fn estimated_bytes(bitrate_bps: nat, duration_ms: nat) -> nat {
    (bitrate_bps * duration_ms * 1024 * PEAK_CORRECTION_PERCENT as nat) / (1000 * 1000 * 8 * 100)
}

/// [`estimated_bytes`], held to the range of `u64`.
pub open spec fn estimate_size_spec(bitrate_bps: u64, duration_ms: u64) -> u64 {
    let exact = estimated_bytes(bitrate_bps as nat, duration_ms as nat);
    if exact > u64::MAX {
        u64::MAX
    } else {
        exact as u64
    }
}

proof fn lemma_estimate_reduced(p: int)
    requires
        p >= 0,
    ensures
        (p * 1024 * 18) / 800000000int == (p / 781250) * 18 + ((p % 781250) * 18) / 781250,
{
    let d: int = 781250;
    let q: int = p / d;
    let r: int = p % d;
    assert((p * 1024 * 18) == 1024 * (p * 18)) by (nonlinear_arith);
    assert(800000000int == 1024 * d);
    lemma_div_multiples_vanish_quotient(1024, p * 18, d);
    assert((1024 * (p * 18)) / (1024 * d) == (p * 18) / d);
    lemma_fundamental_div_mod(p, d);
    assert(p * 18 == (q * 18) * d + r * 18) by (nonlinear_arith)
        requires
            p == d * q + r,
    ;
    lemma_hoist_over_denominator(r * 18, q * 18, d as nat);
}

/// Estimates a size in bytes from a bitrate in bits per second and a duration
/// in milliseconds. A bitrate or duration of zero gives zero.
pub fn estimate_size(bitrate_bps: u64, duration_ms: u64) -> (bytes: u64)
    ensures
        bytes == estimate_size_spec(bitrate_bps, duration_ms),
        bitrate_bps == 0 || duration_ms == 0 ==> bytes == 0,
{
    proof {
        assert(bitrate_bps as int * duration_ms as int <= 0xFFFF_FFFF_FFFF_FFFF
            * 0xFFFF_FFFF_FFFF_FFFF) by (nonlinear_arith)
            requires
                0 <= bitrate_bps <= 0xFFFF_FFFF_FFFF_FFFF,
                0 <= duration_ms <= 0xFFFF_FFFF_FFFF_FFFF,
        ;
    }
    let p: u128 = (bitrate_bps as u128) * (duration_ms as u128);
    let q: u128 = p / 781250;
    let r: u128 = p % 781250;
    let exact: u128 = q * 18 + (r * 18) / 781250;
    proof {
        lemma_estimate_reduced(p as int);
        assert(bitrate_bps == 0 || duration_ms == 0 ==> p == 0) by (nonlinear_arith)
            requires
                p == bitrate_bps as nat * duration_ms as nat,
        ;
    }
    if exact > u64::MAX as u128 {
        u64::MAX
    } else {
        exact as u64
    }
}

/// `bytes * 100 / unit`, rounded to the nearest whole number, a tie going to
/// the even neighbour.
pub open spec fn hundredths(bytes: nat, unit: nat) -> nat
    recommends
        unit > 0,
{
    let q = (bytes * 100) / unit;
    let r = (bytes * 100) % unit;
    if 2 * r > unit || (2 * r == unit && q % 2 == 1) {
        q + 1
    } else {
        q
    }
}

/// The numeral of `h / 100` with exactly two decimals.
pub open spec fn two_decimals(h: nat) -> Seq<char> {
    decimal(h / 100) + seq!['.', digit_char((h / 10) % 10), digit_char(h % 10)]
}

/// The unit in which a size of `bytes` is displayed, and its name.
pub open spec fn display_unit(bytes: u64) -> (u64, Seq<char>) {
    if bytes >= GIB {
        (GIB, " GB"@)
    } else if bytes >= MIB {
        (MIB, " MB"@)
    } else {
        (KIB, " KB"@)
    }
}

/// The mark in front of an estimated size.
pub open spec fn estimate_mark(is_estimate: bool) -> Seq<char> {
    if is_estimate {
        "~"@
    } else {
        Seq::<char>::empty()
    }
}

/// What [`format_size`] returns.
pub open spec fn size_text(bytes: u64, is_estimate: bool) -> Seq<char> {
    let prefix = estimate_mark(is_estimate);
    if bytes == 0 {
        "Unknown"@
    } else if bytes >= KIB {
        let (unit, name) = display_unit(bytes);
        prefix + two_decimals(hundredths(bytes as nat, unit as nat)) + name
    } else {
        prefix + decimal(bytes as nat) + " B"@
    }
}

/// Renders a size for display: `Unknown` for zero; otherwise the size in the
/// largest of GB, MB, KB (powers of 1024) that it reaches, with two decimals,
/// or in whole bytes below one KB; an estimate is marked by a leading `~`.
pub fn format_size(bytes: u64, is_estimate: bool) -> (text: String)
    ensures
        text@ == size_text(bytes, is_estimate),
{
    if bytes == 0 {
        return String::from_str("Unknown");
    }
    let mut out = String::new();
    if is_estimate {
        out.append("~");
    }
    if bytes < KIB {
        push_decimal(&mut out, bytes);
        out.append(" B");
        return out;
    }
    let unit: u64 = if bytes >= GIB {
        GIB
    } else if bytes >= MIB {
        MIB
    } else {
        KIB
    };
    let scaled: u128 = (bytes as u128) * 100;
    let q: u128 = scaled / (unit as u128);
    let r: u128 = scaled % (unit as u128);
    let h: u128 = if 2 * r > unit as u128 || (2 * r == unit as u128 && q % 2 == 1) {
        q + 1
    } else {
        q
    };
    assert(h == hundredths(bytes as nat, unit as nat));
    assert(h / 100 <= u64::MAX);
    push_decimal(&mut out, (h / 100) as u64);
    out.push('.');
    out.push(digit(((h / 10) % 10) as u8));
    out.push(digit((h % 10) as u8));
    let ghost number = two_decimals(h as nat);
    assert(out@ == estimate_mark(is_estimate) + number) by {
        assert(out@ =~= estimate_mark(is_estimate) + number);
    }
    if bytes >= GIB {
        out.append(" GB");
    } else if bytes >= MIB {
        out.append(" MB");
    } else {
        out.append(" KB");
    }
    out
}

/// The number shown is the nearest to the size in the unit: it is off by at
/// most half a hundredth of the unit.
pub proof fn lemma_hundredths_is_nearest(bytes: nat, unit: nat)
    requires
        unit > 0,
    ensures
        -(unit as int) <= 2 * (hundredths(bytes, unit) * unit - bytes * 100) <= unit,
{
    let n: int = bytes as int * 100;
    let u: int = unit as int;
    let q: int = n / u;
    let r: int = n % u;
    lemma_fundamental_div_mod(n, u);
    assert((q + 1) * u == q * u + u) by (nonlinear_arith);
    assert(u * q == q * u) by (nonlinear_arith);
}

/// An estimate is shown as the exact size is, with the mark in front; a size
/// of zero is shown as unknown either way.
pub proof fn lemma_estimate_is_marked(bytes: u64)
    ensures
        bytes > 0 ==> size_text(bytes, true) == "~"@ + size_text(bytes, false),
        bytes == 0 ==> size_text(bytes, true) == size_text(bytes, false),
{
    if bytes > 0 {
        assert(size_text(bytes, true) =~= "~"@ + size_text(bytes, false));
    }
}

} // verus!
