//! Milli-unit fixed-point values.
//!
//! Every measurement the exporter handles is held in thousandths of its
//! unit, as an `i64`.  A JSON number arrives as decimal parts — sign,
//! mantissa and decimal exponent — and is converted exactly; a value whose
//! magnitude exceeds `MAX_ABS_MILLI` does not convert, which the caller
//! turns into the `-1.0` sentinel.  Rendering turns milli-units back into
//! the shortest plain decimal text.

use vstd::prelude::*;
use vstd::string::*;
use vstd::arithmetic::mul::{lemma_mul_inequality, lemma_mul_nonnegative};
use vstd::arithmetic::div_mod::{lemma_basic_div, lemma_div_pos_is_pos};

verus! {

/// The sentinel `-1.0` in milli-units: a slot that could not be read.
pub const SENTINEL_MILLI: i64 = -1000;

/// Largest magnitude a converted value may have, in milli-units.
pub const MAX_ABS_MILLI: i64 = 1_000_000_000_000_000_000;

/// Ten to the power `e`.
pub open spec fn pow10(e: nat) -> nat
    decreases e,
{
    if e == 0 {
        1
    } else {
        10 * pow10((e - 1) as nat)
    }
}

proof fn lemma_pow10_pos(e: nat)
    ensures
        pow10(e) >= 1,
    decreases e,
{
    if e > 0 {
        lemma_pow10_pos((e - 1) as nat);
    }
}

proof fn lemma_pow10_mono(a: nat, b: nat)
    requires
        a <= b,
    ensures
        pow10(a) <= pow10(b),
    decreases b,
{
    if a < b {
        lemma_pow10_mono(a, (b - 1) as nat);
        lemma_pow10_pos((b - 1) as nat);
    }
}

proof fn lemma_pow10_values()
    ensures
        pow10(18) == 1_000_000_000_000_000_000,
        pow10(19) == 10_000_000_000_000_000_000,
        pow10(20) == 100_000_000_000_000_000_000,
{
    reveal_with_fuel(pow10, 21);
}

/// The milli-unit value denoted by decimal parts `sign * mantissa * 10^exponent`:
/// `None` when its magnitude exceeds `MAX_ABS_MILLI`.  A magnitude below one
/// thousandth truncates toward zero.
pub open spec fn milli_of_parts(positive: bool, mantissa: u64, exponent: int) -> Option<int> {
    let e3 = exponent + 3;
    let abs = if e3 >= 0 {
        mantissa * pow10(e3 as nat)
    } else {
        mantissa as int / pow10((-e3) as nat) as int
    };
    if abs <= MAX_ABS_MILLI as int {
        Some(
            if positive {
                abs
            } else {
                -abs
            },
        )
    } else {
        None
    }
}

/// A converted value's magnitude never exceeds `MAX_ABS_MILLI`.
pub proof fn lemma_milli_of_parts_bounded(positive: bool, mantissa: u64, exponent: int)
    ensures
        milli_of_parts(positive, mantissa, exponent) matches Some(v)
            ==> -MAX_ABS_MILLI <= v <= MAX_ABS_MILLI,
{
    let e3 = exponent + 3;
    if e3 >= 0 {
        lemma_mul_nonnegative(mantissa as int, pow10(e3 as nat) as int);
    } else {
        lemma_pow10_pos((-e3) as nat);
        lemma_div_pos_is_pos(mantissa as int, pow10((-e3) as nat) as int);
    }
}

/// Ten to the power `e`, as a machine word.
fn pow10_u64(e: u32) -> (r: u64)
    requires
        e <= 19,
    ensures
        r as nat == pow10(e as nat),
{
    let mut r: u64 = 1;
    let mut k: u32 = 0;
    while k < e
        invariant
            k <= e <= 19,
            r as nat == pow10(k as nat),
        decreases e - k,
    {
        proof {
            lemma_pow10_mono((k + 1) as nat, 19);
            lemma_pow10_values();
        }
        r = r * 10;
        k = k + 1;
    }
    r
}

/// Converts decimal parts to milli-units exactly; `None` when the value's
/// magnitude exceeds `MAX_ABS_MILLI`.
pub fn parts_to_milli(positive: bool, mantissa: u64, exponent: i16) -> (r: Option<i64>)
    ensures
        match r {
            Some(v) => milli_of_parts(positive, mantissa, exponent as int) == Some(v as int),
            None => milli_of_parts(positive, mantissa, exponent as int) is None,
        },
{
    let e3: i32 = exponent as i32 + 3;
    if e3 >= 0 {
        if e3 > 18 {
            if mantissa == 0 {
                return Some(0);
            }
            proof {
                lemma_mul_inequality(1, mantissa as int, pow10(e3 as nat) as int);
                lemma_pow10_mono(19, e3 as nat);
                lemma_pow10_values();
            }
            return None;
        }
        let p = pow10_u64(e3 as u32);
        proof {
            lemma_pow10_mono(e3 as nat, 18);
            lemma_pow10_values();
        }
        match mantissa.checked_mul(p) {
            Some(m) => if m <= MAX_ABS_MILLI as u64 {
                if positive {
                    Some(m as i64)
                } else {
                    Some(-(m as i64))
                }
            } else {
                None
            },
            None => None,
        }
    } else {
        let d: i32 = -e3;
        if d > 19 {
            proof {
                lemma_pow10_mono(20, d as nat);
                lemma_pow10_values();
                lemma_basic_div(mantissa as int, pow10(d as nat) as int);
            }
            return Some(0);
        }
        let p = pow10_u64(d as u32);
        proof {
            lemma_pow10_pos(d as nat);
        }
        let q = mantissa / p;
        if q <= MAX_ABS_MILLI as u64 {
            if positive {
                Some(q as i64)
            } else {
                Some(-(q as i64))
            }
        } else {
            None
        }
    }
}

/// The character of one decimal digit.
pub open spec fn digit_char(d: int) -> char {
    ((d + '0' as int) as u8) as char
}

/// Decimal text of a nonnegative number, most significant digit first.
pub open spec fn dec_str(n: int) -> Seq<char>
    decreases n,
{
    if n < 10 {
        seq![digit_char(n)]
    } else {
        dec_str(n / 10).push(digit_char(n % 10))
    }
}

fn digit_str(d: u64) -> (r: &'static str)
    requires
        d < 10,
    ensures
        r@ == seq![digit_char(d as int)],
{
    let r: &'static str = match d {
        0 => "0",
        1 => "1",
        2 => "2",
        3 => "3",
        4 => "4",
        5 => "5",
        6 => "6",
        7 => "7",
        8 => "8",
        _ => "9",
    };
    proof {
        reveal_strlit("0");
        reveal_strlit("1");
        reveal_strlit("2");
        reveal_strlit("3");
        reveal_strlit("4");
        reveal_strlit("5");
        reveal_strlit("6");
        reveal_strlit("7");
        reveal_strlit("8");
        reveal_strlit("9");
        assert(r@ =~= seq![digit_char(d as int)]);
    }
    r
}

/// Decimal text of a `u64`.
pub fn u64_to_dec(n: u64) -> (r: String)
    ensures
        r@ == dec_str(n as int),
    decreases n,
{
    if n < 10 {
        String::from_str(digit_str(n))
    } else {
        let mut r = u64_to_dec(n / 10);
        r.append(digit_str(n % 10));
        proof {
            assert(r@ =~= dec_str(n as int));
        }
        r
    }
}

/// The fractional digits of a milli-unit remainder `0 < frac < 1000`, with
/// trailing zeros stripped.
pub open spec fn frac_digits(frac: int) -> Seq<char> {
    if frac % 10 != 0 {
        seq![digit_char(frac / 100), digit_char((frac / 10) % 10), digit_char(frac % 10)]
    } else if frac % 100 != 0 {
        seq![digit_char(frac / 100), digit_char((frac / 10) % 10)]
    } else {
        seq![digit_char(frac / 100)]
    }
}

/// Plain decimal text of a milli-unit value: optional minus sign, whole
/// part, and a fractional part only when it is nonzero.
pub open spec fn fmt_milli_spec(v: int) -> Seq<char> {
    let abs = if v >= 0 {
        v
    } else {
        -v
    };
    let sign: Seq<char> = if v < 0 {
        "-"@
    } else {
        Seq::empty()
    };
    if abs % 1000 == 0 {
        sign + dec_str(abs / 1000)
    } else {
        sign + dec_str(abs / 1000) + "."@ + frac_digits(abs % 1000)
    }
}

/// Renders a milli-unit value as plain decimal text.
pub fn fmt_milli(v: i64) -> (r: String)
    ensures
        r@ == fmt_milli_spec(v as int),
{
    let abs: u64 = if v >= 0 {
        v as u64
    } else {
        (-(v + 1)) as u64 + 1
    };
    let whole = abs / 1000;
    let frac = abs % 1000;
    let mut r = if v < 0 {
        String::from_str("-")
    } else {
        String::new()
    };
    let w = u64_to_dec(whole);
    r.append(w.as_str());
    if frac != 0 {
        r.append(".");
        if frac % 10 != 0 {
            r.append(digit_str(frac / 100));
            r.append(digit_str((frac / 10) % 10));
            r.append(digit_str(frac % 10));
        } else if frac % 100 != 0 {
            r.append(digit_str(frac / 100));
            r.append(digit_str((frac / 10) % 10));
        } else {
            r.append(digit_str(frac / 100));
        }
    }
    proof {
        assert(r@ =~= fmt_milli_spec(v as int));
    }
    r
}

} // verus!

