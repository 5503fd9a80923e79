use vstd::arithmetic::power2::{lemma2_to64, lemma2_to64_rest, lemma_pow2_pos, pow2};
use vstd::prelude::*;
use crate::parser::ops::FUnOp;
use super::floats::{
    fields32, fields64, is_nan, spec_binary32, spec_binary64, spec_fields32, spec_fields64,
    spec_whole, Fields, Format,
};
use super::value::Value;

verus! {

/// The bits of a number without its sign, read as one number: the exponent
/// in front of the fraction. Among the numbers of one sign, the larger in
/// size has the larger bits.
pub open spec fn spec_magnitude(fmt: Format, f: Fields) -> nat {
    f.exp as nat * pow2(fmt.fraction_bits as nat) + f.fraction as nat
}

/// The bits of the number one.
pub open spec fn spec_one(fmt: Format) -> nat {
    fmt.bias as nat * pow2(fmt.fraction_bits as nat)
}

/// Whether a rounding to a whole number moves a number that is no whole
/// number away from zero. `rest` is what the number has beyond the whole
/// number below it in size, `unit` the distance to the next one, both in
/// units of the last place; `odd` says whether the whole number below is odd.
///
/// `trunc` never does; `floor` does for a negative number and `ceil` for a
/// positive one; `nearest` does for more than half a unit, and for half a
/// unit where that leads to the even whole number.
pub open spec fn spec_away(op: FUnOp, negative: bool, rest: nat, unit: nat, odd: bool) -> bool {
    match op {
        FUnOp::Floor => negative && rest != 0,
        FUnOp::Ceil => !negative && rest != 0,
        FUnOp::Nearest => 2 * rest > unit || (2 * rest == unit && odd),
        _ => false,
    }
}

/// The bits, without the sign, of a number rounded to a whole number.
///
/// A NaN stays a NaN and becomes quiet; an infinity and a number that is
/// whole already stay as they are. A number smaller than one becomes zero
/// or one. Any other number loses what it has beyond the whole number below
/// it in size, and moves on to the next whole number where the rounding goes
/// away from zero.
pub open spec fn spec_round_magnitude(op: FUnOp, fmt: Format, f: Fields) -> nat {
    let radix = pow2(fmt.fraction_bits as nat);
    let m = spec_magnitude(fmt, f);
    if is_nan(fmt, f) {
        if f.fraction < radix / 2 {
            m + radix / 2
        } else {
            m
        }
    } else if f.exp >= fmt.bias + fmt.fraction_bits {
        m
    } else if f.exp < fmt.bias {
        // Half a unit is the number one half; the whole number below is zero.
        if spec_away(op, f.negative, m, 2 * ((fmt.bias - 1) as nat * radix), false) {
            spec_one(fmt)
        } else {
            0
        }
    } else {
        let unit = pow2((fmt.bias + fmt.fraction_bits - f.exp) as nat);
        let rest = m % unit;
        if spec_away(op, f.negative, rest, unit, spec_whole(fmt, f) % 2 == 1) {
            (m - rest + unit) as nat
        } else {
            (m - rest) as nat
        }
    }
}

/// What a rounding to a whole number makes of a floating-point value: the
/// value with the sign it had and the rounded bits. `None` for any other
/// operator; any other value stays as it is.
pub open spec fn spec_round_value(op: FUnOp, v: Value) -> Option<Value> {
    if op == FUnOp::Ceil || op == FUnOp::Floor || op == FUnOp::Trunc || op == FUnOp::Nearest {
        Some(
            match v {
                Value::F32(bits) => {
                    let f = spec_fields32(bits);
                    Value::F32(
                        ((if f.negative {
                            0x8000_0000nat
                        } else {
                            0nat
                        }) + spec_round_magnitude(op, spec_binary32(), f)) as u32,
                    )
                },
                Value::F64(bits) => {
                    let f = spec_fields64(bits);
                    Value::F64(
                        ((if f.negative {
                            0x8000_0000_0000_0000nat
                        } else {
                            0nat
                        }) + spec_round_magnitude(op, spec_binary64(), f)) as u64,
                    )
                },
                v => v,
            },
        )
    } else {
        None
    }
}

fn away(op: FUnOp, negative: bool, rest: u128, unit: u128, odd: bool) -> (r: bool)
    requires
        rest <= 0x1_0000_0000_0000_0000,
        unit <= 0x1_0000_0000_0000_0000,
    ensures
        r == spec_away(op, negative, rest as nat, unit as nat, odd),
{
    match op {
        FUnOp::Floor => negative && rest != 0,
        FUnOp::Ceil => !negative && rest != 0,
        FUnOp::Nearest => 2 * rest > unit || (2 * rest == unit && odd),
        _ => false,
    }
}

/// Two to the power `k`.
fn power(k: u32) -> (r: u128)
    requires
        k <= 52,
    ensures
        r == pow2(k as nat),
        1 <= r <= 0x10_0000_0000_0000,
{
    let mut r: u128 = 1;
    let mut i: u32 = 0;
    proof {
        lemma2_to64();
        lemma2_to64_rest();
    }
    while i < k
        invariant
            i <= k,
            k <= 52,
            r == pow2(i as nat),
            1 <= r,
            r * pow2((52 - i) as nat) == pow2(52),
            pow2(52) == 0x10_0000_0000_0000,
        decreases k - i,
    {
        proof {
            vstd::arithmetic::power2::lemma_pow2_unfold((i + 1) as nat);
            vstd::arithmetic::power2::lemma_pow2_unfold((52 - i) as nat);
            lemma_pow2_pos((52 - i - 1) as nat);
            assert(r * pow2((52 - i) as nat) == (2 * r) * pow2((52 - i - 1) as nat))
                by (nonlinear_arith)
                requires
                    pow2((52 - i) as nat) == 2 * pow2((52 - i - 1) as nat),
            ;
            assert(2 * r <= (2 * r) * pow2((52 - i - 1) as nat)) by (nonlinear_arith)
                requires
                    pow2((52 - i - 1) as nat) >= 1,
                    r >= 1,
            ;
        }
        r = 2 * r;
        i = i + 1;
    }
    proof {
        lemma_pow2_pos((52 - k) as nat);
        assert(r <= r * pow2((52 - k) as nat)) by (nonlinear_arith)
            requires
                pow2((52 - k) as nat) >= 1,
                r >= 1,
        ;
    }
    r
}

/// The bits, without the sign, of a number rounded to a whole number.
fn round_magnitude(op: FUnOp, fmt: Format, f: Fields) -> (r: u128)
    requires
        fmt == spec_binary32() || fmt == spec_binary64(),
        f.exp <= fmt.top,
        f.fraction < pow2(fmt.fraction_bits as nat),
    ensures
        r == spec_round_magnitude(op, fmt, f),
        r < pow2(fmt.fraction_bits as nat) * (fmt.top + 1),
{
    proof {
        lemma2_to64();
        lemma2_to64_rest();
    }
    let radix = power(fmt.fraction_bits);
    proof {
        assert(radix == 0x80_0000 || radix == 0x10_0000_0000_0000);
        assert(f.exp as nat * radix as nat <= 2047 * radix) by (nonlinear_arith)
            requires
                f.exp <= 2047,
                radix >= 0,
        ;
        assert(fmt.bias as nat * radix as nat <= 1023 * radix) by (nonlinear_arith)
            requires
                fmt.bias <= 1023,
                radix >= 0,
        ;
        assert((fmt.bias - 1) as nat * radix as nat <= 1023 * radix) by (nonlinear_arith)
            requires
                1 <= fmt.bias <= 1023,
                radix >= 0,
        ;
    }
    let m: u128 = f.exp as u128 * radix + f.fraction as u128;
    let bound: Ghost<nat> = Ghost(pow2(fmt.fraction_bits as nat) * (fmt.top + 1) as nat);
    proof {
        assert(m < radix * (fmt.top + 1)) by (nonlinear_arith)
            requires
                m == f.exp * radix + f.fraction,
                f.fraction < radix,
                f.exp <= fmt.top,
        ;
    }
    if f.exp == fmt.top && f.fraction != 0 {
        if (f.fraction as u128) < radix / 2 {
            proof {
                assert(m + radix / 2 < radix * (fmt.top + 1)) by (nonlinear_arith)
                    requires
                        m == f.exp * radix + f.fraction,
                        f.fraction < radix / 2,
                        f.exp <= fmt.top,
                        radix >= 2,
                ;
            }
            m + radix / 2
        } else {
            m
        }
    } else if f.exp >= fmt.bias + fmt.fraction_bits {
        m
    } else if f.exp < fmt.bias {
        let half = (fmt.bias - 1) as u128 * radix;
        if away(op, f.negative, m, 2 * half, false) {
            proof {
                assert(fmt.bias * radix < radix * (fmt.top + 1)) by (nonlinear_arith)
                    requires
                        fmt.bias < fmt.top + 1,
                        radix >= 1,
                ;
            }
            fmt.bias as u128 * radix
        } else {
            0
        }
    } else {
        let unit = power(fmt.bias + fmt.fraction_bits - f.exp);
        let rest = m % unit;
        proof {
            vstd::arithmetic::div_mod::lemma_mod_decreases(m as nat, unit as nat);
        }
        let significand = radix + f.fraction as u128;
        let odd = (significand / unit) % 2 == 1;
        if away(op, f.negative, rest, unit, odd) {
            proof {
                // The next whole number is at most two to the power of the
                // number of fraction bits, which is far below an infinity.
                assert(unit <= radix) by {
                    if fmt.bias + fmt.fraction_bits - f.exp < fmt.fraction_bits {
                        vstd::arithmetic::power2::lemma_pow2_strictly_increases(
                            (fmt.bias + fmt.fraction_bits - f.exp) as nat,
                            fmt.fraction_bits as nat,
                        );
                    }
                }
                assert(m - rest + unit < radix * (fmt.top + 1)) by (nonlinear_arith)
                    requires
                        m == f.exp * radix + f.fraction,
                        f.fraction < radix,
                        f.exp + 1 < fmt.top,
                        unit <= radix,
                        rest <= m,
                ;
            }
            m - rest + unit
        } else {
            m - rest
        }
    }
}

/// Rounds a floating-point value to a whole number.
pub fn round_value(op: FUnOp, v: Value) -> (r: Option<Value>)
    ensures
        r == spec_round_value(op, v),
{
    match op {
        FUnOp::Ceil | FUnOp::Floor | FUnOp::Trunc | FUnOp::Nearest => {},
        _ => {
            return None;
        },
    }
    proof {
        lemma2_to64();
        lemma2_to64_rest();
    }
    Some(
        match v {
            Value::F32(bits) => {
                let f = fields32(bits);
                let m = round_magnitude(op, Format { fraction_bits: 23, bias: 127, top: 255 }, f);
                let sign: u128 = if f.negative {
                    0x8000_0000
                } else {
                    0
                };
                Value::F32((sign + m) as u32)
            },
            Value::F64(bits) => {
                let f = fields64(bits);
                let m = round_magnitude(
                    op,
                    Format { fraction_bits: 52, bias: 1023, top: 2047 },
                    f,
                );
                let sign: u128 = if f.negative {
                    0x8000_0000_0000_0000
                } else {
                    0
                };
                Value::F64((sign + m) as u64)
            },
            v => v,
        },
    )
}

} // verus!
