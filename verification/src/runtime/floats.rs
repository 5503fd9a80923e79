use vstd::arithmetic::mul::{lemma_mul_inequality, lemma_mul_strict_inequality};
use vstd::arithmetic::power2::{lemma_pow2_adds, lemma_pow2_pos, lemma_pow2_strictly_increases, lemma_pow2_unfold, pow2};
use vstd::prelude::*;
use crate::parser::ops::{CvtOp, FBinOp, FRelOp, FUnOp, TruncSatOp, Width};
use crate::parser::valtype::ValType;
use crate::parser::plain::PlainInstr;
use super::error::RuntimeError;
use super::frame::{spec_pop_typed, Frame, FrameV};
use super::numeric::{cvt_source, spec_cvt_source};
use super::rounding::{round_value, spec_round_value};
use super::value::Value;

verus! {

/// A binary floating-point format: the number of bits of the fraction, the
/// bias of the exponent, and the exponent that marks an infinity or a NaN.
#[derive(Debug, Clone, Copy, PartialEq, Eq, Structural)]
pub struct Format {
    pub fraction_bits: u32,
    pub bias: u32,
    pub top: u32,
}

/// The format of 32 bits.
pub open spec fn spec_binary32() -> Format {
    Format { fraction_bits: 23, bias: 127, top: 255 }
}

/// The format of 64 bits.
pub open spec fn spec_binary64() -> Format {
    Format { fraction_bits: 52, bias: 1023, top: 2047 }
}

/// The three fields of a bit pattern: the sign, the exponent as it is
/// stored, and the fraction.
#[derive(Debug, Clone, Copy, PartialEq, Eq, Structural)]
pub struct Fields {
    pub negative: bool,
    pub exp: u32,
    pub fraction: u64,
}

/// The fields of a pattern of 32 bits.
pub open spec fn spec_fields32(bits: u32) -> Fields {
    Fields {
        negative: bits >= 0x8000_0000,
        exp: ((bits / 0x80_0000) % 0x100) as u32,
        fraction: (bits % 0x80_0000) as u64,
    }
}

/// The fields of a pattern of 64 bits.
pub open spec fn spec_fields64(bits: u64) -> Fields {
    Fields {
        negative: bits >= 0x8000_0000_0000_0000,
        exp: ((bits / 0x10_0000_0000_0000) % 0x800) as u32,
        fraction: bits % 0x10_0000_0000_0000,
    }
}

/// The fields of a pattern of 32 bits.
pub fn fields32(bits: u32) -> (f: Fields)
    ensures
        f == spec_fields32(bits),
        f.exp <= 255,
        f.fraction < 0x80_0000,
{
    Fields {
        negative: bits >= 0x8000_0000,
        exp: (bits / 0x80_0000) % 0x100,
        fraction: (bits % 0x80_0000) as u64,
    }
}

/// The fields of a pattern of 64 bits.
pub fn fields64(bits: u64) -> (f: Fields)
    ensures
        f == spec_fields64(bits),
        f.exp <= 2047,
        f.fraction < 0x10_0000_0000_0000,
{
    Fields {
        negative: bits >= 0x8000_0000_0000_0000,
        exp: ((bits / 0x10_0000_0000_0000) % 0x800) as u32,
        fraction: bits % 0x10_0000_0000_0000,
    }
}

/// The pattern stands for no number.
pub open spec fn is_nan(fmt: Format, f: Fields) -> bool {
    f.exp == fmt.top && f.fraction != 0
}

/// The whole part of the size of a finite number. A number whose exponent
/// is below the bias is smaller than one; any other is its fraction with a
/// one in front, moved by the exponent.
pub open spec fn spec_whole(fmt: Format, f: Fields) -> nat {
    let significand = pow2(fmt.fraction_bits as nat) + f.fraction as nat;
    if f.exp < fmt.bias {
        0
    } else if f.exp < fmt.bias + fmt.fraction_bits {
        significand / pow2((fmt.bias + fmt.fraction_bits - f.exp) as nat)
    } else {
        significand * pow2((f.exp - fmt.bias - fmt.fraction_bits) as nat)
    }
}

/// The number rounded toward zero; none for an infinity and for a NaN.
pub open spec fn spec_truncated(fmt: Format, f: Fields) -> Option<int> {
    if f.exp == fmt.top {
        None
    } else if f.negative {
        Some(-(spec_whole(fmt, f) as int))
    } else {
        Some(spec_whole(fmt, f) as int)
    }
}

/// A truncation that traps: the number rounded toward zero where that lies
/// in `lo ..= hi`. A NaN is an invalid conversion; an infinity and a number
/// beyond the range are an overflow.
pub open spec fn spec_trunc(fmt: Format, f: Fields, lo: int, hi: int) -> Result<int, RuntimeError> {
    if is_nan(fmt, f) {
        Err(RuntimeError::InvalidConversion)
    } else {
        match spec_truncated(fmt, f) {
            None => Err(RuntimeError::IntegerOverflow),
            Some(v) => if lo <= v <= hi {
                Ok(v)
            } else {
                Err(RuntimeError::IntegerOverflow)
            },
        }
    }
}

/// A truncation that saturates: the number rounded toward zero, or the end
/// of `lo ..= hi` that lies next to it; zero for a NaN.
pub open spec fn spec_trunc_sat(fmt: Format, f: Fields, lo: int, hi: int) -> int {
    if is_nan(fmt, f) {
        0
    } else {
        match spec_truncated(fmt, f) {
            None => if f.negative {
                lo
            } else {
                hi
            },
            Some(v) => if v < lo {
                lo
            } else if v > hi {
                hi
            } else {
                v
            },
        }
    }
}

/// Two to the power `k`.
fn power_of_two(k: u32) -> (r: u128)
    requires
        k <= 64,
    ensures
        r == pow2(k as nat),
        r <= 0x1_0000_0000_0000_0000,
{
    let mut r: u128 = 1;
    let mut i: u32 = 0;
    proof {
        vstd::arithmetic::power2::lemma2_to64();
    }
    while i < k
        invariant
            i <= k,
            k <= 64,
            r == pow2(i as nat),
            r <= pow2(64),
            pow2(64) == 0x1_0000_0000_0000_0000,
        decreases k - i,
    {
        proof {
            lemma_pow2_unfold((i + 1) as nat);
            if i + 1 < 64 {
                lemma_pow2_strictly_increases((i + 1) as nat, 64);
            }
        }
        r = 2 * r;
        i = i + 1;
    }
    r
}

/// The whole part of the size of a finite number, as far as it is below
/// `2^64`; for any larger number, `2^64`.
fn whole(fmt: Format, f: Fields) -> (r: u128)
    requires
        fmt == spec_binary32() || fmt == spec_binary64(),
        f.exp < fmt.top,
        f.fraction < pow2(fmt.fraction_bits as nat),
    ensures
        spec_whole(fmt, f) < 0x1_0000_0000_0000_0000 ==> r == spec_whole(fmt, f),
        spec_whole(fmt, f) >= 0x1_0000_0000_0000_0000 ==> r == 0x1_0000_0000_0000_0000,
{
    proof {
        vstd::arithmetic::power2::lemma2_to64();
        vstd::arithmetic::power2::lemma2_to64_rest();
    }
    let one = power_of_two(fmt.fraction_bits);
    let m: u128 = one + f.fraction as u128;
    if f.exp < fmt.bias {
        0
    } else if f.exp < fmt.bias + fmt.fraction_bits {
        let d = power_of_two(fmt.bias + fmt.fraction_bits - f.exp);
        proof {
            lemma_pow2_pos((fmt.bias + fmt.fraction_bits - f.exp) as nat);
            vstd::arithmetic::div_mod::lemma_div_nonincreasing(m as int, d as int);
            vstd::arithmetic::div_mod::lemma_div_pos_is_pos(m as int, d as int);
        }
        m / d
    } else {
        let e = f.exp - fmt.bias;
        let ghost shift = (e - fmt.fraction_bits) as nat;
        proof {
            // The number lies between 2^e and 2^(e + 1).
            lemma_pow2_adds(fmt.fraction_bits as nat, shift);
            lemma_pow2_adds((fmt.fraction_bits + 1) as nat, shift);
            lemma_pow2_unfold((fmt.fraction_bits + 1) as nat);
            lemma_pow2_pos(shift);
            lemma_mul_inequality(one as int, m as int, pow2(shift) as int);
            lemma_mul_strict_inequality(m as int, 2 * one, pow2(shift) as int);
            if e >= 64 {
                if e > 64 {
                    lemma_pow2_strictly_increases(64, e as nat);
                }
            } else {
                if e + 1 < 64 {
                    lemma_pow2_strictly_increases((e + 1) as nat, 64);
                }
            }
        }
        if e >= 64 {
            0x1_0000_0000_0000_0000
        } else {
            let p = power_of_two(e - fmt.fraction_bits);
            m * p
        }
    }
}

/// The integer types that a truncation can aim at.
#[derive(Debug, Clone, Copy, PartialEq, Eq, Structural)]
pub enum Target {
    S32,
    U32,
    S64,
    U64,
}

/// The least number of an integer type.
pub open spec fn spec_lo(t: Target) -> int {
    match t {
        Target::S32 => -0x8000_0000,
        Target::S64 => -0x8000_0000_0000_0000,
        _ => 0,
    }
}

/// The greatest number of an integer type.
pub open spec fn spec_hi(t: Target) -> int {
    match t {
        Target::S32 => 0x7fff_ffff,
        Target::U32 => 0xffff_ffff,
        Target::S64 => 0x7fff_ffff_ffff_ffff,
        Target::U64 => 0xffff_ffff_ffff_ffff,
    }
}

/// The value that holds the number `v` of the integer type `t`: an unsigned
/// number is held as the signed number with the same bits.
pub open spec fn spec_held(t: Target, v: int) -> Value {
    match t {
        Target::S32 => Value::I32(v as i32),
        Target::U32 => Value::I32((v as u32) as i32),
        Target::S64 => Value::I64(v as i64),
        Target::U64 => Value::I64((v as u64) as i64),
    }
}

fn bounds(t: Target) -> (r: (i128, i128))
    ensures
        r.0 == spec_lo(t),
        r.1 == spec_hi(t),
{
    match t {
        Target::S32 => (-0x8000_0000, 0x7fff_ffff),
        Target::U32 => (0, 0xffff_ffff),
        Target::S64 => (-0x8000_0000_0000_0000, 0x7fff_ffff_ffff_ffff),
        Target::U64 => (0, 0xffff_ffff_ffff_ffff),
    }
}

fn held(t: Target, v: i128) -> (r: Value)
    requires
        spec_lo(t) <= v <= spec_hi(t),
    ensures
        r == spec_held(t, v as int),
{
    match t {
        Target::S32 => Value::I32(v as i32),
        Target::U32 => Value::I32(#[verifier::truncate] ((v as u32) as i32)),
        Target::S64 => Value::I64(v as i64),
        Target::U64 => Value::I64(#[verifier::truncate] ((v as u64) as i64)),
    }
}

/// The fields and the format of a floating-point value; none for any
/// other value.
pub open spec fn spec_parts(v: Value) -> Option<(Format, Fields)> {
    match v {
        Value::F32(bits) => Some((spec_binary32(), spec_fields32(bits))),
        Value::F64(bits) => Some((spec_binary64(), spec_fields64(bits))),
        _ => None,
    }
}

fn parts(v: Value) -> (r: Option<(Format, Fields)>)
    ensures
        r == spec_parts(v),
        r matches Some((fmt, f)) ==> (fmt == spec_binary32() || fmt == spec_binary64()) && f.exp
            <= fmt.top && f.fraction < pow2(fmt.fraction_bits as nat),
{
    proof {
        vstd::arithmetic::power2::lemma2_to64();
        vstd::arithmetic::power2::lemma2_to64_rest();
    }
    match v {
        Value::F32(bits) => Some((Format { fraction_bits: 23, bias: 127, top: 255 }, fields32(bits))),
        Value::F64(bits) => Some(
            (Format { fraction_bits: 52, bias: 1023, top: 2047 }, fields64(bits)),
        ),
        _ => None,
    }
}

/// Truncates a number to the integer type `t`, trapping where it has no
/// place there.
fn trunc(fmt: Format, f: Fields, t: Target) -> (r: Result<Value, RuntimeError>)
    requires
        fmt == spec_binary32() || fmt == spec_binary64(),
        f.exp <= fmt.top,
        f.fraction < pow2(fmt.fraction_bits as nat),
    ensures
        match spec_trunc(fmt, f, spec_lo(t), spec_hi(t)) {
            Ok(v) => r == Ok::<Value, RuntimeError>(spec_held(t, v)),
            Err(e) => r == Err::<Value, RuntimeError>(e),
        },
{
    if f.exp == fmt.top {
        return if f.fraction != 0 {
            Err(RuntimeError::InvalidConversion)
        } else {
            Err(RuntimeError::IntegerOverflow)
        };
    }
    let w = whole(fmt, f);
    let v: i128 = if f.negative {
        -(w as i128)
    } else {
        w as i128
    };
    let (lo, hi) = bounds(t);
    if lo <= v && v <= hi {
        Ok(held(t, v))
    } else {
        Err(RuntimeError::IntegerOverflow)
    }
}

/// Truncates a number to the integer type `t`, stopping at the ends of
/// the type.
fn trunc_sat(fmt: Format, f: Fields, t: Target) -> (r: Value)
    requires
        fmt == spec_binary32() || fmt == spec_binary64(),
        f.exp <= fmt.top,
        f.fraction < pow2(fmt.fraction_bits as nat),
    ensures
        r == spec_held(t, spec_trunc_sat(fmt, f, spec_lo(t), spec_hi(t))),
{
    let (lo, hi) = bounds(t);
    if f.exp == fmt.top {
        return if f.fraction != 0 {
            held(t, 0)
        } else if f.negative {
            held(t, lo)
        } else {
            held(t, hi)
        };
    }
    let w = whole(fmt, f);
    let v: i128 = if f.negative {
        -(w as i128)
    } else {
        w as i128
    };
    if v < lo {
        held(t, lo)
    } else if v > hi {
        held(t, hi)
    } else {
        held(t, v)
    }
}

/// The integer type that a truncating conversion aims at; none for any
/// other conversion.
pub open spec fn spec_trunc_target(op: CvtOp) -> Option<Target> {
    match op {
        CvtOp::I32TruncF32S | CvtOp::I32TruncF64S => Some(Target::S32),
        CvtOp::I32TruncF32U | CvtOp::I32TruncF64U => Some(Target::U32),
        CvtOp::I64TruncF32S | CvtOp::I64TruncF64S => Some(Target::S64),
        CvtOp::I64TruncF32U | CvtOp::I64TruncF64U => Some(Target::U64),
        _ => None,
    }
}

/// The integer type that a truncating conversion aims at.
pub fn trunc_target(op: CvtOp) -> (t: Option<Target>)
    ensures
        t == spec_trunc_target(op),
{
    match op {
        CvtOp::I32TruncF32S | CvtOp::I32TruncF64S => Some(Target::S32),
        CvtOp::I32TruncF32U | CvtOp::I32TruncF64U => Some(Target::U32),
        CvtOp::I64TruncF32S | CvtOp::I64TruncF64S => Some(Target::S64),
        CvtOp::I64TruncF32U | CvtOp::I64TruncF64U => Some(Target::U64),
        _ => None,
    }
}

/// The integer type that a saturating truncation aims at.
pub open spec fn spec_sat_target(op: TruncSatOp) -> Target {
    match op {
        TruncSatOp::I32F32S | TruncSatOp::I32F64S => Target::S32,
        TruncSatOp::I32F32U | TruncSatOp::I32F64U => Target::U32,
        TruncSatOp::I64F32S | TruncSatOp::I64F64S => Target::S64,
        TruncSatOp::I64F32U | TruncSatOp::I64F64U => Target::U64,
    }
}

fn sat_target(op: TruncSatOp) -> (t: Target)
    ensures
        t == spec_sat_target(op),
{
    match op {
        TruncSatOp::I32F32S | TruncSatOp::I32F64S => Target::S32,
        TruncSatOp::I32F32U | TruncSatOp::I32F64U => Target::U32,
        TruncSatOp::I64F32S | TruncSatOp::I64F64S => Target::S64,
        TruncSatOp::I64F32U | TruncSatOp::I64F64U => Target::U64,
    }
}

/// What a truncating conversion makes of a floating-point value: the number
/// rounded toward zero, as a value of the integer type, or the trap. `None`
/// for any other conversion and for a value that is no floating-point number.
pub open spec fn spec_trunc_value(op: CvtOp, v: Value) -> Option<Result<Value, RuntimeError>> {
    match (spec_trunc_target(op), spec_parts(v)) {
        (Some(t), Some((fmt, f))) => Some(
            match spec_trunc(fmt, f, spec_lo(t), spec_hi(t)) {
                Ok(n) => Ok(spec_held(t, n)),
                Err(e) => Err(e),
            },
        ),
        _ => None,
    }
}

/// Applies a truncating conversion.
pub fn trunc_value(op: CvtOp, v: Value) -> (r: Option<Result<Value, RuntimeError>>)
    ensures
        r == spec_trunc_value(op, v),
{
    match (trunc_target(op), parts(v)) {
        (Some(t), Some((fmt, f))) => Some(trunc(fmt, f, t)),
        _ => None,
    }
}

/// What a saturating truncation makes of a floating-point value: the number
/// rounded toward zero, the least number of the integer type for a number
/// below the type, the greatest for a number above it, and zero for a NaN.
/// Zero as well for a value that is no floating-point number.
pub open spec fn spec_trunc_sat_value(op: TruncSatOp, v: Value) -> Value {
    match spec_parts(v) {
        Some((fmt, f)) => spec_held(
            spec_sat_target(op),
            spec_trunc_sat(fmt, f, spec_lo(spec_sat_target(op)), spec_hi(spec_sat_target(op))),
        ),
        None => spec_held(spec_sat_target(op), 0),
    }
}

/// Applies a saturating truncation.
pub fn trunc_sat_value(op: TruncSatOp, v: Value) -> (r: Value)
    ensures
        r == spec_trunc_sat_value(op, v),
{
    match parts(v) {
        Some((fmt, f)) => trunc_sat(fmt, f, sat_target(op)),
        None => held(sat_target(op), 0),
    }
}

/// The number is a zero, of either sign.
pub open spec fn is_zero(f: Fields) -> bool {
    f.exp == 0 && f.fraction == 0
}

/// The first number is smaller in size than the second: its exponent is
/// smaller, or the exponents are equal and its fraction is smaller.
pub open spec fn spec_smaller(a: Fields, b: Fields) -> bool {
    a.exp < b.exp || (a.exp == b.exp && a.fraction < b.fraction)
}

/// The first number is less than the second. Neither is a NaN. The two
/// zeros are equal; a negative number is less than a positive one; of two
/// positive numbers the smaller in size is less, of two negative ones the
/// larger.
pub open spec fn spec_less(a: Fields, b: Fields) -> bool {
    if is_zero(a) && is_zero(b) {
        false
    } else if a.negative != b.negative {
        a.negative
    } else if a.negative {
        spec_smaller(b, a)
    } else {
        spec_smaller(a, b)
    }
}

/// The two numbers are equal. Neither is a NaN.
pub open spec fn spec_equal(a: Fields, b: Fields) -> bool {
    (is_zero(a) && is_zero(b)) || a == b
}

/// Whether a comparison holds of two numbers. Where one of them is a NaN,
/// only `ne` holds.
pub open spec fn spec_frel(op: FRelOp, fmt: Format, a: Fields, b: Fields) -> bool {
    if is_nan(fmt, a) || is_nan(fmt, b) {
        op == FRelOp::Ne
    } else {
        match op {
            FRelOp::Eq => spec_equal(a, b),
            FRelOp::Ne => !spec_equal(a, b),
            FRelOp::Lt => spec_less(a, b),
            FRelOp::Gt => spec_less(b, a),
            FRelOp::Le => spec_less(a, b) || spec_equal(a, b),
            FRelOp::Ge => spec_less(b, a) || spec_equal(a, b),
        }
    }
}

fn less(a: Fields, b: Fields) -> (r: bool)
    ensures
        r == spec_less(a, b),
{
    let a_zero = a.exp == 0 && a.fraction == 0;
    let b_zero = b.exp == 0 && b.fraction == 0;
    if a_zero && b_zero {
        false
    } else if a.negative != b.negative {
        a.negative
    } else if a.negative {
        b.exp < a.exp || (b.exp == a.exp && b.fraction < a.fraction)
    } else {
        a.exp < b.exp || (a.exp == b.exp && a.fraction < b.fraction)
    }
}

fn equal(a: Fields, b: Fields) -> (r: bool)
    ensures
        r == spec_equal(a, b),
{
    let a_zero = a.exp == 0 && a.fraction == 0;
    let b_zero = b.exp == 0 && b.fraction == 0;
    (a_zero && b_zero) || (a.negative == b.negative && a.exp == b.exp && a.fraction == b.fraction)
}

/// Applies a comparison to two numbers.
pub fn frel(op: FRelOp, fmt: Format, a: Fields, b: Fields) -> (r: bool)
    ensures
        r == spec_frel(op, fmt, a, b),
{
    let a_nan = a.exp == fmt.top && a.fraction != 0;
    let b_nan = b.exp == fmt.top && b.fraction != 0;
    if a_nan || b_nan {
        match op {
            FRelOp::Ne => true,
            _ => false,
        }
    } else {
        match op {
            FRelOp::Eq => equal(a, b),
            FRelOp::Ne => !equal(a, b),
            FRelOp::Lt => less(a, b),
            FRelOp::Gt => less(b, a),
            FRelOp::Le => less(a, b) || equal(a, b),
            FRelOp::Ge => less(b, a) || equal(a, b),
        }
    }
}

/// What a comparison makes of two floating-point values of one width: 1
/// where it holds, else 0. `None` for values of any other kind.
pub open spec fn spec_frel_value(op: FRelOp, a: Value, b: Value) -> Option<i32> {
    match (spec_parts(a), spec_parts(b)) {
        (Some((fmt, x)), Some((other, y))) => if fmt == other {
            Some(
                if spec_frel(op, fmt, x, y) {
                    1
                } else {
                    0
                },
            )
        } else {
            None
        },
        _ => None,
    }
}

/// Applies a comparison to two floating-point values.
pub fn frel_value(op: FRelOp, a: Value, b: Value) -> (r: Option<i32>)
    ensures
        r == spec_frel_value(op, a, b),
{
    match (parts(a), parts(b)) {
        (Some((fmt, x)), Some((other, y))) => {
            if fmt == other {
                Some(
                    if frel(op, fmt, x, y) {
                        1
                    } else {
                        0
                    },
                )
            } else {
                None
            }
        },
        _ => None,
    }
}

/// The value without its sign.
pub open spec fn spec_abs(v: Value) -> Value {
    match v {
        Value::F32(bits) => Value::F32(bits % 0x8000_0000),
        Value::F64(bits) => Value::F64(bits % 0x8000_0000_0000_0000),
        v => v,
    }
}

/// The value with the sign of `sign`: the sign bit of the one, the other
/// bits of the other.
pub open spec fn spec_copysign(v: Value, sign: Value) -> Value {
    match (v, sign) {
        (Value::F32(a), Value::F32(b)) => Value::F32(
            if b >= 0x8000_0000 {
                (a % 0x8000_0000 + 0x8000_0000) as u32
            } else {
                a % 0x8000_0000
            },
        ),
        (Value::F64(a), Value::F64(b)) => Value::F64(
            if b >= 0x8000_0000_0000_0000 {
                (a % 0x8000_0000_0000_0000 + 0x8000_0000_0000_0000) as u64
            } else {
                a % 0x8000_0000_0000_0000
            },
        ),
        _ => v,
    }
}

/// The value with the other sign.
pub open spec fn spec_neg(v: Value) -> Value {
    match v {
        Value::F32(bits) => Value::F32(
            if bits >= 0x8000_0000 {
                (bits - 0x8000_0000) as u32
            } else {
                (bits + 0x8000_0000) as u32
            },
        ),
        Value::F64(bits) => Value::F64(
            if bits >= 0x8000_0000_0000_0000 {
                (bits - 0x8000_0000_0000_0000) as u64
            } else {
                (bits + 0x8000_0000_0000_0000) as u64
            },
        ),
        v => v,
    }
}

/// What a unary operator that reads or writes the sign, or rounds to a
/// whole number, makes of a value; none for the square root.
pub open spec fn spec_fun(op: FUnOp, v: Value) -> Option<Value> {
    match op {
        FUnOp::Abs => Some(spec_abs(v)),
        FUnOp::Neg => Some(spec_neg(v)),
        _ => spec_round_value(op, v),
    }
}

/// Applies a unary operator that reads or writes the sign, or rounds to a
/// whole number.
pub fn fun(op: FUnOp, v: Value) -> (r: Option<Value>)
    ensures
        r == spec_fun(op, v),
{
    match op {
        FUnOp::Abs => Some(
            match v {
                Value::F32(bits) => Value::F32(bits % 0x8000_0000),
                Value::F64(bits) => Value::F64(bits % 0x8000_0000_0000_0000),
                v => v,
            },
        ),
        FUnOp::Neg => Some(
            match v {
                Value::F32(bits) => Value::F32(
                    if bits >= 0x8000_0000 {
                        bits - 0x8000_0000
                    } else {
                        bits + 0x8000_0000
                    },
                ),
                Value::F64(bits) => Value::F64(
                    if bits >= 0x8000_0000_0000_0000 {
                        bits - 0x8000_0000_0000_0000
                    } else {
                        bits + 0x8000_0000_0000_0000
                    },
                ),
                v => v,
            },
        ),
        _ => round_value(op, v),
    }
}

/// The NaN that an operator gives where an operand is a NaN: the quiet NaN
/// with no other bit set, in the width of `v`.
pub open spec fn spec_nan_like(v: Value) -> Value {
    match v {
        Value::F64(_) => Value::F64(0x7ff8_0000_0000_0000),
        _ => Value::F32(0x7fc0_0000),
    }
}

/// The lesser (`least`) or the greater of two floating-point values of one
/// width. A NaN where one of them is a NaN; of the two zeros the negative one
/// is the lesser.
pub open spec fn spec_pick(least: bool, a: Value, b: Value) -> Value {
    match (spec_parts(a), spec_parts(b)) {
        (Some((fmt, x)), Some((_, y))) => if is_nan(fmt, x) || is_nan(fmt, y) {
            spec_nan_like(a)
        } else if spec_less(x, y) {
            if least {
                a
            } else {
                b
            }
        } else if spec_less(y, x) {
            if least {
                b
            } else {
                a
            }
        } else if x.negative == least {
            a
        } else {
            b
        },
        _ => a,
    }
}

/// What a binary operator that only compares or reads the sign makes of
/// two values; none for the operators that round.
pub open spec fn spec_fbin(op: FBinOp, a: Value, b: Value) -> Option<Value> {
    match op {
        FBinOp::Copysign => Some(spec_copysign(a, b)),
        FBinOp::Min => Some(spec_pick(true, a, b)),
        FBinOp::Max => Some(spec_pick(false, a, b)),
        _ => None,
    }
}

fn pick(least: bool, a: Value, b: Value) -> (r: Value)
    ensures
        r == spec_pick(least, a, b),
{
    match (parts(a), parts(b)) {
        (Some((fmt, x)), Some((_, y))) => {
            let x_nan = x.exp == fmt.top && x.fraction != 0;
            let y_nan = y.exp == fmt.top && y.fraction != 0;
            if x_nan || y_nan {
                match a {
                    Value::F64(_) => Value::F64(0x7ff8_0000_0000_0000),
                    _ => Value::F32(0x7fc0_0000),
                }
            } else if less(x, y) {
                if least {
                    a
                } else {
                    b
                }
            } else if less(y, x) {
                if least {
                    b
                } else {
                    a
                }
            } else if x.negative == least {
                a
            } else {
                b
            }
        },
        _ => a,
    }
}

/// Applies a binary operator that only compares or reads the sign.
pub fn fbin(op: FBinOp, a: Value, b: Value) -> (r: Option<Value>)
    ensures
        r == spec_fbin(op, a, b),
{
    match op {
        FBinOp::Copysign => Some(
            match (a, b) {
                (Value::F32(x), Value::F32(y)) => Value::F32(
                    if y >= 0x8000_0000 {
                        x % 0x8000_0000 + 0x8000_0000
                    } else {
                        x % 0x8000_0000
                    },
                ),
                (Value::F64(x), Value::F64(y)) => Value::F64(
                    if y >= 0x8000_0000_0000_0000 {
                        x % 0x8000_0000_0000_0000 + 0x8000_0000_0000_0000
                    } else {
                        x % 0x8000_0000_0000_0000
                    },
                ),
                _ => a,
            },
        ),
        FBinOp::Min => Some(pick(true, a, b)),
        FBinOp::Max => Some(pick(false, a, b)),
        _ => None,
    }
}

/// The floating-point type of a width.
pub open spec fn spec_float_type(w: Width) -> ValType {
    match w {
        Width::W32 => ValType::F32,
        Width::W64 => ValType::F64,
    }
}

/// The floating-point type of a width.
pub fn float_type(w: Width) -> (t: ValType)
    ensures
        t == spec_float_type(w),
{
    match w {
        Width::W32 => ValType::F32,
        Width::W64 => ValType::F64,
    }
}

/// The type of the operand of a saturating truncation.
pub open spec fn spec_trunc_source(op: TruncSatOp) -> ValType {
    match op {
        TruncSatOp::I32F32S | TruncSatOp::I32F32U | TruncSatOp::I64F32S | TruncSatOp::I64F32U => ValType::F32,
        TruncSatOp::I32F64S | TruncSatOp::I32F64U | TruncSatOp::I64F64S | TruncSatOp::I64F64U => ValType::F64,
    }
}

/// The type of the operand of a saturating truncation.
pub fn trunc_source(op: TruncSatOp) -> (t: ValType)
    ensures
        t == spec_trunc_source(op),
{
    match op {
        TruncSatOp::I32F32S | TruncSatOp::I32F32U | TruncSatOp::I64F32S | TruncSatOp::I64F32U => ValType::F32,
        TruncSatOp::I32F64S | TruncSatOp::I32F64U | TruncSatOp::I64F64S | TruncSatOp::I64F64U => ValType::F64,
    }
}

/// What an instruction that decides on the bit pattern of a floating-point
/// number makes of the frame: a truncation to an integer, a comparison, or
/// an operator that only compares or reads and writes the sign. `None` for
/// every other instruction.
pub open spec fn spec_bits(ins: PlainInstr, f: FrameV) -> Option<Result<FrameV, RuntimeError>> {
    match ins {
        PlainInstr::Cvt(op) => if spec_trunc_target(op) is None {
            None
        } else {
            Some(
                match spec_pop_typed(f.stack, spec_cvt_source(op)) {
                    Err(e) => Err(e),
                    Ok((v, s)) => match spec_trunc_value(op, v) {
                        Some(Ok(r)) => Ok(f.next(s.push(r))),
                        Some(Err(e)) => Err(e),
                        None => Err(RuntimeError::InvalidConversion),
                    },
                },
            )
        },
        PlainInstr::TruncSat(op) => Some(
            match spec_pop_typed(f.stack, spec_trunc_source(op)) {
                Err(e) => Err(e),
                Ok((v, s)) => Ok(f.next(s.push(spec_trunc_sat_value(op, v)))),
            },
        ),
        PlainInstr::FRel(w, op) => Some(
            match spec_pop_typed(f.stack, spec_float_type(w)) {
                Err(e) => Err(e),
                Ok((b, s1)) => match spec_pop_typed(s1, spec_float_type(w)) {
                    Err(e) => Err(e),
                    Ok((a, s2)) => Ok(
                        f.next(
                            s2.push(
                                Value::I32(
                                    match spec_frel_value(op, a, b) {
                                        Some(r) => r,
                                        None => 0,
                                    },
                                ),
                            ),
                        ),
                    ),
                },
            },
        ),
        PlainInstr::FUn(w, op) => if spec_fun(op, Value::F32(0)) is None {
            None
        } else {
            Some(
                match spec_pop_typed(f.stack, spec_float_type(w)) {
                    Err(e) => Err(e),
                    Ok((a, s)) => Ok(f.next(s.push(spec_fun(op, a)->Some_0))),
                },
            )
        },
        PlainInstr::FBin(w, op) => if spec_fbin(op, Value::F32(0), Value::F32(0)) is None {
            None
        } else {
            Some(
                match spec_pop_typed(f.stack, spec_float_type(w)) {
                    Err(e) => Err(e),
                    Ok((b, s1)) => match spec_pop_typed(s1, spec_float_type(w)) {
                        Err(e) => Err(e),
                        Ok((a, s2)) => Ok(f.next(s2.push(spec_fbin(op, a, b)->Some_0))),
                    },
                },
            )
        },
        _ => None,
    }
}

/// Executes an instruction that decides on the bit pattern of a
/// floating-point number. Returns `false`, with the frame as it was, for any
/// other instruction.
pub fn exec_bits(ins: PlainInstr, f: &mut Frame) -> (r: Result<bool, RuntimeError>)
    requires
        old(f).pc < usize::MAX,
    ensures
        match spec_bits(ins, old(f)@) {
            None => r == Ok::<bool, RuntimeError>(false) && final(f)@ == old(f)@,
            Some(Ok(g)) => r == Ok::<bool, RuntimeError>(true) && final(f)@ == g,
            Some(Err(e)) => r == Err::<bool, RuntimeError>(e),
        },
{
    match ins {
        PlainInstr::Cvt(op) => {
            if trunc_target(op).is_none() {
                return Ok(false);
            }
            let v = f.pop_typed(cvt_source(op))?;
            match trunc_value(op, v) {
                Some(r) => {
                    f.push(r?);
                },
                None => {
                    return Err(RuntimeError::InvalidConversion);
                },
            }
        },
        PlainInstr::TruncSat(op) => {
            let v = f.pop_typed(trunc_source(op))?;
            f.push(trunc_sat_value(op, v));
        },
        PlainInstr::FRel(w, op) => {
            let b = f.pop_typed(float_type(w))?;
            let a = f.pop_typed(float_type(w))?;
            let r = match frel_value(op, a, b) {
                Some(r) => r,
                None => 0,
            };
            f.push(Value::I32(r));
        },
        PlainInstr::FUn(w, op) => {
            if fun(op, Value::F32(0)).is_none() {
                return Ok(false);
            }
            let a = f.pop_typed(float_type(w))?;
            match fun(op, a) {
                Some(r) => {
                    f.push(r);
                },
                None => {},
            }
        },
        PlainInstr::FBin(w, op) => {
            if fbin(op, Value::F32(0), Value::F32(0)).is_none() {
                return Ok(false);
            }
            let b = f.pop_typed(float_type(w))?;
            let a = f.pop_typed(float_type(w))?;
            match fbin(op, a, b) {
                Some(r) => {
                    f.push(r);
                },
                None => {},
            }
        },
        _ => {
            return Ok(false);
        },
    }
    f.pc = f.pc + 1;
    Ok(true)
}

} // verus!
