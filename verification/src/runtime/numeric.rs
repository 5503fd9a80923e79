use vstd::prelude::*;
use vstd::std_specs::bits::{u32_leading_zeros, u32_trailing_zeros, u64_leading_zeros, u64_trailing_zeros};
use vstd::wrapping::{i32_specs, i64_specs, u32_specs, u64_specs};
use crate::parser::ops::{CvtOp, IBinOp, IRelOp, IUnOp};
use crate::parser::valtype::ValType;
use super::error::RuntimeError;
use super::value::Value;

verus! {

/// The quotient of `a` by `b` rounded toward zero.
pub open spec fn trunc_div(a: int, b: int) -> int {
    let q = (if a >= 0 { a } else { -a }) / (if b >= 0 { b } else { -b });
    if (a >= 0) == (b >= 0) {
        q
    } else {
        -q
    }
}

/// The remainder of `a` by `b` with the sign of `a`.
pub open spec fn trunc_rem(a: int, b: int) -> int {
    let r = (if a >= 0 { a } else { -a }) % (if b >= 0 { b } else { -b });
    if a >= 0 {
        r
    } else {
        -r
    }
}

/// The bits of `x` moved left by `k` places, those that leave on the left
/// coming back on the right.
pub open spec fn spec_rotl32(x: u32, k: u32) -> u32 {
    if k % 32 == 0 {
        x
    } else {
        (x << (k % 32)) | (x >> ((32 - k % 32) as u32))
    }
}

pub open spec fn spec_rotr32(x: u32, k: u32) -> u32 {
    if k % 32 == 0 {
        x
    } else {
        (x >> (k % 32)) | (x << ((32 - k % 32) as u32))
    }
}

/// The bits of `x` moved left by `k` places, those that leave on the left
/// coming back on the right.
pub open spec fn spec_rotl64(x: u64, k: u32) -> u64 {
    if k % 64 == 0 {
        x
    } else {
        (x << (k % 64)) | (x >> ((64 - k % 64) as u32))
    }
}

pub open spec fn spec_rotr64(x: u64, k: u32) -> u64 {
    if k % 64 == 0 {
        x
    } else {
        (x >> (k % 64)) | (x << ((64 - k % 64) as u32))
    }
}

/// The number of bits of `x` that are set.
pub open spec fn popcount(x: nat) -> nat
    decreases x,
{
    if x == 0 {
        0
    } else {
        (x % 2) + popcount(x / 2)
    }
}

/// What a binary operator makes of two 32-bit operands: sums, differences
/// and products wrap around; a division by zero traps, and so does the one
/// signed division whose quotient does not fit.
pub open spec fn spec_ibin32(op: IBinOp, a: i32, b: i32) -> Result<i32, RuntimeError> {
    match op {
        IBinOp::Add => Ok(i32_specs::wrapping_add(a, b)),
        IBinOp::Sub => Ok(i32_specs::wrapping_sub(a, b)),
        IBinOp::Mul => Ok(i32_specs::wrapping_mul(a, b)),
        IBinOp::DivS => if b == 0 {
            Err(RuntimeError::DivideByZero)
        } else if a == i32::MIN && b == -1 {
            Err(RuntimeError::IntegerOverflow)
        } else {
            Ok(trunc_div(a as int, b as int) as i32)
        },
        IBinOp::DivU => if b == 0 {
            Err(RuntimeError::DivideByZero)
        } else {
            Ok(((a as u32) / (b as u32)) as i32)
        },
        IBinOp::RemS => if b == 0 {
            Err(RuntimeError::DivideByZero)
        } else {
            Ok(trunc_rem(a as int, b as int) as i32)
        },
        IBinOp::RemU => if b == 0 {
            Err(RuntimeError::DivideByZero)
        } else {
            Ok(((a as u32) % (b as u32)) as i32)
        },
        IBinOp::And => Ok(a & b),
        IBinOp::Or => Ok(a | b),
        IBinOp::Xor => Ok(a ^ b),
        IBinOp::Shl => Ok(i32_specs::wrapping_shl(a, b as u32)),
        IBinOp::ShrS => Ok(i32_specs::wrapping_shr(a, b as u32)),
        IBinOp::ShrU => Ok(u32_specs::wrapping_shr(a as u32, b as u32) as i32),
        IBinOp::Rotl => Ok(spec_rotl32(a as u32, b as u32) as i32),
        IBinOp::Rotr => Ok(spec_rotr32(a as u32, b as u32) as i32),
    }
}

/// Unless the most negative number is divided by -1, a quotient rounded
/// toward zero is no larger in size than the dividend.
pub proof fn lemma_trunc_div_fits(a: int, b: int, limit: int)
    requires
        -limit <= a < limit,
        -limit <= b < limit,
        b != 0,
        !(a == -limit && b == -1),
    ensures
        -limit <= trunc_div(a, b) < limit,
{
    let x = if a >= 0 {
        a
    } else {
        -a
    };
    let d = if b >= 0 {
        b
    } else {
        -b
    };
    vstd::arithmetic::div_mod::lemma_div_nonincreasing(x, d);
    vstd::arithmetic::div_mod::lemma_div_pos_is_pos(x, d);
    if d > 1 && x > 0 {
        vstd::arithmetic::div_mod::lemma_div_decreases(x, d);
    }
    if d == 1 {
        vstd::arithmetic::div_mod::lemma_div_basics(x);
    }
}

/// A remainder is smaller in size than the divisor.
pub proof fn lemma_trunc_rem_fits(a: int, b: int, limit: int)
    requires
        -limit <= a < limit,
        -limit <= b < limit,
        b != 0,
    ensures
        -limit < trunc_rem(a, b) < limit,
        a == -limit && b == -1 ==> trunc_rem(a, b) == 0,
        a == 0 ==> trunc_rem(a, b) == 0,
{
    let x = if a >= 0 {
        a
    } else {
        -a
    };
    let d = if b >= 0 {
        b
    } else {
        -b
    };
    vstd::arithmetic::div_mod::lemma_mod_bound(x, d);
    if a == 0 {
        vstd::arithmetic::div_mod::lemma_small_mod(0, d as nat);
    }
}

/// What a binary operator makes of two 64-bit operands: sums, differences
/// and products wrap around; a division by zero traps, and so does the one
/// signed division whose quotient does not fit.
pub open spec fn spec_ibin64(op: IBinOp, a: i64, b: i64) -> Result<i64, RuntimeError> {
    match op {
        IBinOp::Add => Ok(i64_specs::wrapping_add(a, b)),
        IBinOp::Sub => Ok(i64_specs::wrapping_sub(a, b)),
        IBinOp::Mul => Ok(i64_specs::wrapping_mul(a, b)),
        IBinOp::DivS => if b == 0 {
            Err(RuntimeError::DivideByZero)
        } else if a == i64::MIN && b == -1 {
            Err(RuntimeError::IntegerOverflow)
        } else {
            Ok(trunc_div(a as int, b as int) as i64)
        },
        IBinOp::DivU => if b == 0 {
            Err(RuntimeError::DivideByZero)
        } else {
            Ok(((a as u64) / (b as u64)) as i64)
        },
        IBinOp::RemS => if b == 0 {
            Err(RuntimeError::DivideByZero)
        } else {
            Ok(trunc_rem(a as int, b as int) as i64)
        },
        IBinOp::RemU => if b == 0 {
            Err(RuntimeError::DivideByZero)
        } else {
            Ok(((a as u64) % (b as u64)) as i64)
        },
        IBinOp::And => Ok(a & b),
        IBinOp::Or => Ok(a | b),
        IBinOp::Xor => Ok(a ^ b),
        IBinOp::Shl => Ok(i64_specs::wrapping_shl(a, b as u32)),
        IBinOp::ShrS => Ok(i64_specs::wrapping_shr(a, b as u32)),
        IBinOp::ShrU => Ok(u64_specs::wrapping_shr(a as u64, b as u32) as i64),
        IBinOp::Rotl => Ok(spec_rotl64(a as u64, b as u32) as i64),
        IBinOp::Rotr => Ok(spec_rotr64(a as u64, b as u32) as i64),
    }
}

/// An integer other than zero has a bit set, also when read as unsigned.
proof fn lemma_nonzero32(b: i32)
    by (bit_vector)
    ensures
        b != 0 ==> (b as u32) != 0,
{
}

fn rotl32(x: u32, k: u32) -> (r: u32)
    ensures
        r == spec_rotl32(x, k),
{
    let s = k % 32;
    if s == 0 {
        x
    } else {
        (x << s) | (x >> (32 - s))
    }
}

fn rotr32(x: u32, k: u32) -> (r: u32)
    ensures
        r == spec_rotr32(x, k),
{
    let s = k % 32;
    if s == 0 {
        x
    } else {
        (x >> s) | (x << (32 - s))
    }
}

/// Applies a binary operator to two 32-bit operands.
pub fn ibin32(op: IBinOp, a: i32, b: i32) -> (r: Result<i32, RuntimeError>)
    ensures
        r == spec_ibin32(op, a, b),
{
    let ua = #[verifier::truncate] (a as u32);
    let ub = #[verifier::truncate] (b as u32);
    proof {
        lemma_nonzero32(b);
    }
    let r = match op {
        IBinOp::Add => Ok(a.wrapping_add(b)),
        IBinOp::Sub => Ok(a.wrapping_sub(b)),
        IBinOp::Mul => Ok(a.wrapping_mul(b)),
        IBinOp::DivS => if b == 0 {
            Err(RuntimeError::DivideByZero)
        } else if a == i32::MIN && b == -1 {
            Err(RuntimeError::IntegerOverflow)
        } else {
            proof {
                lemma_trunc_div_fits(a as int, b as int, 0x8000_0000);
            }
            match a.checked_div(b) {
                Some(q) => Ok(q),
                None => Err(RuntimeError::IntegerOverflow),
            }
        },
        IBinOp::DivU => if b == 0 {
            Err(RuntimeError::DivideByZero)
        } else {
            Ok(#[verifier::truncate] ((ua / ub) as i32))
        },
        IBinOp::RemS => if b == 0 {
            Err(RuntimeError::DivideByZero)
        } else {
            proof {
                lemma_trunc_rem_fits(a as int, b as int, 0x8000_0000);
            }
            match a.checked_rem(b) {
                Some(q) => Ok(q),
                None => Ok(0),
            }
        },
        IBinOp::RemU => if b == 0 {
            Err(RuntimeError::DivideByZero)
        } else {
            Ok(#[verifier::truncate] ((ua % ub) as i32))
        },
        IBinOp::And => Ok(a & b),
        IBinOp::Or => Ok(a | b),
        IBinOp::Xor => Ok(a ^ b),
        IBinOp::Shl => Ok(a.wrapping_shl(ub)),
        IBinOp::ShrS => Ok(a.wrapping_shr(ub)),
        IBinOp::ShrU => Ok(#[verifier::truncate] (ua.wrapping_shr(ub) as i32)),
        IBinOp::Rotl => Ok(#[verifier::truncate] (rotl32(ua, ub) as i32)),
        IBinOp::Rotr => Ok(#[verifier::truncate] (rotr32(ua, ub) as i32)),
    };
    proof {
        let s = spec_ibin32(op, a, b);
        assert(r is Ok ==> s is Ok && r->Ok_0 == s->Ok_0);
        assert(r is Err ==> s is Err && r->Err_0 == s->Err_0);
    }
    r
}

/// An integer other than zero has a bit set, also when read as unsigned.
proof fn lemma_nonzero64(b: i64)
    by (bit_vector)
    ensures
        b != 0 ==> (b as u64) != 0,
{
}

fn rotl64(x: u64, k: u32) -> (r: u64)
    ensures
        r == spec_rotl64(x, k),
{
    let s = k % 64;
    if s == 0 {
        x
    } else {
        (x << s) | (x >> (64 - s))
    }
}

fn rotr64(x: u64, k: u32) -> (r: u64)
    ensures
        r == spec_rotr64(x, k),
{
    let s = k % 64;
    if s == 0 {
        x
    } else {
        (x >> s) | (x << (64 - s))
    }
}

/// Applies a binary operator to two 64-bit operands.
pub fn ibin64(op: IBinOp, a: i64, b: i64) -> (r: Result<i64, RuntimeError>)
    ensures
        r == spec_ibin64(op, a, b),
{
    let ua = #[verifier::truncate] (a as u64);
    let ub = #[verifier::truncate] (b as u64);
    let sh = #[verifier::truncate] (b as u32);
    proof {
        lemma_nonzero64(b);
    }
    let r = match op {
        IBinOp::Add => Ok(a.wrapping_add(b)),
        IBinOp::Sub => Ok(a.wrapping_sub(b)),
        IBinOp::Mul => Ok(a.wrapping_mul(b)),
        IBinOp::DivS => if b == 0 {
            Err(RuntimeError::DivideByZero)
        } else if a == i64::MIN && b == -1 {
            Err(RuntimeError::IntegerOverflow)
        } else {
            proof {
                lemma_trunc_div_fits(a as int, b as int, 0x8000_0000_0000_0000);
            }
            match a.checked_div(b) {
                Some(q) => Ok(q),
                None => Err(RuntimeError::IntegerOverflow),
            }
        },
        IBinOp::DivU => if b == 0 {
            Err(RuntimeError::DivideByZero)
        } else {
            Ok(#[verifier::truncate] ((ua / ub) as i64))
        },
        IBinOp::RemS => if b == 0 {
            Err(RuntimeError::DivideByZero)
        } else {
            proof {
                lemma_trunc_rem_fits(a as int, b as int, 0x8000_0000_0000_0000);
            }
            match a.checked_rem(b) {
                Some(q) => Ok(q),
                None => Ok(0),
            }
        },
        IBinOp::RemU => if b == 0 {
            Err(RuntimeError::DivideByZero)
        } else {
            Ok(#[verifier::truncate] ((ua % ub) as i64))
        },
        IBinOp::And => Ok(a & b),
        IBinOp::Or => Ok(a | b),
        IBinOp::Xor => Ok(a ^ b),
        IBinOp::Shl => Ok(a.wrapping_shl(sh)),
        IBinOp::ShrS => Ok(a.wrapping_shr(sh)),
        IBinOp::ShrU => Ok(#[verifier::truncate] (ua.wrapping_shr(sh) as i64)),
        IBinOp::Rotl => Ok(#[verifier::truncate] (rotl64(ua, sh) as i64)),
        IBinOp::Rotr => Ok(#[verifier::truncate] (rotr64(ua, sh) as i64)),
    };
    proof {
        let s = spec_ibin64(op, a, b);
        assert(r is Ok ==> s is Ok && r->Ok_0 == s->Ok_0);
        assert(r is Err ==> s is Err && r->Err_0 == s->Err_0);
    }
    r
}


/// What a comparison makes of two 32-bit operands: 1 where it holds, else 0.
pub open spec fn spec_irel32(op: IRelOp, a: i32, b: i32) -> i32 {
    let holds = match op {
        IRelOp::Eq => a == b,
        IRelOp::Ne => a != b,
        IRelOp::LtS => a < b,
        IRelOp::LtU => (a as u32) < (b as u32),
        IRelOp::GtS => a > b,
        IRelOp::GtU => (a as u32) > (b as u32),
        IRelOp::LeS => a <= b,
        IRelOp::LeU => (a as u32) <= (b as u32),
        IRelOp::GeS => a >= b,
        IRelOp::GeU => (a as u32) >= (b as u32),
    };
    if holds {
        1
    } else {
        0
    }
}

/// Applies a comparison to two 32-bit operands.
pub fn irel32(op: IRelOp, a: i32, b: i32) -> (r: i32)
    ensures
        r == spec_irel32(op, a, b),
{
    let ua = #[verifier::truncate] (a as u32);
    let ub = #[verifier::truncate] (b as u32);
    let holds = match op {
        IRelOp::Eq => a == b,
        IRelOp::Ne => a != b,
        IRelOp::LtS => a < b,
        IRelOp::LtU => ua < ub,
        IRelOp::GtS => a > b,
        IRelOp::GtU => ua > ub,
        IRelOp::LeS => a <= b,
        IRelOp::LeU => ua <= ub,
        IRelOp::GeS => a >= b,
        IRelOp::GeU => ua >= ub,
    };
    if holds {
        1
    } else {
        0
    }
}

/// What a comparison makes of two 64-bit operands: 1 where it holds, else 0.
pub open spec fn spec_irel64(op: IRelOp, a: i64, b: i64) -> i32 {
    let holds = match op {
        IRelOp::Eq => a == b,
        IRelOp::Ne => a != b,
        IRelOp::LtS => a < b,
        IRelOp::LtU => (a as u64) < (b as u64),
        IRelOp::GtS => a > b,
        IRelOp::GtU => (a as u64) > (b as u64),
        IRelOp::LeS => a <= b,
        IRelOp::LeU => (a as u64) <= (b as u64),
        IRelOp::GeS => a >= b,
        IRelOp::GeU => (a as u64) >= (b as u64),
    };
    if holds {
        1
    } else {
        0
    }
}

/// Applies a comparison to two 64-bit operands.
pub fn irel64(op: IRelOp, a: i64, b: i64) -> (r: i32)
    ensures
        r == spec_irel64(op, a, b),
{
    let ua = #[verifier::truncate] (a as u64);
    let ub = #[verifier::truncate] (b as u64);
    let holds = match op {
        IRelOp::Eq => a == b,
        IRelOp::Ne => a != b,
        IRelOp::LtS => a < b,
        IRelOp::LtU => ua < ub,
        IRelOp::GtS => a > b,
        IRelOp::GtU => ua > ub,
        IRelOp::LeS => a <= b,
        IRelOp::LeU => ua <= ub,
        IRelOp::GeS => a >= b,
        IRelOp::GeU => ua >= ub,
    };
    if holds {
        1
    } else {
        0
    }
}

/// Counts the bits of `x` that are set.
pub fn count_ones(x: u64) -> (n: u64)
    ensures
        n == popcount(x as nat),
        n <= x,
{
    let mut n: u64 = 0;
    let mut v: u64 = x;
    while v != 0
        invariant
            n + popcount(v as nat) == popcount(x as nat),
            n + v <= x,
        decreases v,
    {
        n = n + v % 2;
        v = v / 2;
    }
    n
}

/// What a unary operator makes of a 32-bit operand: the number of zero
/// bits at its upper end, at its lower end, or the number of bits set.
pub open spec fn spec_iun32(op: IUnOp, a: i32) -> i32 {
    match op {
        IUnOp::Clz => u32_leading_zeros(a as u32) as i32,
        IUnOp::Ctz => u32_trailing_zeros(a as u32) as i32,
        IUnOp::Popcnt => popcount((a as u32) as nat) as i32,
    }
}

/// Applies a unary operator to a 32-bit operand.
pub fn iun32(op: IUnOp, a: i32) -> (r: i32)
    ensures
        r == spec_iun32(op, a),
{
    let ua = #[verifier::truncate] (a as u32);
    match op {
        IUnOp::Clz => #[verifier::truncate] (ua.leading_zeros() as i32),
        IUnOp::Ctz => #[verifier::truncate] (ua.trailing_zeros() as i32),
        IUnOp::Popcnt => #[verifier::truncate] (count_ones(ua as u64) as i32),
    }
}

/// What a unary operator makes of a 64-bit operand.
pub open spec fn spec_iun64(op: IUnOp, a: i64) -> i64 {
    match op {
        IUnOp::Clz => u64_leading_zeros(a as u64) as i64,
        IUnOp::Ctz => u64_trailing_zeros(a as u64) as i64,
        IUnOp::Popcnt => popcount((a as u64) as nat) as i64,
    }
}

/// Applies a unary operator to a 64-bit operand.
pub fn iun64(op: IUnOp, a: i64) -> (r: i64)
    ensures
        r == spec_iun64(op, a),
{
    let ua = #[verifier::truncate] (a as u64);
    match op {
        IUnOp::Clz => ua.leading_zeros() as i64,
        IUnOp::Ctz => ua.trailing_zeros() as i64,
        IUnOp::Popcnt => #[verifier::truncate] (count_ones(ua) as i64),
    }
}

/// The type of the operand of a conversion.
pub open spec fn spec_cvt_source(op: CvtOp) -> ValType {
    match op {
        CvtOp::I64ExtendI32S | CvtOp::I64ExtendI32U | CvtOp::F32ConvertI32S | CvtOp::F32ConvertI32U
        | CvtOp::F64ConvertI32S | CvtOp::F64ConvertI32U | CvtOp::F32ReinterpretI32
        | CvtOp::I32Extend8S | CvtOp::I32Extend16S => ValType::I32,
        CvtOp::I32WrapI64 | CvtOp::F32ConvertI64S | CvtOp::F32ConvertI64U | CvtOp::F64ConvertI64S
        | CvtOp::F64ConvertI64U | CvtOp::F64ReinterpretI64 | CvtOp::I64Extend8S
        | CvtOp::I64Extend16S | CvtOp::I64Extend32S => ValType::I64,
        CvtOp::I32TruncF32S | CvtOp::I32TruncF32U | CvtOp::I64TruncF32S | CvtOp::I64TruncF32U
        | CvtOp::F64PromoteF32 | CvtOp::I32ReinterpretF32 => ValType::F32,
        CvtOp::I32TruncF64S | CvtOp::I32TruncF64U | CvtOp::I64TruncF64S | CvtOp::I64TruncF64U
        | CvtOp::F32DemoteF64 | CvtOp::I64ReinterpretF64 => ValType::F64,
    }
}

/// The type of the operand of a conversion.
pub fn cvt_source(op: CvtOp) -> (t: ValType)
    ensures
        t == spec_cvt_source(op),
{
    match op {
        CvtOp::I64ExtendI32S | CvtOp::I64ExtendI32U | CvtOp::F32ConvertI32S | CvtOp::F32ConvertI32U
        | CvtOp::F64ConvertI32S | CvtOp::F64ConvertI32U | CvtOp::F32ReinterpretI32
        | CvtOp::I32Extend8S | CvtOp::I32Extend16S => ValType::I32,
        CvtOp::I32WrapI64 | CvtOp::F32ConvertI64S | CvtOp::F32ConvertI64U | CvtOp::F64ConvertI64S
        | CvtOp::F64ConvertI64U | CvtOp::F64ReinterpretI64 | CvtOp::I64Extend8S
        | CvtOp::I64Extend16S | CvtOp::I64Extend32S => ValType::I64,
        CvtOp::I32TruncF32S | CvtOp::I32TruncF32U | CvtOp::I64TruncF32S | CvtOp::I64TruncF32U
        | CvtOp::F64PromoteF32 | CvtOp::I32ReinterpretF32 => ValType::F32,
        CvtOp::I32TruncF64S | CvtOp::I32TruncF64U | CvtOp::I64TruncF64S | CvtOp::I64TruncF64U
        | CvtOp::F32DemoteF64 | CvtOp::I64ReinterpretF64 => ValType::F64,
    }
}

/// What a conversion between integers makes of its operand: the lower bits,
/// the same number in more bits, or the lower bits with their sign spread
/// over the rest. A reinterpretation keeps the bits. `None` for an operand of
/// another type, and for the conversions that compute with floating-point
/// numbers.
pub open spec fn spec_convert(op: CvtOp, v: Value) -> Option<Value> {
    match (op, v) {
        (CvtOp::I32WrapI64, Value::I64(x)) => Some(Value::I32(x as i32)),
        (CvtOp::I64ExtendI32S, Value::I32(x)) => Some(Value::I64(x as i64)),
        (CvtOp::I64ExtendI32U, Value::I32(x)) => Some(Value::I64((x as u32) as i64)),
        (CvtOp::I32ReinterpretF32, Value::F32(b)) => Some(Value::I32(b as i32)),
        (CvtOp::I64ReinterpretF64, Value::F64(b)) => Some(Value::I64(b as i64)),
        (CvtOp::F32ReinterpretI32, Value::I32(x)) => Some(Value::F32(x as u32)),
        (CvtOp::F64ReinterpretI64, Value::I64(x)) => Some(Value::F64(x as u64)),
        (CvtOp::I32Extend8S, Value::I32(x)) => Some(Value::I32((x as i8) as i32)),
        (CvtOp::I32Extend16S, Value::I32(x)) => Some(Value::I32((x as i16) as i32)),
        (CvtOp::I64Extend8S, Value::I64(x)) => Some(Value::I64((x as i8) as i64)),
        (CvtOp::I64Extend16S, Value::I64(x)) => Some(Value::I64((x as i16) as i64)),
        (CvtOp::I64Extend32S, Value::I64(x)) => Some(Value::I64((x as i32) as i64)),
        _ => None,
    }
}

/// Converts between integers.
pub fn convert(op: CvtOp, v: Value) -> (r: Option<Value>)
    ensures
        r == spec_convert(op, v),
{
    match (op, v) {
        (CvtOp::I32WrapI64, Value::I64(x)) => Some(Value::I32(#[verifier::truncate] (x as i32))),
        (CvtOp::I64ExtendI32S, Value::I32(x)) => Some(Value::I64(x as i64)),
        (CvtOp::I64ExtendI32U, Value::I32(x)) => Some(
            Value::I64((#[verifier::truncate] (x as u32)) as i64),
        ),
        (CvtOp::I32ReinterpretF32, Value::F32(b)) => Some(
            Value::I32(#[verifier::truncate] (b as i32)),
        ),
        (CvtOp::I64ReinterpretF64, Value::F64(b)) => Some(
            Value::I64(#[verifier::truncate] (b as i64)),
        ),
        (CvtOp::F32ReinterpretI32, Value::I32(x)) => Some(
            Value::F32(#[verifier::truncate] (x as u32)),
        ),
        (CvtOp::F64ReinterpretI64, Value::I64(x)) => Some(
            Value::F64(#[verifier::truncate] (x as u64)),
        ),
        (CvtOp::I32Extend8S, Value::I32(x)) => Some(
            Value::I32((#[verifier::truncate] (x as i8)) as i32),
        ),
        (CvtOp::I32Extend16S, Value::I32(x)) => Some(
            Value::I32((#[verifier::truncate] (x as i16)) as i32),
        ),
        (CvtOp::I64Extend8S, Value::I64(x)) => Some(
            Value::I64((#[verifier::truncate] (x as i8)) as i64),
        ),
        (CvtOp::I64Extend16S, Value::I64(x)) => Some(
            Value::I64((#[verifier::truncate] (x as i16)) as i64),
        ),
        (CvtOp::I64Extend32S, Value::I64(x)) => Some(
            Value::I64((#[verifier::truncate] (x as i32)) as i64),
        ),
        _ => None,
    }
}

} // verus!
