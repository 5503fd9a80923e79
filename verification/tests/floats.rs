use wasm_interp::parser::{CvtOp, FBinOp, FRelOp, FUnOp, TruncSatOp};
use wasm_interp::runtime::floats::{fbin, frel_value, fun, trunc_sat_value, trunc_value};
use wasm_interp::runtime::{RuntimeError, Value};

fn singles() -> Vec<f32> {
    let mut v = vec![
        0.0, -0.0, 0.5, -0.5, 0.99999994, 1.0, -1.0, 1.5, -1.5, 2.5, 7.9, -7.9, 8388608.0,
        16777216.0, 16777217.0, 2147483520.0, 2147483648.0, -2147483648.0, -2147483904.0,
        4294967040.0, 4294967296.0, 9223371487098961920.0, 9223372036854775808.0,
        -9223372036854775808.0, -9223373136366403584.0, 18446742974197923840.0,
        18446744073709551616.0, 1e38, -1e38, f32::MAX, f32::MIN, f32::MIN_POSITIVE,
        f32::from_bits(1), f32::from_bits(0x8000_0001), f32::INFINITY, f32::NEG_INFINITY,
        f32::NAN, -f32::NAN, f32::from_bits(0x7F80_0001), f32::from_bits(0xFFFF_FFFF),
    ];
    for k in 0..40 {
        v.push(f32::from_bits(0x3F80_0000u32.wrapping_add(k * 0x0123_4567)));
    }
    v
}

fn doubles() -> Vec<f64> {
    let mut v = vec![
        0.0, -0.0, 0.5, -0.5, 0.9999999999999999, 1.0, -1.0, 1.5, -1.5, 4503599627370496.0,
        9007199254740992.0, 2147483647.0, 2147483647.9, 2147483648.0, -2147483648.0,
        -2147483648.9, -2147483649.0, 4294967295.0, 4294967295.9, 4294967296.0, -0.9, -1.0,
        9223372036854774784.0, 9223372036854775808.0, -9223372036854775808.0,
        -9223372036854777856.0, 18446744073709549568.0, 18446744073709551616.0, 1e300, -1e300,
        f64::MAX, f64::MIN, f64::MIN_POSITIVE, f64::from_bits(1), f64::INFINITY,
        f64::NEG_INFINITY, f64::NAN, -f64::NAN, f64::from_bits(0x7FF0_0000_0000_0001),
    ];
    for k in 0..40u64 {
        v.push(f64::from_bits(0x3FF0_0000_0000_0000u64.wrapping_add(k * 0x0123_4567_89AB_CDEF)));
    }
    v
}

fn v32(x: f32) -> Value {
    Value::F32(x.to_bits())
}

fn v64(x: f64) -> Value {
    Value::F64(x.to_bits())
}

#[test]
fn saturating_truncations_of_singles() {
    for x in singles() {
        assert_eq!(trunc_sat_value(TruncSatOp::I32F32S, v32(x)), Value::I32(x as i32), "{x}");
        assert_eq!(trunc_sat_value(TruncSatOp::I32F32U, v32(x)), Value::I32(x as u32 as i32), "{x}");
        assert_eq!(trunc_sat_value(TruncSatOp::I64F32S, v32(x)), Value::I64(x as i64), "{x}");
        assert_eq!(trunc_sat_value(TruncSatOp::I64F32U, v32(x)), Value::I64(x as u64 as i64), "{x}");
    }
}

#[test]
fn saturating_truncations_of_doubles() {
    for x in doubles() {
        assert_eq!(trunc_sat_value(TruncSatOp::I32F64S, v64(x)), Value::I32(x as i32), "{x}");
        assert_eq!(trunc_sat_value(TruncSatOp::I32F64U, v64(x)), Value::I32(x as u32 as i32), "{x}");
        assert_eq!(trunc_sat_value(TruncSatOp::I64F64S, v64(x)), Value::I64(x as i64), "{x}");
        assert_eq!(trunc_sat_value(TruncSatOp::I64F64U, v64(x)), Value::I64(x as u64 as i64), "{x}");
    }
}

#[test]
fn saturation_at_the_ends() {
    let sat = |op, x: f32| trunc_sat_value(op, v32(x));
    assert_eq!(sat(TruncSatOp::I32F32S, f32::NAN), Value::I32(0));
    assert_eq!(sat(TruncSatOp::I32F32S, f32::INFINITY), Value::I32(i32::MAX));
    assert_eq!(sat(TruncSatOp::I32F32S, f32::NEG_INFINITY), Value::I32(i32::MIN));
    assert_eq!(sat(TruncSatOp::I32F32S, 1e10), Value::I32(i32::MAX));
    assert_eq!(sat(TruncSatOp::I32F32S, -1e10), Value::I32(i32::MIN));
    assert_eq!(sat(TruncSatOp::I32F32U, -5.0), Value::I32(0));
    assert_eq!(sat(TruncSatOp::I32F32U, 1e10), Value::I32(-1));
    assert_eq!(sat(TruncSatOp::I64F32S, 1e30), Value::I64(i64::MAX));
    assert_eq!(sat(TruncSatOp::I64F32S, -1e30), Value::I64(i64::MIN));
    assert_eq!(sat(TruncSatOp::I64F32U, 1e30), Value::I64(-1));
    assert_eq!(sat(TruncSatOp::I64F32U, f32::NAN), Value::I64(0));
    assert_eq!(sat(TruncSatOp::I32F32S, -7.9), Value::I32(-7));
}

/// What a trapping truncation owes for a number whose whole part, as a double, is `t`.
fn owed(nan: bool, t: f64, lo: f64, hi: f64, held: Value) -> Option<Result<Value, RuntimeError>> {
    Some(if nan {
        Err(RuntimeError::InvalidConversion)
    } else if t >= lo && t < hi {
        Ok(held)
    } else {
        Err(RuntimeError::IntegerOverflow)
    })
}

const TWO_31: f64 = 2147483648.0;
const TWO_32: f64 = 4294967296.0;
const TWO_63: f64 = 9223372036854775808.0;
const TWO_64: f64 = 18446744073709551616.0;

#[test]
fn trapping_truncations_of_singles() {
    for x in singles() {
        let t = (x as f64).trunc();
        let n = x.is_nan();
        assert_eq!(trunc_value(CvtOp::I32TruncF32S, v32(x)), owed(n, t, -TWO_31, TWO_31, Value::I32(x as i32)), "{x}");
        assert_eq!(trunc_value(CvtOp::I32TruncF32U, v32(x)), owed(n, t, 0.0, TWO_32, Value::I32(x as u32 as i32)), "{x}");
        assert_eq!(trunc_value(CvtOp::I64TruncF32S, v32(x)), owed(n, t, -TWO_63, TWO_63, Value::I64(x as i64)), "{x}");
        assert_eq!(trunc_value(CvtOp::I64TruncF32U, v32(x)), owed(n, t, 0.0, TWO_64, Value::I64(x as u64 as i64)), "{x}");
    }
}

#[test]
fn trapping_truncations_of_doubles() {
    for x in doubles() {
        let t = x.trunc();
        let n = x.is_nan();
        assert_eq!(trunc_value(CvtOp::I32TruncF64S, v64(x)), owed(n, t, -TWO_31, TWO_31, Value::I32(x as i32)), "{x}");
        assert_eq!(trunc_value(CvtOp::I32TruncF64U, v64(x)), owed(n, t, 0.0, TWO_32, Value::I32(x as u32 as i32)), "{x}");
        assert_eq!(trunc_value(CvtOp::I64TruncF64S, v64(x)), owed(n, t, -TWO_63, TWO_63, Value::I64(x as i64)), "{x}");
        assert_eq!(trunc_value(CvtOp::I64TruncF64U, v64(x)), owed(n, t, 0.0, TWO_64, Value::I64(x as u64 as i64)), "{x}");
    }
}

#[test]
fn truncations_at_the_ends() {
    let t = |op, x: f64| trunc_value(op, v64(x));
    assert_eq!(t(CvtOp::I32TruncF64S, f64::NAN), Some(Err(RuntimeError::InvalidConversion)));
    assert_eq!(t(CvtOp::I32TruncF64S, f64::INFINITY), Some(Err(RuntimeError::IntegerOverflow)));
    assert_eq!(t(CvtOp::I32TruncF64S, 2147483648.0), Some(Err(RuntimeError::IntegerOverflow)));
    assert_eq!(t(CvtOp::I32TruncF64S, 2147483647.9), Some(Ok(Value::I32(i32::MAX))));
    assert_eq!(t(CvtOp::I32TruncF64S, -2147483648.9), Some(Ok(Value::I32(i32::MIN))));
    assert_eq!(t(CvtOp::I32TruncF64S, -2147483649.0), Some(Err(RuntimeError::IntegerOverflow)));
    assert_eq!(t(CvtOp::I32TruncF64U, -0.9), Some(Ok(Value::I32(0))));
    assert_eq!(t(CvtOp::I32TruncF64U, -1.0), Some(Err(RuntimeError::IntegerOverflow)));
    assert_eq!(t(CvtOp::I32TruncF64U, 4294967295.9), Some(Ok(Value::I32(-1))));
    // A conversion of another kind, and an operand of another kind.
    assert_eq!(t(CvtOp::F32DemoteF64, 1.0), None);
    assert_eq!(trunc_value(CvtOp::I32TruncF64S, Value::I32(1)), None);
}

#[test]
fn comparisons_of_singles() {
    for x in singles() {
        for y in singles() {
            let c = |op| frel_value(op, v32(x), v32(y));
            assert_eq!(c(FRelOp::Eq), Some((x == y) as i32), "{x} == {y}");
            assert_eq!(c(FRelOp::Ne), Some((x != y) as i32), "{x} != {y}");
            assert_eq!(c(FRelOp::Lt), Some((x < y) as i32), "{x} < {y}");
            assert_eq!(c(FRelOp::Gt), Some((x > y) as i32), "{x} > {y}");
            assert_eq!(c(FRelOp::Le), Some((x <= y) as i32), "{x} <= {y}");
            assert_eq!(c(FRelOp::Ge), Some((x >= y) as i32), "{x} >= {y}");
        }
    }
}

#[test]
fn comparisons_of_doubles() {
    for x in doubles() {
        for y in doubles() {
            let c = |op| frel_value(op, v64(x), v64(y));
            assert_eq!(c(FRelOp::Eq), Some((x == y) as i32), "{x} == {y}");
            assert_eq!(c(FRelOp::Ne), Some((x != y) as i32), "{x} != {y}");
            assert_eq!(c(FRelOp::Lt), Some((x < y) as i32), "{x} < {y}");
            assert_eq!(c(FRelOp::Gt), Some((x > y) as i32), "{x} > {y}");
            assert_eq!(c(FRelOp::Le), Some((x <= y) as i32), "{x} <= {y}");
            assert_eq!(c(FRelOp::Ge), Some((x >= y) as i32), "{x} >= {y}");
        }
    }
    assert_eq!(frel_value(FRelOp::Eq, v64(1.0), v32(1.0)), None);
    assert_eq!(frel_value(FRelOp::Eq, Value::I32(1), v32(1.0)), None);
}

#[test]
fn a_nan_compares_only_unequal() {
    for op in [FRelOp::Eq, FRelOp::Lt, FRelOp::Gt, FRelOp::Le, FRelOp::Ge] {
        assert_eq!(frel_value(op, v32(f32::NAN), v32(1.0)), Some(0));
        assert_eq!(frel_value(op, v32(1.0), v32(f32::NAN)), Some(0));
        assert_eq!(frel_value(op, v64(f64::NAN), v64(f64::NAN)), Some(0));
    }
    assert_eq!(frel_value(FRelOp::Ne, v32(f32::NAN), v32(f32::NAN)), Some(1));
    assert_eq!(frel_value(FRelOp::Eq, v32(0.0), v32(-0.0)), Some(1));
}

#[test]
fn signs() {
    for x in singles() {
        assert_eq!(fun(FUnOp::Abs, v32(x)), Some(v32(x.abs())));
        assert_eq!(fun(FUnOp::Neg, v32(x)), Some(v32(-x)));
        for y in singles() {
            assert_eq!(fbin(FBinOp::Copysign, v32(x), v32(y)), Some(v32(x.copysign(y))));
        }
    }
    for x in doubles() {
        assert_eq!(fun(FUnOp::Abs, v64(x)), Some(v64(x.abs())));
        assert_eq!(fun(FUnOp::Neg, v64(x)), Some(v64(-x)));
        for y in doubles() {
            assert_eq!(fbin(FBinOp::Copysign, v64(x), v64(y)), Some(v64(x.copysign(y))));
        }
    }
    assert_eq!(fun(FUnOp::Sqrt, v32(4.0)), None);
    assert_eq!(fun(FUnOp::Sqrt, v64(4.0)), None);
    assert_eq!(fbin(FBinOp::Add, v32(4.0), v32(4.0)), None);
}

#[test]
fn least_and_greatest() {
    for x in doubles() {
        for y in doubles() {
            let min = fbin(FBinOp::Min, v64(x), v64(y)).unwrap();
            let max = fbin(FBinOp::Max, v64(x), v64(y)).unwrap();
            if x.is_nan() || y.is_nan() {
                assert_eq!(min, Value::F64(0x7FF8_0000_0000_0000));
                assert_eq!(max, Value::F64(0x7FF8_0000_0000_0000));
            } else if x == 0.0 && y == 0.0 {
                let negative = x.is_sign_negative() || y.is_sign_negative();
                let positive = x.is_sign_positive() || y.is_sign_positive();
                assert_eq!(min, v64(if negative { -0.0 } else { 0.0 }));
                assert_eq!(max, v64(if positive { 0.0 } else { -0.0 }));
            } else {
                assert_eq!(min, v64(x.min(y)), "min {x} {y}");
                assert_eq!(max, v64(x.max(y)), "max {x} {y}");
            }
        }
    }
    assert_eq!(fbin(FBinOp::Min, v32(1.0), v32(f32::NAN)), Some(Value::F32(0x7FC0_0000)));
    assert_eq!(fbin(FBinOp::Max, v32(-0.0), v32(0.0)), Some(v32(0.0)));
    assert_eq!(fbin(FBinOp::Min, v32(0.0), v32(-0.0)), Some(v32(-0.0)));
    assert_eq!(fbin(FBinOp::Min, v32(-3.0), v32(2.0)), Some(v32(-3.0)));
}

fn more_singles() -> Vec<f32> {
    let mut v = singles();
    for x in [
        0.25f32, 0.49999997, 0.5, 0.50000006, 0.75, 1.25, 1.5, 1.75, 2.5, 3.5, 4.5, 1023.5,
        8388607.5, 8388606.5, 4194303.5, 4194303.25, 4194303.75,
    ] {
        v.push(x);
        v.push(-x);
    }
    v
}

fn more_doubles() -> Vec<f64> {
    let mut v = doubles();
    for x in [
        0.25f64, 0.49999999999999994, 0.5, 0.5000000000000001, 0.75, 1.25, 1.5, 1.75, 2.5, 3.5,
        4.5, 1023.5, 4503599627370495.5, 4503599627370494.5, 2251799813685247.5,
        2251799813685247.25, 2251799813685247.75,
    ] {
        v.push(x);
        v.push(-x);
    }
    v
}

#[test]
fn roundings_of_singles() {
    for x in more_singles() {
        let all: [(FUnOp, f32); 4] = [
            (FUnOp::Ceil, x.ceil()),
            (FUnOp::Floor, x.floor()),
            (FUnOp::Trunc, x.trunc()),
            (FUnOp::Nearest, x.round_ties_even()),
        ];
        for (op, want) in all {
            let got = fun(op, v32(x)).unwrap();
            if x.is_nan() {
                let Value::F32(bits) = got else { panic!("{got:?}") };
                assert!(f32::from_bits(bits).is_nan());
                assert_eq!(bits, x.to_bits() | 0x0040_0000);
            } else {
                assert_eq!(got, v32(want), "{op:?} {x}");
            }
        }
    }
}

#[test]
fn roundings_of_doubles() {
    for x in more_doubles() {
        let all: [(FUnOp, f64); 4] = [
            (FUnOp::Ceil, x.ceil()),
            (FUnOp::Floor, x.floor()),
            (FUnOp::Trunc, x.trunc()),
            (FUnOp::Nearest, x.round_ties_even()),
        ];
        for (op, want) in all {
            let got = fun(op, v64(x)).unwrap();
            if x.is_nan() {
                let Value::F64(bits) = got else { panic!("{got:?}") };
                assert_eq!(bits, x.to_bits() | 0x0008_0000_0000_0000);
            } else {
                assert_eq!(got, v64(want), "{op:?} {x}");
            }
        }
    }
}

#[test]
fn roundings_keep_the_sign_of_zero() {
    assert_eq!(fun(FUnOp::Ceil, v32(-0.5)), Some(v32(-0.0)));
    assert_eq!(fun(FUnOp::Floor, v32(-0.5)), Some(v32(-1.0)));
    assert_eq!(fun(FUnOp::Floor, v32(0.5)), Some(v32(0.0)));
    assert_eq!(fun(FUnOp::Ceil, v32(0.5)), Some(v32(1.0)));
    assert_eq!(fun(FUnOp::Nearest, v32(0.5)), Some(v32(0.0)));
    assert_eq!(fun(FUnOp::Nearest, v32(1.5)), Some(v32(2.0)));
    assert_eq!(fun(FUnOp::Nearest, v32(2.5)), Some(v32(2.0)));
    assert_eq!(fun(FUnOp::Nearest, v32(-2.5)), Some(v32(-2.0)));
    assert_eq!(fun(FUnOp::Nearest, v64(-0.4)), Some(v64(-0.0)));
    assert_eq!(fun(FUnOp::Trunc, v64(-0.9)), Some(v64(-0.0)));
    assert_eq!(fun(FUnOp::Trunc, v64(f64::INFINITY)), Some(v64(f64::INFINITY)));
    assert_eq!(fun(FUnOp::Floor, Value::I32(3)), Some(Value::I32(3)));
}
