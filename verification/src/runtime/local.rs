use vstd::prelude::*;
use crate::parser::ops::Width;
use crate::parser::plain::PlainInstr;
use crate::parser::valtype::{RefTyp, ValType};
use super::error::{IndexSpace, RuntimeError};
use super::frame::{
    spec_pop, spec_pop_i32, spec_pop_i64, spec_pop_typed, spec_zero, zero, Frame, FrameV,
};
use super::numeric::{
    convert, cvt_source, ibin32, ibin64, irel32, irel64, iun32, iun64, spec_convert,
    spec_cvt_source, spec_ibin32, spec_ibin64, spec_irel32, spec_irel64, spec_iun32, spec_iun64,
};
use super::value::Value;

verus! {

/// The value type that a reference type is.
pub open spec fn spec_ref_type(t: RefTyp) -> ValType {
    match t {
        RefTyp::FuncRef => ValType::FuncRef,
        RefTyp::ExternRef => ValType::ExternRef,
    }
}

/// What an instruction that needs nothing but its frame makes of the frame:
/// the frame at the next instruction, or the trap. `None` for every other
/// instruction.
///
/// Operands leave the stack newest first, so the right operand of a binary
/// operator before the left one.
pub open spec fn spec_local(ins: PlainInstr, f: FrameV) -> Option<Result<FrameV, RuntimeError>> {
    match ins {
        PlainInstr::Nop => Some(Ok(f.next(f.stack))),
        PlainInstr::Unreachable => Some(Err(RuntimeError::UnreachableExecuted)),
        PlainInstr::Drop => Some(
            match spec_pop(f.stack) {
                Err(e) => Err(e),
                Ok((_, s)) => Ok(f.next(s)),
            },
        ),
        PlainInstr::Select => Some(
            match spec_pop_i32(f.stack) {
                Err(e) => Err(e),
                Ok((c, s1)) => match spec_pop(s1) {
                    Err(e) => Err(e),
                    Ok((b, s2)) => match spec_pop(s2) {
                        Err(e) => Err(e),
                        Ok((a, s3)) => Ok(
                            f.next(
                                s3.push(
                                    if c != 0 {
                                        a
                                    } else {
                                        b
                                    },
                                ),
                            ),
                        ),
                    },
                },
            },
        ),
        PlainInstr::LocalGet(i) => Some(
            if i.0 < f.locals.len() {
                Ok(f.next(f.stack.push(f.locals[i.0 as int])))
            } else {
                Err(RuntimeError::UnknownIndex(IndexSpace::Local, i.0))
            },
        ),
        PlainInstr::LocalSet(i) => Some(
            match spec_pop(f.stack) {
                Err(e) => Err(e),
                Ok((v, s)) => if i.0 < f.locals.len() {
                    Ok(FrameV { locals: f.locals.update(i.0 as int, v), ..f.next(s) })
                } else {
                    Err(RuntimeError::UnknownIndex(IndexSpace::Local, i.0))
                },
            },
        ),
        PlainInstr::LocalTee(i) => Some(
            match spec_pop(f.stack) {
                Err(e) => Err(e),
                Ok((v, s)) => if i.0 < f.locals.len() {
                    Ok(FrameV { locals: f.locals.update(i.0 as int, v), ..f.next(s.push(v)) })
                } else {
                    Err(RuntimeError::UnknownIndex(IndexSpace::Local, i.0))
                },
            },
        ),
        PlainInstr::I32Const(v) => Some(Ok(f.next(f.stack.push(Value::I32(v))))),
        PlainInstr::I64Const(v) => Some(Ok(f.next(f.stack.push(Value::I64(v))))),
        PlainInstr::F32Const(v) => Some(Ok(f.next(f.stack.push(Value::F32(v))))),
        PlainInstr::F64Const(v) => Some(Ok(f.next(f.stack.push(Value::F64(v))))),
        PlainInstr::RefNull(t) => Some(Ok(f.next(f.stack.push(spec_zero(spec_ref_type(t)))))),
        PlainInstr::RefFunc(x) => Some(Ok(f.next(f.stack.push(Value::FuncRef(x.0))))),
        PlainInstr::IEqz(Width::W32) => Some(
            match spec_pop_i32(f.stack) {
                Err(e) => Err(e),
                Ok((a, s)) => Ok(
                    f.next(
                        s.push(
                            Value::I32(
                                if a == 0 {
                                    1
                                } else {
                                    0
                                },
                            ),
                        ),
                    ),
                ),
            },
        ),
        PlainInstr::IEqz(Width::W64) => Some(
            match spec_pop_i64(f.stack) {
                Err(e) => Err(e),
                Ok((a, s)) => Ok(
                    f.next(
                        s.push(
                            Value::I32(
                                if a == 0 {
                                    1
                                } else {
                                    0
                                },
                            ),
                        ),
                    ),
                ),
            },
        ),
        PlainInstr::IRel(Width::W32, op) => Some(
            match spec_pop_i32(f.stack) {
                Err(e) => Err(e),
                Ok((b, s1)) => match spec_pop_i32(s1) {
                    Err(e) => Err(e),
                    Ok((a, s2)) => Ok(f.next(s2.push(Value::I32(spec_irel32(op, a, b))))),
                },
            },
        ),
        PlainInstr::IRel(Width::W64, op) => Some(
            match spec_pop_i64(f.stack) {
                Err(e) => Err(e),
                Ok((b, s1)) => match spec_pop_i64(s1) {
                    Err(e) => Err(e),
                    Ok((a, s2)) => Ok(f.next(s2.push(Value::I32(spec_irel64(op, a, b))))),
                },
            },
        ),
        PlainInstr::IUn(Width::W32, op) => Some(
            match spec_pop_i32(f.stack) {
                Err(e) => Err(e),
                Ok((a, s)) => Ok(f.next(s.push(Value::I32(spec_iun32(op, a))))),
            },
        ),
        PlainInstr::IUn(Width::W64, op) => Some(
            match spec_pop_i64(f.stack) {
                Err(e) => Err(e),
                Ok((a, s)) => Ok(f.next(s.push(Value::I64(spec_iun64(op, a))))),
            },
        ),
        PlainInstr::IBin(Width::W32, op) => Some(
            match spec_pop_i32(f.stack) {
                Err(e) => Err(e),
                Ok((b, s1)) => match spec_pop_i32(s1) {
                    Err(e) => Err(e),
                    Ok((a, s2)) => match spec_ibin32(op, a, b) {
                        Err(e) => Err(e),
                        Ok(v) => Ok(f.next(s2.push(Value::I32(v)))),
                    },
                },
            },
        ),
        PlainInstr::IBin(Width::W64, op) => Some(
            match spec_pop_i64(f.stack) {
                Err(e) => Err(e),
                Ok((b, s1)) => match spec_pop_i64(s1) {
                    Err(e) => Err(e),
                    Ok((a, s2)) => match spec_ibin64(op, a, b) {
                        Err(e) => Err(e),
                        Ok(v) => Ok(f.next(s2.push(Value::I64(v)))),
                    },
                },
            },
        ),
        PlainInstr::Cvt(op) => match spec_pop_typed(f.stack, spec_cvt_source(op)) {
            Err(e) => Some(Err(e)),
            Ok((v, s)) => match spec_convert(op, v) {
                Some(r) => Some(Ok(f.next(s.push(r)))),
                None => None,
            },
        },
        _ => None,
    }
}

/// Executes an instruction that needs nothing but its frame. Returns
/// `false`, with the frame as it was, for any other instruction.
pub fn exec_local(ins: PlainInstr, f: &mut Frame) -> (r: Result<bool, RuntimeError>)
    requires
        old(f).pc < usize::MAX,
    ensures
        match spec_local(ins, old(f)@) {
            None => r == Ok::<bool, RuntimeError>(false) && final(f)@ == old(f)@,
            Some(Ok(g)) => r == Ok::<bool, RuntimeError>(true) && final(f)@ == g,
            Some(Err(e)) => r == Err::<bool, RuntimeError>(e),
        },
{
    match ins {
        PlainInstr::Nop => {},
        PlainInstr::Unreachable => {
            return Err(RuntimeError::UnreachableExecuted);
        },
        PlainInstr::Drop => {
            let _ = f.pop()?;
        },
        PlainInstr::Select => {
            let c = f.pop_i32()?;
            let b = f.pop()?;
            let a = f.pop()?;
            f.push(
                if c != 0 {
                    a
                } else {
                    b
                },
            );
        },
        PlainInstr::LocalGet(i) => {
            if (i.0 as usize) < f.locals.len() {
                let v = f.locals[i.0 as usize];
                f.push(v);
            } else {
                return Err(RuntimeError::UnknownIndex(IndexSpace::Local, i.0));
            }
        },
        PlainInstr::LocalSet(i) => {
            let v = f.pop()?;
            if (i.0 as usize) < f.locals.len() {
                f.locals.set(i.0 as usize, v);
            } else {
                return Err(RuntimeError::UnknownIndex(IndexSpace::Local, i.0));
            }
        },
        PlainInstr::LocalTee(i) => {
            let v = f.pop()?;
            if (i.0 as usize) < f.locals.len() {
                f.locals.set(i.0 as usize, v);
                f.push(v);
            } else {
                return Err(RuntimeError::UnknownIndex(IndexSpace::Local, i.0));
            }
        },
        PlainInstr::I32Const(v) => {
            f.push(Value::I32(v));
        },
        PlainInstr::I64Const(v) => {
            f.push(Value::I64(v));
        },
        PlainInstr::F32Const(v) => {
            f.push(Value::F32(v));
        },
        PlainInstr::F64Const(v) => {
            f.push(Value::F64(v));
        },
        PlainInstr::RefNull(t) => {
            let v = match t {
                RefTyp::FuncRef => zero(ValType::FuncRef),
                RefTyp::ExternRef => zero(ValType::ExternRef),
            };
            f.push(v);
        },
        PlainInstr::RefFunc(x) => {
            f.push(Value::FuncRef(x.0));
        },
        PlainInstr::IEqz(Width::W32) => {
            let a = f.pop_i32()?;
            f.push(
                Value::I32(
                    if a == 0 {
                        1
                    } else {
                        0
                    },
                ),
            );
        },
        PlainInstr::IEqz(Width::W64) => {
            let a = f.pop_i64()?;
            f.push(
                Value::I32(
                    if a == 0 {
                        1
                    } else {
                        0
                    },
                ),
            );
        },
        PlainInstr::IRel(Width::W32, op) => {
            let b = f.pop_i32()?;
            let a = f.pop_i32()?;
            f.push(Value::I32(irel32(op, a, b)));
        },
        PlainInstr::IRel(Width::W64, op) => {
            let b = f.pop_i64()?;
            let a = f.pop_i64()?;
            f.push(Value::I32(irel64(op, a, b)));
        },
        PlainInstr::IUn(Width::W32, op) => {
            let a = f.pop_i32()?;
            f.push(Value::I32(iun32(op, a)));
        },
        PlainInstr::IUn(Width::W64, op) => {
            let a = f.pop_i64()?;
            f.push(Value::I64(iun64(op, a)));
        },
        PlainInstr::IBin(Width::W32, op) => {
            let b = f.pop_i32()?;
            let a = f.pop_i32()?;
            f.push(Value::I32(ibin32(op, a, b)?));
        },
        PlainInstr::IBin(Width::W64, op) => {
            let b = f.pop_i64()?;
            let a = f.pop_i64()?;
            f.push(Value::I64(ibin64(op, a, b)?));
        },
        PlainInstr::Cvt(op) => {
            let ghost before = f@;
            let v = f.pop_typed(cvt_source(op))?;
            match convert(op, v) {
                Some(r) => {
                    f.push(r);
                },
                None => {
                    f.push(v);
                    proof {
                        assert(f@.stack =~= before.stack);
                    }
                    return Ok(false);
                },
            }
        },
        _ => {
            return Ok(false);
        },
    }
    f.pc = f.pc + 1;
    Ok(true)
}

} // verus!
