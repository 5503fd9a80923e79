use vstd::prelude::*;
use crate::parser::blocktype::BlockType;
use crate::parser::instr::BT;
use crate::parser::valtype::ValType;
use super::error::RuntimeError;
use super::value::Value;

verus! {

/// An open block: its kind, the height of the value stack below its marker,
/// its type, and the places of the marks that open and close it.
#[derive(Debug, Clone, Copy, PartialEq, Eq, Structural)]
pub struct DepthValue {
    pub bt: BT,
    pub pos: usize,
    pub vt: BlockType,
    pub start: usize,
    pub end: usize,
}

/// One call in progress.
#[derive(Debug, PartialEq)]
pub struct Frame {
    /// The function, by its index among all functions of the module.
    pub func_id: u32,
    /// The place of the next instruction in the function's row.
    pub pc: usize,
    /// The operands, the newest last, with a marker at the base of each
    /// open block.
    pub stack: Vec<Value>,
    /// The parameters, then the declared locals.
    pub locals: Vec<Value>,
    /// The open blocks, the innermost last.
    pub depth_stack: Vec<DepthValue>,
}

/// `Frame` as a mathematical value.
pub struct FrameV {
    pub func_id: u32,
    pub pc: usize,
    pub stack: Seq<Value>,
    pub locals: Seq<Value>,
    pub depth_stack: Seq<DepthValue>,
}

impl View for Frame {
    type V = FrameV;

    open spec fn view(&self) -> FrameV {
        FrameV {
            func_id: self.func_id,
            pc: self.pc,
            stack: self.stack@,
            locals: self.locals@,
            depth_stack: self.depth_stack@,
        }
    }
}

/// The type of a value; none for a marker.
pub open spec fn spec_type_of(v: Value) -> Option<ValType> {
    match v {
        Value::I32(_) => Some(ValType::I32),
        Value::I64(_) => Some(ValType::I64),
        Value::F32(_) => Some(ValType::F32),
        Value::F64(_) => Some(ValType::F64),
        Value::FuncRef(_) => Some(ValType::FuncRef),
        Value::ExternRef(_) => Some(ValType::ExternRef),
        Value::BlockMarker => None,
    }
}

/// The type of a value; none for a marker.
pub fn type_of(v: Value) -> (t: Option<ValType>)
    ensures
        t == spec_type_of(v),
{
    match v {
        Value::I32(_) => Some(ValType::I32),
        Value::I64(_) => Some(ValType::I64),
        Value::F32(_) => Some(ValType::F32),
        Value::F64(_) => Some(ValType::F64),
        Value::FuncRef(_) => Some(ValType::FuncRef),
        Value::ExternRef(_) => Some(ValType::ExternRef),
        Value::BlockMarker => None,
    }
}

/// The name of a type, as `Value::as_str` gives it for a value of the type.
pub open spec fn spec_name_of(t: ValType) -> &'static str {
    match t {
        ValType::I32 => "i32",
        ValType::I64 => "i64",
        ValType::F32 => "f32",
        ValType::F64 => "f64",
        ValType::FuncRef => "funcref",
        ValType::ExternRef => "externref",
    }
}

/// The name of a type.
pub fn name_of(t: ValType) -> (n: &'static str)
    ensures
        n == spec_name_of(t),
{
    match t {
        ValType::I32 => "i32",
        ValType::I64 => "i64",
        ValType::F32 => "f32",
        ValType::F64 => "f64",
        ValType::FuncRef => "funcref",
        ValType::ExternRef => "externref",
    }
}

/// The value that a local or a global of type `t` holds before it is set:
/// zero, or the null reference.
pub open spec fn spec_zero(t: ValType) -> Value {
    match t {
        ValType::I32 => Value::I32(0),
        ValType::I64 => Value::I64(0),
        ValType::F32 => Value::F32(0),
        ValType::F64 => Value::F64(0),
        ValType::FuncRef => Value::FuncRef(u32::MAX),
        ValType::ExternRef => Value::ExternRef(u32::MAX),
    }
}

/// The value that a local of type `t` holds before it is set.
pub fn zero(t: ValType) -> (v: Value)
    ensures
        v == spec_zero(t),
{
    match t {
        ValType::I32 => Value::I32(0),
        ValType::I64 => Value::I64(0),
        ValType::F32 => Value::F32(0),
        ValType::F64 => Value::F64(0),
        ValType::FuncRef => Value::FuncRef(u32::MAX),
        ValType::ExternRef => Value::ExternRef(u32::MAX),
    }
}

/// The newest operand and the stack without it. A marker is no operand:
/// a block cannot take what lies below its base.
pub open spec fn spec_pop(s: Seq<Value>) -> Result<(Value, Seq<Value>), RuntimeError> {
    if s.len() == 0 || s.last() == Value::BlockMarker {
        Err(RuntimeError::StackUnderflow)
    } else {
        Ok((s.last(), s.drop_last()))
    }
}

/// The newest operand, which must be of type `t`, and the stack without it.
pub open spec fn spec_pop_typed(s: Seq<Value>, t: ValType) -> Result<
    (Value, Seq<Value>),
    RuntimeError,
> {
    match spec_pop(s) {
        Err(e) => Err(e),
        Ok((v, rest)) => if spec_type_of(v) == Some(t) {
            Ok((v, rest))
        } else {
            Err(RuntimeError::TypeMismatch(spec_name_of(t), v.spec_as_str()))
        },
    }
}

/// The newest operand as a number of 32 bits, and the stack without it.
pub open spec fn spec_pop_i32(s: Seq<Value>) -> Result<(i32, Seq<Value>), RuntimeError> {
    match spec_pop_typed(s, ValType::I32) {
        Err(e) => Err(e),
        Ok((v, rest)) => Ok((v->I32_0, rest)),
    }
}

/// The newest operand as a number of 64 bits, and the stack without it.
pub open spec fn spec_pop_i64(s: Seq<Value>) -> Result<(i64, Seq<Value>), RuntimeError> {
    match spec_pop_typed(s, ValType::I64) {
        Err(e) => Err(e),
        Ok((v, rest)) => Ok((v->I64_0, rest)),
    }
}

/// No marker among the values.
pub open spec fn no_marker(s: Seq<Value>) -> bool {
    forall|i: int| 0 <= i < s.len() ==> s[i] != Value::BlockMarker
}

/// The `n` newest operands, in the order in which they were pushed, and the
/// stack without them.
pub open spec fn spec_take(s: Seq<Value>, n: nat) -> Result<
    (Seq<Value>, Seq<Value>),
    RuntimeError,
> {
    if s.len() < n || !no_marker(s.subrange(s.len() - n, s.len() as int)) {
        Err(RuntimeError::StackUnderflow)
    } else {
        Ok((s.subrange(s.len() - n, s.len() as int), s.subrange(0, s.len() - n)))
    }
}

impl FrameV {
    /// The frame with another value stack.
    pub open spec fn with_stack(self, stack: Seq<Value>) -> FrameV {
        FrameV { stack, ..self }
    }

    /// The frame at the next instruction, with another value stack.
    pub open spec fn next(self, stack: Seq<Value>) -> FrameV {
        FrameV { stack, pc: (self.pc + 1) as usize, ..self }
    }
}

impl Frame {
    /// A frame at the start of the function `func_id`.
    pub fn new(func_id: u32, locals: Vec<Value>) -> (f: Frame)
        ensures
            f@ == (FrameV {
                func_id,
                pc: 0,
                stack: Seq::empty(),
                locals: locals@,
                depth_stack: Seq::empty(),
            }),
    {
        Frame { func_id, pc: 0, stack: Vec::new(), locals, depth_stack: Vec::new() }
    }

    /// Puts a value on the stack.
    pub fn push(&mut self, v: Value)
        ensures
            final(self)@ == old(self)@.with_stack(old(self)@.stack.push(v)),
    {
        self.stack.push(v);
    }

    /// Takes the newest operand off the stack.
    pub fn pop(&mut self) -> (r: Result<Value, RuntimeError>)
        ensures
            match spec_pop(old(self)@.stack) {
                Ok((v, rest)) => r == Ok::<Value, RuntimeError>(v) && final(self)@
                    == old(self)@.with_stack(rest),
                Err(e) => r == Err::<Value, RuntimeError>(e) && final(self)@ == old(self)@,
            },
    {
        let n = self.stack.len();
        if n == 0 {
            return Err(RuntimeError::StackUnderflow);
        }
        match self.stack[n - 1] {
            Value::BlockMarker => Err(RuntimeError::StackUnderflow),
            v => {
                self.stack.pop();
                Ok(v)
            },
        }
    }

    /// Takes the newest operand off the stack, which must be of type `t`.
    pub fn pop_typed(&mut self, t: ValType) -> (r: Result<Value, RuntimeError>)
        ensures
            match spec_pop_typed(old(self)@.stack, t) {
                Ok((v, rest)) => r == Ok::<Value, RuntimeError>(v) && final(self)@
                    == old(self)@.with_stack(rest),
                Err(e) => r == Err::<Value, RuntimeError>(e),
            },
    {
        let v = self.pop()?;
        match type_of(v) {
            Some(found) => {
                if found == t {
                    return Ok(v);
                }
            },
            None => {},
        }
        Err(RuntimeError::TypeMismatch(name_of(t), v.as_str()))
    }

    /// Takes a number of 32 bits off the stack.
    pub fn pop_i32(&mut self) -> (r: Result<i32, RuntimeError>)
        ensures
            match spec_pop_i32(old(self)@.stack) {
                Ok((v, rest)) => r == Ok::<i32, RuntimeError>(v) && final(self)@
                    == old(self)@.with_stack(rest),
                Err(e) => r == Err::<i32, RuntimeError>(e),
            },
    {
        match self.pop_typed(ValType::I32)? {
            Value::I32(x) => Ok(x),
            _ => Err(RuntimeError::StackUnderflow),
        }
    }

    /// Takes a number of 64 bits off the stack.
    pub fn pop_i64(&mut self) -> (r: Result<i64, RuntimeError>)
        ensures
            match spec_pop_i64(old(self)@.stack) {
                Ok((v, rest)) => r == Ok::<i64, RuntimeError>(v) && final(self)@
                    == old(self)@.with_stack(rest),
                Err(e) => r == Err::<i64, RuntimeError>(e),
            },
    {
        match self.pop_typed(ValType::I64)? {
            Value::I64(x) => Ok(x),
            _ => Err(RuntimeError::StackUnderflow),
        }
    }

    /// Takes the `n` newest operands off the stack, keeping their order.
    pub fn take(&mut self, n: usize) -> (r: Result<Vec<Value>, RuntimeError>)
        ensures
            match spec_take(old(self)@.stack, n as nat) {
                Ok((top, rest)) => r is Ok && r->Ok_0@ == top && final(self)@
                    == old(self)@.with_stack(rest),
                Err(e) => r is Err && r->Err_0 == e && final(self)@ == old(self)@,
            },
    {
        let len = self.stack.len();
        if len < n {
            return Err(RuntimeError::StackUnderflow);
        }
        let at = len - n;
        let mut i: usize = at;
        while i < len
            invariant
                at <= i <= len,
                at == len - n,
                len == self.stack@.len(),
                *self == *old(self),
                no_marker(self.stack@.subrange(at as int, i as int)),
            decreases len - i,
        {
            match self.stack[i] {
                Value::BlockMarker => {
                    proof {
                        let s = old(self)@.stack;
                        let sub = s.subrange(s.len() - n, s.len() as int);
                        assert(sub[i - at] == Value::BlockMarker);
                        assert(!no_marker(sub));
                    }
                    return Err(RuntimeError::StackUnderflow);
                },
                _ => {},
            }
            i = i + 1;
            proof {
                let s = self.stack@.subrange(at as int, i as int);
                assert forall|j: int| 0 <= j < s.len() implies s[j] != Value::BlockMarker by {
                    if j < i - 1 - at {
                        assert(self.stack@.subrange(at as int, i - 1)[j] == s[j]);
                    }
                }
            }
        }
        let top = self.stack.split_off(at);
        Ok(top)
    }
}

} // verus!
