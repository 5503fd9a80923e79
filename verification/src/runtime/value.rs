use vstd::prelude::*;

verus! {

/// A value on the stack, in a local, in a global or in a table. A
/// floating-point number is held as its bit pattern.
#[derive(Debug, Clone, Copy, PartialEq, Eq, Structural)]
pub enum Value {
    I32(i32),
    I64(i64),
    F32(u32),
    F64(u64),
    FuncRef(u32),
    ExternRef(u32),
    /// Marks the base of a block on the value stack.
    BlockMarker,
}

impl Value {
    /// The name of the value's type.
    pub open spec fn spec_as_str(&self) -> &'static str {
        match self {
            Value::I32(_) => "i32",
            Value::I64(_) => "i64",
            Value::F32(_) => "f32",
            Value::F64(_) => "f64",
            Value::ExternRef(_) => "externref",
            Value::FuncRef(_) => "funcref",
            Value::BlockMarker => "BlockLock",
        }
    }

    /// The name of the value's type.
    pub fn as_str(&self) -> (s: &'static str)
        ensures
            s == self.spec_as_str(),
    {
        match self {
            Value::I32(_) => "i32",
            Value::I64(_) => "i64",
            Value::F32(_) => "f32",
            Value::F64(_) => "f64",
            Value::ExternRef(_) => "externref",
            Value::FuncRef(_) => "funcref",
            Value::BlockMarker => "BlockLock",
        }
    }
}

} // verus!
