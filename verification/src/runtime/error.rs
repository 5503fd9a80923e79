use vstd::prelude::*;

verus! {

/// The index spaces of a module.
#[derive(Debug, Clone, Copy, PartialEq, Eq, Structural)]
pub enum IndexSpace {
    Type,
    Func,
    Table,
    Memory,
    Global,
    Local,
    Label,
    Data,
}

/// Why an invocation ended without a result, or could not go on.
#[derive(Debug, Clone, Copy, PartialEq, Eq)]
pub enum RuntimeError {
    /// An operand was wanted and the value stack holds none above the
    /// base of the current block.
    StackUnderflow,
    /// An operand of one type was wanted and one of another type was found:
    /// the type wanted, then the type found.
    TypeMismatch(&'static str, &'static str),
    /// `unreachable` was executed.
    UnreachableExecuted,
    /// An integer division or remainder by zero.
    DivideByZero,
    /// A signed division whose quotient does not fit, or a truncation of a
    /// number that does not fit.
    IntegerOverflow,
    /// A truncation of something that is no number.
    InvalidConversion,
    /// A memory access that reaches beyond the memory.
    OutOfBoundsMemoryAccess,
    /// A table access beyond the table.
    UndefinedElement,
    /// An indirect call through a table slot that holds no function.
    UninitializedElement,
    /// An indirect call of a function whose type is not the one declared.
    IndirectCallTypeMismatch,
    /// A call of an import that the host does not provide.
    UnknownHostFunction,
    /// An index that names nothing in its index space.
    UnknownIndex(IndexSpace, u32),
    /// An initializer that is no constant expression, or not of the type
    /// that its place asks for.
    InvalidInitializer,
    /// An import that is no function: the host has nothing to offer for it.
    UnsupportedImport,
    /// A module whose sections do not fit together: the numbers of function
    /// types and of function bodies differ, or there is more than one memory,
    /// or the memory is larger than a memory can be.
    MalformedModule,
    /// There is no frame to execute: the invocation is over.
    NoFrame,
}

} // verus!
