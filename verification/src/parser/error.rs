use vstd::prelude::*;

verus! {

/// The place in the format at which a byte outside the allowed set was read.
#[derive(Debug, Clone, Copy, PartialEq, Eq, Structural)]
pub enum ByteContext {
    NumType,
    RefType,
    ValType,
    Limits,
    Mutability,
    ImportDesc,
    ExportDesc,
    ElementKind,
    DataMode,
    ConstExpr,
    MemoryIndex,
    BlockType,
}

/// Why a byte stream is not a module this decoder accepts.
#[derive(Debug, Clone, Copy, PartialEq, Eq, Structural)]
pub enum ParseError {
    /// A read went past the end of the input.
    UnexpectedEof,
    /// A byte that the format does not allow at this place.
    InvalidByte(ByteContext, u8),
    /// A variable-length integer wider than its declared type.
    Leb128Overflow,
    /// A name that is not valid UTF-8.
    Utf8Error,
    /// A memory access whose alignment exceeds the natural width.
    AlignmentError,
    /// An opcode byte that stands for no instruction.
    UnknownOpcode(u8),
    /// A sub-opcode after the prefix `0xFC` that stands for no instruction.
    UnknownOpcode0xFC(u32),
    /// The first four bytes are not `\0asm`.
    InvalidHeader,
    /// The version field is not `01 00 00 00`.
    InvalidVersion,
    /// A function type that does not begin with `0x60`.
    InvalidFuncType(u8),
    /// A nonzero byte where the reserved memory index of `memory.size` or
    /// `memory.grow` must stand.
    Unknown0x40(u8),
    /// A section tag outside the known range.
    UnknownSection(u8),
    /// A section this decoder knows of and does not implement.
    UnimplementedSection(u8),
    /// The byte sizes of the sections of one kind add up to more than a `u32`.
    SectionTooLarge(u8),
    /// The content of a section does not fill its declared byte size exactly.
    SectionSizeMismatch(u8),
    /// The terminator `end` was read where an instruction was expected.
    EndOfInstructions,
    /// The separator `else` was read where an instruction was expected.
    ElseHit,
}

} // verus!
