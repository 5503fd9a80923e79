use vstd::prelude::*;
use super::cursor::Cursor;
use super::error::{ByteContext, ParseError};
use super::parsable::{Decoded, Parsable};

verus! {

/// The type of a value on the stack, in a local or in a global.
#[derive(Debug, Clone, Copy, PartialEq, Eq, Structural)]
pub enum ValType {
    I32,
    I64,
    F32,
    F64,
    FuncRef,
    ExternRef,
}

impl DeepView for ValType {
    type V = ValType;

    open spec fn deep_view(&self) -> ValType {
        *self
    }
}

impl ValType {
    /// The byte that stands for this value in the binary format.
    pub open spec fn tag(self) -> u8 {
        match self {
            ValType::I32 => 0x7F,
            ValType::I64 => 0x7E,
            ValType::F32 => 0x7D,
            ValType::F64 => 0x7C,
            ValType::FuncRef => 0x70,
            ValType::ExternRef => 0x6F,
        }
    }
}

impl ValType {
    /// The value type that the byte `b` stands for, if any.
    pub open spec fn spec_from_byte(b: u8) -> Option<ValType> {
        match ValType::spec_parse(seq![b]) {
            Ok((t, _)) => Some(t),
            Err(_) => None,
        }
    }

    /// The value type that the byte `b` stands for, if any.
    pub fn from_byte(b: u8) -> (r: Option<ValType>)
        ensures
            r == Self::spec_from_byte(b),
    {
        assert(seq![b][0] == b);
        match b {
            0x7F => Some(ValType::I32),
            0x7E => Some(ValType::I64),
            0x7D => Some(ValType::F32),
            0x7C => Some(ValType::F64),
            0x70 => Some(ValType::FuncRef),
            0x6F => Some(ValType::ExternRef),
            _ => None,
        }
    }
}

impl Parsable for ValType {
    open spec fn spec_parse(s: Seq<u8>) -> Decoded<ValType> {
        if s.len() == 0 {
            Err(ParseError::UnexpectedEof)
        } else {
            match s[0] {
                0x7F => Ok((ValType::I32, 1)),
                0x7E => Ok((ValType::I64, 1)),
                0x7D => Ok((ValType::F32, 1)),
                0x7C => Ok((ValType::F64, 1)),
                0x70 => Ok((ValType::FuncRef, 1)),
                0x6F => Ok((ValType::ExternRef, 1)),
                b => Err(ParseError::InvalidByte(ByteContext::ValType, b)),
            }
        }
    }

    open spec fn spec_name() -> &'static str {
        "ValType"
    }

    open spec fn spec_trail(s: Seq<u8>) -> Seq<&'static str> {
        Seq::empty()
    }

    fn name() -> (n: &'static str) {
        "ValType"
    }

    fn parse_inner(data: &mut Cursor<'_>, stack: &mut Vec<&'static str>) -> (r: Result<
        Self,
        ParseError,
    >) {
        let b = data.read_u8()?;
        match b {
            0x7F => Ok(ValType::I32),
            0x7E => Ok(ValType::I64),
            0x7D => Ok(ValType::F32),
            0x7C => Ok(ValType::F64),
            0x70 => Ok(ValType::FuncRef),
            0x6F => Ok(ValType::ExternRef),
            _ => Err(ParseError::InvalidByte(ByteContext::ValType, b)),
        }
    }
}

/// The type of a reference, as a table holds it.
#[derive(Debug, Clone, Copy, PartialEq, Eq, Structural)]
pub enum RefTyp {
    FuncRef,
    ExternRef,
}

impl DeepView for RefTyp {
    type V = RefTyp;

    open spec fn deep_view(&self) -> RefTyp {
        *self
    }
}

impl RefTyp {
    /// The byte that stands for this value in the binary format.
    pub open spec fn tag(self) -> u8 {
        match self {
            RefTyp::FuncRef => 0x70,
            RefTyp::ExternRef => 0x6F,
        }
    }
}

impl Parsable for RefTyp {
    open spec fn spec_parse(s: Seq<u8>) -> Decoded<RefTyp> {
        if s.len() == 0 {
            Err(ParseError::UnexpectedEof)
        } else {
            match s[0] {
                0x70 => Ok((RefTyp::FuncRef, 1)),
                0x6F => Ok((RefTyp::ExternRef, 1)),
                b => Err(ParseError::InvalidByte(ByteContext::RefType, b)),
            }
        }
    }

    open spec fn spec_name() -> &'static str {
        "RefTyp"
    }

    open spec fn spec_trail(s: Seq<u8>) -> Seq<&'static str> {
        Seq::empty()
    }

    fn name() -> (n: &'static str) {
        "RefTyp"
    }

    fn parse_inner(data: &mut Cursor<'_>, stack: &mut Vec<&'static str>) -> (r: Result<
        Self,
        ParseError,
    >) {
        let b = data.read_u8()?;
        match b {
            0x70 => Ok(RefTyp::FuncRef),
            0x6F => Ok(RefTyp::ExternRef),
            _ => Err(ParseError::InvalidByte(ByteContext::RefType, b)),
        }
    }
}

/// Whether a global can be written.
#[derive(Debug, Clone, Copy, PartialEq, Eq, Structural)]
pub enum Mut {
    Const,
    Var,
}

impl DeepView for Mut {
    type V = Mut;

    open spec fn deep_view(&self) -> Mut {
        *self
    }
}

impl Mut {
    /// The byte that stands for this value in the binary format.
    pub open spec fn tag(self) -> u8 {
        match self {
            Mut::Const => 0x00,
            Mut::Var => 0x01,
        }
    }
}

impl Parsable for Mut {
    open spec fn spec_parse(s: Seq<u8>) -> Decoded<Mut> {
        if s.len() == 0 {
            Err(ParseError::UnexpectedEof)
        } else {
            match s[0] {
                0x00 => Ok((Mut::Const, 1)),
                0x01 => Ok((Mut::Var, 1)),
                b => Err(ParseError::InvalidByte(ByteContext::Mutability, b)),
            }
        }
    }

    open spec fn spec_name() -> &'static str {
        "Mut"
    }

    open spec fn spec_trail(s: Seq<u8>) -> Seq<&'static str> {
        Seq::empty()
    }

    fn name() -> (n: &'static str) {
        "Mut"
    }

    fn parse_inner(data: &mut Cursor<'_>, stack: &mut Vec<&'static str>) -> (r: Result<
        Self,
        ParseError,
    >) {
        let b = data.read_u8()?;
        match b {
            0x00 => Ok(Mut::Const),
            0x01 => Ok(Mut::Var),
            _ => Err(ParseError::InvalidByte(ByteContext::Mutability, b)),
        }
    }
}

} // verus!
