use vstd::prelude::*;
use super::cursor::Cursor;
use super::error::{ByteContext, ParseError};
use super::parsable::{Decoded, Parsable};
use super::valtype::ValType;
use super::varint::{read_s33, spec_s33};

verus! {

/// What a block takes from the stack and leaves on it.
#[derive(Debug, Clone, Copy, PartialEq, Eq, Structural)]
pub enum BlockType {
    /// Takes nothing and leaves nothing.
    Empty,
    /// Takes nothing and leaves one value.
    Single(ValType),
    /// Takes and leaves what the function type with this index says.
    TypeIndex(u32),
}

impl DeepView for BlockType {
    type V = BlockType;

    open spec fn deep_view(&self) -> BlockType {
        *self
    }
}

impl Parsable for BlockType {
    open spec fn spec_parse(s: Seq<u8>) -> Decoded<BlockType> {
        if s.len() == 0 {
            Err(ParseError::UnexpectedEof)
        } else if s[0] == 0x40 {
            Ok((BlockType::Empty, 1))
        } else if ValType::spec_from_byte(s[0]) is Some {
            Ok((BlockType::Single(ValType::spec_from_byte(s[0])->Some_0), 1))
        } else {
            match spec_s33(s) {
                Err(e) => Err(e),
                Ok((v, n)) => if v < 0 {
                    Err(ParseError::InvalidByte(ByteContext::BlockType, s[0]))
                } else {
                    Ok((BlockType::TypeIndex(v as u32), n))
                },
            }
        }
    }

    open spec fn spec_name() -> &'static str {
        "BlockType"
    }

    open spec fn spec_trail(s: Seq<u8>) -> Seq<&'static str> {
        Seq::empty()
    }

    fn name() -> (n: &'static str) {
        "BlockType"
    }

    fn parse_inner(data: &mut Cursor<'_>, stack: &mut Vec<&'static str>) -> (r: Result<
        Self,
        ParseError,
    >) {
        if data.is_empty() {
            return Err(ParseError::UnexpectedEof);
        }
        let first = data.data[data.pos];
        if first == 0x40 {
            data.pos = data.pos + 1;
            return Ok(BlockType::Empty);
        }
        match ValType::from_byte(first) {
            Some(t) => {
                data.pos = data.pos + 1;
                return Ok(BlockType::Single(t));
            },
            None => {},
        }
        let v = read_s33(data)?;
        if v < 0 {
            Err(ParseError::InvalidByte(ByteContext::BlockType, first))
        } else {
            Ok(BlockType::TypeIndex(v as u32))
        }
    }
}

} // verus!
