use vstd::prelude::*;
use super::cursor::{lemma_advance, Cursor};
use super::error::ParseError;
use super::parsable::{spec_two_trail, Decoded, Parsable};

verus! {

/// The immediate of a memory access: alignment exponent and offset.
#[derive(Debug, Clone, Copy, PartialEq, Eq, Structural)]
pub struct MemArg {
    /// Alignment, as a power of two.
    pub align: u32,
    /// Offset added to the address operand.
    pub offset: u32,
}

impl DeepView for MemArg {
    type V = MemArg;

    open spec fn deep_view(&self) -> MemArg {
        *self
    }
}

impl Parsable for MemArg {
    open spec fn spec_parse(s: Seq<u8>) -> Decoded<MemArg> {
        match u32::spec_parse(s) {
            Err(e) => Err(e),
            Ok((align, n0)) => match u32::spec_parse(s.skip(n0 as int)) {
                Err(e) => Err(e),
                Ok((offset, n1)) => Ok((MemArg { align, offset }, n0 + n1)),
            },
        }
    }

    open spec fn spec_name() -> &'static str {
        "MemArg"
    }

    open spec fn spec_trail(s: Seq<u8>) -> Seq<&'static str> {
        spec_two_trail::<u32, u32>(s)
    }

    fn name() -> (n: &'static str) {
        "MemArg"
    }

    fn parse_inner(data: &mut Cursor<'_>, stack: &mut Vec<&'static str>) -> (r: Result<
        Self,
        ParseError,
    >) {
        let ghost start = *data;
        let align = u32::parse(data, stack)?;
        proof {
            lemma_advance(start, *data, (data.pos - start.pos) as nat);
        }
        let offset = u32::parse(data, stack)?;
        Ok(MemArg { align, offset })
    }
}

} // verus!
