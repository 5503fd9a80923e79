use vstd::prelude::*;
use super::cursor::Cursor;
use super::error::ParseError;
use super::parsable::{trail_of, Decoded, Parsable};
use super::varint::spec_u32;

verus! {

/// Index of a memory.
#[derive(Debug, Clone, Copy, PartialEq, Eq, Structural)]
pub struct MemIdX(pub u32);

impl DeepView for MemIdX {
    type V = MemIdX;

    open spec fn deep_view(&self) -> MemIdX {
        *self
    }
}

impl Parsable for MemIdX {
    open spec fn spec_parse(s: Seq<u8>) -> Decoded<MemIdX> {
        match spec_u32(s) {
            Ok((v, n)) => Ok((MemIdX(v), n)),
            Err(e) => Err(e),
        }
    }

    open spec fn spec_name() -> &'static str {
        "MemIdX"
    }

    open spec fn spec_trail(s: Seq<u8>) -> Seq<&'static str> {
        trail_of::<u32>(s)
    }

    fn name() -> (n: &'static str) {
        "MemIdX"
    }

    fn parse_inner(data: &mut Cursor<'_>, stack: &mut Vec<&'static str>) -> (r: Result<
        Self,
        ParseError,
    >) {
        Ok(MemIdX(u32::parse(data, stack)?))
    }
}

} // verus!
