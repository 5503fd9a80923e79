use vstd::prelude::*;
use super::cursor::Cursor;
use super::error::ParseError;
use super::parsable::{trail_of, Decoded, Parsable};
use super::varint::spec_u32;

verus! {

/// Index of a function type in the type section.
#[derive(Debug, Clone, Copy, PartialEq, Eq, Structural)]
pub struct TypeIdX(pub u32);

impl DeepView for TypeIdX {
    type V = TypeIdX;

    open spec fn deep_view(&self) -> TypeIdX {
        *self
    }
}

impl Parsable for TypeIdX {
    open spec fn spec_parse(s: Seq<u8>) -> Decoded<TypeIdX> {
        match spec_u32(s) {
            Ok((v, n)) => Ok((TypeIdX(v), n)),
            Err(e) => Err(e),
        }
    }

    open spec fn spec_name() -> &'static str {
        "TypeIdX"
    }

    open spec fn spec_trail(s: Seq<u8>) -> Seq<&'static str> {
        trail_of::<u32>(s)
    }

    fn name() -> (n: &'static str) {
        "TypeIdX"
    }

    fn parse_inner(data: &mut Cursor<'_>, stack: &mut Vec<&'static str>) -> (r: Result<
        Self,
        ParseError,
    >) {
        Ok(TypeIdX(u32::parse(data, stack)?))
    }
}

} // verus!
