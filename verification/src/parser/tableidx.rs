use vstd::prelude::*;
use super::cursor::Cursor;
use super::error::ParseError;
use super::parsable::{trail_of, Decoded, Parsable};
use super::varint::spec_u32;

verus! {

/// Index of a table.
#[derive(Debug, Clone, Copy, PartialEq, Eq, Structural)]
pub struct TableIdX(pub u32);

impl DeepView for TableIdX {
    type V = TableIdX;

    open spec fn deep_view(&self) -> TableIdX {
        *self
    }
}

impl Parsable for TableIdX {
    open spec fn spec_parse(s: Seq<u8>) -> Decoded<TableIdX> {
        match spec_u32(s) {
            Ok((v, n)) => Ok((TableIdX(v), n)),
            Err(e) => Err(e),
        }
    }

    open spec fn spec_name() -> &'static str {
        "TableIdX"
    }

    open spec fn spec_trail(s: Seq<u8>) -> Seq<&'static str> {
        trail_of::<u32>(s)
    }

    fn name() -> (n: &'static str) {
        "TableIdX"
    }

    fn parse_inner(data: &mut Cursor<'_>, stack: &mut Vec<&'static str>) -> (r: Result<
        Self,
        ParseError,
    >) {
        Ok(TableIdX(u32::parse(data, stack)?))
    }
}

} // verus!
