use vstd::prelude::*;
use super::cursor::{lemma_advance, Cursor};
use super::error::ParseError;
use super::limits::Limits;
use super::parsable::{spec_two_trail, Decoded, Parsable};
use super::valtype::RefTyp;

verus! {

/// The type of a table: what it holds and how large it may be.
#[derive(Debug, Clone, Copy, PartialEq, Eq, Structural)]
pub struct TableType {
    /// The type of the elements.
    pub et: RefTyp,
    /// The size limits, in elements.
    pub lim: Limits,
}

impl DeepView for TableType {
    type V = TableType;

    open spec fn deep_view(&self) -> TableType {
        *self
    }
}

impl Parsable for TableType {
    open spec fn spec_parse(s: Seq<u8>) -> Decoded<TableType> {
        match RefTyp::spec_parse(s) {
            Err(e) => Err(e),
            Ok((et, n0)) => match Limits::spec_parse(s.skip(n0 as int)) {
                Err(e) => Err(e),
                Ok((lim, n1)) => Ok((TableType { et, lim }, n0 + n1)),
            },
        }
    }

    open spec fn spec_name() -> &'static str {
        "TableType"
    }

    open spec fn spec_trail(s: Seq<u8>) -> Seq<&'static str> {
        spec_two_trail::<RefTyp, Limits>(s)
    }

    fn name() -> (n: &'static str) {
        "TableType"
    }

    fn parse_inner(data: &mut Cursor<'_>, stack: &mut Vec<&'static str>) -> (r: Result<
        Self,
        ParseError,
    >) {
        let ghost start = *data;
        let et = RefTyp::parse(data, stack)?;
        proof {
            lemma_advance(start, *data, (data.pos - start.pos) as nat);
        }
        let lim = Limits::parse(data, stack)?;
        Ok(TableType { et, lim })
    }
}

} // verus!
