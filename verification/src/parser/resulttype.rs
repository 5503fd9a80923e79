use vstd::prelude::*;
use super::cursor::Cursor;
use super::error::ParseError;
use super::parsable::{trail_of, Decoded, Parsable};
use super::valtype::ValType;

verus! {

/// The types of a sequence of values.
#[derive(Debug, Clone, PartialEq, Eq)]
pub struct ResultType {
    /// The types, in order.
    pub types: Vec<ValType>,
}

/// `ResultType` as a mathematical value.
pub struct ResultTypeV {
    pub types: Seq<ValType>,
}

impl DeepView for ResultType {
    type V = ResultTypeV;

    open spec fn deep_view(&self) -> ResultTypeV {
        ResultTypeV {
            types: self.types.deep_view(),
        }
    }
}

impl Parsable for ResultType {
    open spec fn spec_parse(s: Seq<u8>) -> Decoded<ResultTypeV> {
        match Vec::<ValType>::spec_parse(s) {
            Err(e) => Err(e),
            Ok((types, n0)) => Ok((ResultTypeV { types }, n0)),
        }
    }

    open spec fn spec_name() -> &'static str {
        "ResultType"
    }

    open spec fn spec_trail(s: Seq<u8>) -> Seq<&'static str> {
        trail_of::<Vec<ValType>>(s)
    }

    fn name() -> (n: &'static str) {
        "ResultType"
    }

    fn parse_inner(data: &mut Cursor<'_>, stack: &mut Vec<&'static str>) -> (r: Result<
        Self,
        ParseError,
    >) {
        let types = Vec::<ValType>::parse(data, stack)?;
        Ok(ResultType { types })
    }
}

} // verus!
