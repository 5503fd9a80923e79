use vstd::prelude::*;
use super::cursor::{lemma_advance, Cursor};
use super::error::ParseError;
use super::parsable::{spec_two_trail, Decoded, Parsable};
use super::valtype::ValType;

verus! {

/// A run of locals of one type.
#[derive(Debug, Clone, Copy, PartialEq, Eq, Structural)]
pub struct Locals {
    /// How many locals.
    pub n: u32,
    /// Their type.
    pub t: ValType,
}

impl DeepView for Locals {
    type V = Locals;

    open spec fn deep_view(&self) -> Locals {
        *self
    }
}

impl Parsable for Locals {
    open spec fn spec_parse(s: Seq<u8>) -> Decoded<Locals> {
        match u32::spec_parse(s) {
            Err(e) => Err(e),
            Ok((n, n0)) => match ValType::spec_parse(s.skip(n0 as int)) {
                Err(e) => Err(e),
                Ok((t, n1)) => Ok((Locals { n, t }, n0 + n1)),
            },
        }
    }

    open spec fn spec_name() -> &'static str {
        "Locals"
    }

    open spec fn spec_trail(s: Seq<u8>) -> Seq<&'static str> {
        spec_two_trail::<u32, ValType>(s)
    }

    fn name() -> (n: &'static str) {
        "Locals"
    }

    fn parse_inner(data: &mut Cursor<'_>, stack: &mut Vec<&'static str>) -> (r: Result<
        Self,
        ParseError,
    >) {
        let ghost start = *data;
        let n = u32::parse(data, stack)?;
        proof {
            lemma_advance(start, *data, (data.pos - start.pos) as nat);
        }
        let t = ValType::parse(data, stack)?;
        Ok(Locals { n, t })
    }
}

} // verus!
