use vstd::prelude::*;
use super::cursor::{lemma_advance, Cursor};
use super::error::ParseError;
use super::parsable::{spec_two_trail, Decoded, Parsable};
use super::valtype::{Mut, ValType};

verus! {

/// The type of a global.
#[derive(Debug, Clone, Copy, PartialEq, Eq, Structural)]
pub struct GlobalType {
    /// The type of the value.
    pub t: ValType,
    /// Whether it can be written.
    pub m: Mut,
}

impl DeepView for GlobalType {
    type V = GlobalType;

    open spec fn deep_view(&self) -> GlobalType {
        *self
    }
}

impl Parsable for GlobalType {
    open spec fn spec_parse(s: Seq<u8>) -> Decoded<GlobalType> {
        match ValType::spec_parse(s) {
            Err(e) => Err(e),
            Ok((t, n0)) => match Mut::spec_parse(s.skip(n0 as int)) {
                Err(e) => Err(e),
                Ok((m, n1)) => Ok((GlobalType { t, m }, n0 + n1)),
            },
        }
    }

    open spec fn spec_name() -> &'static str {
        "GlobalType"
    }

    open spec fn spec_trail(s: Seq<u8>) -> Seq<&'static str> {
        spec_two_trail::<ValType, Mut>(s)
    }

    fn name() -> (n: &'static str) {
        "GlobalType"
    }

    fn parse_inner(data: &mut Cursor<'_>, stack: &mut Vec<&'static str>) -> (r: Result<
        Self,
        ParseError,
    >) {
        let ghost start = *data;
        let t = ValType::parse(data, stack)?;
        proof {
            lemma_advance(start, *data, (data.pos - start.pos) as nat);
        }
        let m = Mut::parse(data, stack)?;
        Ok(GlobalType { t, m })
    }
}

} // verus!
