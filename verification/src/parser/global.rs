use vstd::prelude::*;
use super::cursor::{lemma_advance, Cursor};
use super::error::ParseError;
use super::expr::Expr;
use super::globaltype::GlobalType;
use super::instr::InstrV;
use super::parsable::{spec_two_trail, Decoded, Parsable};

verus! {

/// A global with the expression that gives its first value.
#[derive(Debug, PartialEq)]
pub struct Global {
    /// The type of the global.
    pub gt: GlobalType,
    /// The initializer.
    pub init: Expr,
}

/// `Global` as a mathematical value.
pub struct GlobalV {
    pub gt: GlobalType,
    pub init: Seq<InstrV>,
}

impl DeepView for Global {
    type V = GlobalV;

    open spec fn deep_view(&self) -> GlobalV {
        GlobalV {
            gt: self.gt.deep_view(),
            init: self.init.deep_view(),
        }
    }
}

impl Parsable for Global {
    open spec fn spec_parse(s: Seq<u8>) -> Decoded<GlobalV> {
        match GlobalType::spec_parse(s) {
            Err(e) => Err(e),
            Ok((gt, n0)) => match Expr::spec_parse(s.skip(n0 as int)) {
                Err(e) => Err(e),
                Ok((init, n1)) => Ok((GlobalV { gt, init }, n0 + n1)),
            },
        }
    }

    open spec fn spec_name() -> &'static str {
        "Global"
    }

    open spec fn spec_trail(s: Seq<u8>) -> Seq<&'static str> {
        spec_two_trail::<GlobalType, Expr>(s)
    }

    fn name() -> (n: &'static str) {
        "Global"
    }

    fn parse_inner(data: &mut Cursor<'_>, stack: &mut Vec<&'static str>) -> (r: Result<
        Self,
        ParseError,
    >) {
        let ghost start = *data;
        let gt = GlobalType::parse(data, stack)?;
        proof {
            lemma_advance(start, *data, (data.pos - start.pos) as nat);
        }
        let init = Expr::parse(data, stack)?;
        Ok(Global { gt, init })
    }
}

} // verus!
