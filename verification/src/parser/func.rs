use vstd::prelude::*;
use super::cursor::{lemma_advance, Cursor};
use super::error::ParseError;
use super::expr::Expr;
use super::instr::InstrV;
use super::locals::Locals;
use super::parsable::{spec_two_trail, Decoded, Parsable};

verus! {

/// The locals and the body of a function.
#[derive(Debug, PartialEq)]
pub struct Func {
    /// The declared locals, as runs of one type.
    pub locals: Vec<Locals>,
    /// The instructions.
    pub body: Expr,
}

/// `Func` as a mathematical value.
pub struct FuncV {
    pub locals: Seq<Locals>,
    pub body: Seq<InstrV>,
}

impl DeepView for Func {
    type V = FuncV;

    open spec fn deep_view(&self) -> FuncV {
        FuncV {
            locals: self.locals.deep_view(),
            body: self.body.deep_view(),
        }
    }
}

impl Parsable for Func {
    open spec fn spec_parse(s: Seq<u8>) -> Decoded<FuncV> {
        match Vec::<Locals>::spec_parse(s) {
            Err(e) => Err(e),
            Ok((locals, n0)) => match Expr::spec_parse(s.skip(n0 as int)) {
                Err(e) => Err(e),
                Ok((body, n1)) => Ok((FuncV { locals, body }, n0 + n1)),
            },
        }
    }

    open spec fn spec_name() -> &'static str {
        "Func"
    }

    open spec fn spec_trail(s: Seq<u8>) -> Seq<&'static str> {
        spec_two_trail::<Vec<Locals>, Expr>(s)
    }

    fn name() -> (n: &'static str) {
        "Func"
    }

    fn parse_inner(data: &mut Cursor<'_>, stack: &mut Vec<&'static str>) -> (r: Result<
        Self,
        ParseError,
    >) {
        let ghost start = *data;
        let locals = Vec::<Locals>::parse(data, stack)?;
        proof {
            lemma_advance(start, *data, (data.pos - start.pos) as nat);
        }
        let body = Expr::parse(data, stack)?;
        Ok(Func { locals, body })
    }
}

} // verus!
