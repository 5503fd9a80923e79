use vstd::prelude::*;
use super::cursor::Cursor;
use super::error::ParseError;
use super::instr::{
    body_trail, instrs_view, parse_body, spec_body, Instr, InstrV, Terminator,
};
use super::parsable::{Decoded, Parsable};

verus! {

/// An expression: instructions up to the `end` that closes them.
#[derive(Debug, PartialEq)]
pub struct Expr {
    pub instrs: Vec<Instr>,
}

impl DeepView for Expr {
    type V = Seq<InstrV>;

    open spec fn deep_view(&self) -> Seq<InstrV> {
        instrs_view(self.instrs@)
    }
}

impl Parsable for Expr {
    open spec fn spec_parse(s: Seq<u8>) -> Decoded<Seq<InstrV>> {
        match spec_body(s) {
            Err(e) => Err(e),
            Ok(((instrs, t), n)) => match t {
                Terminator::End => Ok((instrs, n)),
                Terminator::Else => Err(ParseError::UnknownOpcode(0x05)),
            },
        }
    }

    open spec fn spec_name() -> &'static str {
        "Expr"
    }

    open spec fn spec_trail(s: Seq<u8>) -> Seq<&'static str> {
        body_trail(s)
    }

    fn name() -> (n: &'static str) {
        "Expr"
    }

    fn parse_inner(data: &mut Cursor<'_>, stack: &mut Vec<&'static str>) -> (r: Result<
        Self,
        ParseError,
    >) {
        let (instrs, t) = parse_body(data, stack)?;
        match t {
            Terminator::End => Ok(Expr { instrs }),
            Terminator::Else => Err(ParseError::UnknownOpcode(0x05)),
        }
    }
}

} // verus!
