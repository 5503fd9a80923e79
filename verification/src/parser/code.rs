use vstd::prelude::*;
use super::cursor::Cursor;
use super::error::ParseError;
use super::expr::Expr;
use super::func::Func;
use super::instr::InstrV;
use super::locals::Locals;
use super::parsable::{Decoded, Parsable};
use super::sized::{parse_sized, spec_sized, spec_sized_trail};

verus! {

/// An entry of the code section: a function body with its byte size.
#[derive(Debug, PartialEq)]
pub struct Code {
    /// The byte size that the entry declares.
    pub size: u32,
    /// The declared locals, as runs of one type.
    pub locals: Vec<Locals>,
    /// The instructions.
    pub body: Expr,
}

/// `Code` as a mathematical value.
pub struct CodeV {
    pub size: u32,
    pub locals: Seq<Locals>,
    pub body: Seq<InstrV>,
}

impl DeepView for Code {
    type V = CodeV;

    open spec fn deep_view(&self) -> CodeV {
        CodeV { size: self.size, locals: self.locals.deep_view(), body: self.body.deep_view() }
    }
}

impl Parsable for Code {
    open spec fn spec_parse(s: Seq<u8>) -> Decoded<CodeV> {
        match spec_sized::<Func>(s, 10) {
            Err(e) => Err(e),
            Ok(((size, f), n)) => Ok((CodeV { size, locals: f.locals, body: f.body }, n)),
        }
    }

    open spec fn spec_name() -> &'static str {
        "Code"
    }

    open spec fn spec_trail(s: Seq<u8>) -> Seq<&'static str> {
        spec_sized_trail::<Func>(s)
    }

    fn name() -> (n: &'static str) {
        "Code"
    }

    fn parse_inner(data: &mut Cursor<'_>, stack: &mut Vec<&'static str>) -> (r: Result<
        Self,
        ParseError,
    >) {
        let (size, f) = parse_sized::<Func>(data, stack, 10)?;
        Ok(Code { size, locals: f.locals, body: f.body })
    }
}

} // verus!
