use vstd::prelude::*;
use super::cursor::{lemma_advance, Cursor};
use super::error::{ByteContext, ParseError};
use super::expr::Expr;
use super::indices::FuncIdx;
use super::instr::InstrV;
use super::parsable::{spec_two_trail, Decoded, Parsable};

verus! {

/// An element segment: functions to be written into table 0 from the
/// offset that an expression gives.
#[derive(Debug, PartialEq)]
pub struct Elem {
    /// The expression that gives the first slot.
    pub offset: Expr,
    /// The functions, in order.
    pub init: Vec<FuncIdx>,
}

/// `Elem` as a mathematical value.
pub struct ElemV {
    pub offset: Seq<InstrV>,
    pub init: Seq<FuncIdx>,
}

impl DeepView for Elem {
    type V = ElemV;

    open spec fn deep_view(&self) -> ElemV {
        ElemV { offset: self.offset.deep_view(), init: self.init.deep_view() }
    }
}

impl Parsable for Elem {
    open spec fn spec_parse(s: Seq<u8>) -> Decoded<ElemV> {
        if s.len() == 0 {
            Err(ParseError::UnexpectedEof)
        } else if s[0] != 0x00 {
            Err(ParseError::InvalidByte(ByteContext::ElementKind, s[0]))
        } else {
            match Expr::spec_parse(s.skip(1)) {
                Err(e) => Err(e),
                Ok((offset, n)) => match Vec::<FuncIdx>::spec_parse(s.skip(1 + n as int)) {
                    Err(e) => Err(e),
                    Ok((init, m)) => Ok((ElemV { offset, init }, 1 + n + m)),
                },
            }
        }
    }

    open spec fn spec_name() -> &'static str {
        "Elem"
    }

    open spec fn spec_trail(s: Seq<u8>) -> Seq<&'static str> {
        if s.len() == 0 || s[0] != 0x00 {
            Seq::empty()
        } else {
            spec_two_trail::<Expr, Vec<FuncIdx>>(s.skip(1))
        }
    }

    fn name() -> (n: &'static str) {
        "Elem"
    }

    fn parse_inner(data: &mut Cursor<'_>, stack: &mut Vec<&'static str>) -> (r: Result<
        Self,
        ParseError,
    >) {
        let ghost start = *data;
        let flag = data.read_u8()?;
        if flag != 0x00 {
            return Err(ParseError::InvalidByte(ByteContext::ElementKind, flag));
        }
        proof {
            lemma_advance(start, *data, 1);
        }
        let offset = Expr::parse(data, stack)?;
        proof {
            lemma_advance(start, *data, (data.pos - start.pos) as nat);
            assert(start.rest().skip(1).skip(data.pos - start.pos - 1) =~= data.rest());
        }
        let init = Vec::<FuncIdx>::parse(data, stack)?;
        Ok(Elem { offset, init })
    }
}

} // verus!
