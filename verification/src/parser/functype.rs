use vstd::prelude::*;
use super::cursor::{lemma_advance, Cursor};
use super::error::ParseError;
use super::parsable::{spec_two_trail, Decoded, Parsable};
use super::resulttype::{ResultType, ResultTypeV};

verus! {

/// The type of a function: what it takes and what it returns.
#[derive(Debug, Clone, PartialEq, Eq)]
pub struct FuncType {
    /// The parameter types.
    pub input: ResultType,
    /// The result types.
    pub output: ResultType,
}

/// `FuncType` as a mathematical value.
pub struct FuncTypeV {
    pub input: ResultTypeV,
    pub output: ResultTypeV,
}

impl DeepView for FuncType {
    type V = FuncTypeV;

    open spec fn deep_view(&self) -> FuncTypeV {
        FuncTypeV { input: self.input.deep_view(), output: self.output.deep_view() }
    }
}

impl Parsable for FuncType {
    open spec fn spec_parse(s: Seq<u8>) -> Decoded<FuncTypeV> {
        if s.len() == 0 {
            Err(ParseError::UnexpectedEof)
        } else if s[0] != 0x60 {
            Err(ParseError::InvalidFuncType(s[0]))
        } else {
            match ResultType::spec_parse(s.skip(1)) {
                Err(e) => Err(e),
                Ok((input, n)) => match ResultType::spec_parse(s.skip(1 + n as int)) {
                    Err(e) => Err(e),
                    Ok((output, m)) => Ok((FuncTypeV { input, output }, 1 + n + m)),
                },
            }
        }
    }

    open spec fn spec_name() -> &'static str {
        "FuncType"
    }

    open spec fn spec_trail(s: Seq<u8>) -> Seq<&'static str> {
        if s.len() == 0 || s[0] != 0x60 {
            Seq::empty()
        } else {
            spec_two_trail::<ResultType, ResultType>(s.skip(1))
        }
    }

    fn name() -> (n: &'static str) {
        "FuncType"
    }

    fn parse_inner(data: &mut Cursor<'_>, stack: &mut Vec<&'static str>) -> (r: Result<
        Self,
        ParseError,
    >) {
        let ghost start = *data;
        let b = data.read_u8()?;
        if b != 0x60 {
            return Err(ParseError::InvalidFuncType(b));
        }
        proof {
            lemma_advance(start, *data, 1);
        }
        let input = ResultType::parse(data, stack)?;
        proof {
            lemma_advance(start, *data, (data.pos - start.pos) as nat);
            assert(start.rest().skip(1).skip(data.pos - start.pos - 1) =~= data.rest());
        }
        let output = ResultType::parse(data, stack)?;
        Ok(FuncType { input, output })
    }
}

} // verus!
