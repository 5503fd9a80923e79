use vstd::prelude::*;
use super::cursor::{lemma_advance, Cursor};
use super::error::{ByteContext, ParseError};
use super::parsable::{trail_of, Decoded, Parsable};
use super::varint::spec_u32;

verus! {

/// Size limits of a table or a memory: a minimum and, where given, a maximum.
#[derive(Debug, Clone, Copy, PartialEq, Eq, Structural)]
pub struct Limits {
    pub min: u32,
    pub max: Option<u32>,
}

impl DeepView for Limits {
    type V = Limits;

    open spec fn deep_view(&self) -> Limits {
        *self
    }
}

impl Parsable for Limits {
    open spec fn spec_parse(s: Seq<u8>) -> Decoded<Limits> {
        if s.len() == 0 {
            Err(ParseError::UnexpectedEof)
        } else if s[0] == 0x00 {
            match spec_u32(s.skip(1)) {
                Err(e) => Err(e),
                Ok((min, n)) => Ok((Limits { min, max: None }, 1 + n)),
            }
        } else if s[0] == 0x01 {
            match spec_u32(s.skip(1)) {
                Err(e) => Err(e),
                Ok((min, n)) => match spec_u32(s.skip(1 + n as int)) {
                    Err(e) => Err(e),
                    Ok((max, m)) => Ok((Limits { min, max: Some(max) }, 1 + n + m)),
                },
            }
        } else {
            Err(ParseError::InvalidByte(ByteContext::Limits, s[0]))
        }
    }

    open spec fn spec_name() -> &'static str {
        "Limits"
    }

    open spec fn spec_trail(s: Seq<u8>) -> Seq<&'static str> {
        if s.len() == 0 || s[0] > 1 {
            Seq::empty()
        } else {
            match u32::spec_parse(s.skip(1)) {
                Err(_) => trail_of::<u32>(s.skip(1)),
                Ok((_, n)) => trail_of::<u32>(s.skip(1 + n as int)),
            }
        }
    }

    fn name() -> (n: &'static str) {
        "Limits"
    }

    fn parse_inner(data: &mut Cursor<'_>, stack: &mut Vec<&'static str>) -> (r: Result<
        Self,
        ParseError,
    >) {
        let ghost start = *data;
        let flag = data.read_u8()?;
        if flag > 1 {
            return Err(ParseError::InvalidByte(ByteContext::Limits, flag));
        }
        proof {
            lemma_advance(start, *data, 1);
        }
        let min = u32::parse(data, stack)?;
        if flag == 0 {
            return Ok(Limits { min, max: None });
        }
        proof {
            lemma_advance(start, *data, (data.pos - start.pos) as nat);
        }
        let max = u32::parse(data, stack)?;
        Ok(Limits { min, max: Some(max) })
    }
}

} // verus!
