use vstd::prelude::*;
use super::cursor::{lemma_advance, Cursor};
use super::error::{ByteContext, ParseError};
use super::indices::{FuncIdx, GlobalIdX};
use super::memidx::MemIdX;
use super::parsable::{trail_of, Decoded, Parsable};
use super::tableidx::TableIdX;

verus! {

/// The kind of an exported item, with its index.
#[derive(Debug, Clone, Copy, PartialEq, Eq, Structural)]
pub enum ExportDesc {
    Func(FuncIdx),
    Table(TableIdX),
    Mem(MemIdX),
    Global(GlobalIdX),
}

impl DeepView for ExportDesc {
    type V = ExportDesc;

    open spec fn deep_view(&self) -> ExportDesc {
        *self
    }
}

impl Parsable for ExportDesc {
    open spec fn spec_parse(s: Seq<u8>) -> Decoded<ExportDesc> {
        if s.len() == 0 {
            Err(ParseError::UnexpectedEof)
        } else if s[0] == 0x00 {
            match FuncIdx::spec_parse(s.skip(1)) {
                Err(e) => Err(e),
                Ok((x, n)) => Ok((ExportDesc::Func(x), 1 + n)),
            }
        } else if s[0] == 0x01 {
            match TableIdX::spec_parse(s.skip(1)) {
                Err(e) => Err(e),
                Ok((x, n)) => Ok((ExportDesc::Table(x), 1 + n)),
            }
        } else if s[0] == 0x02 {
            match MemIdX::spec_parse(s.skip(1)) {
                Err(e) => Err(e),
                Ok((x, n)) => Ok((ExportDesc::Mem(x), 1 + n)),
            }
        } else if s[0] == 0x03 {
            match GlobalIdX::spec_parse(s.skip(1)) {
                Err(e) => Err(e),
                Ok((x, n)) => Ok((ExportDesc::Global(x), 1 + n)),
            }
        } else {
            Err(ParseError::InvalidByte(ByteContext::ExportDesc, s[0]))
        }
    }

    open spec fn spec_name() -> &'static str {
        "ExportDesc"
    }

    open spec fn spec_trail(s: Seq<u8>) -> Seq<&'static str> {
        if s.len() == 0 {
            Seq::empty()
        } else if s[0] == 0x00 {
            trail_of::<FuncIdx>(s.skip(1))
        } else if s[0] == 0x01 {
            trail_of::<TableIdX>(s.skip(1))
        } else if s[0] == 0x02 {
            trail_of::<MemIdX>(s.skip(1))
        } else if s[0] == 0x03 {
            trail_of::<GlobalIdX>(s.skip(1))
        } else {
            Seq::empty()
        }
    }

    fn name() -> (n: &'static str) {
        "ExportDesc"
    }

    fn parse_inner(data: &mut Cursor<'_>, stack: &mut Vec<&'static str>) -> (r: Result<
        Self,
        ParseError,
    >) {
        let ghost start = *data;
        let tag = data.read_u8()?;
        proof {
            lemma_advance(start, *data, 1);
        }
        if tag == 0x00 {
            Ok(ExportDesc::Func(FuncIdx::parse(data, stack)?))
        } else if tag == 0x01 {
            Ok(ExportDesc::Table(TableIdX::parse(data, stack)?))
        } else if tag == 0x02 {
            Ok(ExportDesc::Mem(MemIdX::parse(data, stack)?))
        } else if tag == 0x03 {
            Ok(ExportDesc::Global(GlobalIdX::parse(data, stack)?))
        } else {
            Err(ParseError::InvalidByte(ByteContext::ExportDesc, tag))
        }
    }
}

} // verus!
