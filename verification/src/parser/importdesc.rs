use vstd::prelude::*;
use super::cursor::{lemma_advance, Cursor};
use super::error::{ByteContext, ParseError};
use super::globaltype::GlobalType;
use super::memtype::MemType;
use super::parsable::{trail_of, Decoded, Parsable};
use super::tabletype::TableType;
use super::typeidx::TypeIdX;

verus! {

/// The kind of an imported item, with its type.
#[derive(Debug, Clone, Copy, PartialEq, Eq, Structural)]
pub enum ImportDesc {
    Func(TypeIdX),
    Table(TableType),
    Mem(MemType),
    Global(GlobalType),
}

impl DeepView for ImportDesc {
    type V = ImportDesc;

    open spec fn deep_view(&self) -> ImportDesc {
        *self
    }
}

impl Parsable for ImportDesc {
    open spec fn spec_parse(s: Seq<u8>) -> Decoded<ImportDesc> {
        if s.len() == 0 {
            Err(ParseError::UnexpectedEof)
        } else if s[0] == 0x00 {
            match TypeIdX::spec_parse(s.skip(1)) {
                Err(e) => Err(e),
                Ok((t, n)) => Ok((ImportDesc::Func(t), 1 + n)),
            }
        } else if s[0] == 0x01 {
            match TableType::spec_parse(s.skip(1)) {
                Err(e) => Err(e),
                Ok((t, n)) => Ok((ImportDesc::Table(t), 1 + n)),
            }
        } else if s[0] == 0x02 {
            match MemType::spec_parse(s.skip(1)) {
                Err(e) => Err(e),
                Ok((t, n)) => Ok((ImportDesc::Mem(t), 1 + n)),
            }
        } else if s[0] == 0x03 {
            match GlobalType::spec_parse(s.skip(1)) {
                Err(e) => Err(e),
                Ok((t, n)) => Ok((ImportDesc::Global(t), 1 + n)),
            }
        } else {
            Err(ParseError::InvalidByte(ByteContext::ImportDesc, s[0]))
        }
    }

    open spec fn spec_name() -> &'static str {
        "ImportDesc"
    }

    open spec fn spec_trail(s: Seq<u8>) -> Seq<&'static str> {
        if s.len() == 0 {
            Seq::empty()
        } else if s[0] == 0x00 {
            trail_of::<TypeIdX>(s.skip(1))
        } else if s[0] == 0x01 {
            trail_of::<TableType>(s.skip(1))
        } else if s[0] == 0x02 {
            trail_of::<MemType>(s.skip(1))
        } else if s[0] == 0x03 {
            trail_of::<GlobalType>(s.skip(1))
        } else {
            Seq::empty()
        }
    }

    fn name() -> (n: &'static str) {
        "ImportDesc"
    }

    fn parse_inner(data: &mut Cursor<'_>, stack: &mut Vec<&'static str>) -> (r: Result<
        Self,
        ParseError,
    >) {
        let ghost start = *data;
        let tag = data.read_u8()?;
        proof {
            lemma_advance(start, *data, 1);
        }
        if tag == 0x00 {
            Ok(ImportDesc::Func(TypeIdX::parse(data, stack)?))
        } else if tag == 0x01 {
            Ok(ImportDesc::Table(TableType::parse(data, stack)?))
        } else if tag == 0x02 {
            Ok(ImportDesc::Mem(MemType::parse(data, stack)?))
        } else if tag == 0x03 {
            Ok(ImportDesc::Global(GlobalType::parse(data, stack)?))
        } else {
            Err(ParseError::InvalidByte(ByteContext::ImportDesc, tag))
        }
    }
}

} // verus!
