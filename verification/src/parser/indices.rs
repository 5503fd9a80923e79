use vstd::prelude::*;
use super::cursor::Cursor;
use super::error::ParseError;
use super::parsable::{trail_of, Decoded, Parsable};
use super::varint::spec_u32;

verus! {

/// Index of a function, imported functions first.
#[derive(Debug, Clone, Copy, PartialEq, Eq, Structural)]
pub struct FuncIdx(pub u32);

impl DeepView for FuncIdx {
    type V = FuncIdx;

    open spec fn deep_view(&self) -> FuncIdx {
        *self
    }
}

impl Parsable for FuncIdx {
    open spec fn spec_parse(s: Seq<u8>) -> Decoded<FuncIdx> {
        match spec_u32(s) {
            Ok((v, n)) => Ok((FuncIdx(v), n)),
            Err(e) => Err(e),
        }
    }

    open spec fn spec_name() -> &'static str {
        "FuncIdx"
    }

    open spec fn spec_trail(s: Seq<u8>) -> Seq<&'static str> {
        trail_of::<u32>(s)
    }

    fn name() -> (n: &'static str) {
        "FuncIdx"
    }

    fn parse_inner(data: &mut Cursor<'_>, stack: &mut Vec<&'static str>) -> (r: Result<
        Self,
        ParseError,
    >) {
        Ok(FuncIdx(u32::parse(data, stack)?))
    }
}

/// Index of a global.
#[derive(Debug, Clone, Copy, PartialEq, Eq, Structural)]
pub struct GlobalIdX(pub u32);

impl DeepView for GlobalIdX {
    type V = GlobalIdX;

    open spec fn deep_view(&self) -> GlobalIdX {
        *self
    }
}

impl Parsable for GlobalIdX {
    open spec fn spec_parse(s: Seq<u8>) -> Decoded<GlobalIdX> {
        match spec_u32(s) {
            Ok((v, n)) => Ok((GlobalIdX(v), n)),
            Err(e) => Err(e),
        }
    }

    open spec fn spec_name() -> &'static str {
        "GlobalIdX"
    }

    open spec fn spec_trail(s: Seq<u8>) -> Seq<&'static str> {
        trail_of::<u32>(s)
    }

    fn name() -> (n: &'static str) {
        "GlobalIdX"
    }

    fn parse_inner(data: &mut Cursor<'_>, stack: &mut Vec<&'static str>) -> (r: Result<
        Self,
        ParseError,
    >) {
        Ok(GlobalIdX(u32::parse(data, stack)?))
    }
}

/// Relative depth of a branch target, innermost label first.
#[derive(Debug, Clone, Copy, PartialEq, Eq, Structural)]
pub struct LabelIdX(pub u32);

impl DeepView for LabelIdX {
    type V = LabelIdX;

    open spec fn deep_view(&self) -> LabelIdX {
        *self
    }
}

impl Parsable for LabelIdX {
    open spec fn spec_parse(s: Seq<u8>) -> Decoded<LabelIdX> {
        match spec_u32(s) {
            Ok((v, n)) => Ok((LabelIdX(v), n)),
            Err(e) => Err(e),
        }
    }

    open spec fn spec_name() -> &'static str {
        "LabelIdX"
    }

    open spec fn spec_trail(s: Seq<u8>) -> Seq<&'static str> {
        trail_of::<u32>(s)
    }

    fn name() -> (n: &'static str) {
        "LabelIdX"
    }

    fn parse_inner(data: &mut Cursor<'_>, stack: &mut Vec<&'static str>) -> (r: Result<
        Self,
        ParseError,
    >) {
        Ok(LabelIdX(u32::parse(data, stack)?))
    }
}

/// Index of a local, parameters first.
#[derive(Debug, Clone, Copy, PartialEq, Eq, Structural)]
pub struct LocalIdX(pub u32);

impl DeepView for LocalIdX {
    type V = LocalIdX;

    open spec fn deep_view(&self) -> LocalIdX {
        *self
    }
}

impl Parsable for LocalIdX {
    open spec fn spec_parse(s: Seq<u8>) -> Decoded<LocalIdX> {
        match spec_u32(s) {
            Ok((v, n)) => Ok((LocalIdX(v), n)),
            Err(e) => Err(e),
        }
    }

    open spec fn spec_name() -> &'static str {
        "LocalIdX"
    }

    open spec fn spec_trail(s: Seq<u8>) -> Seq<&'static str> {
        trail_of::<u32>(s)
    }

    fn name() -> (n: &'static str) {
        "LocalIdX"
    }

    fn parse_inner(data: &mut Cursor<'_>, stack: &mut Vec<&'static str>) -> (r: Result<
        Self,
        ParseError,
    >) {
        Ok(LocalIdX(u32::parse(data, stack)?))
    }
}

/// Index of a data segment.
#[derive(Debug, Clone, Copy, PartialEq, Eq, Structural)]
pub struct DataIdx(pub u32);

impl DeepView for DataIdx {
    type V = DataIdx;

    open spec fn deep_view(&self) -> DataIdx {
        *self
    }
}

impl Parsable for DataIdx {
    open spec fn spec_parse(s: Seq<u8>) -> Decoded<DataIdx> {
        match spec_u32(s) {
            Ok((v, n)) => Ok((DataIdx(v), n)),
            Err(e) => Err(e),
        }
    }

    open spec fn spec_name() -> &'static str {
        "DataIdx"
    }

    open spec fn spec_trail(s: Seq<u8>) -> Seq<&'static str> {
        trail_of::<u32>(s)
    }

    fn name() -> (n: &'static str) {
        "DataIdx"
    }

    fn parse_inner(data: &mut Cursor<'_>, stack: &mut Vec<&'static str>) -> (r: Result<
        Self,
        ParseError,
    >) {
        Ok(DataIdx(u32::parse(data, stack)?))
    }
}

/// Index of an element segment.
#[derive(Debug, Clone, Copy, PartialEq, Eq, Structural)]
pub struct ElemIdx(pub u32);

impl DeepView for ElemIdx {
    type V = ElemIdx;

    open spec fn deep_view(&self) -> ElemIdx {
        *self
    }
}

impl Parsable for ElemIdx {
    open spec fn spec_parse(s: Seq<u8>) -> Decoded<ElemIdx> {
        match spec_u32(s) {
            Ok((v, n)) => Ok((ElemIdx(v), n)),
            Err(e) => Err(e),
        }
    }

    open spec fn spec_name() -> &'static str {
        "ElemIdx"
    }

    open spec fn spec_trail(s: Seq<u8>) -> Seq<&'static str> {
        trail_of::<u32>(s)
    }

    fn name() -> (n: &'static str) {
        "ElemIdx"
    }

    fn parse_inner(data: &mut Cursor<'_>, stack: &mut Vec<&'static str>) -> (r: Result<
        Self,
        ParseError,
    >) {
        Ok(ElemIdx(u32::parse(data, stack)?))
    }
}

} // verus!
