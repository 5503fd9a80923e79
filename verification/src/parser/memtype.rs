use vstd::prelude::*;
use super::cursor::Cursor;
use super::error::ParseError;
use super::limits::Limits;
use super::parsable::{trail_of, Decoded, Parsable};

verus! {

/// The type of a memory: its size limits, in pages.
#[derive(Debug, Clone, Copy, PartialEq, Eq, Structural)]
pub struct MemType {
    /// The size limits, in pages.
    pub lim: Limits,
}

impl DeepView for MemType {
    type V = MemType;

    open spec fn deep_view(&self) -> MemType {
        *self
    }
}

impl Parsable for MemType {
    open spec fn spec_parse(s: Seq<u8>) -> Decoded<MemType> {
        match Limits::spec_parse(s) {
            Err(e) => Err(e),
            Ok((lim, n0)) => Ok((MemType { lim }, n0)),
        }
    }

    open spec fn spec_name() -> &'static str {
        "MemType"
    }

    open spec fn spec_trail(s: Seq<u8>) -> Seq<&'static str> {
        trail_of::<Limits>(s)
    }

    fn name() -> (n: &'static str) {
        "MemType"
    }

    fn parse_inner(data: &mut Cursor<'_>, stack: &mut Vec<&'static str>) -> (r: Result<
        Self,
        ParseError,
    >) {
        let lim = Limits::parse(data, stack)?;
        Ok(MemType { lim })
    }
}

} // verus!
