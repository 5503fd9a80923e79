use vstd::prelude::*;
use super::cursor::Cursor;
use super::error::ParseError;
use super::export::{Export, ExportV};
use super::parsable::{Decoded, Parsable};
use super::sized::{parse_sized, spec_sized, spec_sized_trail};

verus! {

/// The exports of a module.
#[derive(Debug, PartialEq)]
pub struct ExportSection {
    /// The byte size that the section declares; for a section met more than
    /// once, the sum.
    pub size: u32,
    /// The exports, in order.
    pub exports: Vec<Export>,
}

/// `ExportSection` as a mathematical value.
pub struct ExportSectionV {
    pub size: u32,
    pub exports: Seq<ExportV>,
}

impl DeepView for ExportSection {
    type V = ExportSectionV;

    open spec fn deep_view(&self) -> ExportSectionV {
        ExportSectionV { size: self.size, exports: self.exports.deep_view() }
    }
}

impl ExportSectionV {
    /// The section with the entries of `other` behind its own.
    pub open spec fn concat(self, other: ExportSectionV) -> ExportSectionV {
        ExportSectionV { size: (self.size + other.size) as u32, exports: self.exports + other.exports }
    }
}

impl Default for ExportSection {
    fn default() -> (r: Self)
        ensures
            r.deep_view() == (ExportSectionV { size: 0, exports: Seq::empty() }),
    {
        let r = ExportSection { size: 0, exports: Vec::new() };
        assert(r.exports.deep_view() =~= Seq::empty());
        r
    }
}

impl ExportSection {
    /// Appends the entries of `other` and adds its size.
    pub fn concat(&mut self, other: Self)
        requires
            old(self).size + other.size <= u32::MAX,
        ensures
            final(self).size == old(self).size + other.size,
            final(self).exports@ == old(self).exports@ + other.exports@,
            final(self).deep_view() == old(self).deep_view().concat(other.deep_view()),
    {
        let ghost given = other;
        let mut other = other;
        self.size = self.size + other.size;
        self.exports.append(&mut other.exports);
        assert(self.exports.deep_view() =~= old(self).exports.deep_view() + given.exports.deep_view());
    }
}

impl Parsable for ExportSection {
    open spec fn spec_parse(s: Seq<u8>) -> Decoded<ExportSectionV> {
        match spec_sized::<Vec<Export>>(s, 7) {
            Err(e) => Err(e),
            Ok(((size, exports), n)) => Ok((ExportSectionV { size, exports }, n)),
        }
    }

    open spec fn spec_name() -> &'static str {
        "ExportSection"
    }

    open spec fn spec_trail(s: Seq<u8>) -> Seq<&'static str> {
        spec_sized_trail::<Vec<Export>>(s)
    }

    fn name() -> (n: &'static str) {
        "ExportSection"
    }

    fn parse_inner(data: &mut Cursor<'_>, stack: &mut Vec<&'static str>) -> (r: Result<
        Self,
        ParseError,
    >) {
        let (size, exports) = parse_sized::<Vec<Export>>(data, stack, 7)?;
        Ok(ExportSection { size, exports })
    }
}

} // verus!
