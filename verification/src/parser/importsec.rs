use vstd::prelude::*;
use super::cursor::Cursor;
use super::error::ParseError;
use super::import::{Import, ImportV};
use super::parsable::{Decoded, Parsable};
use super::sized::{parse_sized, spec_sized, spec_sized_trail};

verus! {

/// The imports of a module.
#[derive(Debug, PartialEq)]
pub struct ImportSection {
    /// The byte size that the section declares; for a section met more than
    /// once, the sum.
    pub size: u32,
    /// The imports, in order.
    pub imports: Vec<Import>,
}

/// `ImportSection` as a mathematical value.
pub struct ImportSectionV {
    pub size: u32,
    pub imports: Seq<ImportV>,
}

impl DeepView for ImportSection {
    type V = ImportSectionV;

    open spec fn deep_view(&self) -> ImportSectionV {
        ImportSectionV { size: self.size, imports: self.imports.deep_view() }
    }
}

impl ImportSectionV {
    /// The section with the entries of `other` behind its own.
    pub open spec fn concat(self, other: ImportSectionV) -> ImportSectionV {
        ImportSectionV { size: (self.size + other.size) as u32, imports: self.imports + other.imports }
    }
}

impl Default for ImportSection {
    fn default() -> (r: Self)
        ensures
            r.deep_view() == (ImportSectionV { size: 0, imports: Seq::empty() }),
    {
        let r = ImportSection { size: 0, imports: Vec::new() };
        assert(r.imports.deep_view() =~= Seq::empty());
        r
    }
}

impl ImportSection {
    /// Appends the entries of `other` and adds its size.
    pub fn concat(&mut self, other: Self)
        requires
            old(self).size + other.size <= u32::MAX,
        ensures
            final(self).size == old(self).size + other.size,
            final(self).imports@ == old(self).imports@ + other.imports@,
            final(self).deep_view() == old(self).deep_view().concat(other.deep_view()),
    {
        let ghost given = other;
        let mut other = other;
        self.size = self.size + other.size;
        self.imports.append(&mut other.imports);
        assert(self.imports.deep_view() =~= old(self).imports.deep_view() + given.imports.deep_view());
    }
}

impl Parsable for ImportSection {
    open spec fn spec_parse(s: Seq<u8>) -> Decoded<ImportSectionV> {
        match spec_sized::<Vec<Import>>(s, 2) {
            Err(e) => Err(e),
            Ok(((size, imports), n)) => Ok((ImportSectionV { size, imports }, n)),
        }
    }

    open spec fn spec_name() -> &'static str {
        "ImportSection"
    }

    open spec fn spec_trail(s: Seq<u8>) -> Seq<&'static str> {
        spec_sized_trail::<Vec<Import>>(s)
    }

    fn name() -> (n: &'static str) {
        "ImportSection"
    }

    fn parse_inner(data: &mut Cursor<'_>, stack: &mut Vec<&'static str>) -> (r: Result<
        Self,
        ParseError,
    >) {
        let (size, imports) = parse_sized::<Vec<Import>>(data, stack, 2)?;
        Ok(ImportSection { size, imports })
    }
}

} // verus!
