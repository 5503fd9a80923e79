use vstd::prelude::*;
use super::cursor::Cursor;
use super::error::ParseError;
use super::parsable::{Decoded, Parsable};
use super::sized::{parse_sized, spec_sized, spec_sized_trail};
use super::typeidx::TypeIdX;

verus! {

/// The type of each function that the module defines.
#[derive(Debug, PartialEq)]
pub struct FunctionSection {
    /// The byte size that the section declares; for a section met more than
    /// once, the sum.
    pub size: u32,
    /// For each defined function, the index of its type.
    pub types: Vec<TypeIdX>,
}

/// `FunctionSection` as a mathematical value.
pub struct FunctionSectionV {
    pub size: u32,
    pub types: Seq<TypeIdX>,
}

impl DeepView for FunctionSection {
    type V = FunctionSectionV;

    open spec fn deep_view(&self) -> FunctionSectionV {
        FunctionSectionV { size: self.size, types: self.types.deep_view() }
    }
}

impl FunctionSectionV {
    /// The section with the entries of `other` behind its own.
    pub open spec fn concat(self, other: FunctionSectionV) -> FunctionSectionV {
        FunctionSectionV { size: (self.size + other.size) as u32, types: self.types + other.types }
    }
}

impl Default for FunctionSection {
    fn default() -> (r: Self)
        ensures
            r.deep_view() == (FunctionSectionV { size: 0, types: Seq::empty() }),
    {
        let r = FunctionSection { size: 0, types: Vec::new() };
        assert(r.types.deep_view() =~= Seq::empty());
        r
    }
}

impl FunctionSection {
    /// Appends the entries of `other` and adds its size.
    pub fn concat(&mut self, other: Self)
        requires
            old(self).size + other.size <= u32::MAX,
        ensures
            final(self).size == old(self).size + other.size,
            final(self).types@ == old(self).types@ + other.types@,
            final(self).deep_view() == old(self).deep_view().concat(other.deep_view()),
    {
        let ghost given = other;
        let mut other = other;
        self.size = self.size + other.size;
        self.types.append(&mut other.types);
        assert(self.types.deep_view() =~= old(self).types.deep_view() + given.types.deep_view());
    }
}

impl Parsable for FunctionSection {
    open spec fn spec_parse(s: Seq<u8>) -> Decoded<FunctionSectionV> {
        match spec_sized::<Vec<TypeIdX>>(s, 3) {
            Err(e) => Err(e),
            Ok(((size, types), n)) => Ok((FunctionSectionV { size, types }, n)),
        }
    }

    open spec fn spec_name() -> &'static str {
        "FunctionSection"
    }

    open spec fn spec_trail(s: Seq<u8>) -> Seq<&'static str> {
        spec_sized_trail::<Vec<TypeIdX>>(s)
    }

    fn name() -> (n: &'static str) {
        "FunctionSection"
    }

    fn parse_inner(data: &mut Cursor<'_>, stack: &mut Vec<&'static str>) -> (r: Result<
        Self,
        ParseError,
    >) {
        let (size, types) = parse_sized::<Vec<TypeIdX>>(data, stack, 3)?;
        Ok(FunctionSection { size, types })
    }
}

} // verus!
