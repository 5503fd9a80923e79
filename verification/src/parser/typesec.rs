use vstd::prelude::*;
use super::cursor::Cursor;
use super::error::ParseError;
use super::functype::{FuncType, FuncTypeV};
use super::parsable::{Decoded, Parsable};
use super::sized::{parse_sized, spec_sized, spec_sized_trail};

verus! {

/// The function types of a module.
#[derive(Debug, PartialEq)]
pub struct TypeSection {
    /// The byte size that the section declares; for a section met more than
    /// once, the sum.
    pub size: u32,
    /// The function types, in order.
    pub function_types: Vec<FuncType>,
}

/// `TypeSection` as a mathematical value.
pub struct TypeSectionV {
    pub size: u32,
    pub function_types: Seq<FuncTypeV>,
}

impl DeepView for TypeSection {
    type V = TypeSectionV;

    open spec fn deep_view(&self) -> TypeSectionV {
        TypeSectionV { size: self.size, function_types: self.function_types.deep_view() }
    }
}

impl TypeSectionV {
    /// The section with the entries of `other` behind its own.
    pub open spec fn concat(self, other: TypeSectionV) -> TypeSectionV {
        TypeSectionV { size: (self.size + other.size) as u32, function_types: self.function_types + other.function_types }
    }
}

impl Default for TypeSection {
    fn default() -> (r: Self)
        ensures
            r.deep_view() == (TypeSectionV { size: 0, function_types: Seq::empty() }),
    {
        let r = TypeSection { size: 0, function_types: Vec::new() };
        assert(r.function_types.deep_view() =~= Seq::empty());
        r
    }
}

impl TypeSection {
    /// Appends the entries of `other` and adds its size.
    pub fn concat(&mut self, other: Self)
        requires
            old(self).size + other.size <= u32::MAX,
        ensures
            final(self).size == old(self).size + other.size,
            final(self).function_types@ == old(self).function_types@ + other.function_types@,
            final(self).deep_view() == old(self).deep_view().concat(other.deep_view()),
    {
        let ghost given = other;
        let mut other = other;
        self.size = self.size + other.size;
        self.function_types.append(&mut other.function_types);
        assert(self.function_types.deep_view() =~= old(self).function_types.deep_view() + given.function_types.deep_view());
    }
}

impl Parsable for TypeSection {
    open spec fn spec_parse(s: Seq<u8>) -> Decoded<TypeSectionV> {
        match spec_sized::<Vec<FuncType>>(s, 1) {
            Err(e) => Err(e),
            Ok(((size, function_types), n)) => Ok((TypeSectionV { size, function_types }, n)),
        }
    }

    open spec fn spec_name() -> &'static str {
        "TypeSection"
    }

    open spec fn spec_trail(s: Seq<u8>) -> Seq<&'static str> {
        spec_sized_trail::<Vec<FuncType>>(s)
    }

    fn name() -> (n: &'static str) {
        "TypeSection"
    }

    fn parse_inner(data: &mut Cursor<'_>, stack: &mut Vec<&'static str>) -> (r: Result<
        Self,
        ParseError,
    >) {
        let (size, function_types) = parse_sized::<Vec<FuncType>>(data, stack, 1)?;
        Ok(TypeSection { size, function_types })
    }
}

} // verus!
