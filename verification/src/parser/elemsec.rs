use vstd::prelude::*;
use super::cursor::Cursor;
use super::elem::{Elem, ElemV};
use super::error::ParseError;
use super::parsable::{Decoded, Parsable};
use super::sized::{parse_sized, spec_sized, spec_sized_trail};

verus! {

/// The element segments of a module.
#[derive(Debug, PartialEq)]
pub struct ElementSection {
    /// The byte size that the section declares; for a section met more than
    /// once, the sum.
    pub size: u32,
    /// The segments, in order.
    pub elems: Vec<Elem>,
}

/// `ElementSection` as a mathematical value.
pub struct ElementSectionV {
    pub size: u32,
    pub elems: Seq<ElemV>,
}

impl DeepView for ElementSection {
    type V = ElementSectionV;

    open spec fn deep_view(&self) -> ElementSectionV {
        ElementSectionV { size: self.size, elems: self.elems.deep_view() }
    }
}

impl ElementSectionV {
    /// The section with the entries of `other` behind its own.
    pub open spec fn concat(self, other: ElementSectionV) -> ElementSectionV {
        ElementSectionV { size: (self.size + other.size) as u32, elems: self.elems + other.elems }
    }
}

impl Default for ElementSection {
    fn default() -> (r: Self)
        ensures
            r.deep_view() == (ElementSectionV { size: 0, elems: Seq::empty() }),
    {
        let r = ElementSection { size: 0, elems: Vec::new() };
        assert(r.elems.deep_view() =~= Seq::empty());
        r
    }
}

impl ElementSection {
    /// Appends the entries of `other` and adds its size.
    pub fn concat(&mut self, other: Self)
        requires
            old(self).size + other.size <= u32::MAX,
        ensures
            final(self).size == old(self).size + other.size,
            final(self).elems@ == old(self).elems@ + other.elems@,
            final(self).deep_view() == old(self).deep_view().concat(other.deep_view()),
    {
        let ghost given = other;
        let mut other = other;
        self.size = self.size + other.size;
        self.elems.append(&mut other.elems);
        assert(self.elems.deep_view() =~= old(self).elems.deep_view() + given.elems.deep_view());
    }
}

impl Parsable for ElementSection {
    open spec fn spec_parse(s: Seq<u8>) -> Decoded<ElementSectionV> {
        match spec_sized::<Vec<Elem>>(s, 9) {
            Err(e) => Err(e),
            Ok(((size, elems), n)) => Ok((ElementSectionV { size, elems }, n)),
        }
    }

    open spec fn spec_name() -> &'static str {
        "ElementSection"
    }

    open spec fn spec_trail(s: Seq<u8>) -> Seq<&'static str> {
        spec_sized_trail::<Vec<Elem>>(s)
    }

    fn name() -> (n: &'static str) {
        "ElementSection"
    }

    fn parse_inner(data: &mut Cursor<'_>, stack: &mut Vec<&'static str>) -> (r: Result<
        Self,
        ParseError,
    >) {
        let (size, elems) = parse_sized::<Vec<Elem>>(data, stack, 9)?;
        Ok(ElementSection { size, elems })
    }
}

} // verus!
