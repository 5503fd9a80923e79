use vstd::prelude::*;
use super::cursor::Cursor;
use super::error::ParseError;
use super::memtype::MemType;
use super::parsable::{Decoded, Parsable};
use super::sized::{parse_sized, spec_sized, spec_sized_trail};

verus! {

/// The memories of a module.
#[derive(Debug, PartialEq)]
pub struct MemorySection {
    /// The byte size that the section declares; for a section met more than
    /// once, the sum.
    pub size: u32,
    /// The memories, in order.
    pub mems: Vec<MemType>,
}

/// `MemorySection` as a mathematical value.
pub struct MemorySectionV {
    pub size: u32,
    pub mems: Seq<MemType>,
}

impl DeepView for MemorySection {
    type V = MemorySectionV;

    open spec fn deep_view(&self) -> MemorySectionV {
        MemorySectionV { size: self.size, mems: self.mems.deep_view() }
    }
}

impl MemorySectionV {
    /// The section with the entries of `other` behind its own.
    pub open spec fn concat(self, other: MemorySectionV) -> MemorySectionV {
        MemorySectionV { size: (self.size + other.size) as u32, mems: self.mems + other.mems }
    }
}

impl Default for MemorySection {
    fn default() -> (r: Self)
        ensures
            r.deep_view() == (MemorySectionV { size: 0, mems: Seq::empty() }),
    {
        let r = MemorySection { size: 0, mems: Vec::new() };
        assert(r.mems.deep_view() =~= Seq::empty());
        r
    }
}

impl MemorySection {
    /// Appends the entries of `other` and adds its size.
    pub fn concat(&mut self, other: Self)
        requires
            old(self).size + other.size <= u32::MAX,
        ensures
            final(self).size == old(self).size + other.size,
            final(self).mems@ == old(self).mems@ + other.mems@,
            final(self).deep_view() == old(self).deep_view().concat(other.deep_view()),
    {
        let ghost given = other;
        let mut other = other;
        self.size = self.size + other.size;
        self.mems.append(&mut other.mems);
        assert(self.mems.deep_view() =~= old(self).mems.deep_view() + given.mems.deep_view());
    }
}

impl Parsable for MemorySection {
    open spec fn spec_parse(s: Seq<u8>) -> Decoded<MemorySectionV> {
        match spec_sized::<Vec<MemType>>(s, 5) {
            Err(e) => Err(e),
            Ok(((size, mems), n)) => Ok((MemorySectionV { size, mems }, n)),
        }
    }

    open spec fn spec_name() -> &'static str {
        "MemorySection"
    }

    open spec fn spec_trail(s: Seq<u8>) -> Seq<&'static str> {
        spec_sized_trail::<Vec<MemType>>(s)
    }

    fn name() -> (n: &'static str) {
        "MemorySection"
    }

    fn parse_inner(data: &mut Cursor<'_>, stack: &mut Vec<&'static str>) -> (r: Result<
        Self,
        ParseError,
    >) {
        let (size, mems) = parse_sized::<Vec<MemType>>(data, stack, 5)?;
        Ok(MemorySection { size, mems })
    }
}

} // verus!
