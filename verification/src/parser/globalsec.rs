use vstd::prelude::*;
use super::cursor::Cursor;
use super::error::ParseError;
use super::global::{Global, GlobalV};
use super::parsable::{Decoded, Parsable};
use super::sized::{parse_sized, spec_sized, spec_sized_trail};

verus! {

/// The globals of a module.
#[derive(Debug, PartialEq)]
pub struct GlobalSection {
    /// The byte size that the section declares; for a section met more than
    /// once, the sum.
    pub size: u32,
    /// The globals, in order.
    pub globals: Vec<Global>,
}

/// `GlobalSection` as a mathematical value.
pub struct GlobalSectionV {
    pub size: u32,
    pub globals: Seq<GlobalV>,
}

impl DeepView for GlobalSection {
    type V = GlobalSectionV;

    open spec fn deep_view(&self) -> GlobalSectionV {
        GlobalSectionV { size: self.size, globals: self.globals.deep_view() }
    }
}

impl GlobalSectionV {
    /// The section with the entries of `other` behind its own.
    pub open spec fn concat(self, other: GlobalSectionV) -> GlobalSectionV {
        GlobalSectionV { size: (self.size + other.size) as u32, globals: self.globals + other.globals }
    }
}

impl Default for GlobalSection {
    fn default() -> (r: Self)
        ensures
            r.deep_view() == (GlobalSectionV { size: 0, globals: Seq::empty() }),
    {
        let r = GlobalSection { size: 0, globals: Vec::new() };
        assert(r.globals.deep_view() =~= Seq::empty());
        r
    }
}

impl GlobalSection {
    /// Appends the entries of `other` and adds its size.
    pub fn concat(&mut self, other: Self)
        requires
            old(self).size + other.size <= u32::MAX,
        ensures
            final(self).size == old(self).size + other.size,
            final(self).globals@ == old(self).globals@ + other.globals@,
            final(self).deep_view() == old(self).deep_view().concat(other.deep_view()),
    {
        let ghost given = other;
        let mut other = other;
        self.size = self.size + other.size;
        self.globals.append(&mut other.globals);
        assert(self.globals.deep_view() =~= old(self).globals.deep_view() + given.globals.deep_view());
    }
}

impl Parsable for GlobalSection {
    open spec fn spec_parse(s: Seq<u8>) -> Decoded<GlobalSectionV> {
        match spec_sized::<Vec<Global>>(s, 6) {
            Err(e) => Err(e),
            Ok(((size, globals), n)) => Ok((GlobalSectionV { size, globals }, n)),
        }
    }

    open spec fn spec_name() -> &'static str {
        "GlobalSection"
    }

    open spec fn spec_trail(s: Seq<u8>) -> Seq<&'static str> {
        spec_sized_trail::<Vec<Global>>(s)
    }

    fn name() -> (n: &'static str) {
        "GlobalSection"
    }

    fn parse_inner(data: &mut Cursor<'_>, stack: &mut Vec<&'static str>) -> (r: Result<
        Self,
        ParseError,
    >) {
        let (size, globals) = parse_sized::<Vec<Global>>(data, stack, 6)?;
        Ok(GlobalSection { size, globals })
    }
}

} // verus!
