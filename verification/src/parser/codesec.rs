use vstd::prelude::*;
use super::code::{Code, CodeV};
use super::cursor::Cursor;
use super::error::ParseError;
use super::parsable::{Decoded, Parsable};
use super::sized::{parse_sized, spec_sized, spec_sized_trail};

verus! {

/// The bodies of the functions that the module defines.
#[derive(Debug, PartialEq)]
pub struct CodeSection {
    /// The byte size that the section declares; for a section met more than
    /// once, the sum.
    pub size: u32,
    /// The bodies, in the order of the function section.
    pub code: Vec<Code>,
}

/// `CodeSection` as a mathematical value.
pub struct CodeSectionV {
    pub size: u32,
    pub code: Seq<CodeV>,
}

impl DeepView for CodeSection {
    type V = CodeSectionV;

    open spec fn deep_view(&self) -> CodeSectionV {
        CodeSectionV { size: self.size, code: self.code.deep_view() }
    }
}

impl CodeSectionV {
    /// The section with the entries of `other` behind its own.
    pub open spec fn concat(self, other: CodeSectionV) -> CodeSectionV {
        CodeSectionV { size: (self.size + other.size) as u32, code: self.code + other.code }
    }
}

impl Default for CodeSection {
    fn default() -> (r: Self)
        ensures
            r.deep_view() == (CodeSectionV { size: 0, code: Seq::empty() }),
    {
        let r = CodeSection { size: 0, code: Vec::new() };
        assert(r.code.deep_view() =~= Seq::empty());
        r
    }
}

impl CodeSection {
    /// Appends the entries of `other` and adds its size.
    pub fn concat(&mut self, other: Self)
        requires
            old(self).size + other.size <= u32::MAX,
        ensures
            final(self).size == old(self).size + other.size,
            final(self).code@ == old(self).code@ + other.code@,
            final(self).deep_view() == old(self).deep_view().concat(other.deep_view()),
    {
        let ghost given = other;
        let mut other = other;
        self.size = self.size + other.size;
        self.code.append(&mut other.code);
        assert(self.code.deep_view() =~= old(self).code.deep_view() + given.code.deep_view());
    }
}

impl Parsable for CodeSection {
    open spec fn spec_parse(s: Seq<u8>) -> Decoded<CodeSectionV> {
        match spec_sized::<Vec<Code>>(s, 10) {
            Err(e) => Err(e),
            Ok(((size, code), n)) => Ok((CodeSectionV { size, code }, n)),
        }
    }

    open spec fn spec_name() -> &'static str {
        "CodeSection"
    }

    open spec fn spec_trail(s: Seq<u8>) -> Seq<&'static str> {
        spec_sized_trail::<Vec<Code>>(s)
    }

    fn name() -> (n: &'static str) {
        "CodeSection"
    }

    fn parse_inner(data: &mut Cursor<'_>, stack: &mut Vec<&'static str>) -> (r: Result<
        Self,
        ParseError,
    >) {
        let (size, code) = parse_sized::<Vec<Code>>(data, stack, 10)?;
        Ok(CodeSection { size, code })
    }
}

} // verus!
