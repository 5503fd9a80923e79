use vstd::prelude::*;
use vstd::slice::{slice_subrange, slice_to_vec};
use vstd::string::StringExecFns;
use super::cursor::{lemma_advance, Cursor};
use super::error::ParseError;
use super::name::Name;
use super::parsable::{trail_of, Decoded, Parsable};
use super::varint::spec_u32;

verus! {

/// A custom section: a name and bytes that mean nothing to the decoder.
#[derive(Debug, PartialEq)]
pub struct CustomSection {
    /// The byte size that the section declares; for several sections joined,
    /// the sum.
    pub size: u32,
    /// The name; for several sections joined, their names with `+` between.
    pub name: Name,
    /// The bytes behind the name, one entry for each section joined.
    pub sections: Vec<Vec<u8>>,
}

/// `CustomSection` as a mathematical value.
pub struct CustomSectionV {
    pub size: u32,
    pub name: Seq<char>,
    pub sections: Seq<Seq<u8>>,
}

impl DeepView for CustomSection {
    type V = CustomSectionV;

    open spec fn deep_view(&self) -> CustomSectionV {
        CustomSectionV {
            size: self.size,
            name: self.name@,
            sections: self.sections.deep_view(),
        }
    }
}

impl CustomSectionV {
    /// The two sections joined: sizes added, contents in a row, and the
    /// names with `+` between them unless the first is empty.
    pub open spec fn concat(self, other: CustomSectionV) -> CustomSectionV {
        CustomSectionV {
            size: (self.size + other.size) as u32,
            name: if self.name.len() == 0 {
                other.name
            } else {
                self.name + seq!['+'] + other.name
            },
            sections: self.sections + other.sections,
        }
    }
}

impl Default for CustomSection {
    fn default() -> (r: Self)
        ensures
            r.deep_view() == (CustomSectionV {
                size: 0,
                name: Seq::empty(),
                sections: Seq::empty(),
            }),
    {
        let r = CustomSection { size: 0, name: Name::new(), sections: Vec::new() };
        assert(r.sections.deep_view() =~= Seq::empty());
        r
    }
}

impl CustomSection {
    /// Joins `other` to this section.
    pub fn concat(&mut self, other: Self)
        requires
            old(self).size + other.size <= u32::MAX,
        ensures
            final(self).deep_view() == old(self).deep_view().concat(other.deep_view()),
    {
        let ghost given = other;
        let mut other = other;
        self.size = self.size + other.size;
        self.sections.append(&mut other.sections);
        assert(self.sections.deep_view() =~= old(self).sections.deep_view() + given.sections.deep_view());
        if self.name.is_empty() {
            self.name = other.name;
        } else {
            proof {
                reveal_strlit("+");
                assert("+"@ =~= seq!['+']);
            }
            self.name.0.append("+");
            self.name.0.append(other.name.0.as_str());
        }
    }
}

impl Parsable for CustomSection {
    open spec fn spec_parse(s: Seq<u8>) -> Decoded<CustomSectionV> {
        match spec_u32(s) {
            Err(e) => Err(e),
            Ok((size, n)) => if s.len() - n < size {
                Err(ParseError::UnexpectedEof)
            } else {
                let content = s.subrange(n as int, n + size);
                match Name::spec_parse(content) {
                    Err(e) => Err(e),
                    Ok((name, m)) => Ok(
                        (
                            CustomSectionV { size, name, sections: seq![content.skip(m as int)] },
                            n + size as nat,
                        ),
                    ),
                }
            },
        }
    }

    open spec fn spec_name() -> &'static str {
        "CustomSection"
    }

    open spec fn spec_trail(s: Seq<u8>) -> Seq<&'static str> {
        match spec_u32(s) {
            Err(_) => trail_of::<u32>(s),
            Ok((size, n)) => if s.len() - n < size {
                Seq::empty()
            } else {
                trail_of::<Name>(s.subrange(n as int, n + size))
            },
        }
    }

    fn name() -> (n: &'static str) {
        "CustomSection"
    }

    fn parse_inner(data: &mut Cursor<'_>, stack: &mut Vec<&'static str>) -> (r: Result<
        Self,
        ParseError,
    >) {
        let ghost start = *data;
        let size = u32::parse(data, stack)?;
        proof {
            lemma_advance(start, *data, (data.pos - start.pos) as nat);
        }
        let ghost n = (data.pos - start.pos) as int;
        let content = data.read_exact(size as usize)?;
        proof {
            assert(content@ =~= start.rest().subrange(n, n + size));
        }
        let mut sub = Cursor::new(content);
        let name = Name::parse(&mut sub, stack)?;
        let rest = slice_to_vec(slice_subrange(content, sub.pos, content.len()));
        let mut sections: Vec<Vec<u8>> = Vec::new();
        sections.push(rest);
        proof {
            assert(rest@ =~= content@.skip(sub.pos as int));
            assert(sections.deep_view() =~~= seq![content@.skip(sub.pos as int)]);
        }
        Ok(CustomSection { size, name, sections })
    }
}

} // verus!
