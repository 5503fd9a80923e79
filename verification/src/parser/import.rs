use vstd::prelude::*;
use super::cursor::{lemma_advance, Cursor};
use super::error::ParseError;
use super::importdesc::ImportDesc;
use super::name::Name;
use super::parsable::{spec_three_trail, Decoded, Parsable};

verus! {

/// What a module asks of its host: an item of a named module.
#[derive(Debug, Clone, PartialEq, Eq)]
pub struct Import {
    /// The module that provides the item.
    pub module: Name,
    /// The name of the item there.
    pub name: Name,
    /// What kind of item it is.
    pub desc: ImportDesc,
}

/// `Import` as a mathematical value.
pub struct ImportV {
    pub module: Seq<char>,
    pub name: Seq<char>,
    pub desc: ImportDesc,
}

impl DeepView for Import {
    type V = ImportV;

    open spec fn deep_view(&self) -> ImportV {
        ImportV {
            module: self.module.deep_view(),
            name: self.name.deep_view(),
            desc: self.desc.deep_view(),
        }
    }
}

impl Parsable for Import {
    open spec fn spec_parse(s: Seq<u8>) -> Decoded<ImportV> {
        match Name::spec_parse(s) {
            Err(e) => Err(e),
            Ok((module, n0)) => match Name::spec_parse(s.skip(n0 as int)) {
                Err(e) => Err(e),
                Ok((name, n1)) => match ImportDesc::spec_parse(s.skip((n0 + n1) as int)) {
                    Err(e) => Err(e),
                    Ok((desc, n2)) => Ok((ImportV { module, name, desc }, n0 + n1 + n2)),
                },
            },
        }
    }

    open spec fn spec_name() -> &'static str {
        "Import"
    }

    open spec fn spec_trail(s: Seq<u8>) -> Seq<&'static str> {
        spec_three_trail::<Name, Name, ImportDesc>(s)
    }

    fn name() -> (n: &'static str) {
        "Import"
    }

    fn parse_inner(data: &mut Cursor<'_>, stack: &mut Vec<&'static str>) -> (r: Result<
        Self,
        ParseError,
    >) {
        let ghost start = *data;
        let module = Name::parse(data, stack)?;
        proof {
            lemma_advance(start, *data, (data.pos - start.pos) as nat);
        }
        let name = Name::parse(data, stack)?;
        proof {
            lemma_advance(start, *data, (data.pos - start.pos) as nat);
        }
        let desc = ImportDesc::parse(data, stack)?;
        Ok(Import { module, name, desc })
    }
}

} // verus!
