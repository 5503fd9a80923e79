use vstd::prelude::*;
use super::cursor::{lemma_advance, Cursor};
use super::error::ParseError;
use super::exportdesc::ExportDesc;
use super::name::Name;
use super::parsable::{spec_two_trail, Decoded, Parsable};

verus! {

/// An item that a module offers under a name.
#[derive(Debug, Clone, PartialEq, Eq)]
pub struct Export {
    /// The name.
    pub nm: Name,
    /// The item.
    pub d: ExportDesc,
}

/// `Export` as a mathematical value.
pub struct ExportV {
    pub nm: Seq<char>,
    pub d: ExportDesc,
}

impl DeepView for Export {
    type V = ExportV;

    open spec fn deep_view(&self) -> ExportV {
        ExportV {
            nm: self.nm.deep_view(),
            d: self.d.deep_view(),
        }
    }
}

impl Parsable for Export {
    open spec fn spec_parse(s: Seq<u8>) -> Decoded<ExportV> {
        match Name::spec_parse(s) {
            Err(e) => Err(e),
            Ok((nm, n0)) => match ExportDesc::spec_parse(s.skip(n0 as int)) {
                Err(e) => Err(e),
                Ok((d, n1)) => Ok((ExportV { nm, d }, n0 + n1)),
            },
        }
    }

    open spec fn spec_name() -> &'static str {
        "Export"
    }

    open spec fn spec_trail(s: Seq<u8>) -> Seq<&'static str> {
        spec_two_trail::<Name, ExportDesc>(s)
    }

    fn name() -> (n: &'static str) {
        "Export"
    }

    fn parse_inner(data: &mut Cursor<'_>, stack: &mut Vec<&'static str>) -> (r: Result<
        Self,
        ParseError,
    >) {
        let ghost start = *data;
        let nm = Name::parse(data, stack)?;
        proof {
            lemma_advance(start, *data, (data.pos - start.pos) as nat);
        }
        let d = ExportDesc::parse(data, stack)?;
        Ok(Export { nm, d })
    }
}

} // verus!
