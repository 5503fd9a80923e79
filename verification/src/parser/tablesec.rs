use vstd::prelude::*;
use super::cursor::Cursor;
use super::error::ParseError;
use super::parsable::{Decoded, Parsable};
use super::sized::{parse_sized, spec_sized, spec_sized_trail};
use super::tabletype::TableType;

verus! {

/// The tables of a module.
#[derive(Debug, PartialEq)]
pub struct TableSection {
    /// The byte size that the section declares; for a section met more than
    /// once, the sum.
    pub size: u32,
    /// The tables, in order.
    pub tables: Vec<TableType>,
}

/// `TableSection` as a mathematical value.
pub struct TableSectionV {
    pub size: u32,
    pub tables: Seq<TableType>,
}

impl DeepView for TableSection {
    type V = TableSectionV;

    open spec fn deep_view(&self) -> TableSectionV {
        TableSectionV { size: self.size, tables: self.tables.deep_view() }
    }
}

impl TableSectionV {
    /// The section with the entries of `other` behind its own.
    pub open spec fn concat(self, other: TableSectionV) -> TableSectionV {
        TableSectionV { size: (self.size + other.size) as u32, tables: self.tables + other.tables }
    }
}

impl Default for TableSection {
    fn default() -> (r: Self)
        ensures
            r.deep_view() == (TableSectionV { size: 0, tables: Seq::empty() }),
    {
        let r = TableSection { size: 0, tables: Vec::new() };
        assert(r.tables.deep_view() =~= Seq::empty());
        r
    }
}

impl TableSection {
    /// Appends the entries of `other` and adds its size.
    pub fn concat(&mut self, other: Self)
        requires
            old(self).size + other.size <= u32::MAX,
        ensures
            final(self).size == old(self).size + other.size,
            final(self).tables@ == old(self).tables@ + other.tables@,
            final(self).deep_view() == old(self).deep_view().concat(other.deep_view()),
    {
        let ghost given = other;
        let mut other = other;
        self.size = self.size + other.size;
        self.tables.append(&mut other.tables);
        assert(self.tables.deep_view() =~= old(self).tables.deep_view() + given.tables.deep_view());
    }
}

impl Parsable for TableSection {
    open spec fn spec_parse(s: Seq<u8>) -> Decoded<TableSectionV> {
        match spec_sized::<Vec<TableType>>(s, 4) {
            Err(e) => Err(e),
            Ok(((size, tables), n)) => Ok((TableSectionV { size, tables }, n)),
        }
    }

    open spec fn spec_name() -> &'static str {
        "TableSection"
    }

    open spec fn spec_trail(s: Seq<u8>) -> Seq<&'static str> {
        spec_sized_trail::<Vec<TableType>>(s)
    }

    fn name() -> (n: &'static str) {
        "TableSection"
    }

    fn parse_inner(data: &mut Cursor<'_>, stack: &mut Vec<&'static str>) -> (r: Result<
        Self,
        ParseError,
    >) {
        let (size, tables) = parse_sized::<Vec<TableType>>(data, stack, 4)?;
        Ok(TableSection { size, tables })
    }
}

} // verus!
