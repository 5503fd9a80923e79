use vstd::prelude::*;
use super::cursor::Cursor;
use super::data::{Data, DataV};
use super::error::ParseError;
use super::parsable::{Decoded, Parsable};
use super::sized::{parse_sized, spec_sized, spec_sized_trail};

verus! {

/// The data segments of a module.
#[derive(Debug, PartialEq)]
pub struct DataSection {
    /// The byte size that the section declares; for a section met more than
    /// once, the sum.
    pub size: u32,
    /// The segments, in order.
    pub data: Vec<Data>,
}

/// `DataSection` as a mathematical value.
pub struct DataSectionV {
    pub size: u32,
    pub data: Seq<DataV>,
}

impl DeepView for DataSection {
    type V = DataSectionV;

    open spec fn deep_view(&self) -> DataSectionV {
        DataSectionV { size: self.size, data: self.data.deep_view() }
    }
}

impl DataSectionV {
    /// The section with the entries of `other` behind its own.
    pub open spec fn concat(self, other: DataSectionV) -> DataSectionV {
        DataSectionV { size: (self.size + other.size) as u32, data: self.data + other.data }
    }
}

impl Default for DataSection {
    fn default() -> (r: Self)
        ensures
            r.deep_view() == (DataSectionV { size: 0, data: Seq::empty() }),
    {
        let r = DataSection { size: 0, data: Vec::new() };
        assert(r.data.deep_view() =~= Seq::empty());
        r
    }
}

impl DataSection {
    /// Appends the entries of `other` and adds its size.
    pub fn concat(&mut self, other: Self)
        requires
            old(self).size + other.size <= u32::MAX,
        ensures
            final(self).size == old(self).size + other.size,
            final(self).data@ == old(self).data@ + other.data@,
            final(self).deep_view() == old(self).deep_view().concat(other.deep_view()),
    {
        let ghost given = other;
        let mut other = other;
        self.size = self.size + other.size;
        self.data.append(&mut other.data);
        assert(self.data.deep_view() =~= old(self).data.deep_view() + given.data.deep_view());
    }
}

impl Parsable for DataSection {
    open spec fn spec_parse(s: Seq<u8>) -> Decoded<DataSectionV> {
        match spec_sized::<Vec<Data>>(s, 11) {
            Err(e) => Err(e),
            Ok(((size, data), n)) => Ok((DataSectionV { size, data }, n)),
        }
    }

    open spec fn spec_name() -> &'static str {
        "DataSection"
    }

    open spec fn spec_trail(s: Seq<u8>) -> Seq<&'static str> {
        spec_sized_trail::<Vec<Data>>(s)
    }

    fn name() -> (n: &'static str) {
        "DataSection"
    }

    fn parse_inner(data: &mut Cursor<'_>, stack: &mut Vec<&'static str>) -> (r: Result<
        Self,
        ParseError,
    >) {
        let (size, data) = parse_sized::<Vec<Data>>(data, stack, 11)?;
        Ok(DataSection { size, data })
    }
}

} // verus!
