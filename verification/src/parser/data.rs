use vstd::prelude::*;
use super::cursor::{lemma_advance, Cursor};
use super::error::{ByteContext, ParseError};
use super::expr::Expr;
use super::instr::InstrV;
use super::memidx::MemIdX;
use super::parsable::{spec_two_trail, trail_of, Decoded, Parsable};

verus! {

/// Where the bytes of a data segment go.
#[derive(Debug, PartialEq)]
pub enum DataMode {
    /// Nowhere, until an instruction copies them.
    Passive,
    /// Into the memory, from the offset that the expression gives.
    Active(MemIdX, Expr),
}

/// `DataMode` as a mathematical value.
pub enum DataModeV {
    Passive,
    Active(MemIdX, Seq<InstrV>),
}

impl DeepView for DataMode {
    type V = DataModeV;

    open spec fn deep_view(&self) -> DataModeV {
        match self {
            DataMode::Passive => DataModeV::Passive,
            DataMode::Active(m, e) => DataModeV::Active(*m, e.deep_view()),
        }
    }
}

/// A data segment: bytes and where they go.
#[derive(Debug, PartialEq)]
pub struct Data {
    pub mode: DataMode,
    pub init: Vec<u8>,
}

/// `Data` as a mathematical value.
pub struct DataV {
    pub mode: DataModeV,
    pub init: Seq<u8>,
}

impl DeepView for Data {
    type V = DataV;

    open spec fn deep_view(&self) -> DataV {
        DataV { mode: self.mode.deep_view(), init: self.init.deep_view() }
    }
}

/// The mode of a data segment: a flag byte, a memory index where the flag
/// is 2, and an offset expression unless the flag is 1.
pub open spec fn spec_data_mode(s: Seq<u8>) -> Decoded<DataModeV> {
    if s.len() == 0 {
        Err(ParseError::UnexpectedEof)
    } else if s[0] == 0x00 {
        match Expr::spec_parse(s.skip(1)) {
            Err(e) => Err(e),
            Ok((e, n)) => Ok((DataModeV::Active(MemIdX(0), e), 1 + n)),
        }
    } else if s[0] == 0x01 {
        Ok((DataModeV::Passive, 1))
    } else if s[0] == 0x02 {
        match MemIdX::spec_parse(s.skip(1)) {
            Err(e) => Err(e),
            Ok((m, n)) => match Expr::spec_parse(s.skip(1 + n as int)) {
                Err(e) => Err(e),
                Ok((e, k)) => Ok((DataModeV::Active(m, e), 1 + n + k)),
            },
        }
    } else {
        Err(ParseError::InvalidByte(ByteContext::DataMode, s[0]))
    }
}

impl Parsable for DataMode {
    open spec fn spec_parse(s: Seq<u8>) -> Decoded<DataModeV> {
        spec_data_mode(s)
    }

    open spec fn spec_name() -> &'static str {
        "DataMode"
    }

    open spec fn spec_trail(s: Seq<u8>) -> Seq<&'static str> {
        if s.len() == 0 {
            Seq::empty()
        } else if s[0] == 0x00 {
            trail_of::<Expr>(s.skip(1))
        } else if s[0] == 0x02 {
            spec_two_trail::<MemIdX, Expr>(s.skip(1))
        } else {
            Seq::empty()
        }
    }

    fn name() -> (n: &'static str) {
        "DataMode"
    }

    fn parse_inner(data: &mut Cursor<'_>, stack: &mut Vec<&'static str>) -> (r: Result<
        Self,
        ParseError,
    >) {
        let ghost start = *data;
        let flag = data.read_u8()?;
        proof {
            lemma_advance(start, *data, 1);
        }
        if flag == 0x00 {
            Ok(DataMode::Active(MemIdX(0), Expr::parse(data, stack)?))
        } else if flag == 0x01 {
            Ok(DataMode::Passive)
        } else if flag == 0x02 {
            let m = MemIdX::parse(data, stack)?;
            proof {
                lemma_advance(start, *data, (data.pos - start.pos) as nat);
                assert(start.rest().skip(1).skip(data.pos - start.pos - 1) =~= data.rest());
            }
            Ok(DataMode::Active(m, Expr::parse(data, stack)?))
        } else {
            Err(ParseError::InvalidByte(ByteContext::DataMode, flag))
        }
    }
}

impl Parsable for Data {
    open spec fn spec_parse(s: Seq<u8>) -> Decoded<DataV> {
        match DataMode::spec_parse(s) {
            Err(e) => Err(e),
            Ok((mode, n)) => match Vec::<u8>::spec_parse(s.skip(n as int)) {
                Err(e) => Err(e),
                Ok((init, m)) => Ok((DataV { mode, init }, n + m)),
            },
        }
    }

    open spec fn spec_name() -> &'static str {
        "Data"
    }

    open spec fn spec_trail(s: Seq<u8>) -> Seq<&'static str> {
        spec_two_trail::<DataMode, Vec<u8>>(s)
    }

    fn name() -> (n: &'static str) {
        "Data"
    }

    fn parse_inner(data: &mut Cursor<'_>, stack: &mut Vec<&'static str>) -> (r: Result<
        Self,
        ParseError,
    >) {
        let ghost start = *data;
        let mode = DataMode::parse(data, stack)?;
        proof {
            lemma_advance(start, *data, (data.pos - start.pos) as nat);
        }
        let init = Vec::<u8>::parse(data, stack)?;
        Ok(Data { mode, init })
    }
}

} // verus!
