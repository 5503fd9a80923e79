use vstd::prelude::*;
use super::cursor::Cursor;
use super::error::ParseError;
use super::parsable::{decodes, Decoded};

verus! {

/// The number that four bytes spell, least significant byte first.
pub open spec fn le_u32(s: Seq<u8>) -> u32 {
    (s[0] + 0x100 * s[1] + 0x1_0000 * s[2] + 0x100_0000 * s[3]) as u32
}

/// The number that eight bytes spell, least significant byte first.
pub open spec fn le_u64(s: Seq<u8>) -> u64 {
    (s[0] + 0x100 * s[1] + 0x1_0000 * s[2] + 0x100_0000 * s[3] + 0x1_0000_0000 * s[4]
        + 0x100_0000_0000 * s[5] + 0x1_0000_0000_0000 * s[6] + 0x100_0000_0000_0000 * s[7]) as u64
}

/// Four bytes as a number of 32 bits.
pub open spec fn spec_le_u32(s: Seq<u8>) -> Decoded<u32> {
    if s.len() < 4 {
        Err(ParseError::UnexpectedEof)
    } else {
        Ok((le_u32(s), 4))
    }
}

/// Eight bytes as a number of 64 bits.
pub open spec fn spec_le_u64(s: Seq<u8>) -> Decoded<u64> {
    if s.len() < 8 {
        Err(ParseError::UnexpectedEof)
    } else {
        Ok((le_u64(s), 8))
    }
}

/// Reads four bytes as a number, least significant byte first.
pub fn read_le_u32(data: &mut Cursor<'_>) -> (r: Result<u32, ParseError>)
    requires
        old(data).wf(),
    ensures
        decodes(*old(data), *final(data), r, spec_le_u32(old(data).rest())),
{
    let b = data.read_exact(4)?;
    let v: u32 = b[0] as u32 + 0x100 * (b[1] as u32) + 0x1_0000 * (b[2] as u32) + 0x100_0000 * (
    b[3] as u32);
    Ok(v)
}

/// Reads eight bytes as a number, least significant byte first.
pub fn read_le_u64(data: &mut Cursor<'_>) -> (r: Result<u64, ParseError>)
    requires
        old(data).wf(),
    ensures
        decodes(*old(data), *final(data), r, spec_le_u64(old(data).rest())),
{
    let b = data.read_exact(8)?;
    let lo: u64 = b[0] as u64 + 0x100 * (b[1] as u64) + 0x1_0000 * (b[2] as u64) + 0x100_0000 * (
    b[3] as u64);
    let hi: u64 = b[4] as u64 + 0x100 * (b[5] as u64) + 0x1_0000 * (b[6] as u64) + 0x100_0000 * (
    b[7] as u64);
    Ok(lo + 0x1_0000_0000 * hi)
}

} // verus!
