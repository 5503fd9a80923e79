use vstd::prelude::*;
use super::cursor::{lemma_advance, Cursor};
use super::error::ParseError;
use super::parsable::{trail_after, trail_of, Decoded, Parsable};
use super::varint::spec_u32;

verus! {

/// An item with its byte size in front: the size as a `u32`, then exactly
/// that many bytes, which the item fills. `id` names the section in the error.
pub open spec fn spec_sized<T: Parsable>(s: Seq<u8>, id: u8) -> Decoded<(u32, T::V)> {
    match spec_u32(s) {
        Err(e) => Err(e),
        Ok((size, n)) => if s.len() - n < size {
            Err(ParseError::UnexpectedEof)
        } else {
            match T::spec_parse(s.subrange(n as int, n + size)) {
                Err(e) => Err(e),
                Ok((v, m)) => if m != size {
                    Err(ParseError::SectionSizeMismatch(id))
                } else {
                    Ok(((size, v), n + size as nat))
                },
            }
        },
    }
}

/// The names that a failed decoding of a sized item leaves on the trail.
pub open spec fn spec_sized_trail<T: Parsable>(s: Seq<u8>) -> Seq<&'static str> {
    match spec_u32(s) {
        Err(_) => trail_of::<u32>(s),
        Ok((size, n)) => if s.len() - n < size {
            Seq::empty()
        } else {
            match T::spec_parse(s.subrange(n as int, n + size)) {
                Err(_) => trail_of::<T>(s.subrange(n as int, n + size)),
                Ok(_) => Seq::empty(),
            }
        },
    }
}

/// Decodes a byte size and an item that fills exactly that many bytes.
pub fn parse_sized<T: Parsable>(data: &mut Cursor<'_>, stack: &mut Vec<&'static str>, id: u8) -> (r:
    Result<(u32, T), ParseError>)
    requires
        old(data).wf(),
    ensures
        final(data).data == old(data).data,
        final(data).wf(),
        match spec_sized::<T>(old(data).rest(), id) {
            Ok(((size, v), n)) => r is Ok && r->Ok_0.0 == size && r->Ok_0.1.deep_view() == v
                && final(data).pos == old(data).pos + n,
            Err(e) => r is Err && r->Err_0 == e,
        },
        trail_after(old(stack)@, final(stack)@, r is Ok, spec_sized_trail::<T>(old(data).rest())),
{
    let ghost start = *data;
    let size = u32::parse(data, stack)?;
    proof {
        lemma_advance(start, *data, (data.pos - start.pos) as nat);
    }
    let ghost n = (data.pos - start.pos) as int;
    let content = data.read_exact(size as usize)?;
    proof {
        assert(content@ =~= start.rest().subrange(n, n + size));
    }
    let mut sub = Cursor::new(content);
    let v = T::parse(&mut sub, stack)?;
    if sub.pos != content.len() {
        return Err(ParseError::SectionSizeMismatch(id));
    }
    Ok((size, v))
}

} // verus!
