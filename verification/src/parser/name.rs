use vstd::prelude::*;
use vstd::slice::slice_to_vec;
use vstd::utf8::{decode_utf8, valid_utf8};
use super::cursor::{lemma_advance, Cursor};
use super::error::ParseError;
use super::parsable::{trail_of, Decoded, Parsable};
use super::varint::spec_u32;

verus! {

/// A name: its byte length, then that many bytes of UTF-8.
#[derive(Debug, Clone, PartialEq, Eq)]
pub struct Name(pub String);

impl DeepView for Name {
    type V = Seq<char>;

    open spec fn deep_view(&self) -> Seq<char> {
        self.0@
    }
}

impl View for Name {
    type V = Seq<char>;

    open spec fn view(&self) -> Seq<char> {
        self.0@
    }
}

/// Calls `String::from_utf8`: the bytes become a string exactly when they
/// are valid UTF-8, and the string then holds the characters they encode.
#[verifier::external_body]
pub(crate) fn string_from_utf8(bytes: Vec<u8>) -> (r: Option<String>)
    ensures
        r is Some <==> valid_utf8(bytes@),
        r matches Some(s) ==> s@ == decode_utf8(bytes@),
{
    String::from_utf8(bytes).ok()
}

impl Name {
    /// The empty name.
    pub fn new() -> (n: Self)
        ensures
            n@ == Seq::<char>::empty(),
    {
        Name(String::new())
    }

    /// True when the name has no characters.
    pub fn is_empty(&self) -> (b: bool)
        ensures
            b == (self@.len() == 0),
    {
        let empty = String::new();
        let b = self.0 == empty;
        assert(b == (self@ =~= Seq::<char>::empty()));
        b
    }
}

impl Parsable for Name {
    open spec fn spec_parse(s: Seq<u8>) -> Decoded<Seq<char>> {
        match spec_u32(s) {
            Err(e) => Err(e),
            Ok((len, n)) => if s.len() - n < len {
                Err(ParseError::UnexpectedEof)
            } else if !valid_utf8(s.subrange(n as int, n + len)) {
                Err(ParseError::Utf8Error)
            } else {
                Ok((decode_utf8(s.subrange(n as int, n + len)), n + len as nat))
            },
        }
    }

    open spec fn spec_name() -> &'static str {
        "Name"
    }

    open spec fn spec_trail(s: Seq<u8>) -> Seq<&'static str> {
        if u32::spec_parse(s) is Err {
            trail_of::<u32>(s)
        } else {
            Seq::empty()
        }
    }

    fn name() -> (n: &'static str) {
        "Name"
    }

    fn parse_inner(data: &mut Cursor<'_>, stack: &mut Vec<&'static str>) -> (r: Result<
        Self,
        ParseError,
    >) {
        let ghost start = *data;
        let len = u32::parse(data, stack)?;
        proof {
            lemma_advance(start, *data, (data.pos - start.pos) as nat);
        }
        let ghost n = (data.pos - start.pos) as int;
        let bytes = data.read_exact(len as usize)?;
        proof {
            assert(bytes@ =~= start.rest().subrange(n, n + len));
        }
        match string_from_utf8(slice_to_vec(bytes)) {
            Some(s) => Ok(Name(s)),
            None => Err(ParseError::Utf8Error),
        }
    }
}

} // verus!
