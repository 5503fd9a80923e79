use vstd::prelude::*;
use super::cursor::{lemma_advance, Cursor};
use super::error::ParseError;
use super::varint::{read_i32, read_i64, read_u32, spec_i32, spec_i64, spec_u32};

verus! {

/// The trail of names of the items being decoded, outermost first.
pub type DebugStack<'t> = &'t mut Vec<&'static str>;

/// What decoding at the head of a byte sequence yields: the value with the
/// number of bytes it takes, or the error.
pub type Decoded<T> = Result<(T, nat), ParseError>;

/// An item of the binary format.
pub trait Parsable: Sized + DeepView {
    /// The item that stands at the head of `s`, as a mathematical value.
    spec fn spec_parse(s: Seq<u8>) -> Decoded<Self::V>;

    /// The name this item leaves on the trail.
    spec fn spec_name() -> &'static str;

    /// The names that a failed decoding of `s` leaves on the trail below
    /// the item's own name: those of the items on the way to the failing byte.
    spec fn spec_trail(s: Seq<u8>) -> Seq<&'static str>;

    /// The name this item leaves on the trail.
    fn name() -> (n: &'static str)
        ensures
            n == Self::spec_name(),
    ;

    /// Decodes one item. The trail is unchanged on success; on failure it
    /// holds, behind what it held, this item's name and the names of the
    /// items on the way to the failing byte.
    fn parse(data: &mut Cursor<'_>, stack: &mut Vec<&'static str>) -> (r: Result<Self, ParseError>)
        requires
            old(data).wf(),
        ensures
            decodes(*old(data), *final(data), r, Self::spec_parse(old(data).rest())),
            trail_after(
                old(stack)@,
                final(stack)@,
                r is Ok,
                seq![Self::spec_name()] + Self::spec_trail(old(data).rest()),
            ),
    {
        stack.push(Self::name());
        let r = Self::parse_inner(data, stack);
        if r.is_ok() {
            stack.pop();
        }
        r
    }

    /// Decodes one item without recording its own name.
    fn parse_inner(data: &mut Cursor<'_>, stack: &mut Vec<&'static str>) -> (r: Result<
        Self,
        ParseError,
    >)
        requires
            old(data).wf(),
        ensures
            decodes(*old(data), *final(data), r, Self::spec_parse(old(data).rest())),
            trail_after(old(stack)@, final(stack)@, r is Ok, Self::spec_trail(old(data).rest())),
    ;
}

/// What a decoder does to the trail: nothing where it succeeds; where it
/// fails, the names `left` stand behind what was on the trail.
pub open spec fn trail_after(
    pre: Seq<&'static str>,
    post: Seq<&'static str>,
    ok: bool,
    left: Seq<&'static str>,
) -> bool {
    if ok {
        post =~= pre
    } else {
        post =~= pre + left
    }
}

/// The names that a failed decoding of the item `T` leaves on the trail:
/// its own, then those below it.
pub open spec fn trail_of<T: Parsable>(s: Seq<u8>) -> Seq<&'static str> {
    seq![T::spec_name()] + T::spec_trail(s)
}

/// The names that a failed decoding of two items in a row leaves on the
/// trail: those of the item that fails.
pub open spec fn spec_two_trail<A: Parsable, B: Parsable>(s: Seq<u8>) -> Seq<&'static str> {
    match A::spec_parse(s) {
        Err(_) => trail_of::<A>(s),
        Ok((_, n)) => trail_of::<B>(s.skip(n as int)),
    }
}

/// The names that a failed decoding of three items in a row leaves on the
/// trail.
pub open spec fn spec_three_trail<A: Parsable, B: Parsable, C: Parsable>(s: Seq<u8>) -> Seq<
    &'static str,
> {
    match A::spec_parse(s) {
        Err(_) => trail_of::<A>(s),
        Ok((_, n)) => match B::spec_parse(s.skip(n as int)) {
            Err(_) => trail_of::<B>(s.skip(n as int)),
            Ok((_, m)) => trail_of::<C>(s.skip((n + m) as int)),
        },
    }
}

/// The outcome `r` of a decoder run from `pre` to `post` is the one that
/// `expected` describes.
pub open spec fn decodes<T: DeepView>(
    pre: Cursor,
    post: Cursor,
    r: Result<T, ParseError>,
    expected: Decoded<T::V>,
) -> bool {
    &&& post.data == pre.data
    &&& post.wf()
    &&& match expected {
        Ok((v, n)) => r is Ok && r->Ok_0.deep_view() == v && post.pos == pre.pos + n,
        Err(e) => r is Err && r->Err_0 == e,
    }
}

impl Parsable for u8 {
    open spec fn spec_parse(s: Seq<u8>) -> Decoded<u8> {
        if s.len() == 0 {
            Err(ParseError::UnexpectedEof)
        } else {
            Ok((s[0], 1))
        }
    }

    open spec fn spec_name() -> &'static str {
        "u8"
    }

    open spec fn spec_trail(s: Seq<u8>) -> Seq<&'static str> {
        Seq::empty()
    }

    fn name() -> (n: &'static str) {
        "u8"
    }

    fn parse_inner(data: &mut Cursor<'_>, stack: &mut Vec<&'static str>) -> (r: Result<
        Self,
        ParseError,
    >) {
        data.read_u8()
    }
}

impl Parsable for u32 {
    open spec fn spec_parse(s: Seq<u8>) -> Decoded<u32> {
        spec_u32(s)
    }

    open spec fn spec_name() -> &'static str {
        "u32"
    }

    open spec fn spec_trail(s: Seq<u8>) -> Seq<&'static str> {
        Seq::empty()
    }

    fn name() -> (n: &'static str) {
        "u32"
    }

    fn parse_inner(data: &mut Cursor<'_>, stack: &mut Vec<&'static str>) -> (r: Result<
        Self,
        ParseError,
    >) {
        read_u32(data)
    }
}

impl Parsable for i32 {
    open spec fn spec_parse(s: Seq<u8>) -> Decoded<i32> {
        spec_i32(s)
    }

    open spec fn spec_name() -> &'static str {
        "i32"
    }

    open spec fn spec_trail(s: Seq<u8>) -> Seq<&'static str> {
        Seq::empty()
    }

    fn name() -> (n: &'static str) {
        "i32"
    }

    fn parse_inner(data: &mut Cursor<'_>, stack: &mut Vec<&'static str>) -> (r: Result<
        Self,
        ParseError,
    >) {
        read_i32(data)
    }
}

impl Parsable for i64 {
    open spec fn spec_parse(s: Seq<u8>) -> Decoded<i64> {
        spec_i64(s)
    }

    open spec fn spec_name() -> &'static str {
        "i64"
    }

    open spec fn spec_trail(s: Seq<u8>) -> Seq<&'static str> {
        Seq::empty()
    }

    fn name() -> (n: &'static str) {
        "i64"
    }

    fn parse_inner(data: &mut Cursor<'_>, stack: &mut Vec<&'static str>) -> (r: Result<
        Self,
        ParseError,
    >) {
        read_i64(data)
    }
}

/// `count` items of one kind in a row: the values in order, with the total
/// number of bytes they take, or the error of the first item that fails.
pub open spec fn spec_parse_n<T: Parsable>(s: Seq<u8>, count: nat) -> Decoded<Seq<T::V>>
    decreases count,
{
    if count == 0 {
        Ok((Seq::empty(), 0))
    } else {
        match spec_parse_n::<T>(s, (count - 1) as nat) {
            Err(e) => Err(e),
            Ok((items, used)) => match T::spec_parse(s.skip(used as int)) {
                Err(e) => Err(e),
                Ok((item, n)) => Ok((items.push(item), used + n)),
            },
        }
    }
}

/// The names that a failed decoding of `count` items in a row leaves on
/// the trail: those of the first item that fails.
pub open spec fn spec_trail_n<T: Parsable>(s: Seq<u8>, count: nat) -> Seq<&'static str>
    decreases count,
{
    if count == 0 {
        Seq::empty()
    } else {
        match spec_parse_n::<T>(s, (count - 1) as nat) {
            Err(_) => spec_trail_n::<T>(s, (count - 1) as nat),
            Ok((_, used)) => trail_of::<T>(s.skip(used as int)),
        }
    }
}

/// Once an item fails, every longer row fails with the same error and
/// leaves the same names.
pub proof fn lemma_parse_n_fails<T: Parsable>(s: Seq<u8>, i: nat, count: nat)
    requires
        i <= count,
        spec_parse_n::<T>(s, i) is Err,
    ensures
        spec_parse_n::<T>(s, count) == spec_parse_n::<T>(s, i),
        spec_trail_n::<T>(s, count) == spec_trail_n::<T>(s, i),
    decreases count,
{
    if i < count {
        lemma_parse_n_fails::<T>(s, i, (count - 1) as nat);
    }
}

/// The names that a failed decoding of a vector leaves on the trail.
pub open spec fn spec_trail_vec<T: Parsable>(s: Seq<u8>) -> Seq<&'static str> {
    match spec_u32(s) {
        Err(_) => trail_of::<u32>(s),
        Ok((count, used)) => spec_trail_n::<T>(s.skip(used as int), count as nat),
    }
}

/// A vector: its length as a `u32`, then that many items.
pub open spec fn spec_parse_vec<T: Parsable>(s: Seq<u8>) -> Decoded<Seq<T::V>> {
    match spec_u32(s) {
        Err(e) => Err(e),
        Ok((count, used)) => match spec_parse_n::<T>(s.skip(used as int), count as nat) {
            Err(e) => Err(e),
            Ok((items, n)) => Ok((items, used + n)),
        },
    }
}

/// Decodes `count` items in a row.
pub fn parse_n<T: Parsable>(data: &mut Cursor<'_>, stack: &mut Vec<&'static str>, count: u32) -> (r:
    Result<Vec<T>, ParseError>)
    requires
        old(data).wf(),
    ensures
        decodes(*old(data), *final(data), r, spec_parse_n::<T>(old(data).rest(), count as nat)),
        trail_after(
            old(stack)@,
            final(stack)@,
            r is Ok,
            spec_trail_n::<T>(old(data).rest(), count as nat),
        ),
{
    let mut out: Vec<T> = Vec::new();
    let mut i: u32 = 0;
    let ghost s = data.rest();
    let ghost start = *data;
    assert(out.deep_view() =~= Seq::<T::V>::empty());
    while i < count
        invariant
            i <= count,
            data.wf(),
            data.data == start.data,
            start.wf(),
            start == *old(data),
            s == start.rest(),
            stack@ == old(stack)@,
            spec_parse_n::<T>(s, i as nat) == Ok::<(Seq<T::V>, nat), ParseError>(
                (out.deep_view(), (data.pos - start.pos) as nat),
            ),
            data.pos >= start.pos,
        decreases count - i,
    {
        let ghost before = *data;
        let ghost items = out.deep_view();
        proof {
            lemma_advance(start, before, (before.pos - start.pos) as nat);
        }
        match T::parse(data, stack) {
            Ok(item) => {
                proof {
                    assert(out@.push(item).len() == out@.len() + 1);
                }
                out.push(item);
                proof {
                    assert(out.deep_view() =~= items.push(item.deep_view()));
                }
                i = i + 1;
            },
            Err(e) => {
                proof {
                    assert(T::spec_parse(s.skip((before.pos - start.pos) as int)) is Err);
                    assert(spec_parse_n::<T>(s, (i + 1) as nat) == Err::<(Seq<T::V>, nat), ParseError>(e));
                    lemma_parse_n_fails::<T>(s, (i + 1) as nat, count as nat);
                }
                return Err(e);
            },
        }
    }
    Ok(out)
}

impl<T: Parsable> Parsable for Vec<T> {
    open spec fn spec_parse(s: Seq<u8>) -> Decoded<Seq<T::V>> {
        spec_parse_vec::<T>(s)
    }

    open spec fn spec_name() -> &'static str {
        "Vec"
    }

    open spec fn spec_trail(s: Seq<u8>) -> Seq<&'static str> {
        spec_trail_vec::<T>(s)
    }

    fn name() -> (n: &'static str) {
        "Vec"
    }

    fn parse_inner(data: &mut Cursor<'_>, stack: &mut Vec<&'static str>) -> (r: Result<
        Self,
        ParseError,
    >) {
        let ghost start = *data;
        let count = match u32::parse(data, stack) {
            Ok(c) => c,
            Err(e) => {
                return Err(e);
            },
        };
        proof {
            lemma_advance(start, *data, (data.pos - start.pos) as nat);
        }
        parse_n::<T>(data, stack, count)
    }
}

} // verus!
