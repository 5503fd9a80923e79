use vstd::prelude::*;
use vstd::slice::slice_subrange;
use super::error::ParseError;

verus! {

/// A read position over an immutable byte slice.
pub struct Cursor<'a> {
    pub data: &'a [u8],
    pub pos: usize,
}

impl<'a> Cursor<'a> {
    /// The position lies within the data or just behind its last byte.
    pub open spec fn wf(&self) -> bool {
        self.pos <= self.data@.len()
    }

    /// The bytes that have not been read yet.
    pub open spec fn rest(&self) -> Seq<u8> {
        self.data@.skip(self.pos as int)
    }

    /// A cursor at the start of `data`.
    pub fn new(data: &'a [u8]) -> (c: Self)
        ensures
            c.data == data,
            c.pos == 0,
            c.wf(),
            c.rest() == data@,
    {
        Cursor { data, pos: 0 }
    }

    /// Number of bytes left to read.
    pub fn remaining(&self) -> (n: usize)
        requires
            self.wf(),
        ensures
            n == self.rest().len(),
    {
        self.data.len() - self.pos
    }

    /// True when every byte has been read.
    pub fn is_empty(&self) -> (b: bool)
        requires
            self.wf(),
        ensures
            b == (self.rest().len() == 0),
    {
        self.pos == self.data.len()
    }

    /// Reads one byte and steps over it.
    pub fn read_u8(&mut self) -> (r: Result<u8, ParseError>)
        requires
            old(self).wf(),
        ensures
            final(self).wf(),
            final(self).data == old(self).data,
            old(self).rest().len() == 0 ==> r == Err::<u8, ParseError>(ParseError::UnexpectedEof)
                && final(self).pos == old(self).pos,
            old(self).rest().len() > 0 ==> r == Ok::<u8, ParseError>(old(self).rest()[0])
                && final(self).pos == old(self).pos + 1,
    {
        if self.pos < self.data.len() {
            let b = self.data[self.pos];
            self.pos = self.pos + 1;
            Ok(b)
        } else {
            Err(ParseError::UnexpectedEof)
        }
    }

    /// Hands out the next `n` bytes and steps over them.
    pub fn read_exact(&mut self, n: usize) -> (r: Result<&'a [u8], ParseError>)
        requires
            old(self).wf(),
        ensures
            final(self).wf(),
            final(self).data == old(self).data,
            old(self).rest().len() < n ==> r is Err && r->Err_0 == ParseError::UnexpectedEof
                && final(self).pos == old(self).pos,
            old(self).rest().len() >= n ==> r is Ok && r->Ok_0@ == old(self).rest().take(n as int)
                && final(self).pos == old(self).pos + n,
    {
        if self.data.len() - self.pos >= n {
            let out = slice_subrange(self.data, self.pos, self.pos + n);
            self.pos = self.pos + n;
            Ok(out)
        } else {
            Err(ParseError::UnexpectedEof)
        }
    }
}

/// A cursor that has moved on by `n` bytes has the old rest without its
/// first `n` bytes before it.
pub proof fn lemma_advance(pre: Cursor, post: Cursor, n: nat)
    requires
        pre.wf(),
        post.wf(),
        post.data == pre.data,
        post.pos == pre.pos + n,
    ensures
        post.rest() == pre.rest().skip(n as int),
        n <= pre.rest().len(),
{
    assert(post.rest() =~= pre.rest().skip(n as int));
}

} // verus!
