use vstd::prelude::*;
use vstd::slice::slice_subrange;
use super::error::RuntimeError;

verus! {

/// Number of bytes in a page.
pub const PAGE_SIZE: u64 = 65536;

/// The largest number of pages that a memory can have.
pub const MAX_PAGES: u64 = 65536;

/// A linear memory: whole pages of bytes, and the largest number of pages
/// that its declaration allows.
#[derive(Debug)]
pub struct Memory {
    pub data: Vec<u8>,
    pub max: Option<u32>,
}

impl View for Memory {
    type V = Seq<u8>;

    open spec fn view(&self) -> Seq<u8> {
        self.data@
    }
}

/// The bytes `s` with `bytes` written over them from index `at` on.
pub open spec fn overwrite(s: Seq<u8>, at: int, bytes: Seq<u8>) -> Seq<u8> {
    s.subrange(0, at) + bytes + s.subrange(at + bytes.len(), s.len() as int)
}

/// The access of `n` bytes at `addr + offset` lies within `len` bytes.
pub open spec fn in_bounds(len: nat, addr: u32, offset: u32, n: nat) -> bool {
    addr + offset + n <= len
}

/// The number of pages after growing `len` bytes by `n` pages, where the
/// growth is allowed: no more than 65536 pages, no more than the declared
/// maximum, and no more bytes than the machine can address.
pub open spec fn spec_grow(len: nat, max: Option<u32>, n: u32) -> Option<nat> {
    let pages = len / 65536 + n;
    if pages > 65536 || (max matches Some(m) && pages > m) || pages * 65536 > usize::MAX {
        None
    } else {
        Some(pages as nat)
    }
}

impl Memory {
    /// The memory is made of whole pages, at most 65536 of them.
    pub open spec fn wf(&self) -> bool {
        &&& self@.len() % 65536 == 0
        &&& self@.len() / 65536 <= 65536
    }

    /// The number of pages.
    pub open spec fn pages(&self) -> nat {
        self@.len() / 65536
    }

    /// A memory of `min` pages of zeros that may grow to `max` pages; none
    /// where `min` pages are more than a memory can hold.
    pub fn new(min: u32, max: Option<u32>) -> (r: Option<Memory>)
        ensures
            r is Some <==> spec_grow(0, max, min) is Some,
            r matches Some(m) ==> m.wf() && m.max == max && m@ == Seq::new(
                min as nat * 65536,
                |i: int| 0u8,
            ),
    {
        let mut m = Memory { data: Vec::new(), max };
        if m.grow(min) < 0 {
            None
        } else {
            proof {
                assert(m@ =~= Seq::new(min as nat * 65536, |i: int| 0u8));
            }
            Some(m)
        }
    }

    /// The current number of pages.
    pub fn size(&self) -> (p: u32)
        requires
            self.wf(),
        ensures
            p == self.pages(),
    {
        (self.data.len() / 65536) as u32
    }

    /// Adds `n` pages of zeros and returns the number of pages before, or -1
    /// where the memory cannot grow so far.
    pub fn grow(&mut self, n: u32) -> (r: i32)
        requires
            old(self).wf(),
        ensures
            final(self).wf(),
            final(self).max == old(self).max,
            match spec_grow(old(self)@.len(), old(self).max, n) {
                Some(pages) => r == old(self).pages() && final(self)@ == old(self)@ + Seq::new(
                    n as nat * 65536,
                    |i: int| 0u8,
                ) && final(self).pages() == pages,
                None => r == -1 && final(self)@ == old(self)@,
            },
    {
        let before: u64 = (self.data.len() / 65536) as u64;
        let pages: u64 = before + n as u64;
        if pages > MAX_PAGES {
            return -1;
        }
        match self.max {
            Some(m) => {
                if pages > m as u64 {
                    return -1;
                }
            },
            None => {},
        }
        let bytes: u64 = pages * PAGE_SIZE;
        if bytes > usize::MAX as u64 {
            return -1;
        }
        self.data.resize(bytes as usize, 0u8);
        proof {
            assert(self@ =~= old(self)@ + Seq::new(n as nat * 65536, |i: int| 0u8));
        }
        before as i32
    }

    /// The `n` bytes at `addr + offset`.
    pub fn read(&self, addr: u32, offset: u32, n: usize) -> (r: Result<&[u8], RuntimeError>)
        ensures
            in_bounds(self@.len(), addr, offset, n as nat) ==> r is Ok && r->Ok_0@
                == self@.subrange(addr + offset, addr + offset + n),
            !in_bounds(self@.len(), addr, offset, n as nat) ==> r is Err && r->Err_0
                == RuntimeError::OutOfBoundsMemoryAccess,
    {
        let ea: u64 = addr as u64 + offset as u64;
        let len = self.data.len();
        if n > len || ea > (len - n) as u64 {
            return Err(RuntimeError::OutOfBoundsMemoryAccess);
        }
        Ok(slice_subrange(self.data.as_slice(), ea as usize, ea as usize + n))
    }

    /// Writes `bytes` at `addr + offset`. Where they do not fit, nothing is
    /// written.
    pub fn write(&mut self, addr: u32, offset: u32, bytes: &[u8]) -> (r: Result<(), RuntimeError>)
        ensures
            final(self).max == old(self).max,
            in_bounds(old(self)@.len(), addr, offset, bytes@.len()) ==> r is Ok && final(self)@
                == overwrite(old(self)@, addr + offset, bytes@),
            !in_bounds(old(self)@.len(), addr, offset, bytes@.len()) ==> r is Err && r->Err_0
                == RuntimeError::OutOfBoundsMemoryAccess && final(self)@ == old(self)@,
            final(self)@.len() == old(self)@.len(),
    {
        let ea: u64 = addr as u64 + offset as u64;
        let len = self.data.len();
        let n = bytes.len();
        if n > len || ea > (len - n) as u64 {
            return Err(RuntimeError::OutOfBoundsMemoryAccess);
        }
        let at = ea as usize;
        let mut i: usize = 0;
        while i < n
            invariant
                i <= n,
                n == bytes@.len(),
                at + n <= self@.len(),
                self@.len() == len,
                self@.len() == old(self)@.len(),
                self.max == old(self).max,
                self@ == overwrite(old(self)@, at as int, bytes@.subrange(0, i as int)),
            decreases n - i,
        {
            self.data.set(at + i, bytes[i]);
            i = i + 1;
            proof {
                assert(self@ =~= overwrite(old(self)@, at as int, bytes@.subrange(0, i as int)));
            }
        }
        proof {
            assert(bytes@.subrange(0, n as int) =~= bytes@);
        }
        Ok(())
    }
}

} // verus!
