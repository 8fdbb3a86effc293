//! A reading position in a buffer of received bytes.
use vstd::prelude::*;

use crate::socks5_impl::error::Error;

verus! {

/// A buffer of received bytes and how far into it a reader has got.
pub struct Cursor<'a> {
    data: &'a [u8],
    pos: usize,
}

impl<'a> Cursor<'a> {
    #[verifier::type_invariant]
    spec fn in_bounds(self) -> bool {
        self.pos <= self.data@.len()
    }

    /// All bytes of the buffer, read or not.
    pub closed spec fn source(self) -> Seq<u8> {
        self.data@
    }

    /// Number of bytes read so far.
    pub closed spec fn consumed(self) -> nat {
        self.pos as nat
    }

    /// The bytes not read yet.
    pub open spec fn remaining(self) -> Seq<u8> {
        self.source().skip(self.consumed() as int)
    }

    /// A cursor at the start of `data`.
    pub fn new(data: &'a [u8]) -> (c: Cursor<'a>)
        ensures
            c.source() == data@,
            c.consumed() == 0,
    {
        Cursor { data, pos: 0 }
    }

    /// Number of bytes read so far.
    pub fn position(&self) -> (n: usize)
        ensures
            n == self.consumed(),
            n <= self.source().len(),
    {
        proof {
            use_type_invariant(self);
        }
        self.pos
    }

    /// The bytes not read yet.
    pub fn rest(&self) -> (s: &'a [u8])
        ensures
            s@ == self.remaining(),
            self.consumed() <= self.source().len(),
    {
        proof {
            use_type_invariant(self);
        }
        vstd::slice::slice_subrange(self.data, self.pos, self.data.len())
    }

    /// Moves the position forward by `n` bytes.
    pub fn advance(&mut self, n: usize)
        requires
            n <= old(self).remaining().len(),
        ensures
            final(self).source() == old(self).source(),
            final(self).consumed() == old(self).consumed() + n,
            final(self).remaining() == old(self).remaining().skip(n as int),
    {
        proof {
            use_type_invariant(&*self);
            vstd::slice::axiom_spec_len(self.data);
            assert(self.remaining().len() == self.data@.len() - self.pos);
        }
        self.pos = self.pos + n;
        assert(self.remaining() =~= old(self).remaining().skip(n as int));
    }

    /// Takes the next `n` bytes. Where fewer are left, the read fails, says
    /// how many are missing, and the bytes that were left are gone: the
    /// cursor stands at the end.
    pub fn read_exact(&mut self, n: usize) -> (r: Result<&'a [u8], Error>)
        ensures
            final(self).source() == old(self).source(),
            match r {
                Ok(bytes) => {
                    &&& n <= old(self).remaining().len()
                    &&& bytes@ == old(self).remaining().take(n as int)
                    &&& final(self).consumed() == old(self).consumed() + n
                },
                Err(e) => {
                    &&& n > old(self).remaining().len()
                    &&& e == (Error::Incomplete {
                        needed: (n - old(self).remaining().len()) as usize,
                    })
                    &&& final(self).consumed() == old(self).source().len()
                },
            },
    {
        proof {
            use_type_invariant(&*self);
        }
        let left = self.data.len() - self.pos;
        if n > left {
            self.pos = self.data.len();
            return Err(Error::Incomplete { needed: n - left });
        }
        let bytes = vstd::slice::slice_subrange(self.data, self.pos, self.pos + n);
        assert(bytes@ =~= self.remaining().take(n as int));
        self.pos = self.pos + n;
        Ok(bytes)
    }
}

} // verus!
