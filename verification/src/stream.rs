//! A byte stream held in memory, read from the front.

use vstd::prelude::*;

verus! {

/// A finite stream of bytes. Its view is what has not been read yet.
#[derive(Debug)]
pub struct ByteStream {
    bytes: Vec<u8>,
    position: usize,
}

impl View for ByteStream {
    type V = Seq<u8>;

    closed spec fn view(&self) -> Seq<u8> {
        self.bytes@.skip(self.position as int)
    }
}

/// The smaller of a requested count and the number of bytes at hand.
pub open spec fn granted(limit: nat, available: nat) -> nat {
    if limit <= available {
        limit
    } else {
        available
    }
}

impl ByteStream {
    #[verifier::type_invariant]
    spec fn within_bounds(&self) -> bool {
        self.position <= self.bytes.len()
    }

    /// A stream that will yield `bytes`, first to last, and then end.
    pub fn new(bytes: Vec<u8>) -> (stream: Self)
        ensures
            stream@ == bytes@,
    {
        ByteStream { bytes, position: 0 }
    }

    /// Number of bytes not read yet.
    pub fn remaining(&self) -> (count: usize)
        ensures
            count == self@.len(),
    {
        proof {
            use_type_invariant(self);
        }
        self.bytes.len() - self.position
    }

    /// Takes up to `limit` bytes off the front of the stream. Fewer come
    /// back only when the stream ends first; none when it has ended.
    pub fn read(&mut self, limit: usize) -> (out: Vec<u8>)
        ensures
            out@ == old(self)@.take(granted(limit as nat, old(self)@.len()) as int),
            final(self)@ == old(self)@.skip(granted(limit as nat, old(self)@.len()) as int),
    {
        proof {
            use_type_invariant(&*self);
        }
        let start: usize = self.position;
        let available: usize = self.bytes.len() - start;
        let count: usize = if limit <= available {
            limit
        } else {
            available
        };
        let mut out: Vec<u8> = Vec::new();
        let mut taken: usize = 0;
        while taken < count
            invariant
                taken <= count,
                start + count <= self.bytes.len(),
                self.position == start,
                self.bytes == old(self).bytes,
                out@ == self.bytes@.subrange(start as int, start + taken),
            decreases count - taken,
        {
            out.push(self.bytes[start + taken]);
            taken = taken + 1;
        }
        self.position = start + count;
        out
    }
}

} // verus!
