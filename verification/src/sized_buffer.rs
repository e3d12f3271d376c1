//! An append-only byte accumulator with a hard capacity ceiling.
//!
//! The ceiling is enforced on every append, not only on a final total, so a
//! remote object's declared size never has to be trusted: however the bytes
//! arrive, the buffer never holds more than `max_size` of them.

use vstd::prelude::*;
use crate::error::Error;

verus! {

/// A byte buffer that accepts appends only while the total stays within the
/// capacity it was constructed with.
pub struct SizedBuffer {
    data: Vec<u8>,
    max_size: usize,
}

impl SizedBuffer {
    /// The bytes accumulated so far.
    pub closed spec fn bytes(&self) -> Seq<u8> {
        self.data@
    }

    /// The hard capacity ceiling.
    pub closed spec fn max(&self) -> nat {
        self.max_size as nat
    }

    /// The ceiling is never exceeded.
    pub open spec fn inv(&self) -> bool {
        self.bytes().len() <= self.max()
    }

    /// An empty buffer with ceiling `max_size`.
    pub fn new(max_size: usize) -> (r: Self)
        ensures
            r.inv(),
            r.bytes() == Seq::<u8>::empty(),
            r.max() == max_size as nat,
    {
        SizedBuffer { data: Vec::new(), max_size }
    }

    /// A capacity hint: may preallocate storage, never past the ceiling and
    /// never relaxing it. The contents are untouched.
    pub fn reserve(&mut self, size: usize)
        requires
            old(self).inv(),
        ensures
            final(self).bytes() == old(self).bytes(),
            final(self).max() == old(self).max(),
            final(self).inv(),
    {
        let remaining = self.max_size - self.data.len();
        let hint = if size < remaining { size } else { remaining };
        self.data.reserve(hint);
    }

    /// Appends `chunk` whole if it fits under the ceiling; otherwise appends
    /// nothing and fails with `SizeLimitExceeded`.
    pub fn write_all(&mut self, chunk: &[u8]) -> (r: Result<(), Error>)
        requires
            old(self).inv(),
        ensures
            final(self).inv(),
            final(self).max() == old(self).max(),
            old(self).bytes().len() + chunk@.len() <= old(self).max() ==> {
                &&& r == Ok::<(), Error>(())
                &&& final(self).bytes() == old(self).bytes() + chunk@
            },
            old(self).bytes().len() + chunk@.len() > old(self).max() ==> {
                &&& r == Err::<(), Error>(Error::SizeLimitExceeded)
                &&& *final(self) == *old(self)
            },
    {
        if chunk.len() > self.max_size - self.data.len() {
            return Err(Error::SizeLimitExceeded);
        }
        let mut i: usize = 0;
        while i < chunk.len()
            invariant
                i <= chunk@.len(),
                self.data@ == old(self).bytes() + chunk@.take(i as int),
                self.max_size == old(self).max_size,
            decreases chunk@.len() - i,
        {
            self.data.push(chunk[i]);
            proof {
                assert(old(self).bytes() + chunk@.take(i + 1)
                    =~= (old(self).bytes() + chunk@.take(i as int)).push(chunk@[i as int]));
            }
            i = i + 1;
        }
        proof {
            assert(chunk@.take(chunk@.len() as int) =~= chunk@);
        }
        Ok(())
    }

    /// The number of bytes held.
    pub fn len(&self) -> (r: usize)
        ensures
            r as nat == self.bytes().len(),
    {
        self.data.len()
    }

    /// Consumes the buffer, yielding the accumulated bytes.
    pub fn into_inner(self) -> (r: Vec<u8>)
        ensures
            r@ == self.bytes(),
    {
        self.data
    }
}

} // verus!
