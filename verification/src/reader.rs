//! A sequential source of bytes over a borrowed buffer.

use crate::errors::IoError;
use vstd::prelude::*;

verus! {

/// Hands out the bytes of a borrowed buffer front to back and keeps count of
/// how many it has handed out.
#[derive(Debug)]
pub struct ByteReader<'a> {
    data: &'a [u8],
    position: usize,
}

impl<'a> ByteReader<'a> {
    #[verifier::type_invariant]
    spec fn position_in_bounds(&self) -> bool {
        self.position <= self.data@.len()
    }

    /// The number of bytes handed out so far.
    pub closed spec fn consumed(&self) -> nat {
        self.position as nat
    }

    /// The bytes not handed out yet, in the order in which they will come.
    pub closed spec fn remaining(&self) -> Seq<u8> {
        self.data@.skip(self.position as int)
    }

    /// A reader that stands before the first byte of `data`.
    pub fn new(data: &'a [u8]) -> (reader: Self)
        ensures
            reader.consumed() == 0,
            reader.remaining() == data@,
    {
        ByteReader { data, position: 0 }
    }

    /// The number of bytes handed out so far.
    pub fn position(&self) -> (position: usize)
        ensures
            position == self.consumed(),
    {
        self.position
    }

    /// Fills `buf` with the next bytes and moves past them. If fewer bytes are
    /// left than `buf` holds, nothing is read: `buf` and the reader stay as
    /// they are and the end of the data is reported.
    pub fn read_exact(&mut self, buf: &mut [u8]) -> (r: Result<(), IoError>)
        ensures
            r is Ok <==> old(buf)@.len() <= old(self).remaining().len(),
            r is Err ==> r == Err::<(), IoError>(IoError::UnexpectedEof),
            r is Ok ==> final(buf)@ == old(self).remaining().take(old(buf)@.len() as int),
            r is Ok ==> final(self).remaining() == old(self).remaining().skip(
                old(buf)@.len() as int,
            ),
            r is Ok ==> final(self).consumed() == old(self).consumed() + old(buf)@.len(),
            r is Err ==> final(buf)@ == old(buf)@,
            r is Err ==> final(self).remaining() == old(self).remaining(),
            r is Err ==> final(self).consumed() == old(self).consumed(),
    {
        proof {
            use_type_invariant(&*self);
        }
        let wanted: usize = buf.len();
        if wanted > self.data.len() - self.position {
            return Err(IoError::UnexpectedEof);
        }
        let start: usize = self.position;
        let mut i: usize = 0;
        while i < wanted
            invariant
                i <= wanted,
                wanted == buf@.len(),
                start + wanted <= self.data@.len(),
                start + wanted <= usize::MAX,
                forall|k: int| 0 <= k < i ==> buf@[k] == self.data@[start + k],
            decreases wanted - i,
        {
            buf[i] = self.data[start + i];
            i += 1;
        }
        self.position = start + wanted;
        Ok(())
    }
}

} // verus!
