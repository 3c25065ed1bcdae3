//! The read side of a stream: a growable buffer and an offset into it.

use vstd::prelude::*;

verus! {

/// A buffer of bytes with a read offset. Reads hand out the bytes behind the
/// offset and move it forward; it never passes the end of the buffer.
pub struct ReadCursor {
    data: Vec<u8>,
    position: usize,
}

impl ReadCursor {
    #[verifier::type_invariant]
    spec fn offset_in_bounds(&self) -> bool {
        self.position <= self.data@.len()
    }

    /// The read offset.
    pub closed spec fn offset(&self) -> nat {
        self.position as nat
    }

    /// The bytes behind the offset, which reads have yet to hand out.
    pub closed spec fn unread(&self) -> Seq<u8> {
        self.data@.skip(self.position as int)
    }

    /// An empty buffer at offset zero.
    pub fn new() -> (cursor: ReadCursor)
        ensures
            cursor.offset() == 0,
            cursor.unread() == Seq::<u8>::empty(),
    {
        ReadCursor { data: Vec::new(), position: 0 }
    }

    /// Whether the offset stands at the end of the buffer.
    pub fn is_consumed(&self) -> (consumed: bool)
        ensures
            consumed == (self.unread().len() == 0),
    {
        proof {
            use_type_invariant(self);
        }
        self.position == self.data.len()
    }

    /// Puts `bytes` at the end of the buffer. The offset stays.
    pub fn append(&mut self, bytes: &[u8])
        ensures
            final(self).offset() == old(self).offset(),
            final(self).unread() == old(self).unread() + bytes@,
    {
        proof {
            use_type_invariant(&*self);
        }
        // The buffer is taken out while it grows, and the offset is parked at
        // zero meanwhile, so that the offset is in bounds at every step.
        let position = self.position;
        self.position = 0;
        let mut data = Vec::new();
        std::mem::swap(&mut data, &mut self.data);
        data.extend_from_slice(bytes);
        self.data = data;
        self.position = position;
    }

    /// Copies unread bytes to the front of `buf`, as many as there are or as
    /// fit, and moves the offset past them. Returns how many were copied.
    pub fn read(&mut self, buf: &mut [u8]) -> (count: usize)
        ensures
            count <= old(buf)@.len(),
            count <= old(self).unread().len(),
            count == old(buf)@.len() || count == old(self).unread().len(),
            final(self).offset() == old(self).offset() + count,
            final(self).unread() == old(self).unread().skip(count as int),
            final(buf)@ == old(self).unread().take(count as int) + old(buf)@.skip(count as int),
    {
        proof {
            use_type_invariant(&*self);
        }
        let available = self.data.len() - self.position;
        let count = if buf.len() <= available {
            buf.len()
        } else {
            available
        };
        let mut copied: usize = 0;
        while copied < count
            invariant
                copied <= count,
                count <= buf@.len(),
                self.position + count <= self.data.len(),
                buf@.len() == old(buf)@.len(),
                *self == *old(self),
                forall|k: int| 0 <= k < copied ==> buf@[k] == self.data@[self.position + k],
                forall|k: int| copied <= k < buf@.len() ==> buf@[k] == old(buf)@[k],
            decreases count - copied,
        {
            buf[copied] = self.data[self.position + copied];
            copied += 1;
        }
        self.position = self.position + count;
        count
    }
}

impl Clone for ReadCursor {
    fn clone(&self) -> (copy: ReadCursor)
        ensures
            copy.offset() == self.offset(),
            copy.unread() == self.unread(),
    {
        proof {
            use_type_invariant(self);
        }
        ReadCursor { data: self.data.clone(), position: self.position }
    }
}

} // verus!
