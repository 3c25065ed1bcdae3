//! The stream with one owner: a read cursor and a write buffer.

use crate::cursor::ReadCursor;
use crate::state::StreamState;
use std::io::Error;
use std::io::Read;
use std::io::Write;
use vstd::predicate::Predicate;
use vstd::prelude::*;
use vstd::rwlock::RwLockPredicate;

verus! {

/// A stream that hands out the bytes pushed to it and keeps the bytes written
/// to it. It never blocks and never fails: a read with nothing left to hand
/// out transfers zero bytes.
pub struct MockStream {
    reader: ReadCursor,
    writer: Vec<u8>,
}

impl View for MockStream {
    type V = StreamState;

    closed spec fn view(&self) -> StreamState {
        StreamState {
            position: self.reader.offset(),
            unread: self.reader.unread(),
            written: self.writer@,
        }
    }
}

/// The rule for what a cell or a lock that holds a stream may hold: any
/// stream at all. A stream has no state that its own operations could not
/// have left it in.
pub struct AnyStream;

impl Predicate<MockStream> for AnyStream {
    open spec fn predicate(&self, stream: MockStream) -> bool {
        true
    }
}

impl RwLockPredicate<MockStream> for AnyStream {
    open spec fn inv(self, stream: MockStream) -> bool {
        true
    }
}

impl MockStream {
    /// Creates an empty stream.
    pub fn new() -> (stream: MockStream)
        ensures
            stream@ == StreamState::empty(),
    {
        MockStream { reader: ReadCursor::new(), writer: Vec::new() }
    }

    /// Shows all bytes written since the last pop, and leaves them in place.
    pub fn peek_bytes_written(&mut self) -> (written: &Vec<u8>)
        ensures
            written@ == old(self)@.peeked(),
            final(self)@ == old(self)@,
    {
        &self.writer
    }

    /// Takes out all bytes written since the last pop.
    pub fn pop_bytes_written(&mut self) -> (written: Vec<u8>)
        ensures
            written@ == old(self)@.popped(),
            final(self)@ == old(self)@.pop(),
    {
        let mut result = Vec::new();
        std::mem::swap(&mut result, &mut self.writer);
        result
    }

    /// Queues `bytes` to be handed out by later reads. A read buffer that has
    /// been read to its end is dropped first, so that it does not grow without
    /// bound.
    pub fn push_bytes_to_read(&mut self, bytes: &[u8])
        ensures
            final(self)@ == old(self)@.push_to_read(bytes@),
    {
        if self.reader.is_consumed() {
            self.reader = ReadCursor::new();
        }
        self.reader.append(bytes);
    }
}

impl Default for MockStream {
    fn default() -> (stream: MockStream)
        ensures
            stream@ == StreamState::empty(),
    {
        MockStream::new()
    }
}

impl Clone for MockStream {
    /// The copy has its own buffers: it starts in the same state as this
    /// stream and shares nothing with it.
    fn clone(&self) -> (copy: MockStream)
        ensures
            copy@ == self@,
    {
        MockStream { reader: self.reader.clone(), writer: self.writer.clone() }
    }
}

impl Read for MockStream {
    /// Hands out unread bytes, as many as there are or as fit in `buf`.
    /// Zero bytes means that nothing is left to read; it is no error.
    fn read(&mut self, buf: &mut [u8]) -> (result: Result<usize, Error>)
        ensures
            result matches Ok(count) && count == old(self)@.read_count(old(buf)@.len()),
            final(self)@ == old(self)@.read(old(buf)@.len()),
            final(buf)@ == old(self)@.fill(old(buf)@),
    {
        let count = self.reader.read(buf);
        Ok(count)
    }
}

impl Write for MockStream {
    /// Keeps all of `buf` behind what was written before.
    fn write(&mut self, buf: &[u8]) -> (result: Result<usize, Error>)
        ensures
            result matches Ok(count) && count == buf@.len(),
            final(self)@ == old(self)@.write(buf@),
    {
        self.writer.extend_from_slice(buf);
        Ok(buf.len())
    }

    /// Does nothing: no byte is held back anywhere.
    fn flush(&mut self) -> (result: Result<(), Error>)
        ensures
            result is Ok,
            final(self)@ == old(self)@,
    {
        Ok(())
    }
}

} // verus!
