//! The stream with several handles on one thread: every handle works on the
//! same core.

use crate::state::StreamState;
use crate::stream::AnyStream;
use crate::stream::MockStream;
use std::io::Error;
use std::io::Read;
use std::io::Write;
use std::rc::Rc;
use vstd::cell::invcell::InvCell;
use vstd::prelude::*;

verus! {

/// Calls `Rc::clone`. Not proved: that the new pointer points to the same
/// allocation as `shared`, which is what the standard library documents and
/// what equality of the two means here.
#[verifier::external_body]
fn share_rc<T>(shared: &Rc<T>) -> (handle: Rc<T>)
    ensures
        handle == *shared,
{
    Rc::clone(shared)
}

/// A handle on a stream that other handles share. A clone is a second handle
/// on the same stream, not a copy of it: what one handle pushes, another
/// reads. For use on one thread.
///
/// The stream's state is no part of a handle's value, since another handle may
/// change it between any two calls. The contracts below therefore say what
/// holds whatever state the stream was found in; what each operation does to
/// that state is the contract of the `MockStream` operation of the same name.
pub struct SharedMockStream {
    pimpl: Rc<InvCell<MockStream, AnyStream>>,
}

impl SharedMockStream {
    /// Creates a handle on a new, empty stream.
    pub fn new() -> (handle: SharedMockStream) {
        SharedMockStream { pimpl: Rc::new(InvCell::new(MockStream::new(), Ghost(AnyStream))) }
    }

    /// Queues `bytes` on the shared stream, for reads through any handle.
    pub fn push_bytes_to_read(&mut self, bytes: &[u8])
        ensures
            *final(self) == *old(self),
    {
        let mut core = self.pimpl.replace(MockStream::new());
        core.push_bytes_to_read(bytes);
        let _ = self.pimpl.replace(core);
    }

    /// Takes out all bytes written to the shared stream, through any handle,
    /// since the last pop.
    pub fn pop_bytes_written(&mut self) -> (written: Vec<u8>)
        ensures
            *final(self) == *old(self),
    {
        let mut core = self.pimpl.replace(MockStream::new());
        let written = core.pop_bytes_written();
        let _ = self.pimpl.replace(core);
        written
    }
}

impl Default for SharedMockStream {
    fn default() -> (handle: SharedMockStream) {
        SharedMockStream::new()
    }
}

impl Clone for SharedMockStream {
    /// Another handle on the same stream.
    fn clone(&self) -> (handle: SharedMockStream)
        ensures
            handle == *self,
    {
        SharedMockStream { pimpl: share_rc(&self.pimpl) }
    }
}

impl Read for SharedMockStream {
    /// Reads from the shared stream as `MockStream` reads: for the state that
    /// the stream was in, `buf` is filled and the count returned as that
    /// state has it.
    fn read(&mut self, buf: &mut [u8]) -> (result: Result<usize, Error>)
        ensures
            *final(self) == *old(self),
            exists|found: StreamState|
                {
                    &&& result matches Ok(count)
                    &&& count == found.read_count(old(buf)@.len())
                    &&& final(buf)@ == #[trigger] found.fill(old(buf)@)
                },
    {
        let mut core = self.pimpl.replace(MockStream::new());
        let result = core.read(buf);
        let _ = self.pimpl.replace(core);
        result
    }
}

impl Write for SharedMockStream {
    /// Writes all of `buf` to the shared stream.
    fn write(&mut self, buf: &[u8]) -> (result: Result<usize, Error>)
        ensures
            *final(self) == *old(self),
            result matches Ok(count) && count == buf@.len(),
    {
        let mut core = self.pimpl.replace(MockStream::new());
        let result = core.write(buf);
        let _ = self.pimpl.replace(core);
        result
    }

    /// Does nothing, and succeeds.
    fn flush(&mut self) -> (result: Result<(), Error>)
        ensures
            *final(self) == *old(self),
            result is Ok,
    {
        let mut core = self.pimpl.replace(MockStream::new());
        let result = core.flush();
        let _ = self.pimpl.replace(core);
        result
    }
}

} // verus!
