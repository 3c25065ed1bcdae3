//! The stream with several handles on several threads: one core behind a
//! lock, and beside it the state of the wait protocol.

use crate::state::StreamState;
use crate::stream::AnyStream;
use crate::stream::MockStream;
use crate::wait::WaitState;
use std::io::Error;
use std::io::Read;
use std::io::Write;
use std::sync::atomic::AtomicBool;
use std::sync::atomic::Ordering;
use std::sync::Arc;
use vstd::prelude::*;
use vstd::rwlock::RwLock;
use vstd::rwlock::RwLockPredicate;
use vstd::slice::slice_to_vec;

verus! {

/// The rule for what the cell of the expected bytes may hold: any bytes.
pub struct AnyBytes;

impl RwLockPredicate<Vec<u8>> for AnyBytes {
    open spec fn inv(self, bytes: Vec<u8>) -> bool {
        true
    }
}

/// Calls `Arc::clone`. Not proved: that the new pointer points to the same
/// allocation as `shared`, which is what the standard library documents and
/// what equality of the two means here.
#[verifier::external_body]
fn share_arc<T>(shared: &Arc<T>) -> (handle: Arc<T>)
    ensures
        handle == *shared,
{
    Arc::clone(shared)
}

/// What a write does once the lock is held, given what was found: the shared
/// stream, the state of the wait protocol and the bytes waited for.
///
/// All of `buf` goes behind what the stream's write buffer held. The state
/// that comes back is the one to go on with: a wait ends when `expected`
/// stands somewhere in all that the write buffer now holds, the bytes of
/// earlier writes included, and an idle stream stays idle.
pub fn write_in_state(
    core: &mut MockStream,
    state: WaitState,
    expected: &[u8],
    buf: &[u8],
) -> (outcome: (Result<usize, Error>, WaitState))
    ensures
        outcome.0 matches Ok(count) && count == buf@.len(),
        final(core)@ == old(core)@.write(buf@),
        outcome.1 == state.after_write(old(core)@.written + buf@, expected@),
{
    let result = core.write(buf);
    let next = state.on_write(core.peek_bytes_written().as_slice(), expected);
    (result, next)
}

/// A handle on a stream that handles on other threads share. A clone is a
/// second handle on the same stream, on the same waiting flag and on the same
/// expected bytes.
///
/// Every operation takes the lock, works on the stream as `MockStream` does,
/// and gives the lock back. The stream's state, the flag and the expected
/// bytes are no part of a handle's value, since another thread may change
/// them between any two calls. The contracts below therefore say what holds
/// whatever was found; what is done with it is the contract of the
/// `MockStream` operation of the same name, of `write_in_state` for a write
/// and of `read_in_state` for a read.
pub struct SyncMockStream {
    pimpl: Arc<RwLock<MockStream, AnyStream>>,
    /// Set while reads are held back. It stands beside the lock, so that a
    /// reader that looks at it is never in the way of a writer.
    pub waiting_for_write: Arc<AtomicBool>,
    expected_bytes: Arc<RwLock<Vec<u8>, AnyBytes>>,
}

impl SyncMockStream {
    /// Creates a handle on a new, empty stream on which nobody waits.
    pub fn new() -> (handle: SyncMockStream) {
        SyncMockStream {
            pimpl: Arc::new(RwLock::new(MockStream::new(), Ghost(AnyStream))),
            waiting_for_write: Arc::new(AtomicBool::new(false)),
            expected_bytes: Arc::new(RwLock::new(Vec::new(), Ghost(AnyBytes))),
        }
    }

    /// The state of the wait protocol, as the flag has it at this moment.
    /// Another thread may change the flag at any time, so nothing is known of
    /// the state read.
    fn wait_state(&self) -> WaitState {
        WaitState::from_flag(self.waiting_for_write.load(Ordering::Relaxed))
    }

    /// Sets the flag to stand for `state`.
    fn set_wait_state(&self, state: WaitState) {
        self.waiting_for_write.store(state.is_waiting(), Ordering::Relaxed)
    }

    /// Holds reads back, through every handle, until `expected_bytes` have
    /// been written.
    pub fn wait_for(&mut self, expected_bytes: &[u8])
        ensures
            *final(self) == *old(self),
    {
        let (_, cell) = self.expected_bytes.acquire_write();
        cell.release_write(slice_to_vec(expected_bytes));
        self.set_wait_state(WaitState::Waiting);
    }

    /// A copy of the bytes waited for, as `wait_for` stored them last; no
    /// bytes where it was never called.
    pub fn expected_bytes(&self) -> (expected: Vec<u8>) {
        let cell = self.expected_bytes.acquire_read();
        let expected = cell.borrow().clone();
        cell.release_read();
        expected
    }

    /// Queues `bytes` on the shared stream, for reads through any handle.
    pub fn push_bytes_to_read(&mut self, bytes: &[u8])
        ensures
            *final(self) == *old(self),
    {
        let (mut core, lock) = self.pimpl.acquire_write();
        core.push_bytes_to_read(bytes);
        lock.release_write(core);
    }

    /// Takes out all bytes written to the shared stream, through any handle,
    /// since the last pop.
    pub fn pop_bytes_written(&mut self) -> (written: Vec<u8>)
        ensures
            *final(self) == *old(self),
    {
        let (mut core, lock) = self.pimpl.acquire_write();
        let written = core.pop_bytes_written();
        lock.release_write(core);
        written
    }

    /// One attempt at a read, for a caller that has looked at the state of
    /// the wait protocol itself. In the state `Waiting` it returns `None`
    /// without taking the lock and leaves `buf` as it is. In the state `Idle`
    /// it takes the lock, reads from the shared stream as `MockStream` reads,
    /// and returns the result in `Some`.
    pub fn read_in_state(&mut self, state: WaitState, buf: &mut [u8]) -> (attempt: Option<
        Result<usize, Error>,
    >)
        ensures
            *final(self) == *old(self),
            attempt is None <==> state.holds_back_reads(),
            attempt is None ==> final(buf)@ == old(buf)@,
            attempt is Some ==> exists|found: StreamState|
                {
                    &&& attempt matches Some(Ok(count))
                    &&& count == found.read_count(old(buf)@.len())
                    &&& final(buf)@ == #[trigger] found.fill(old(buf)@)
                },
    {
        if state.is_waiting() {
            return None;
        }
        let (mut core, lock) = self.pimpl.acquire_write();
        let result = core.read(buf);
        lock.release_write(core);
        Some(result)
    }

    /// One attempt at a read. While reads are held back, it returns `None`
    /// without taking the lock and leaves `buf` as it is: the caller rests
    /// for `POLL_INTERVAL_MILLIS` and tries again. Otherwise it reads from
    /// the shared stream as `MockStream` reads and returns the result.
    ///
    /// Whether reads are held back is what the flag says at the moment of the
    /// call; `read_in_state` says what is done for either answer.
    pub fn poll_read(&mut self, buf: &mut [u8]) -> (attempt: Option<Result<usize, Error>>)
        ensures
            *final(self) == *old(self),
            attempt is None ==> final(buf)@ == old(buf)@,
            attempt is Some ==> exists|found: StreamState|
                {
                    &&& attempt matches Some(Ok(count))
                    &&& count == found.read_count(old(buf)@.len())
                    &&& final(buf)@ == #[trigger] found.fill(old(buf)@)
                },
    {
        let state = self.wait_state();
        self.read_in_state(state, buf)
    }
}

impl Default for SyncMockStream {
    fn default() -> (handle: SyncMockStream) {
        SyncMockStream::new()
    }
}

impl Clone for SyncMockStream {
    /// Another handle on the same stream, flag and expected bytes.
    fn clone(&self) -> (handle: SyncMockStream)
        ensures
            handle == *self,
    {
        SyncMockStream {
            pimpl: share_arc(&self.pimpl),
            waiting_for_write: share_arc(&self.waiting_for_write),
            expected_bytes: share_arc(&self.expected_bytes),
        }
    }
}

impl Write for SyncMockStream {
    /// Writes all of `buf` to the shared stream. Where reads are held back
    /// and the expected bytes now stand in what the write buffer holds, the
    /// write lets them go ahead again.
    ///
    /// Under the lock it does what `write_in_state` does with the stream, the
    /// state and the expected bytes that it finds, and it stores the state
    /// that comes back where that differs from the one found. A write
    /// therefore never sets the flag.
    fn write(&mut self, buf: &[u8]) -> (result: Result<usize, Error>)
        ensures
            *final(self) == *old(self),
            result matches Ok(count) && count == buf@.len(),
    {
        let (mut core, lock) = self.pimpl.acquire_write();
        let state = self.wait_state();
        let cell = self.expected_bytes.acquire_read();
        let (result, next) = write_in_state(&mut core, state, cell.borrow().as_slice(), buf);
        cell.release_read();
        if state.is_waiting() && !next.is_waiting() {
            self.set_wait_state(next);
        }
        lock.release_write(core);
        result
    }

    /// Does nothing, and succeeds.
    fn flush(&mut self) -> (result: Result<(), Error>)
        ensures
            *final(self) == *old(self),
            result is Ok,
    {
        let (mut core, lock) = self.pimpl.acquire_write();
        let result = core.flush();
        lock.release_write(core);
        result
    }
}

} // verus!
