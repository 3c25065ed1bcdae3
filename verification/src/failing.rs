//! The stream that fails on purpose: a counter of failures still to come.

use crate::io_error::injected_error;
use crate::io_error::new_io_error;
use std::io::Error;
use std::io::ErrorKind;
use std::io::Read;
use std::io::Write;
use vstd::prelude::*;

verus! {

/// What a failing stream holds: the error it reports and how often it still
/// does so. A negative count stands for "every time, for ever".
pub struct FailingState {
    /// The kind of the error reported.
    pub kind: ErrorKind,
    /// The message of the error reported.
    pub message: Seq<char>,
    /// The failures still to come; negative for failures without end.
    pub repeat_count: int,
}

/// Whether a call fails while `repeat_count` failures are still to come.
pub open spec fn fails_at(repeat_count: int) -> bool {
    repeat_count != 0
}

/// The count after one call: a positive count goes down by one, zero and
/// negative counts stay.
pub open spec fn count_after_call(repeat_count: int) -> int {
    if repeat_count > 0 {
        repeat_count - 1
    } else {
        repeat_count
    }
}

/// The count after `calls` calls.
pub open spec fn count_after_calls(repeat_count: int, calls: nat) -> int
    decreases calls,
{
    if calls == 0 {
        repeat_count
    } else {
        count_after_calls(count_after_call(repeat_count), (calls - 1) as nat)
    }
}

impl FailingState {
    /// What one read or write returns in this state: the configured error
    /// while failures are to come, and zero bytes transferred after that.
    pub open spec fn outcome(self) -> Result<usize, Error> {
        if fails_at(self.repeat_count) {
            Err(injected_error(self.kind, self.message))
        } else {
            Ok(0usize)
        }
    }

    /// The state after one read or write.
    pub open spec fn step(self) -> FailingState {
        FailingState {
            kind: self.kind,
            message: self.message,
            repeat_count: count_after_call(self.repeat_count),
        }
    }

    /// The state after `calls` reads or writes.
    pub open spec fn steps(self, calls: nat) -> FailingState {
        FailingState {
            kind: self.kind,
            message: self.message,
            repeat_count: count_after_calls(self.repeat_count, calls),
        }
    }
}

/// `FailingMockStream` stands for a stream whose reads and writes fail.
///
/// It reports the configured error a configured number of times, or without
/// end, and after that behaves as a stream at its end: zero bytes read, zero
/// bytes written. It holds no bytes and looks at none.
pub struct FailingMockStream {
    kind: ErrorKind,
    message: &'static str,
    repeat_count: i32,
}

impl View for FailingMockStream {
    type V = FailingState;

    closed spec fn view(&self) -> FailingState {
        FailingState {
            kind: self.kind,
            message: self.message@,
            repeat_count: self.repeat_count as int,
        }
    }
}

impl FailingMockStream {
    /// Creates a stream whose reads and writes fail `repeat_count` times with
    /// an error of the given `kind` and `message`. A negative `repeat_count`
    /// makes every call fail.
    pub fn new(kind: ErrorKind, message: &'static str, repeat_count: i32) -> (stream:
        FailingMockStream)
        ensures
            stream@ == (FailingState { kind, message: message@, repeat_count: repeat_count as int }),
    {
        FailingMockStream { kind, message, repeat_count }
    }

    /// One read or write: fails while failures are to come, and counts a
    /// failure off unless they are without end.
    ///
    /// A positive count fails with the configured error and goes down by one.
    /// A negative count fails with it and stays as it is. At zero the call
    /// succeeds with zero bytes and the count stays zero.
    pub fn error(&mut self) -> (result: Result<usize, Error>)
        ensures
            result == old(self)@.outcome(),
            final(self)@ == old(self)@.step(),
            old(self)@.repeat_count > 0 ==> {
                &&& result == Err::<usize, Error>(
                    injected_error(old(self)@.kind, old(self)@.message),
                )
                &&& final(self)@.repeat_count == old(self)@.repeat_count - 1
            },
            old(self)@.repeat_count < 0 ==> {
                &&& result == Err::<usize, Error>(
                    injected_error(old(self)@.kind, old(self)@.message),
                )
                &&& final(self)@ == old(self)@
            },
            old(self)@.repeat_count == 0 ==> {
                &&& result == Ok::<usize, Error>(0usize)
                &&& final(self)@ == old(self)@
            },
            final(self)@.kind == old(self)@.kind,
            final(self)@.message == old(self)@.message,
    {
        if self.repeat_count == 0 {
            Ok(0)
        } else {
            if self.repeat_count > 0 {
                self.repeat_count -= 1;
            }
            Err(new_io_error(self.kind, self.message))
        }
    }
}

impl Clone for FailingMockStream {
    fn clone(&self) -> (copy: FailingMockStream)
        ensures
            copy@ == self@,
    {
        FailingMockStream {
            kind: self.kind,
            message: self.message,
            repeat_count: self.repeat_count,
        }
    }
}

impl Read for FailingMockStream {
    /// Fails or reports the end of the stream, as the count has it. `buf` is
    /// left as it is.
    fn read(&mut self, buf: &mut [u8]) -> (result: Result<usize, Error>)
        ensures
            result == old(self)@.outcome(),
            final(self)@ == old(self)@.step(),
            final(buf)@ == old(buf)@,
    {
        self.error()
    }
}

impl Write for FailingMockStream {
    /// Fails or accepts zero bytes, as the count has it. `buf` is not looked
    /// at.
    fn write(&mut self, buf: &[u8]) -> (result: Result<usize, Error>)
        ensures
            result == old(self)@.outcome(),
            final(self)@ == old(self)@.step(),
    {
        self.error()
    }

    /// Always succeeds: failures come from reads and writes only.
    fn flush(&mut self) -> (result: Result<(), Error>)
        ensures
            result is Ok,
            final(self)@ == old(self)@,
    {
        Ok(())
    }
}

/// A finite count of failures: of the calls made on a stream created with a
/// count that is not negative, exactly the first `repeat_count` fail, each
/// with the configured error; every call after them transfers zero bytes.
/// The count itself goes down to zero and stays there.
pub proof fn law_fails_then_ends(state: FailingState, calls: nat)
    requires
        state.repeat_count >= 0,
    ensures
        calls < state.repeat_count ==> state.steps(calls).outcome() == Err::<usize, Error>(
            injected_error(state.kind, state.message),
        ),
        calls >= state.repeat_count ==> state.steps(calls).outcome() == Ok::<usize, Error>(0usize),
        state.steps(calls).repeat_count == if calls < state.repeat_count {
            state.repeat_count - calls
        } else {
            0
        },
    decreases calls,
{
    if calls > 0 {
        law_fails_then_ends(state.step(), (calls - 1) as nat);
    }
}

/// Failures without end: on a stream created with a negative count every call
/// fails with the configured error, however many calls came before, and the
/// count never changes.
pub proof fn law_fails_for_ever(state: FailingState, calls: nat)
    requires
        state.repeat_count < 0,
    ensures
        state.steps(calls) == state,
        state.steps(calls).outcome() == Err::<usize, Error>(
            injected_error(state.kind, state.message),
        ),
    decreases calls,
{
    if calls > 0 {
        law_fails_for_ever(state.step(), (calls - 1) as nat);
    }
}

/// Calls add up: the state after `calls + 1` calls is one step on from the
/// state after `calls` calls.
pub proof fn law_steps_compose(state: FailingState, calls: nat)
    ensures
        state.steps(0) == state,
        state.steps(calls + 1) == state.steps(calls).step(),
    decreases calls,
{
    let count = state.repeat_count;
    assert(count_after_calls(count, calls + 1) == count_after_calls(
        count_after_call(count),
        calls,
    ));
    if calls > 0 {
        law_steps_compose(state.step(), (calls - 1) as nat);
    }
}

} // verus!
