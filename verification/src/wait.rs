//! The wait protocol of the stream for several threads: a reader can ask to
//! be held back until an expected run of bytes has been written.
//!
//! The protocol has two states. `wait_for` moves to `Waiting`; a write moves
//! back to `Idle` once the expected bytes stand somewhere in all that has
//! been written and not popped; nothing else changes the state. While the
//! state is `Waiting`, reads do not go ahead.

use crate::pattern::find_subsequence;
use crate::pattern::law_occurrence_survives_append;
use crate::pattern::law_occurs_where_placed;
use crate::pattern::occurs_in;
use vstd::prelude::*;

verus! {

/// How long a held-back reader rests between two looks at the state, in
/// milliseconds.
pub const POLL_INTERVAL_MILLIS: u64 = 10;

/// The state of the wait protocol.
#[derive(Clone, Copy, PartialEq, Eq, Structural, Debug)]
pub enum WaitState {
    /// Nobody waits: reads go ahead.
    Idle,
    /// A reader waits for bytes to be written: reads are held back.
    Waiting,
}

impl WaitState {
    /// The state after `wait_for`, whatever it was before.
    pub open spec fn after_wait_for(self) -> WaitState {
        WaitState::Waiting
    }

    /// The state after a write that leaves `written` in the write buffer,
    /// while `expected` is the run of bytes waited for: a wait ends when
    /// `expected` stands in `written`, and a write never starts one.
    pub open spec fn after_write(self, written: Seq<u8>, expected: Seq<u8>) -> WaitState {
        if self == WaitState::Waiting && occurs_in(expected, written) {
            WaitState::Idle
        } else {
            self
        }
    }

    /// Whether a read is held back in this state.
    pub open spec fn holds_back_reads(self) -> bool {
        self == WaitState::Waiting
    }

    /// The state that a waiting flag stands for.
    pub fn from_flag(waiting: bool) -> (state: WaitState)
        ensures
            state == if waiting {
                WaitState::Waiting
            } else {
                WaitState::Idle
            },
    {
        if waiting {
            WaitState::Waiting
        } else {
            WaitState::Idle
        }
    }

    /// Whether this is the state in which reads are held back.
    pub fn is_waiting(self) -> (waiting: bool)
        ensures
            waiting == self.holds_back_reads(),
    {
        match self {
            WaitState::Waiting => true,
            WaitState::Idle => false,
        }
    }

    /// The state after a write. `written` is all that the write buffer holds
    /// once the write is done, not only the bytes of that write, so that a run
    /// of bytes that began in an earlier write is found too.
    pub fn on_write(self, written: &[u8], expected: &[u8]) -> (next: WaitState)
        ensures
            next == self.after_write(written@, expected@),
    {
        match self {
            WaitState::Idle => WaitState::Idle,
            WaitState::Waiting => {
                if find_subsequence(written, expected).is_some() {
                    WaitState::Idle
                } else {
                    WaitState::Waiting
                }
            },
        }
    }
}

/// A write ends a wait exactly when the expected bytes stand in what has been
/// written, and it leaves an idle stream idle: only `wait_for` starts a wait.
pub proof fn law_write_ends_wait(written: Seq<u8>, expected: Seq<u8>)
    ensures
        WaitState::Waiting.after_write(written, expected) == WaitState::Idle <==> occurs_in(
            expected,
            written,
        ),
        WaitState::Idle.after_write(written, expected) == WaitState::Idle,
        !WaitState::Idle.after_write(written, expected).holds_back_reads(),
{
}

/// The expected bytes may stand anywhere in what has been written: behind any
/// earlier bytes and in front of any later ones. A wait that begins after the
/// earlier bytes were written ends with the write that completes the run.
pub proof fn law_wait_ends_wherever_written(
    state: WaitState,
    before: Seq<u8>,
    expected: Seq<u8>,
    after: Seq<u8>,
)
    ensures
        state.after_wait_for().after_write(before + expected + after, expected) == WaitState::Idle,
{
    law_occurs_where_placed(before, expected, after);
}

/// A wait that a write would end is ended by any later write as well, as long
/// as nothing is popped in between: later bytes go behind the earlier ones and
/// leave the expected run standing.
pub proof fn law_wait_ends_once_written(
    state: WaitState,
    written: Seq<u8>,
    more: Seq<u8>,
    expected: Seq<u8>,
)
    requires
        state.after_write(written, expected) == WaitState::Idle,
    ensures
        state.after_write(written + more, expected) == WaitState::Idle,
        state.after_write(written, expected).after_write(written + more, expected)
            == WaitState::Idle,
{
    if state == WaitState::Waiting {
        law_occurrence_survives_append(expected, written, more);
    }
}

} // verus!
