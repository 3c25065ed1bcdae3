//! In-memory stand-ins for byte streams, for use in tests.
//!
//! A test pushes the bytes that the code under test is to read, lets that code
//! run against the stream, and pops the bytes it wrote. Nothing here touches a
//! file or a socket.
//!
//! - [`MockStream`] has one owner. It is the buffering core of the others.
//! - [`SharedMockStream`] is a handle on a core that other handles on the same
//!   thread share.
//! - [`SyncMockStream`] is a handle on a core behind a lock, for several
//!   threads, with a way to hold reads back until expected bytes have been
//!   written.
//! - [`FailingMockStream`] holds no bytes: it fails a set number of times and
//!   then reports the end of the stream.
//!
//! What the streams do is stated over [`state::StreamState`], the state of a
//! core as a mathematical value, and proved against it.

mod cursor;
pub mod failing;
pub mod io_error;
pub mod pattern;
pub mod shared;
pub mod state;
pub mod stream;
pub mod sync_stream;
pub mod wait;

pub use crate::failing::FailingMockStream;
pub use crate::shared::SharedMockStream;
pub use crate::stream::MockStream;
pub use crate::sync_stream::SyncMockStream;
