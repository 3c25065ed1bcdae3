//! The abstract state of a mock stream: what is waiting to be read, what has
//! been written, and how each operation changes both.
//!
//! Every executable stream in this crate states its contract over
//! [`StreamState`]. The laws at the end of the file are consequences of the
//! transitions alone, so they hold of every stream whose contract is phrased
//! with them.

use vstd::prelude::*;

verus! {

/// The state of one buffering core.
///
/// The read side is a buffer of which a prefix has been consumed. Only the
/// length of that prefix (`position`) is kept, since consumed bytes are never
/// handed out again; `unread` holds the rest. The write side is the run of
/// bytes written since the last pop.
#[verifier::ext_equal]
pub struct StreamState {
    /// The read offset: how many consumed bytes the read buffer still holds.
    pub position: nat,
    /// The bytes that future reads hand out, oldest first.
    pub unread: Seq<u8>,
    /// The bytes written and not yet popped, oldest first.
    pub written: Seq<u8>,
}

impl StreamState {
    /// A stream that holds nothing on either side.
    pub open spec fn empty() -> StreamState {
        StreamState { position: 0, unread: Seq::empty(), written: Seq::empty() }
    }

    /// The length of the read buffer, consumed and unread bytes together.
    pub open spec fn buffered(self) -> nat {
        self.position + self.unread.len()
    }

    /// Queues `bytes` for reading. A read buffer that has been consumed to its
    /// end is dropped first, so that the new bytes start at offset zero;
    /// otherwise the bytes go behind the unread ones and the offset stays.
    pub open spec fn push_to_read(self, bytes: Seq<u8>) -> StreamState {
        if self.unread.len() == 0 {
            StreamState { position: 0, unread: bytes, written: self.written }
        } else {
            StreamState {
                position: self.position,
                unread: self.unread + bytes,
                written: self.written,
            }
        }
    }

    /// How many bytes a read into a buffer of `room` bytes transfers.
    pub open spec fn read_count(self, room: nat) -> nat {
        if room <= self.unread.len() {
            room
        } else {
            self.unread.len()
        }
    }

    /// The bytes that such a read transfers.
    pub open spec fn read_data(self, room: nat) -> Seq<u8> {
        self.unread.take(self.read_count(room) as int)
    }

    /// The state after such a read: the offset has moved past the bytes
    /// transferred.
    pub open spec fn read(self, room: nat) -> StreamState {
        StreamState {
            position: self.position + self.read_count(room),
            unread: self.unread.skip(self.read_count(room) as int),
            written: self.written,
        }
    }

    /// The caller's buffer after a read into it: the transferred bytes in
    /// front, and behind them what the buffer held there before.
    pub open spec fn fill(self, buf: Seq<u8>) -> Seq<u8> {
        self.read_data(buf.len()) + buf.skip(self.read_count(buf.len()) as int)
    }

    /// The state after writing `bytes`: they follow what was written before.
    pub open spec fn write(self, bytes: Seq<u8>) -> StreamState {
        StreamState {
            position: self.position,
            unread: self.unread,
            written: self.written + bytes,
        }
    }

    /// What a peek at the write side shows.
    pub open spec fn peeked(self) -> Seq<u8> {
        self.written
    }

    /// What a pop of the write side returns.
    pub open spec fn popped(self) -> Seq<u8> {
        self.written
    }

    /// The state after a pop: the write side is empty again.
    pub open spec fn pop(self) -> StreamState {
        StreamState { position: self.position, unread: self.unread, written: Seq::empty() }
    }

    /// The state after one read for each entry of `rooms`, in order, the entry
    /// being the size of the buffer read into.
    pub open spec fn read_each(self, rooms: Seq<nat>) -> StreamState
        decreases rooms.len(),
    {
        if rooms.len() == 0 {
            self
        } else {
            self.read(rooms[0]).read_each(rooms.skip(1))
        }
    }

    /// The bytes that those reads transfer, one read's bytes after another's.
    pub open spec fn read_each_data(self, rooms: Seq<nat>) -> Seq<u8>
        decreases rooms.len(),
    {
        if rooms.len() == 0 {
            Seq::empty()
        } else {
            self.read_data(rooms[0]) + self.read(rooms[0]).read_each_data(rooms.skip(1))
        }
    }
}

/// The sum of the buffer sizes in `rooms`.
pub open spec fn total_room(rooms: Seq<nat>) -> nat
    decreases rooms.len(),
{
    if rooms.len() == 0 {
        0
    } else {
        rooms[0] + total_room(rooms.skip(1))
    }
}

/// Round trip: on a stream with nothing left to read, bytes pushed come back
/// from one read into a buffer that has room for them, exactly and in order,
/// and the read after that transfers nothing. Where bytes were still unread,
/// they come first and the pushed bytes follow.
pub proof fn law_round_trip(s: StreamState, bytes: Seq<u8>, room: nat, next_room: nat)
    requires
        room >= s.unread.len() + bytes.len(),
    ensures
        s.push_to_read(bytes).read_data(room) == s.unread + bytes,
        s.unread.len() == 0 ==> s.push_to_read(bytes).read_data(room) == bytes,
        s.push_to_read(bytes).read_count(room) == s.unread.len() + bytes.len(),
        s.push_to_read(bytes).read(room).read_count(next_room) == 0,
        s.push_to_read(bytes).read(room).unread == Seq::<u8>::empty(),
{
}

/// A single read hands out a prefix of the unread bytes, no longer than the
/// buffer, and leaves the rest for later reads.
pub proof fn law_read_is_prefix(s: StreamState, room: nat)
    ensures
        s.read_data(room).is_prefix_of(s.unread),
        s.read_data(room).len() == s.read_count(room),
        s.read_count(room) <= room,
        room < s.unread.len() ==> s.read_count(room) == room,
        s.read_data(room) + s.read(room).unread == s.unread,
        s.read(room).buffered() == s.buffered(),
{
}

/// Successive reads hand out what one read into a buffer of their sizes'
/// sum would: the unread bytes in order, as far as the sizes add up, with
/// nothing lost or repeated between two reads.
pub proof fn law_reads_concatenate(s: StreamState, rooms: Seq<nat>)
    ensures
        s.read_each_data(rooms) == s.read_data(total_room(rooms)),
        s.read_each(rooms) == s.read(total_room(rooms)),
    decreases rooms.len(),
{
    if rooms.len() > 0 {
        law_reads_concatenate(s.read(rooms[0]), rooms.skip(1));
    }
}

/// Partial reads: bytes pushed and then read through buffers that are too
/// small for them come back piece by piece. Each read hands out a prefix of
/// what is still unread; the pieces, one after another, are a prefix of the
/// unread bytes followed by the pushed ones; and once the buffers' sizes add
/// up to their number, all of them have come back and every later read
/// transfers nothing.
pub proof fn law_partial_reads(s: StreamState, bytes: Seq<u8>, rooms: Seq<nat>, next_room: nat)
    ensures
        s.push_to_read(bytes).unread == s.unread + bytes,
        s.push_to_read(bytes).read_each_data(rooms).is_prefix_of(s.unread + bytes),
        total_room(rooms) < (s.unread + bytes).len() ==> s.push_to_read(bytes).read_each_data(
            rooms,
        ).len() == total_room(rooms),
        total_room(rooms) >= (s.unread + bytes).len() ==> {
            &&& s.push_to_read(bytes).read_each_data(rooms) == s.unread + bytes
            &&& s.push_to_read(bytes).read_each(rooms).read_count(next_room) == 0
        },
{
    law_reads_concatenate(s.push_to_read(bytes), rooms);
}

/// Partial reads with one buffer size: with a buffer of at least one byte, as
/// many reads as there are unread bytes are enough to hand out all of them.
pub proof fn law_repeated_reads_drain(s: StreamState, room: nat, next_room: nat)
    requires
        room > 0,
    ensures
        s.read_each_data(Seq::new(s.unread.len(), |i: int| room)) == s.unread,
        s.read_each(Seq::new(s.unread.len(), |i: int| room)).read_count(next_room) == 0,
{
    let rooms = Seq::new(s.unread.len(), |i: int| room);
    lemma_total_of_equal_rooms(s.unread.len(), room);
    law_reads_concatenate(s, rooms);
}

proof fn lemma_total_of_equal_rooms(count: nat, room: nat)
    requires
        room > 0,
    ensures
        total_room(Seq::new(count, |i: int| room)) >= count,
    decreases count,
{
    if count > 0 {
        lemma_total_of_equal_rooms((count - 1) as nat, room);
        assert(Seq::new(count, |i: int| room).skip(1) == Seq::new(
            (count - 1) as nat,
            |i: int| room,
        ));
    }
}

/// Writes accumulate: after two writes a pop returns what was there before,
/// then the first bytes, then the second; on a write side that was empty that
/// is the two runs of bytes joined. A second pop with no write in between
/// returns nothing.
pub proof fn law_writes_accumulate(s: StreamState, first: Seq<u8>, second: Seq<u8>)
    ensures
        s.write(first).write(second).popped() == s.written + first + second,
        s.written.len() == 0 ==> s.write(first).write(second).popped() == first + second,
        s.write(first).write(second).pop().popped() == Seq::<u8>::empty(),
        s.pop().write(first).write(second).popped() == first + second,
{
}

/// Peek and pop agree: after any write, a peek shows the bytes that the next
/// pop returns, all that was written since the last pop. Only the pop clears
/// them, and it clears nothing else.
pub proof fn law_peek_matches_pop(s: StreamState, bytes: Seq<u8>)
    ensures
        s.peeked() == s.popped(),
        s.write(bytes).peeked() == s.write(bytes).popped(),
        s.write(bytes).peeked() == s.written + bytes,
        s.pop().peeked() == Seq::<u8>::empty(),
        s.pop().unread == s.unread,
        s.pop().position == s.position,
{
}

/// The two sides are independent: writing and popping leave the read side
/// alone, pushing and reading leave the write side alone.
pub proof fn law_sides_independent(s: StreamState, bytes: Seq<u8>, room: nat)
    ensures
        s.write(bytes).unread == s.unread,
        s.write(bytes).position == s.position,
        s.push_to_read(bytes).written == s.written,
        s.read(room).written == s.written,
{
}

} // verus!
