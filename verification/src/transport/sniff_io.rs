//! What stands between a transport that is listened to and the client that
//! reads from it: bounded queues of chunks, and the cutting of chunks to size.

use std::collections::VecDeque;

use bytes::Bytes;
use vstd::prelude::*;

use crate::buffer;
use crate::buffer::slice;

verus! {

/// How many bytes the queue to the client holds, unless it is set otherwise.
pub const DEFAULT_DATA_CHANNEL_CAPACITY: usize = 1_048_576;

/// How many bytes the queue to the tap holds, unless it is set otherwise.
pub const DEFAULT_TAP_CHANNEL_CAPACITY: usize = 262_144;

/// How many bytes are read from the transport at once, unless it is set
/// otherwise.
pub const DEFAULT_BUF_SIZE: usize = 4096;

// ── Model ───────────────────────────────────────────────────────────────

/// The chunks of a queue, as byte sequences.
pub open spec fn chunks(queue: Seq<Bytes>) -> Seq<Seq<u8>> {
    Seq::new(queue.len(), |i: int| buffer::octets(queue[i]))
}

/// The number of bytes in some chunks.
pub open spec fn total(queue: Seq<Seq<u8>>) -> nat
    decreases queue.len(),
{
    if queue.len() == 0 {
        0
    } else {
        queue[0].len() + total(queue.skip(1))
    }
}

/// What is left of a queue when the oldest chunks are dropped until no more than
/// `room` bytes remain.
pub open spec fn kept(queue: Seq<Seq<u8>>, room: int) -> Seq<Seq<u8>>
    decreases queue.len(),
{
    if queue.len() == 0 || total(queue) <= room {
        queue
    } else {
        kept(queue.skip(1), room)
    }
}

/// A 64-bit counter, counted up.
pub open spec fn counted(counter: u64, n: int) -> u64 {
    ((counter + n) % 0x1_0000_0000_0000_0000) as u64
}

/// The data of a [`SniffChannel`].
#[verifier::ext_equal]
pub struct ChannelView<E, W> {
    /// The chunks that wait to be received, the oldest first.
    pub queue: Seq<Seq<u8>>,
    /// The most bytes that may wait.
    pub capacity: usize,
    pub dropped_chunks: u64,
    pub dropped_bytes: u64,
    pub closed: bool,
    pub error: Option<E>,
    pub waker: Option<W>,
}

impl<E, W> ChannelView<E, W> {
    /// The channel with its oldest chunks dropped until no more than `room`
    /// bytes wait.
    pub open spec fn evicted(self, room: int) -> ChannelView<E, W> {
        let left = kept(self.queue, room);
        ChannelView {
            queue: left,
            dropped_chunks: counted(self.dropped_chunks, self.queue.len() - left.len()),
            dropped_bytes: counted(self.dropped_bytes, total(self.queue) - total(left)),
            ..self
        }
    }

    /// The channel after a chunk was sent into it. Older chunks make room for
    /// it; a chunk that is larger than the whole channel is itself dropped.
    pub open spec fn after_send(self, chunk: Seq<u8>) -> ChannelView<E, W> {
        let roomy = self.evicted(self.capacity - chunk.len());
        if chunk.len() > self.capacity {
            ChannelView {
                dropped_chunks: counted(roomy.dropped_chunks, 1),
                dropped_bytes: counted(roomy.dropped_bytes, chunk.len() as int),
                ..roomy
            }
        } else {
            ChannelView { queue: roomy.queue.push(chunk), waker: None, ..roomy }
        }
    }

    /// Who is woken when a chunk is sent: whoever waits, unless the chunk is
    /// dropped.
    pub open spec fn woken_by(self, chunk: Seq<u8>) -> Option<W> {
        if chunk.len() > self.capacity {
            None
        } else {
            self.waker
        }
    }

    /// No more bytes wait than the channel holds.
    pub open spec fn is_bounded(self) -> bool {
        total(self.queue) <= self.capacity
    }
}

// ── Lemmas ──────────────────────────────────────────────────────────────

proof fn lemma_total_push(queue: Seq<Seq<u8>>, chunk: Seq<u8>)
    ensures
        total(queue.push(chunk)) == total(queue) + chunk.len(),
    decreases queue.len(),
{
    if queue.len() == 0 {
        assert(queue.push(chunk).skip(1) =~= Seq::<Seq<u8>>::empty());
        assert(total(Seq::<Seq<u8>>::empty()) == 0);
    } else {
        assert(queue.push(chunk).skip(1) =~= queue.skip(1).push(chunk));
        lemma_total_push(queue.skip(1), chunk);
    }
}

/// What is left of a queue is its newest part: it fits, and one chunk more
/// would not.
pub proof fn lemma_kept(queue: Seq<Seq<u8>>, room: int)
    ensures
        kept(queue, room).len() <= queue.len(),
        kept(queue, room) == queue.skip(queue.len() - kept(queue, room).len()),
        total(kept(queue, room)) <= total(queue),
        total(kept(queue, room)) <= room || kept(queue, room).len() == 0,
        kept(queue, room).len() < queue.len() ==> total(
            queue.skip(queue.len() - kept(queue, room).len() - 1),
        ) > room,
        room < 0 ==> kept(queue, room).len() == 0,
    decreases queue.len(),
{
    if queue.len() == 0 || total(queue) <= room {
        assert(queue.skip(0) =~= queue);
    } else {
        lemma_kept(queue.skip(1), room);
        let left = kept(queue, room);
        assert(queue.skip(1).skip(queue.len() - 1 - left.len()) =~= queue.skip(
            queue.len() - left.len(),
        ));
        if left.len() == queue.len() - 1 {
            assert(queue.skip(0) =~= queue);
        } else {
            assert(queue.skip(1).skip(queue.len() - 1 - left.len() - 1) =~= queue.skip(
                queue.len() - left.len() - 1,
            ));
        }
    }
}

// ── Channel ─────────────────────────────────────────────────────────────

/// A queue of chunks with a limit on the bytes that wait in it. Sending never
/// waits: where there is no room, the oldest chunks are dropped.
///
/// `E` is the error that ends the transport; `W` wakes whoever waits for a
/// chunk. An operation that makes something available gives the waker back, to
/// be woken.
pub struct SniffChannel<E, W> {
    queue: VecDeque<Bytes>,
    total_bytes: usize,
    capacity: usize,
    dropped_chunks: u64,
    dropped_bytes: u64,
    closed: bool,
    error: Option<E>,
    waker: Option<W>,
}

/// What is received from a channel.
pub enum Received<E> {
    /// The oldest chunk.
    Chunk(Bytes),
    /// Nothing yet.
    Pending,
    /// The error that ended the transport.
    Failed(E),
    /// Nothing more will come.
    Closed,
}

impl<E, W> View for SniffChannel<E, W> {
    type V = ChannelView<E, W>;

    closed spec fn view(&self) -> ChannelView<E, W> {
        ChannelView {
            queue: chunks(self.queue@),
            capacity: self.capacity,
            dropped_chunks: self.dropped_chunks,
            dropped_bytes: self.dropped_bytes,
            closed: self.closed,
            error: self.error,
            waker: self.waker,
        }
    }
}

impl<E, W> SniffChannel<E, W> {
    /// The count of waiting bytes is right, and within the capacity.
    pub closed spec fn wf(self) -> bool {
        &&& self.total_bytes == total(chunks(self.queue@))
        &&& self.total_bytes <= self.capacity
    }

    /// A channel in which nothing waits.
    pub fn new(capacity: usize) -> (r: Self)
        ensures
            r.wf(),
            r@ == (ChannelView::<E, W> {
                queue: Seq::empty(),
                capacity,
                dropped_chunks: 0,
                dropped_bytes: 0,
                closed: false,
                error: None,
                waker: None,
            }),
    {
        let r = SniffChannel {
            queue: VecDeque::new(),
            total_bytes: 0,
            capacity,
            dropped_chunks: 0,
            dropped_bytes: 0,
            closed: false,
            error: None,
            waker: None,
        };
        assert(r@.queue =~= Seq::empty());
        r
    }

    /// Drop the oldest chunks until no more than `room` bytes wait, or nothing
    /// does.
    fn evict(&mut self, fits: bool, room: usize)
        requires
            old(self).total_bytes == total(chunks(old(self).queue@)),
            !fits ==> room == 0,
        ensures
            final(self).total_bytes == total(chunks(final(self).queue@)),
            final(self)@ == old(self)@.evicted(
                if fits {
                    room as int
                } else {
                    -1
                },
            ),
            fits ==> final(self).total_bytes <= room,
            !fits ==> final(self).total_bytes == 0,
    {
        let ghost limit = if fits {
            room as int
        } else {
            -1int
        };
        let ghost start = *self;
        proof {
            lemma_kept(start@.queue, limit);
        }
        while self.queue.len() > 0 && (!fits || self.total_bytes > room)
            invariant
                limit == if fits {
                    room as int
                } else {
                    -1int
                },
                self.total_bytes == total(chunks(self.queue@)),
                self.capacity == start.capacity,
                self.closed == start.closed,
                self.error == start.error,
                self.waker == start.waker,
                kept(self@.queue, limit) == kept(start@.queue, limit),
                self.queue@.len() <= start.queue@.len(),
                self.total_bytes <= start.total_bytes,
                start.total_bytes == total(chunks(start.queue@)),
                self.dropped_chunks == counted(
                    start.dropped_chunks,
                    start.queue@.len() - self.queue@.len(),
                ),
                self.dropped_bytes == counted(
                    start.dropped_bytes,
                    start.total_bytes - self.total_bytes,
                ),
            decreases self.queue@.len(),
        {
            let ghost before = self.queue@;
            if let Some(chunk) = self.queue.pop_front() {
                assert(chunks(before).skip(1) =~= chunks(self.queue@));
                assert(chunks(before)[0] == buffer::octets(chunk));
                self.total_bytes = self.total_bytes - chunk.len();
                self.dropped_chunks = self.dropped_chunks.wrapping_add(1);
                self.dropped_bytes = self.dropped_bytes.wrapping_add(chunk.len() as u64);
            }
        }
        proof {
            assert(kept(self@.queue, limit) == self@.queue);
            assert(start@.queue == chunks(start.queue@));
            if !fits {
                assert(self@.queue.len() == 0);
            }
        }
    }

    /// Send a chunk. Where there is no room, the oldest chunks are dropped;
    /// a chunk larger than the channel is dropped itself. The waker of whoever
    /// waits for a chunk is given back.
    pub fn send(&mut self, chunk: Bytes) -> (wake: Option<W>)
        requires
            old(self).wf(),
        ensures
            final(self).wf(),
            final(self)@ == old(self)@.after_send(buffer::octets(chunk)),
            wake == old(self)@.woken_by(buffer::octets(chunk)),
    {
        let chunk_len: usize = chunk.len();
        let ghost start = self@;
        proof {
            lemma_kept(start.queue, start.capacity - chunk_len);
            lemma_kept(start.queue, -1);
        }
        if chunk_len > self.capacity {
            self.evict(false, 0);
            assert(kept(start.queue, start.capacity - chunk_len) =~= kept(start.queue, -1));
            self.dropped_chunks = self.dropped_chunks.wrapping_add(1);
            self.dropped_bytes = self.dropped_bytes.wrapping_add(chunk_len as u64);
            return None;
        }
        let room: usize = self.capacity - chunk_len;
        self.evict(true, room);
        let ghost before = self.queue@;
        self.queue.push_back(chunk);
        self.total_bytes = self.total_bytes + chunk_len;
        proof {
            lemma_total_push(chunks(before), buffer::octets(chunk));
            assert(chunks(self.queue@) =~= chunks(before).push(buffer::octets(chunk)));
        }
        self.waker.take()
    }

    /// The transport ended with an error. The waker of whoever waits is given
    /// back.
    pub fn send_error(&mut self, error: E) -> (wake: Option<W>)
        requires
            old(self).wf(),
        ensures
            final(self).wf(),
            final(self)@ == (ChannelView { error: Some(error), waker: None, ..old(self)@ }),
            wake == old(self)@.waker,
    {
        self.error = Some(error);
        self.waker.take()
    }

    /// Set how many bytes may wait. Where more do, the oldest chunks are
    /// dropped.
    pub fn set_capacity(&mut self, new_cap: usize)
        requires
            old(self).wf(),
        ensures
            final(self).wf(),
            final(self)@ == (ChannelView { capacity: new_cap, ..old(self)@ }).evicted(
                new_cap as int,
            ),
    {
        self.capacity = new_cap;
        self.evict(true, new_cap);
    }

    /// Whether the receiving side closed the channel.
    pub fn is_closed(&self) -> (r: bool)
        ensures
            r == self@.closed,
    {
        self.closed
    }

    /// Close the channel from the receiving side. The waker of whoever waits is
    /// given back.
    pub fn close(&mut self) -> (wake: Option<W>)
        requires
            old(self).wf(),
        ensures
            final(self).wf(),
            final(self)@ == (ChannelView { closed: true, waker: None, ..old(self)@ }),
            wake == old(self)@.waker,
    {
        self.closed = true;
        self.waker.take()
    }

    /// Receive the oldest chunk. What was sent before an error or the end is
    /// received before it. Where nothing is there yet, the waker is kept.
    pub fn poll_recv(&mut self, waker: W) -> (r: Received<E>)
        requires
            old(self).wf(),
        ensures
            final(self).wf(),
            if old(self)@.queue.len() > 0 {
                &&& r matches Received::Chunk(b)
                &&& buffer::octets(b) == old(self)@.queue[0]
                &&& final(self)@ == (ChannelView { queue: old(self)@.queue.skip(1), ..old(self)@ })
            } else if old(self)@.error is Some {
                &&& r == Received::Failed(old(self)@.error->0)
                &&& final(self)@ == (ChannelView { error: None, ..old(self)@ })
            } else if old(self)@.closed {
                r is Closed && final(self)@ == old(self)@
            } else {
                &&& r is Pending
                &&& final(self)@ == (ChannelView { waker: Some(waker), ..old(self)@ })
            },
    {
        let ghost before = self.queue@;
        if let Some(data) = self.queue.pop_front() {
            assert(chunks(before).skip(1) =~= chunks(self.queue@));
            assert(chunks(before)[0] == buffer::octets(data));
            self.total_bytes = self.total_bytes - data.len();
            return Received::Chunk(data);
        }
        assert(chunks(before).len() == 0);
        if let Some(e) = self.error.take() {
            return Received::Failed(e);
        }
        if self.closed {
            return Received::Closed;
        }
        self.waker = Some(waker);
        Received::Pending
    }

    /// How many bytes may wait.
    pub fn capacity(&self) -> (r: usize)
        ensures
            r == self@.capacity,
    {
        self.capacity
    }

    /// How many chunks were dropped.
    pub fn dropped_chunks(&self) -> (r: u64)
        ensures
            r == self@.dropped_chunks,
    {
        self.dropped_chunks
    }

    /// How many bytes were dropped.
    pub fn dropped_bytes(&self) -> (r: u64)
        ensures
            r == self@.dropped_bytes,
    {
        self.dropped_bytes
    }

    /// Whatever is done with a channel, no more bytes wait than it holds.
    pub proof fn law_channel_is_bounded(self)
        requires
            self.wf(),
        ensures
            self@.is_bounded(),
    {
    }
}

/// Sending keeps the newest chunks, in the order in which they were sent: what
/// waits afterwards is the end of what waited before, and the chunk.
pub proof fn law_newest_chunks_are_kept<E, W>(channel: ChannelView<E, W>, chunk: Seq<u8>)
    requires
        chunk.len() <= channel.capacity,
    ensures
        ({
            let after = channel.after_send(chunk);
            let all = channel.queue.push(chunk);
            &&& 1 <= after.queue.len() <= all.len()
            &&& after.queue == all.skip(all.len() - after.queue.len())
            &&& after.is_bounded()
            &&& after.queue.len() < all.len() ==> total(
                all.skip(all.len() - after.queue.len() - 1),
            ) > channel.capacity
        }),
{
    let room = channel.capacity - chunk.len();
    let left = kept(channel.queue, room);
    let all = channel.queue.push(chunk);
    lemma_kept(channel.queue, room);
    lemma_total_push(left, chunk);
    assert(left.push(chunk) =~= all.skip(all.len() - left.len() - 1));
    if left.len() == 0 {
        assert(total(left) == 0);
    }
    if left.len() < channel.queue.len() {
        let more = channel.queue.skip(channel.queue.len() - left.len() - 1);
        lemma_total_push(more, chunk);
        assert(more.push(chunk) =~= all.skip(all.len() - left.len() - 2));
    }
}

// ── Filling ─────────────────────────────────────────────────────────────

/// What became of a chunk that was read from the transport: who is to be woken,
/// and whether to stop reading.
pub struct FanOut<W> {
    pub wake_data: Option<W>,
    pub wake_tap: Option<W>,
    pub stop: bool,
}

/// Send a chunk to the client and to the tap. Reading stops where the client
/// has closed its channel.
pub fn fan_out<E, W>(
    data_channel: &mut SniffChannel<E, W>,
    tap_channel: &mut SniffChannel<E, W>,
    chunk: Bytes,
) -> (r: FanOut<W>)
    requires
        old(data_channel).wf(),
        old(tap_channel).wf(),
    ensures
        final(data_channel).wf(),
        final(tap_channel).wf(),
        final(data_channel)@ == old(data_channel)@.after_send(buffer::octets(chunk)),
        final(tap_channel)@ == old(tap_channel)@.after_send(buffer::octets(chunk)),
        r.wake_data == old(data_channel)@.woken_by(buffer::octets(chunk)),
        r.wake_tap == old(tap_channel)@.woken_by(buffer::octets(chunk)),
        r.stop == old(data_channel)@.closed,
{
    let wake_data = data_channel.send(chunk.clone());
    let wake_tap = tap_channel.send(chunk);
    FanOut { wake_data, wake_tap, stop: data_channel.is_closed() }
}

// ── Reading ─────────────────────────────────────────────────────────────

/// What a read from a transport that is listened to comes to.
pub enum SniffRead<E> {
    /// Bytes, no more than asked for.
    Data(Bytes),
    /// Nothing yet.
    Pending,
    /// The error that ended the transport.
    Failed(E),
    /// Nothing more will come.
    Closed,
    /// Nothing more will come, because the task that reads is gone.
    ReaderGone,
}

/// Cut a chunk to size: as much as there is room for, and what is left, if
/// anything is.
pub fn cut(chunk: Bytes, room: usize) -> (r: (Bytes, Option<Bytes>))
    ensures
        buffer::octets(chunk).len() <= room ==> buffer::octets(r.0) == buffer::octets(chunk)
            && r.1 is None,
        buffer::octets(chunk).len() > room ==> {
            &&& buffer::octets(r.0) == buffer::octets(chunk).take(room as int)
            &&& r.1 is Some
            &&& buffer::octets(r.1->0) == buffer::octets(chunk).skip(room as int)
        },
{
    let len: usize = chunk.len();
    if len <= room {
        return (chunk, None);
    }
    let front = slice(&chunk, 0, room);
    let left = slice(&chunk, room, len);
    assert(buffer::octets(left) =~= buffer::octets(chunk).skip(room as int));
    (front, Some(left))
}

/// The bytes that a read left over.
pub open spec fn pending_bytes(pending: Option<Bytes>) -> Seq<u8> {
    match pending {
        Some(b) => buffer::octets(b),
        None => Seq::empty(),
    }
}

/// Read from a channel, at most `room` bytes. What an earlier read left over
/// comes first, and where nothing is left over, nothing is kept for the next. Where nothing is there and the task that fills the channel is
/// gone, that is an error: it would be waited for in vain.
pub fn poll_read<E, W>(
    channel: &mut SniffChannel<E, W>,
    pending: &mut Option<Bytes>,
    waker: W,
    reader_finished: bool,
    room: usize,
) -> (r: SniffRead<E>)
    requires
        old(channel).wf(),
    ensures
        final(channel).wf(),
        *final(pending) is Some ==> pending_bytes(*final(pending)).len() > 0,
        match *old(pending) {
            Some(left) => {
                &&& r matches SniffRead::Data(b)
                &&& buffer::octets(b).len() <= room
                &&& buffer::octets(b) + pending_bytes(*final(pending)) == buffer::octets(left)
                &&& *final(pending) is None || buffer::octets(b).len() == room
                &&& *final(channel) == *old(channel)
            },
            None => if old(channel)@.queue.len() > 0 {
                &&& r matches SniffRead::Data(b)
                &&& buffer::octets(b).len() <= room
                &&& buffer::octets(b) + pending_bytes(*final(pending)) == old(channel)@.queue[0]
                &&& *final(pending) is None || buffer::octets(b).len() == room
                &&& final(channel)@ == (ChannelView {
                    queue: old(channel)@.queue.skip(1),
                    ..old(channel)@
                })
            } else {
                &&& *final(pending) is None
                &&& if old(channel)@.error is Some {
                    &&& r == SniffRead::Failed(old(channel)@.error->0)
                    &&& final(channel)@ == (ChannelView { error: None, ..old(channel)@ })
                } else if old(channel)@.closed {
                    r is Closed && final(channel)@ == old(channel)@
                } else {
                    &&& if reader_finished {
                        r is ReaderGone
                    } else {
                        r is Pending
                    }
                    &&& final(channel)@ == (ChannelView { waker: Some(waker), ..old(channel)@ })
                }
            },
        },
{
    if let Some(left) = pending.take() {
        let (front, rest) = cut(left, room);
        assert(buffer::octets(front) + pending_bytes(rest) =~= buffer::octets(left));
        *pending = rest;
        return SniffRead::Data(front);
    }
    match channel.poll_recv(waker) {
        Received::Chunk(data) => {
            let (front, rest) = cut(data, room);
            assert(buffer::octets(front) + pending_bytes(rest) =~= buffer::octets(data));
            *pending = rest;
            SniffRead::Data(front)
        },
        Received::Pending => if reader_finished {
            SniffRead::ReaderGone
        } else {
            SniffRead::Pending
        },
        Received::Failed(e) => SniffRead::Failed(e),
        Received::Closed => SniffRead::Closed,
    }
}

/// Whether a read or a write counts as bus activity: whenever bytes moved, also
/// those that an earlier read left over.
pub fn is_bus_activity(bytes_moved: usize) -> (r: bool)
    ensures
        r == (bytes_moved > 0),
{
    bytes_moved > 0
}

} // verus!
