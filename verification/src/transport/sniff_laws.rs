//! What a bounded channel keeps, drops and counts.

use bytes::Bytes;
use vstd::prelude::*;

use super::sniff_io;
use super::sniff_io::{ChannelView, DEFAULT_BUF_SIZE};
use super::sniff_io::{DEFAULT_DATA_CHANNEL_CAPACITY, DEFAULT_TAP_CHANNEL_CAPACITY};
use crate::buffer;

verus! {

/// The sizes that channels have unless told otherwise.
pub proof fn law_channel_sizes()
    ensures
        DEFAULT_DATA_CHANNEL_CAPACITY == 1_048_576,
        DEFAULT_TAP_CHANNEL_CAPACITY == 262_144,
        DEFAULT_BUF_SIZE == 4096,
{
}

/// The size of a queue is the sum of the sizes of its chunks.
pub proof fn law_queue_size(queue: Seq<Seq<u8>>, chunk: Seq<u8>)
    ensures
        sniff_io::total(Seq::empty()) == 0,
        sniff_io::total(queue.push(chunk)) == sniff_io::total(queue) + chunk.len(),
        sniff_io::total(seq![chunk] + queue) == chunk.len() + sniff_io::total(queue),
    decreases queue.len(),
{
    let front = seq![chunk] + queue;
    assert(front.skip(1) =~= queue);
    if queue.len() > 0 {
        law_queue_size(queue.skip(1), chunk);
        assert(queue.push(chunk).skip(1) =~= queue.skip(1).push(chunk));
    } else {
        assert(queue.push(chunk).skip(1) =~= Seq::empty());
        assert(queue.push(chunk)[0] == chunk);
    }
}

/// Eviction takes chunks from the old end and stops as soon as the rest fits.
pub proof fn law_oldest_chunks_go_first(queue: Seq<Seq<u8>>, room: int)
    ensures
        ({
            let left = sniff_io::kept(queue, room);
            let gone = queue.len() - left.len();
            &&& 0 <= gone <= queue.len()
            &&& left == queue.skip(gone)
            &&& left.len() == 0 || sniff_io::total(left) <= room
            &&& gone > 0 ==> sniff_io::total(queue.skip(gone - 1)) > room
        }),
{
    sniff_io::lemma_kept(queue, room);
}

/// A counter grows by what it counts, and starts again at zero behind its largest value.
pub proof fn law_counters(counter: u64, n: int)
    requires
        n >= 0,
    ensures
        counter + n <= u64::MAX ==> sniff_io::counted(counter, n) == counter + n,
        (sniff_io::counted(counter, n) - counter - n) % 0x1_0000_0000_0000_0000 == 0,
{
    let m = 0x1_0000_0000_0000_0000int;
    let sum = counter + n;
    let q = sum / m;
    assert(sum % m - sum == (0 - q) * m) by (nonlinear_arith)
        requires
            q == sum / m,
            m == 0x1_0000_0000_0000_0000int,
    ;
    vstd::arithmetic::div_mod::lemma_mod_multiples_basic(0 - q, m);
}

/// Eviction counts the chunks and the bytes that went, and changes nothing else.
pub proof fn law_eviction_is_counted<E, W>(c: ChannelView<E, W>, room: int)
    ensures
        ({
            let d = c.evicted(room);
            &&& d.queue == sniff_io::kept(c.queue, room)
            &&& d.dropped_chunks == sniff_io::counted(
                c.dropped_chunks,
                c.queue.len() - d.queue.len(),
            )
            &&& d.dropped_bytes == sniff_io::counted(
                c.dropped_bytes,
                sniff_io::total(c.queue) - sniff_io::total(d.queue),
            )
            &&& d.capacity == c.capacity
            &&& d.closed == c.closed
            &&& d.error == c.error
            &&& d.waker == c.waker
        }),
{
}

/// A channel is bounded when what it holds is no more than its capacity.
pub proof fn law_bounded_channels<E, W>(c: ChannelView<E, W>)
    ensures
        c.is_bounded() == (sniff_io::total(c.queue) <= c.capacity),
{
}

/// A chunk that fits goes to the new end of the queue, after old chunks have made room
/// for it, and wakes whoever waits.
pub proof fn law_chunk_is_queued<E, W>(c: ChannelView<E, W>, chunk: Seq<u8>)
    requires
        chunk.len() <= c.capacity,
    ensures
        ({
            let d = c.after_send(chunk);
            let left = sniff_io::kept(c.queue, c.capacity - chunk.len());
            &&& d.queue == left.push(chunk)
            &&& d.dropped_chunks == sniff_io::counted(
                c.dropped_chunks,
                c.queue.len() - left.len(),
            )
            &&& d.dropped_bytes == sniff_io::counted(
                c.dropped_bytes,
                sniff_io::total(c.queue) - sniff_io::total(left),
            )
            &&& d.waker is None
            &&& c.woken_by(chunk) == c.waker
            &&& d.capacity == c.capacity
            &&& d.closed == c.closed
            &&& d.error == c.error
        }),
{
}

/// A chunk larger than the whole channel is dropped with everything that was queued.
/// All of it is counted, and nobody is woken.
pub proof fn law_oversized_chunk_is_dropped<E, W>(c: ChannelView<E, W>, chunk: Seq<u8>)
    requires
        chunk.len() > c.capacity,
        c.dropped_chunks + c.queue.len() + 1 <= u64::MAX,
        c.dropped_bytes + sniff_io::total(c.queue) + chunk.len() <= u64::MAX,
    ensures
        ({
            let d = c.after_send(chunk);
            &&& d.queue.len() == 0
            &&& d.dropped_chunks == c.dropped_chunks + c.queue.len() + 1
            &&& d.dropped_bytes == c.dropped_bytes + sniff_io::total(c.queue) + chunk.len()
            &&& d.waker == c.waker
            &&& c.woken_by(chunk) is None
            &&& d.capacity == c.capacity
            &&& d.closed == c.closed
            &&& d.error == c.error
        }),
{
    sniff_io::lemma_kept(c.queue, c.capacity - chunk.len());
}

/// What a queue holds is the bytes of its chunks, in order. What is left of a chunk is
/// its bytes, or nothing.
pub proof fn law_held_bytes(queue: Seq<Bytes>, i: int, left: Option<Bytes>)
    ensures
        sniff_io::chunks(queue).len() == queue.len(),
        0 <= i < queue.len() ==> sniff_io::chunks(queue)[i] == buffer::octets(queue[i]),
        match left {
            Some(b) => sniff_io::pending_bytes(left) == buffer::octets(b),
            None => sniff_io::pending_bytes(left) == Seq::<u8>::empty(),
        },
{
}

} // verus!
