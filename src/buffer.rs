use vstd::prelude::*;
use lockfree_object_pool::{LinearObjectPool, LinearOwnedReusable};
use ringbuffer::{AllocRingBuffer, RingBuffer};
use std::sync::Arc;

verus! {

#[verifier::external_type_specification]
#[verifier::external_body]
#[verifier::reject_recursive_types(T)]
pub struct ExAllocRingBuffer<T>(AllocRingBuffer<T>);

#[verifier::external_type_specification]
#[verifier::external_body]
#[verifier::reject_recursive_types(T)]
pub struct ExLinearObjectPool<T>(LinearObjectPool<T>);

#[verifier::external_type_specification]
#[verifier::external_body]
#[verifier::reject_recursive_types(T)]
pub struct ExLinearOwnedReusable<T>(LinearOwnedReusable<T>);

/// A text buffer lent by a `BufferPool`; dropping it clears the text and
/// returns the buffer to the pool, keeping its capacity.
pub type Buffer = LinearOwnedReusable<String>;

/// The largest queue capacity, a memory bound. The ring allocates the next
/// power of two slots at once, each a buffer handle of at most 32 bytes: with
/// at most 2^24 slots the allocation stays below `isize::MAX` bytes on
/// 32-bit hosts too.
pub const MAX_QUEUE_SIZE: usize = 0x100_0000;

/// The buffers held by a ring, oldest first.
pub uninterp spec fn ring_items(r: AllocRingBuffer<Buffer>) -> Seq<Buffer>;

/// The capacity that a ring was made with.
pub uninterp spec fn ring_capacity(r: AllocRingBuffer<Buffer>) -> nat;

/// The text held by a lent buffer.
pub uninterp spec fn buffer_text(b: Buffer) -> Seq<char>;

/// Whether a pool makes its buffers with empty text and clears the text of
/// each buffer returned to it.
pub uninterp spec fn lends_empty(p: LinearObjectPool<String>) -> bool;

/// Relies on `AllocRingBuffer::new`: an empty ring that holds at most
/// `capacity` items (it panics on zero).
#[verifier::external_body]
fn ring_new(capacity: usize) -> (r: AllocRingBuffer<Buffer>)
    requires
        0 < capacity <= MAX_QUEUE_SIZE,
    ensures
        ring_items(r) == Seq::<Buffer>::empty(),
        ring_capacity(r) == capacity,
{
    AllocRingBuffer::new(capacity)
}

/// Relies on `RingBuffer::enqueue` of `AllocRingBuffer` (its `push`): the
/// item is appended; when the ring is full, the oldest item is dropped first.
#[verifier::external_body]
fn ring_enqueue(r: &mut AllocRingBuffer<Buffer>, item: Buffer)
    requires
        ring_items(*old(r)).len() <= ring_capacity(*old(r)),
    ensures
        ring_capacity(*final(r)) == ring_capacity(*old(r)),
        ring_items(*final(r)) == (if ring_items(*old(r)).len() == ring_capacity(*old(r)) {
            ring_items(*old(r)).drop_first().push(item)
        } else {
            ring_items(*old(r)).push(item)
        }),
{
    r.enqueue(item)
}

/// Relies on `RingBuffer::dequeue` of `AllocRingBuffer`: the oldest item is
/// taken out, or `None` when the ring is empty.
#[verifier::external_body]
fn ring_dequeue(r: &mut AllocRingBuffer<Buffer>) -> (res: Option<Buffer>)
    ensures
        ring_capacity(*final(r)) == ring_capacity(*old(r)),
        ring_items(*old(r)).len() == 0 ==> res is None && ring_items(*final(r)) == ring_items(*old(r)),
        ring_items(*old(r)).len() > 0 ==> res == Some(ring_items(*old(r))[0]) && ring_items(*final(r))
            == ring_items(*old(r)).drop_first(),
{
    r.dequeue()
}

/// The text of a fresh buffer.
pub fn empty_text() -> (r: String)
    ensures
        r@ == Seq::<char>::empty(),
{
    String::new()
}

/// Relies on `String::clear`: the text becomes empty.
#[verifier::external_body]
fn clear_string(s: &mut String)
    ensures
        final(s)@ == Seq::<char>::empty(),
{
    s.clear()
}

/// Reset the text of a buffer before it is reused.
pub fn reset_text(s: &mut String)
    ensures
        final(s)@ == Seq::<char>::empty(),
{
    clear_string(s)
}

/// Relies on `LinearObjectPool::new`: a pool that makes new buffers with
/// `empty_text` and resets returned ones with `reset_text`, both of which
/// leave the text empty.
#[verifier::external_body]
fn new_text_pool() -> (r: Arc<LinearObjectPool<String>>)
    ensures
        lends_empty(*r),
{
    Arc::new(LinearObjectPool::new(|| empty_text(), |s: &mut String| reset_text(s)))
}

/// Relies on `LinearObjectPool::pull_owned`: a buffer lent by the pool,
/// either new from its init closure or one that its reset closure cleared.
#[verifier::external_body]
fn pull_buffer(pool: &Arc<LinearObjectPool<String>>) -> (r: Buffer)
    requires
        lends_empty(**pool),
    ensures
        buffer_text(r) == Seq::<char>::empty(),
{
    pool.pull_owned()
}

/// Thread-safe pool of reusable text buffers.
pub struct BufferPool {
    obj_pool: Arc<LinearObjectPool<String>>,
}

impl BufferPool {
    pub closed spec fn wf(&self) -> bool {
        lends_empty(*self.obj_pool)
    }

    /// Construct a pool.
    pub fn new() -> (r: Self)
        ensures
            r.wf(),
    {
        BufferPool { obj_pool: new_text_pool() }
    }

    /// Lend a buffer with empty text; dropping it returns it to the pool.
    pub fn alloc_buffer(&self) -> (r: Buffer)
        requires
            self.wf(),
        ensures
            buffer_text(r) == Seq::<char>::empty(),
    {
        pull_buffer(&self.obj_pool)
    }
}

/// What a read of the queue finds.
pub enum QueueRead {
    /// The oldest buffer, taken out.
    Item(Buffer),
    /// The queue is empty and closed: nothing more will come.
    End,
    /// The queue is empty and open: the reader waits for a write or a close.
    Empty,
}

/// Bounded queue of buffers that drops the oldest one on overflow.
///
/// Besides the ring, the queue keeps (as ghost state) every buffer it
/// accepted, in order, and how many of them left the ring, read or dropped:
/// the ring always holds exactly the accepted buffers that have not left.
pub struct BufferQueue {
    ringbuf: AllocRingBuffer<Buffer>,
    closed: bool,
    accepted: Ghost<Seq<Buffer>>,
    gone: Ghost<nat>,
}

impl BufferQueue {
    /// The buffers in the queue, oldest first.
    pub closed spec fn items(&self) -> Seq<Buffer> {
        ring_items(self.ringbuf)
    }

    /// The largest number of buffers held at once.
    pub closed spec fn capacity(&self) -> nat {
        ring_capacity(self.ringbuf)
    }

    pub closed spec fn closed_spec(&self) -> bool {
        self.closed
    }

    /// Every buffer the queue accepted, in order.
    pub closed spec fn accepted(&self) -> Seq<Buffer> {
        self.accepted@
    }

    /// How many accepted buffers left the queue, read or dropped.
    pub closed spec fn gone(&self) -> nat {
        self.gone@
    }

    pub closed spec fn wf(&self) -> bool {
        &&& 0 < ring_capacity(self.ringbuf)
        &&& ring_items(self.ringbuf).len() <= ring_capacity(self.ringbuf)
        &&& self.gone@ <= self.accepted@.len()
        &&& ring_items(self.ringbuf) == self.accepted@.subrange(self.gone@ as int, self.accepted@.len() as int)
    }

    /// Construct an open, empty queue holding at most `queue_size` buffers.
    pub fn new(queue_size: usize) -> (r: Self)
        requires
            0 < queue_size <= MAX_QUEUE_SIZE,
        ensures
            r.wf(),
            r.items() == Seq::<Buffer>::empty(),
            r.capacity() == queue_size,
            !r.closed_spec(),
            r.accepted() == Seq::<Buffer>::empty(),
    {
        let r = BufferQueue {
            ringbuf: ring_new(queue_size),
            closed: false,
            accepted: Ghost(Seq::empty()),
            gone: Ghost(0),
        };
        assert(r.accepted@.subrange(0, 0) =~= Seq::<Buffer>::empty());
        r
    }

    /// Take the oldest buffer; on an empty queue, say whether it is closed
    /// (the reader is done) or open (the reader waits).
    pub fn read(&mut self) -> (r: QueueRead)
        requires
            old(self).wf(),
        ensures
            final(self).wf(),
            final(self).capacity() == old(self).capacity(),
            final(self).closed_spec() == old(self).closed_spec(),
            final(self).accepted() == old(self).accepted(),
            r is End <==> old(self).items().len() == 0 && old(self).closed_spec(),
            r is Empty <==> old(self).items().len() == 0 && !old(self).closed_spec(),
            old(self).items().len() == 0 ==> final(self).items() == old(self).items()
                && final(self).gone() == old(self).gone(),
            old(self).items().len() > 0 ==> {
                &&& r == QueueRead::Item(old(self).items()[0])
                &&& old(self).items()[0] == old(self).accepted()[old(self).gone() as int]
                &&& final(self).items() == old(self).items().drop_first()
                &&& final(self).gone() == old(self).gone() + 1
            },
    {
        match ring_dequeue(&mut self.ringbuf) {
            Some(buf) => {
                proof {
                    self.gone@ = self.gone@ + 1;
                    assert(ring_items(self.ringbuf) =~= self.accepted@.subrange(
                        self.gone@ as int,
                        self.accepted@.len() as int,
                    ));
                }
                QueueRead::Item(buf)
            },
            None => if self.closed {
                QueueRead::End
            } else {
                QueueRead::Empty
            },
        }
    }

    /// Whether the queue is closed.
    pub fn is_closed(&self) -> (r: bool)
        ensures
            r == self.closed_spec(),
    {
        self.closed
    }

    /// Add a buffer, dropping the oldest one when the queue is full.
    /// A closed queue discards the buffer, which returns to its pool.
    pub fn write(&mut self, buf: Buffer)
        requires
            old(self).wf(),
        ensures
            final(self).wf(),
            final(self).capacity() == old(self).capacity(),
            final(self).closed_spec() == old(self).closed_spec(),
            old(self).closed_spec() ==> final(self).items() == old(self).items()
                && final(self).accepted() == old(self).accepted(),
            !old(self).closed_spec() ==> {
                &&& final(self).accepted() == old(self).accepted().push(buf)
                &&& final(self).items() == if old(self).items().len() == old(self).capacity() {
                    old(self).items().drop_first().push(buf)
                } else {
                    old(self).items().push(buf)
                }
            },
    {
        if self.closed {
            return;
        }
        ring_enqueue(&mut self.ringbuf, buf);
        proof {
            let full = old(self).items().len() == old(self).capacity();
            self.accepted@ = self.accepted@.push(buf);
            if full {
                self.gone@ = self.gone@ + 1;
            }
            assert(ring_items(self.ringbuf) =~= self.accepted@.subrange(
                self.gone@ as int,
                self.accepted@.len() as int,
            ));
        }
    }

    /// Close the queue: later writes are discarded, and readers see the end
    /// once it is drained.
    pub fn close(&mut self)
        requires
            old(self).wf(),
        ensures
            final(self).wf(),
            final(self).closed_spec(),
            final(self).items() == old(self).items(),
            final(self).capacity() == old(self).capacity(),
            final(self).accepted() == old(self).accepted(),
    {
        self.closed = true;
    }
}

/// The queue never reorders nor splits what it is given: what it holds is
/// always the most recent run of accepted buffers, whole and in order, so
/// every buffer read or dropped left it before any buffer accepted after it.
pub proof fn lemma_queue_keeps_order(q: BufferQueue)
    requires
        q.wf(),
    ensures
        0 < q.capacity(),
        q.gone() <= q.accepted().len(),
        q.items() == q.accepted().subrange(q.gone() as int, q.accepted().len() as int),
        q.items().len() <= q.capacity(),
{
}

} // verus!
