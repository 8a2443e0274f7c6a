use vstd::prelude::*;
use vstd::seq_lib::lemma_flatten_concat;

verus! {

/// What a pop attempt on the chunk queue came back with.
pub enum PopOutcome {
    /// The oldest buffered chunk; it has now left the queue.
    Chunk(Vec<u8>),
    /// The queue is empty but its producer is still running: the consumer
    /// must suspend and try again.
    Empty,
    /// The queue is empty and closed: no chunk will ever arrive again.
    Finished,
}

/// The bounded single-producer/single-consumer FIFO that connects a
/// pipeline's reader task to its writer task. Chunks leave in the order
/// they entered; a full queue rejects a push, which is the producer's
/// suspension point and the system's only flow-control mechanism.
///
/// Two ghost histories record every chunk that ever entered (`inflow`) and
/// every chunk the consumer took out (`outflow`); well-formedness ties them
/// to the buffered remainder, so delivery is always an exact prefix of what
/// was produced.
pub struct ChunkQueue {
    buf: Vec<Vec<u8>>,
    cap: usize,
    shut: bool,
    hist_in: Ghost<Seq<Seq<u8>>>,
    hist_out: Ghost<Seq<Seq<u8>>>,
}

impl ChunkQueue {
    /// Every chunk ever pushed, oldest first.
    pub closed spec fn inflow(self) -> Seq<Seq<u8>> {
        self.hist_in@
    }

    /// Every chunk ever popped, oldest first.
    pub closed spec fn outflow(self) -> Seq<Seq<u8>> {
        self.hist_out@
    }

    /// The chunks now waiting in the queue, oldest first.
    pub closed spec fn buffered(self) -> Seq<Seq<u8>> {
        Seq::new(self.buf@.len(), |i: int| self.buf@[i]@)
    }

    /// The most chunks the queue will hold at once.
    pub closed spec fn capacity_spec(self) -> nat {
        self.cap as nat
    }

    /// Whether the producer has signalled end-of-data.
    pub closed spec fn closed_spec(self) -> bool {
        self.shut
    }

    /// The queue never buffers beyond its capacity, and what was popped
    /// followed by what still waits is exactly what was pushed.
    pub closed spec fn wf(self) -> bool {
        &&& 1 <= self.cap
        &&& self.buf@.len() <= self.cap
        &&& self.hist_out@ + self.buffered() == self.hist_in@
    }

    pub fn new(capacity: usize) -> (q: ChunkQueue)
        requires
            1 <= capacity,
        ensures
            q.wf(),
            q.capacity_spec() == capacity,
            !q.closed_spec(),
            q.inflow() == Seq::<Seq<u8>>::empty(),
            q.outflow() == Seq::<Seq<u8>>::empty(),
            q.buffered() == Seq::<Seq<u8>>::empty(),
    {
        let q = ChunkQueue {
            buf: Vec::new(),
            cap: capacity,
            shut: false,
            hist_in: Ghost(Seq::empty()),
            hist_out: Ghost(Seq::empty()),
        };
        proof {
            assert(q.buffered() =~= Seq::<Seq<u8>>::empty());
            assert(q.hist_out@ + q.buffered() =~= q.hist_in@);
        }
        q
    }

    pub fn len(&self) -> (n: usize)
        ensures
            n == self.buffered().len(),
    {
        self.buf.len()
    }

    pub fn capacity(&self) -> (n: usize)
        ensures
            n == self.capacity_spec(),
    {
        self.cap
    }

    pub fn is_closed(&self) -> (r: bool)
        ensures
            r == self.closed_spec(),
    {
        self.shut
    }

    /// Offers a chunk to the queue. A full queue turns the chunk down and is
    /// left exactly as it was: the producer must suspend, which is the
    /// backpressure that keeps memory bounded. An accepted chunk goes to the
    /// back of the line.
    pub fn try_push(&mut self, chunk: Vec<u8>) -> (accepted: bool)
        requires
            old(self).wf(),
            !old(self).closed_spec(),
        ensures
            final(self).wf(),
            accepted == (old(self).buffered().len() < old(self).capacity_spec()),
            accepted ==> {
                &&& final(self).buffered() == old(self).buffered().push(chunk@)
                &&& final(self).inflow() == old(self).inflow().push(chunk@)
                &&& final(self).outflow() == old(self).outflow()
            },
            !accepted ==> *final(self) == *old(self),
            final(self).capacity_spec() == old(self).capacity_spec(),
            !final(self).closed_spec(),
    {
        if self.buf.len() < self.cap {
            let ghost c = chunk@;
            self.buf.push(chunk);
            proof {
                self.hist_in@ = self.hist_in@.push(c);
                assert(self.buffered() =~= old(self).buffered().push(c));
                assert(self.hist_out@ + self.buffered() =~= self.hist_in@);
            }
            true
        } else {
            false
        }
    }

    /// Takes the oldest buffered chunk, or says why none came: `Empty` while
    /// the producer may still push (the consumer's suspension point), and
    /// `Finished` once the queue is closed and drained, which is the
    /// consumer's sole exit signal.
    pub fn pop(&mut self) -> (r: PopOutcome)
        requires
            old(self).wf(),
        ensures
            final(self).wf(),
            final(self).inflow() == old(self).inflow(),
            final(self).capacity_spec() == old(self).capacity_spec(),
            final(self).closed_spec() == old(self).closed_spec(),
            old(self).buffered().len() > 0 ==> {
                &&& r matches PopOutcome::Chunk(c) && c@ == old(self).buffered()[0]
                &&& final(self).buffered() == old(self).buffered().drop_first()
                &&& final(self).outflow() == old(self).outflow().push(old(self).buffered()[0])
            },
            old(self).buffered().len() == 0 && old(self).closed_spec() ==> r matches
                PopOutcome::Finished,
            old(self).buffered().len() == 0 && !old(self).closed_spec() ==> r matches
                PopOutcome::Empty,
            old(self).buffered().len() == 0 ==> *final(self) == *old(self),
    {
        if self.buf.len() > 0 {
            let c = self.buf.remove(0);
            proof {
                self.hist_out@ = self.hist_out@.push(c@);
                assert(self.buffered() =~= old(self).buffered().drop_first());
                assert(self.hist_out@ + self.buffered() =~= self.hist_in@);
            }
            PopOutcome::Chunk(c)
        } else if self.shut {
            PopOutcome::Finished
        } else {
            PopOutcome::Empty
        }
    }

    /// Signals end-of-data. The producer calls this exactly once, when its
    /// read loop ends, however it ended; it is what keeps the consumer from
    /// waiting forever.
    pub fn close(&mut self)
        requires
            old(self).wf(),
            !old(self).closed_spec(),
        ensures
            final(self).wf(),
            final(self).closed_spec(),
            final(self).inflow() == old(self).inflow(),
            final(self).outflow() == old(self).outflow(),
            final(self).buffered() == old(self).buffered(),
            final(self).capacity_spec() == old(self).capacity_spec(),
    {
        self.shut = true;
    }
}

/// The bytes a sequence of chunks carries, in order.
pub open spec fn chunk_bytes(chunks: Seq<Seq<u8>>) -> Seq<u8> {
    chunks.flatten()
}

/// Backpressure keeps memory bounded: a well-formed queue never buffers
/// more chunks than its capacity, however long the producer keeps pushing —
/// a push beyond that is turned down instead of growing the queue.
pub proof fn lemma_backpressure_bounded(q: ChunkQueue)
    requires
        q.wf(),
    ensures
        q.buffered().len() <= q.capacity_spec(),
{
}

/// End-to-end order: at every moment, the bytes the consumer has taken out
/// of a well-formed queue are exactly the first bytes the producer put in —
/// no loss, no duplication, no reordering. The bytes still buffered account
/// for the rest.
pub proof fn lemma_fifo_delivery(q: ChunkQueue)
    requires
        q.wf(),
    ensures
        q.outflow() + q.buffered() == q.inflow(),
        chunk_bytes(q.outflow()) + chunk_bytes(q.buffered()) == chunk_bytes(q.inflow()),
        chunk_bytes(q.outflow()) == chunk_bytes(q.inflow()).take(
            chunk_bytes(q.outflow()).len() as int,
        ),
        q.buffered().len() == 0 ==> chunk_bytes(q.outflow()) == chunk_bytes(q.inflow()),
{
    lemma_flatten_concat(q.outflow(), q.buffered());
    assert(chunk_bytes(q.outflow()) + chunk_bytes(q.buffered()) =~= chunk_bytes(q.inflow()));
    assert(chunk_bytes(q.outflow()) =~= chunk_bytes(q.inflow()).take(
        chunk_bytes(q.outflow()).len() as int,
    ));
}

} // verus!
