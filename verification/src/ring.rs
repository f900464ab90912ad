//! Fixed-capacity sample queue over `ringbuf::HeapRb`.
//!
//! While one owner holds the whole queue it is modelled as a sequence of
//! samples, oldest first, together with the capacity it was created with,
//! and every operation says exactly what it does to that sequence. Once the
//! queue is split into a producing and a consuming end for two threads, each
//! end promises only what holds whatever the other thread does meanwhile.

use ringbuf::traits::{Consumer, Observer, Producer, Split};
use vstd::prelude::*;

verus! {

/// A bounded first-in first-out queue of samples, kept in a
/// `ringbuf::HeapRb`. Its contents are known only through `ring_items` and
/// `ring_limit`.
#[verifier::external_body]
pub struct SampleRing {
    rb: ringbuf::HeapRb<u32>,
}

/// The samples that the queue holds, oldest first.
pub uninterp spec fn ring_items(rb: SampleRing) -> Seq<u32>;

/// The capacity that the queue was created with.
pub uninterp spec fn ring_limit(rb: SampleRing) -> nat;

/// Number of offered samples that fit into a queue holding `held` of
/// `capacity` samples.
pub open spec fn accepted_count(held: nat, capacity: nat, offered: nat) -> nat {
    if held + offered <= capacity {
        offered
    } else if held <= capacity {
        (capacity - held) as nat
    } else {
        0
    }
}

/// Number of samples handed out when `wanted` are asked of a queue holding `held`.
pub open spec fn taken_count(held: nat, wanted: nat) -> nat {
    if wanted <= held {
        wanted
    } else {
        held
    }
}

/// `ringbuf::HeapRb::new`: an empty queue of exactly the requested capacity.
/// The call panics on a zero capacity and on an allocation of more than
/// `isize::MAX` bytes, which the precondition leaves out.
#[verifier::external_body]
fn ring_with_capacity(capacity: usize) -> (rb: SampleRing)
    requires
        0 < capacity,
        capacity * 4 <= isize::MAX,
    ensures
        ring_items(rb) == Seq::<u32>::empty(),
        ring_limit(rb) == capacity,
{
    SampleRing { rb: ringbuf::HeapRb::<u32>::new(capacity) }
}

/// `Producer::push_slice`: appends the longest prefix of `elems` that still
/// fits and returns its length.
#[verifier::external_body]
fn ring_push_slice(rb: &mut SampleRing, elems: &[u32]) -> (count: usize)
    requires
        ring_items(*old(rb)).len() <= ring_limit(*old(rb)),
    ensures
        count == accepted_count(ring_items(*old(rb)).len(), ring_limit(*old(rb)), elems@.len()),
        ring_items(*final(rb)) == ring_items(*old(rb)) + elems@.take(count as int),
        ring_limit(*final(rb)) == ring_limit(*old(rb)),
{
    rb.rb.push_slice(elems)
}

/// `Consumer::pop_slice` on the first `max` places of `out`: moves the oldest
/// samples there, as many as are held and fit, and returns how many.
#[verifier::external_body]
fn ring_pop_slice(rb: &mut SampleRing, out: &mut Vec<u32>, max: usize) -> (count: usize)
    requires
        max <= old(out)@.len(),
    ensures
        count == taken_count(ring_items(*old(rb)).len(), max as nat),
        ring_items(*final(rb)) == ring_items(*old(rb)).skip(count as int),
        ring_limit(*final(rb)) == ring_limit(*old(rb)),
        final(out)@ == ring_items(*old(rb)).take(count as int) + old(out)@.skip(count as int),
{
    rb.rb.pop_slice(&mut out[..max])
}

/// `Consumer::try_pop`: removes and returns the oldest sample, or returns
/// `None` and changes nothing when the queue is empty.
#[verifier::external_body]
fn ring_try_pop(rb: &mut SampleRing) -> (item: Option<u32>)
    ensures
        ring_limit(*final(rb)) == ring_limit(*old(rb)),
        ring_items(*old(rb)).len() == 0 ==> item.is_none() && ring_items(*final(rb)) == ring_items(
            *old(rb),
        ),
        ring_items(*old(rb)).len() > 0 ==> item == Some(ring_items(*old(rb))[0]) && ring_items(
            *final(rb),
        ) == ring_items(*old(rb)).skip(1),
{
    rb.rb.try_pop()
}

/// `Observer::occupied_len`: the number of samples held.
#[verifier::external_body]
fn ring_occupied_len(rb: &SampleRing) -> (len: usize)
    ensures
        len == ring_items(*rb).len(),
{
    rb.rb.occupied_len()
}

/// `Observer::is_empty`: whether no sample is held.
#[verifier::external_body]
fn ring_is_empty(rb: &SampleRing) -> (empty: bool)
    ensures
        empty == (ring_items(*rb).len() == 0),
{
    rb.rb.is_empty()
}

impl View for SampleRing {
    type V = Seq<u32>;

    closed spec fn view(&self) -> Seq<u32> {
        ring_items(*self)
    }
}

impl SampleRing {
    /// The capacity the queue was created with.
    pub closed spec fn capacity(&self) -> nat {
        ring_limit(*self)
    }

    /// A queue never holds more than its capacity, which is positive.
    pub open spec fn wf(&self) -> bool {
        &&& self.capacity() > 0
        &&& self@.len() <= self.capacity()
    }

    /// Free places left.
    pub open spec fn vacant(&self) -> nat {
        (self.capacity() - self@.len()) as nat
    }

    /// Creates an empty queue.
    pub fn new(capacity: usize) -> (ring: SampleRing)
        requires
            0 < capacity,
            capacity * 4 <= isize::MAX,
        ensures
            ring.wf(),
            ring@ == Seq::<u32>::empty(),
            ring.capacity() == capacity,
    {
        ring_with_capacity(capacity)
    }

    /// Appends as many leading samples of `elems` as fit and returns their
    /// number; the rest is dropped.
    pub fn push_slice(&mut self, elems: &[u32]) -> (count: usize)
        requires
            old(self).wf(),
        ensures
            final(self).wf(),
            final(self).capacity() == old(self).capacity(),
            count == accepted_count(old(self)@.len(), old(self).capacity(), elems@.len()),
            final(self)@ == old(self)@ + elems@.take(count as int),
    {
        ring_push_slice(self, elems)
    }

    /// Moves the oldest samples into the first `max` places of `out` and
    /// returns how many were moved; the other places of `out` keep their
    /// values.
    pub fn pop_slice(&mut self, out: &mut Vec<u32>, max: usize) -> (count: usize)
        requires
            old(self).wf(),
            max <= old(out)@.len(),
        ensures
            final(self).wf(),
            final(self).capacity() == old(self).capacity(),
            count == taken_count(old(self)@.len(), max as nat),
            final(self)@ == old(self)@.skip(count as int),
            final(out)@ == old(self)@.take(count as int) + old(out)@.skip(count as int),
    {
        ring_pop_slice(self, out, max)
    }

    /// Removes and returns the oldest sample, if there is one.
    pub fn try_pop(&mut self) -> (item: Option<u32>)
        requires
            old(self).wf(),
        ensures
            final(self).wf(),
            final(self).capacity() == old(self).capacity(),
            old(self)@.len() == 0 ==> item.is_none() && final(self)@ == old(self)@,
            old(self)@.len() > 0 ==> item == Some(old(self)@[0]) && final(self)@ == old(self)@.skip(1),
    {
        ring_try_pop(self)
    }

    /// Splits the queue into its two ends, one for the thread that fills it
    /// and one for the thread that empties it. From here on each end sees
    /// the effects of the other, and only what holds of every interleaving
    /// is promised.
    pub fn split(self) -> (ends: (RingProducer, RingConsumer))
        ensures
            ends.0.capacity() == self.capacity(),
            ends.1.capacity() == self.capacity(),
    {
        ring_split(self)
    }

    /// Number of samples held.
    pub fn occupied_len(&self) -> (len: usize)
        ensures
            len == self@.len(),
    {
        ring_occupied_len(self)
    }

    /// Whether the queue holds no sample.
    pub fn is_empty(&self) -> (empty: bool)
        ensures
            empty == (self@.len() == 0),
    {
        ring_is_empty(self)
    }
}

/// The producing end of a queue that was split between two threads, a
/// `ringbuf::HeapProd`. What the queue holds at any moment depends on the
/// other thread too, so its contents have no name here.
#[verifier::external_body]
pub struct RingProducer {
    end: ringbuf::HeapProd<u32>,
}

/// The consuming end of a queue that was split between two threads, a
/// `ringbuf::HeapCons`.
#[verifier::external_body]
pub struct RingConsumer {
    end: ringbuf::HeapCons<u32>,
}

/// The capacity of the queue that a producing end belongs to.
pub uninterp spec fn producer_limit(end: RingProducer) -> nat;

/// The capacity of the queue that a consuming end belongs to.
pub uninterp spec fn consumer_limit(end: RingConsumer) -> nat;

/// `Split::split`: the two ends of the queue, whose capacity stays what it
/// was.
#[verifier::external_body]
fn ring_split(rb: SampleRing) -> (ends: (RingProducer, RingConsumer))
    ensures
        producer_limit(ends.0) == ring_limit(rb),
        consumer_limit(ends.1) == ring_limit(rb),
{
    let (producer, consumer) = rb.rb.split();
    (RingProducer { end: producer }, RingConsumer { end: consumer })
}

/// `Producer::push_slice` on the producing end: appends a prefix of `elems`
/// and returns its length, which depends on how far the consumer has got
/// and never exceeds the capacity.
#[verifier::external_body]
fn producer_push_slice(end: &mut RingProducer, elems: &[u32]) -> (count: usize)
    ensures
        count <= elems@.len(),
        count <= producer_limit(*old(end)),
        producer_limit(*final(end)) == producer_limit(*old(end)),
{
    end.end.push_slice(elems)
}

/// `Consumer::pop_slice` on the consuming end and the first `max` places of
/// `out`: moves the oldest samples there and returns how many, which depends
/// on how far the producer has got. The other places of `out` keep their
/// values.
#[verifier::external_body]
fn consumer_pop_slice(end: &mut RingConsumer, out: &mut Vec<u32>, max: usize) -> (count: usize)
    requires
        max <= old(out)@.len(),
    ensures
        count <= max,
        count <= consumer_limit(*old(end)),
        consumer_limit(*final(end)) == consumer_limit(*old(end)),
        final(out)@.len() == old(out)@.len(),
        final(out)@.skip(count as int) == old(out)@.skip(count as int),
{
    end.end.pop_slice(&mut out[..max])
}

/// `Observer::occupied_len` on the consuming end: the number of samples
/// held when the call looked, which the producer may have raised since.
#[verifier::external_body]
fn consumer_occupied_len(end: &RingConsumer) -> (len: usize)
    ensures
        len <= consumer_limit(*end),
{
    end.end.occupied_len()
}

/// `Observer::is_empty` on the consuming end: whether no sample was held
/// when the call looked.
#[verifier::external_body]
fn consumer_is_empty(end: &RingConsumer) -> (empty: bool) {
    end.end.is_empty()
}

impl RingProducer {
    /// The capacity of the queue.
    pub closed spec fn capacity(&self) -> nat {
        producer_limit(*self)
    }

    /// Appends leading samples of `elems`, as many as the queue has room
    /// for at that moment, and returns their number.
    pub fn push_slice(&mut self, elems: &[u32]) -> (count: usize)
        ensures
            count <= elems@.len(),
            count <= old(self).capacity(),
            final(self).capacity() == old(self).capacity(),
    {
        producer_push_slice(self, elems)
    }
}

impl RingConsumer {
    /// The capacity of the queue.
    pub closed spec fn capacity(&self) -> nat {
        consumer_limit(*self)
    }

    /// Moves the oldest samples into the first `max` places of `out` and
    /// returns how many were there to move; the other places of `out` keep
    /// their values.
    pub fn pop_slice(&mut self, out: &mut Vec<u32>, max: usize) -> (count: usize)
        requires
            max <= old(out)@.len(),
        ensures
            count <= max,
            count <= old(self).capacity(),
            final(self).capacity() == old(self).capacity(),
            final(out)@.len() == old(out)@.len(),
            final(out)@.skip(count as int) == old(out)@.skip(count as int),
    {
        consumer_pop_slice(self, out, max)
    }

    /// Number of samples that were held when the call looked.
    pub fn occupied_len(&self) -> (len: usize)
        ensures
            len <= self.capacity(),
    {
        consumer_occupied_len(self)
    }

    /// Whether no sample was held when the call looked.
    pub fn is_empty(&self) -> (empty: bool) {
        consumer_is_empty(self)
    }
}

/// One step in the life of a queue: an offer of samples by the producer, or
/// a request for up to `wanted` samples by the consumer.
pub enum RingOp {
    Push(Seq<u32>),
    Pop(nat),
}

/// What a run of operations has led to: the samples still held, every
/// sample that was accepted, and every sample that was handed out, each in
/// order of time.
pub struct RingTrace {
    pub held: Seq<u32>,
    pub accepted: Seq<u32>,
    pub delivered: Seq<u32>,
}

/// The trace of `ops` on a queue of the given capacity that starts empty.
/// Each step follows the contracts of `push_slice` and `pop_slice`.
pub open spec fn replay(ops: Seq<RingOp>, capacity: nat) -> RingTrace
    decreases ops.len(),
{
    if ops.len() == 0 {
        RingTrace { held: Seq::empty(), accepted: Seq::empty(), delivered: Seq::empty() }
    } else {
        let before = replay(ops.drop_last(), capacity);
        match ops.last() {
            RingOp::Push(elems) => {
                let n = accepted_count(before.held.len(), capacity, elems.len()) as int;
                RingTrace {
                    held: before.held + elems.take(n),
                    accepted: before.accepted + elems.take(n),
                    delivered: before.delivered,
                }
            },
            RingOp::Pop(wanted) => {
                let n = taken_count(before.held.len(), wanted) as int;
                RingTrace {
                    held: before.held.skip(n),
                    accepted: before.accepted,
                    delivered: before.delivered + before.held.take(n),
                }
            },
        }
    }
}

/// First in, first out: after any run of pushes and pops the samples handed
/// out are a prefix of the samples accepted, nothing is handed out twice or
/// out of order, and what is missing from the prefix is exactly what the
/// queue still holds, which never exceeds the capacity.
pub proof fn lemma_ring_fifo(ops: Seq<RingOp>, capacity: nat)
    ensures
        replay(ops, capacity).accepted == replay(ops, capacity).delivered + replay(
            ops,
            capacity,
        ).held,
        replay(ops, capacity).delivered.len() <= replay(ops, capacity).accepted.len(),
        replay(ops, capacity).delivered == replay(ops, capacity).accepted.take(
            replay(ops, capacity).delivered.len() as int,
        ),
        replay(ops, capacity).held.len() <= capacity,
    decreases ops.len(),
{
    let now = replay(ops, capacity);
    if ops.len() > 0 {
        lemma_ring_fifo(ops.drop_last(), capacity);
        let before = replay(ops.drop_last(), capacity);
        match ops.last() {
            RingOp::Push(elems) => {
                let n = accepted_count(before.held.len(), capacity, elems.len()) as int;
                assert(now.accepted =~= now.delivered + now.held);
            },
            RingOp::Pop(wanted) => {
                let n = taken_count(before.held.len(), wanted) as int;
                assert(before.held =~= before.held.take(n) + before.held.skip(n));
                assert(now.accepted =~= now.delivered + now.held);
            },
        }
    }
    assert(now.delivered =~= now.accepted.take(now.delivered.len() as int));
}

} // verus!
