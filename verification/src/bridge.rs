//! The bridge between a real-time audio callback and a cooperative consumer.
//!
//! Samples cross the thread boundary through a fixed-capacity lock-free ring
//! buffer; a small wake cell coalesces "data available" notifications so that
//! many rapid pushes wake the consumer at most once. Each 32-bit ring item is
//! the bit pattern of one normalized sample; the bridge itself never
//! interprets item values.

use vstd::prelude::*;
use ringbuf::traits::Consumer;
use ringbuf::traits::Producer;
use ringbuf::traits::Split;

verus! {

/// Number of samples handed to the consumer per chunk.
pub const SAMPLES_PER_CHUNK: usize = 1024;

/// Ring capacity as a multiple of the chunk size; at typical rates this
/// absorbs over a second of scheduling latency.
pub const BUFFER_CAPACITY_MULTIPLIER: usize = 64;

/// A fixed-capacity single-producer/single-consumer queue of 32-bit sample
/// words, backed by a lock-free ring buffer.
#[verifier::external_body]
pub struct SampleRing {
    producer: ringbuf::HeapProd<u32>,
    consumer: ringbuf::HeapCons<u32>,
}

/// The sample words currently queued, oldest first.
pub uninterp spec fn ring_view(r: SampleRing) -> Seq<u32>;

/// The fixed capacity the ring was created with.
pub uninterp spec fn ring_capacity(r: SampleRing) -> nat;

impl SampleRing {
    /// Relies on ringbuf's `HeapRb::new` and `Split::split`: a heap ring
    /// buffer of exactly the asked capacity, initially empty. `HeapRb::new`
    /// panics on capacity zero, so that is ruled out here.
    #[verifier::external_body]
    pub fn new(capacity: usize) -> (r: SampleRing)
        requires
            1 <= capacity,
        ensures
            ring_view(r) == Seq::<u32>::empty(),
            ring_capacity(r) == capacity,
    {
        let rb = ringbuf::HeapRb::<u32>::new(capacity);
        let (producer, consumer) = rb.split();
        SampleRing { producer, consumer }
    }

    /// Relies on ringbuf's `Producer::push_slice`: appends as many items from
    /// the front of `data` as there is vacant space for, in order, and
    /// returns how many were appended; the rest are not queued.
    #[verifier::external_body]
    pub fn push_slice(&mut self, data: &[u32]) -> (n: usize)
        ensures
            n as int == if data@.len() as int
                <= ring_capacity(*old(self)) - ring_view(*old(self)).len() {
                data@.len() as int
            } else {
                ring_capacity(*old(self)) - ring_view(*old(self)).len()
            },
            ring_view(*final(self)) == ring_view(*old(self)) + data@.subrange(0, n as int),
            ring_capacity(*final(self)) == ring_capacity(*old(self)),
    {
        self.producer.push_slice(data)
    }

    /// Relies on ringbuf's `Consumer::pop_slice`: removes up to `buf.len()`
    /// of the oldest queued items, writes them to the front of `buf` in
    /// order, and returns how many were removed; the rest of `buf` is left
    /// as it was.
    #[verifier::external_body]
    pub fn pop_slice(&mut self, buf: &mut Vec<u32>) -> (n: usize)
        ensures
            n as int == if old(buf)@.len() <= ring_view(*old(self)).len() {
                old(buf)@.len() as int
            } else {
                ring_view(*old(self)).len() as int
            },
            final(buf)@ == ring_view(*old(self)).subrange(0, n as int)
                + old(buf)@.subrange(n as int, old(buf)@.len() as int),
            ring_view(*final(self)) == ring_view(*old(self)).subrange(
                n as int,
                ring_view(*old(self)).len() as int,
            ),
            ring_capacity(*final(self)) == ring_capacity(*old(self)),
    {
        self.consumer.pop_slice(buf.as_mut_slice())
    }
}

/// Wake coordination between the producing callback and the consumer.
///
/// `data_pending` records that data has arrived since the consumer last found
/// the queue empty; `waiter` records that the consumer is parked and wants
/// one notification. The producer issues a wake only on the transition from
/// no pending data to pending data, so repeated pushes coalesce.
pub struct WakeCell {
    pub data_pending: bool,
    pub waiter: bool,
}

/// State of the wake cell after the producer notes newly queued data.
pub open spec fn note_data_next(c: WakeCell) -> WakeCell {
    WakeCell { data_pending: true, waiter: c.waiter && c.data_pending }
}

/// Whether noting newly queued data in state `c` issues a wake.
pub open spec fn note_data_wakes(c: WakeCell) -> bool {
    !c.data_pending && c.waiter
}

/// How many wakes `m` consecutive data notes issue, starting from `c`
/// with the consumer never polling in between.
pub open spec fn wake_count(c: WakeCell, m: nat) -> nat
    decreases m,
{
    if m == 0 {
        0
    } else {
        (if note_data_wakes(c) { 1nat } else { 0nat })
            + wake_count(note_data_next(c), (m - 1) as nat)
    }
}

impl WakeCell {
    /// A fresh cell: no pending data, no parked consumer.
    pub fn new() -> (r: WakeCell)
        ensures
            !r.data_pending,
            !r.waiter,
    {
        WakeCell { data_pending: false, waiter: false }
    }

    /// The producer's half of wake coordination: record that data is
    /// pending, and say whether the parked consumer must be woken now.
    pub fn note_data(&mut self) -> (wake: bool)
        ensures
            *final(self) == note_data_next(*old(self)),
            wake == note_data_wakes(*old(self)),
    {
        if !self.data_pending {
            self.data_pending = true;
            let wake = self.waiter;
            self.waiter = false;
            wake
        } else {
            false
        }
    }

    /// The consumer's half: it found no data, parks, and asks to be woken
    /// on the next data note.
    pub fn register_waiter(&mut self)
        ensures
            !final(self).data_pending,
            final(self).waiter,
    {
        self.data_pending = false;
        self.waiter = true;
    }
}

proof fn lemma_no_wakes_while_pending(c: WakeCell, m: nat)
    requires
        c.data_pending,
    ensures
        wake_count(c, m) == 0,
    decreases m,
{
    if m > 0 {
        lemma_no_wakes_while_pending(note_data_next(c), (m - 1) as nat);
    }
}

/// Wake coalescing: any number of consecutive data notes, with the consumer
/// not polling in between, issue at most one wake notification.
pub proof fn lemma_wake_coalescing(c: WakeCell, m: nat)
    ensures
        wake_count(c, m) <= 1,
{
    if m > 0 {
        lemma_no_wakes_while_pending(note_data_next(c), (m - 1) as nat);
    }
}

/// How many wakes a run of deliveries issues, starting from wake state `c`,
/// where `queued[i]` says whether the `i`-th delivery queued at least one
/// sample: only those note data, per the delivery step's contract.
pub open spec fn delivery_wake_count(c: WakeCell, queued: Seq<bool>) -> nat
    decreases queued.len(),
{
    if queued.len() == 0 {
        0
    } else if queued[0] {
        (if note_data_wakes(c) { 1nat } else { 0nat })
            + delivery_wake_count(note_data_next(c), queued.drop_first())
    } else {
        delivery_wake_count(c, queued.drop_first())
    }
}

proof fn lemma_no_delivery_wakes_while_pending(c: WakeCell, queued: Seq<bool>)
    requires
        c.data_pending,
    ensures
        delivery_wake_count(c, queued) == 0,
    decreases queued.len(),
{
    if queued.len() > 0 {
        if queued[0] {
            lemma_no_delivery_wakes_while_pending(note_data_next(c), queued.drop_first());
        } else {
            lemma_no_delivery_wakes_while_pending(c, queued.drop_first());
        }
    }
}

/// Wake coalescing at the delivery level: any run of consecutive deliveries,
/// with the consumer never polling in between, wakes it at most once,
/// whether or not each delivery queued anything.
pub proof fn lemma_delivery_wake_coalescing(c: WakeCell, queued: Seq<bool>)
    ensures
        delivery_wake_count(c, queued) <= 1,
    decreases queued.len(),
{
    if queued.len() > 0 {
        if queued[0] {
            lemma_no_delivery_wakes_while_pending(note_data_next(c), queued.drop_first());
        } else {
            lemma_delivery_wake_coalescing(c, queued.drop_first());
        }
    }
}

/// The consumer-facing side of one capture session: the sample ring, the
/// wake cell, the running count of dropped samples, and the sample rate most
/// recently observed from the device.
pub struct CaptureBridge {
    ring: SampleRing,
    wake: WakeCell,
    dropped_total: u64,
    sample_rate: u32,
    chunk_size: usize,
}

impl CaptureBridge {
    /// The queued sample words, oldest first.
    pub closed spec fn contents(self) -> Seq<u32> {
        ring_view(self.ring)
    }

    /// The fixed ring capacity.
    pub closed spec fn capacity(self) -> nat {
        ring_capacity(self.ring)
    }

    /// The wake-coordination state.
    pub closed spec fn wake_state(self) -> WakeCell {
        self.wake
    }

    /// Total samples dropped at the ring boundary so far.
    pub closed spec fn dropped(self) -> nat {
        self.dropped_total as nat
    }

    pub closed spec fn rate(self) -> u32 {
        self.sample_rate
    }

    pub closed spec fn chunk(self) -> nat {
        self.chunk_size as nat
    }

    /// Well-formed bridges never hold more than their capacity and hand out
    /// chunks of at least one sample.
    pub closed spec fn wf(self) -> bool {
        &&& 1 <= self.capacity()
        &&& self.contents().len() <= self.capacity()
        &&& 1 <= self.chunk()
    }

    pub fn new(chunk_size: usize, capacity: usize, initial_rate: u32) -> (r: CaptureBridge)
        requires
            1 <= chunk_size,
            1 <= capacity,
        ensures
            r.wf(),
            r.contents() == Seq::<u32>::empty(),
            r.capacity() == capacity,
            r.chunk() == chunk_size,
            !r.wake_state().data_pending,
            !r.wake_state().waiter,
            r.dropped() == 0,
            r.rate() == initial_rate,
    {
        CaptureBridge {
            ring: SampleRing::new(capacity),
            wake: WakeCell::new(),
            dropped_total: 0,
            sample_rate: initial_rate,
            chunk_size,
        }
    }

    /// The producer's delivery step, run by the real-time callback for each
    /// normalized buffer: push what fits, count what was dropped, and decide
    /// whether to wake the consumer. Pushing fewer samples than the remaining
    /// capacity drops none; pushing more drops exactly the excess, and the
    /// accepted prefix is queued in order. The returned flag tells the caller
    /// to wake the parked consumer; it is issued only when newly queued data
    /// meets a registered waiter with nothing already pending.
    pub fn deliver(&mut self, data: &Vec<u32>) -> (wake: bool)
        requires
            old(self).wf(),
        ensures
            final(self).wf(),
            ({
                let accepted = if data@.len() as int
                    <= old(self).capacity() - old(self).contents().len() {
                    data@.len() as int
                } else {
                    old(self).capacity() - old(self).contents().len()
                };
                &&& final(self).contents() == old(self).contents() + data@.subrange(0, accepted)
                &&& final(self).dropped() == if old(self).dropped() + data@.len() - accepted
                    <= u64::MAX {
                    old(self).dropped() + data@.len() - accepted
                } else {
                    u64::MAX as int
                }
                &&& wake == (accepted > 0 && note_data_wakes(old(self).wake_state()))
                &&& final(self).wake_state() == if accepted > 0 {
                    note_data_next(old(self).wake_state())
                } else {
                    old(self).wake_state()
                }
            }),
            final(self).capacity() == old(self).capacity(),
            final(self).chunk() == old(self).chunk(),
            final(self).rate() == old(self).rate(),
    {
        let pushed = self.ring.push_slice(data.as_slice());
        if pushed < data.len() {
            let dropped = (data.len() - pushed) as u64;
            self.dropped_total = self.dropped_total.saturating_add(dropped);
        }
        if pushed > 0 {
            self.wake.note_data()
        } else {
            false
        }
    }

    /// The consumer's poll step: drain up to one chunk. Returns the drained
    /// samples when any are queued; otherwise registers the consumer as the
    /// waiter for the next delivery and returns nothing, which is the
    /// "pending" outcome.
    pub fn poll_chunk(&mut self) -> (r: Option<Vec<u32>>)
        requires
            old(self).wf(),
        ensures
            final(self).wf(),
            ({
                let n = if old(self).chunk() <= old(self).contents().len() {
                    old(self).chunk() as int
                } else {
                    old(self).contents().len() as int
                };
                match r {
                    Some(v) => {
                        &&& old(self).contents().len() > 0
                        &&& v@ == old(self).contents().subrange(0, n)
                        &&& v@.len() > 0
                        &&& final(self).contents() == old(self).contents().subrange(
                            n,
                            old(self).contents().len() as int,
                        )
                        &&& final(self).wake_state() == old(self).wake_state()
                    },
                    None => {
                        &&& old(self).contents().len() == 0
                        &&& final(self).contents() == old(self).contents()
                        &&& !final(self).wake_state().data_pending
                        &&& final(self).wake_state().waiter
                    },
                }
            }),
            final(self).capacity() == old(self).capacity(),
            final(self).chunk() == old(self).chunk(),
            final(self).rate() == old(self).rate(),
            final(self).dropped() == old(self).dropped(),
    {
        let mut buf: Vec<u32> = Vec::new();
        let mut i: usize = 0;
        while i < self.chunk_size
            invariant
                buf@.len() == i,
                i <= self.chunk_size,
            decreases self.chunk_size - i,
        {
            buf.push(0);
            i = i + 1;
        }
        let popped = self.ring.pop_slice(&mut buf);
        if popped > 0 {
            buf.truncate(popped);
            proof {
                assert(buf@ =~= ring_view(old(self).ring).subrange(
                    0,
                    if old(self).chunk() <= old(self).contents().len() {
                        old(self).chunk() as int
                    } else {
                        old(self).contents().len() as int
                    },
                ));
            }
            Some(buf)
        } else {
            self.wake.register_waiter();
            None
        }
    }

    /// The callback's rate check: record the rate the device reports now and
    /// say whether it changed since the last delivery.
    pub fn observe_rate(&mut self, observed: u32) -> (changed: bool)
        ensures
            final(self).rate() == observed,
            changed == (old(self).rate() != observed),
            final(self).contents() == old(self).contents(),
            final(self).capacity() == old(self).capacity(),
            final(self).wake_state() == old(self).wake_state(),
            final(self).dropped() == old(self).dropped(),
            final(self).chunk() == old(self).chunk(),
            final(self).wf() == old(self).wf(),
    {
        let changed = self.sample_rate != observed;
        self.sample_rate = observed;
        changed
    }

    /// The sample rate most recently observed from the device, which may
    /// differ from the rate at session-open time.
    pub fn current_sample_rate(&self) -> (r: u32)
        ensures
            r == self.rate(),
    {
        self.sample_rate
    }

    /// Total samples dropped at the ring boundary, for diagnostics.
    pub fn dropped_samples(&self) -> (r: u64)
        ensures
            r as nat == self.dropped(),
    {
        self.dropped_total
    }
}

} // verus!
