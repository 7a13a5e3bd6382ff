//! The fixed-capacity sample queue between a sink's producer and its backend.
//!
//! Both halves come from `ringbuf`. The producer runs in postponed mode: what
//! it pushes reaches the consumer at the next `sync`, and the free space it
//! sees changes only through its own pushes and at `sync`. When the producer
//! sees no free space, a pushed sample is dropped: the oldest samples stay.
use vstd::prelude::*;

verus! {

/// The producer half of a sample ring.
#[verifier::external_body]
pub struct RingProducer {
    tx: ringbuf::producer::PostponedProducer<i16, std::sync::Arc<ringbuf::HeapRb<i16>>>,
}

/// The consumer half of a sample ring.
#[verifier::external_body]
pub struct RingConsumer {
    rx: ringbuf::HeapConsumer<i16>,
}

/// Every sample this producer has put into its ring, in order.
pub uninterp spec fn produced(p: RingProducer) -> Seq<i16>;

/// The free places this producer sees in its ring.
pub uninterp spec fn vacancy(p: RingProducer) -> nat;

/// The number of places the ring was made with.
pub uninterp spec fn ring_capacity(p: RingProducer) -> nat;

/// Every sample this consumer has taken out of its ring, in order.
pub uninterp spec fn consumed(c: RingConsumer) -> Seq<i16>;

/// Relies on `ringbuf::HeapRb::new`, `split` and `Producer::into_postponed`: an
/// empty ring of `capacity` places, parted into its two halves.
#[verifier::external_body]
fn ring_parts(capacity: usize) -> (r: (RingProducer, RingConsumer))
    requires
        capacity > 0,
    ensures
        produced(r.0) == Seq::<i16>::empty(),
        vacancy(r.0) == capacity,
        ring_capacity(r.0) == capacity,
        consumed(r.1) == Seq::<i16>::empty(),
{
    let (tx, rx) = ringbuf::HeapRb::<i16>::new(capacity).split();
    (RingProducer { tx: tx.into_postponed() }, RingConsumer { rx })
}

/// Creates an empty ring of `capacity` samples and returns its two halves.
pub fn sample_ring(capacity: usize) -> (r: (RingProducer, RingConsumer))
    requires
        capacity > 0,
    ensures
        produced(r.0) == Seq::<i16>::empty(),
        vacancy(r.0) == capacity,
        ring_capacity(r.0) == capacity,
        consumed(r.1) == Seq::<i16>::empty(),
{
    ring_parts(capacity)
}

impl RingProducer {
    /// Relies on `ringbuf::Producer::push`: the sample goes in when a place is
    /// free, and is handed back otherwise.
    #[verifier::external_body]
    pub(crate) fn push(&mut self, sample: i16) -> (r: bool)
        ensures
            r == (vacancy(*old(self)) > 0),
            r ==> produced(*final(self)) == produced(*old(self)).push(sample),
            r ==> vacancy(*final(self)) == vacancy(*old(self)) - 1,
            !r ==> produced(*final(self)) == produced(*old(self)),
            !r ==> vacancy(*final(self)) == vacancy(*old(self)),
            ring_capacity(*final(self)) == ring_capacity(*old(self)),
    {
        self.tx.push(sample).is_ok()
    }

    /// Relies on `ringbuf::PostponedProducer::sync`: publishes what was pushed
    /// and learns of the places the consumer has freed since.
    #[verifier::external_body]
    pub(crate) fn sync(&mut self)
        ensures
            produced(*final(self)) == produced(*old(self)),
            vacancy(*final(self)) >= vacancy(*old(self)),
            vacancy(*final(self)) <= ring_capacity(*old(self)),
            ring_capacity(*final(self)) == ring_capacity(*old(self)),
    {
        self.tx.sync()
    }

    /// Pushes the samples in order until the ring is full; the rest are dropped.
    /// Returns how many went in.
    pub fn push_all(&mut self, samples: &[i16]) -> (n: usize)
        ensures
            n as int == if samples@.len() <= vacancy(*old(self)) {
                samples@.len() as int
            } else {
                vacancy(*old(self)) as int
            },
            produced(*final(self)) == produced(*old(self)) + samples@.take(n as int),
            vacancy(*final(self)) == vacancy(*old(self)) - n,
            ring_capacity(*final(self)) == ring_capacity(*old(self)),
    {
        let mut i: usize = 0;
        let mut n: usize = 0;
        while i < samples.len()
            invariant
                i <= samples@.len(),
                n <= i,
                n as int == if i <= vacancy(*old(self)) { i as int } else { vacancy(*old(self)) as int },
                produced(*self) == produced(*old(self)) + samples@.take(n as int),
                vacancy(*self) == vacancy(*old(self)) - n,
                ring_capacity(*self) == ring_capacity(*old(self)),
            decreases samples@.len() - i,
        {
            let ok = self.push(samples[i]);
            if ok {
                proof {
                    assert(samples@.take(n + 1) == samples@.take(n as int).push(samples@[n as int]));
                }
                n += 1;
            }
            i += 1;
        }
        n
    }
}

impl RingConsumer {
    /// Relies on `ringbuf::Consumer::pop_slice`: moves the oldest samples into
    /// the front of `out`, as many as are there and fit, and leaves the rest of
    /// `out` as it was.
    #[verifier::external_body]
    fn pop_slice(&mut self, out: &mut [i16]) -> (n: usize)
        ensures
            n <= old(out)@.len(),
            final(out)@.len() == old(out)@.len(),
            consumed(*final(self)) == consumed(*old(self)) + final(out)@.take(n as int),
            forall|i: int| n <= i < old(out)@.len() ==> #[trigger] final(out)@[i] == old(out)@[i],
    {
        self.rx.pop_slice(out)
    }

    /// Fills `out` from the ring without waiting: the samples that are there
    /// come first, in order, and silence fills the shortfall. Returns how many
    /// came from the ring.
    pub fn fill_output(&mut self, out: &mut [i16]) -> (n: usize)
        ensures
            n <= old(out)@.len(),
            final(out)@.len() == old(out)@.len(),
            consumed(*final(self)) == consumed(*old(self)) + final(out)@.take(n as int),
            final(out)@ == with_silence_from(final(out)@.take(n as int), old(out)@.len()),
    {
        let n = self.pop_slice(out);
        let ghost popped = out@.take(n as int);
        fill_silence(out, n);
        proof {
            assert(out@.take(n as int) =~= popped);
        }
        n
    }
}

/// `head` followed by silence, up to `len` samples in all.
pub open spec fn with_silence_from(head: Seq<i16>, len: nat) -> Seq<i16> {
    head + Seq::new((len - head.len()) as nat, |i: int| 0i16)
}

/// Keeps the first `from` samples of `out` and silences the rest.
pub fn fill_silence(out: &mut [i16], from: usize)
    requires
        from <= old(out)@.len(),
    ensures
        final(out)@ == with_silence_from(old(out)@.take(from as int), old(out)@.len()),
{
    let ghost head = out@.take(from as int);
    let mut i: usize = from;
    while i < out.len()
        invariant
            from <= i <= out@.len(),
            out@.len() == old(out)@.len(),
            out@.take(from as int) == head,
            head == old(out)@.take(from as int),
            forall|j: int| from <= j < i ==> #[trigger] out@[j] == 0,
        decreases out@.len() - i,
    {
        out[i] = 0;
        i += 1;
        proof {
            assert(out@.take(from as int) =~= head);
        }
    }
    proof {
        assert(out@ =~= with_silence_from(head, old(out)@.len()));
    }
}

} // verus!
