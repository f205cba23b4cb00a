//! Per-bucket state a publisher keeps for its data segment: the reference
//! counter of every sample-sized bucket and its forwarding-history bitmap,
//! one bit per declared forwarding target.
use vstd::prelude::*;

verus! {

/// The mask of the bit that stands for forwarding target `target_index`.
pub open spec fn target_mask(target_index: u8) -> u64 {
    1u64 << (target_index as u64)
}

/// Whether the bitmap `history` records a forward to `target_index`.
pub open spec fn has_forwarded(history: u64, target_index: u8) -> bool {
    history & target_mask(target_index) != 0
}

/// The counter after one more borrow; an atomic increment wraps.
pub open spec fn counter_after_borrow(counter: u64) -> u64 {
    if counter == u64::MAX { 0 } else { (counter + 1) as u64 }
}

/// The counter after one release; an atomic decrement wraps.
pub open spec fn counter_after_release(counter: u64) -> u64 {
    if counter == 0 { u64::MAX } else { (counter - 1) as u64 }
}

/// A borrow adds one to the counter and a release takes one away, each
/// wrapping only at the end of the range; a release undoes a borrow and a
/// borrow undoes a release.
pub proof fn lemma_counter_steps(counter: u64)
    ensures
        counter < u64::MAX ==> counter_after_borrow(counter) == counter + 1,
        counter == u64::MAX ==> counter_after_borrow(counter) == 0,
        counter > 0 ==> counter_after_release(counter) == counter - 1,
        counter == 0 ==> counter_after_release(counter) == u64::MAX,
        counter_after_release(counter_after_borrow(counter)) == counter,
        counter_after_borrow(counter_after_release(counter)) == counter,
        counter_after_borrow(counter) as int == (counter as int + 1) % 0x1_0000_0000_0000_0000,
        counter_after_release(counter) as int == (counter as int + 0xffff_ffff_ffff_ffff) % 0x1_0000_0000_0000_0000,
{
}

/// The record of a forward to `target_index` is bit `target_index` of the
/// bitmap; the masks of two different targets share no bit, and no mask is
/// empty.
pub proof fn lemma_target_bits(history: u64, target_index: u8, other: u8)
    requires
        target_index < 64,
        other < 64,
    ensures
        has_forwarded(history, target_index) == ((history >> (target_index as u64)) & 1 == 1),
        target_mask(target_index) != 0,
        other != target_index ==> target_mask(target_index) & target_mask(other) == 0,
{
    let t = target_index as u64;
    let o = other as u64;
    assert((history & (1u64 << t) != 0) == ((history >> t) & 1 == 1)) by (bit_vector)
        requires
            t < 64;
    assert(1u64 << t != 0) by (bit_vector)
        requires
            t < 64;
    assert(o != t ==> (1u64 << t) & (1u64 << o) == 0) by (bit_vector)
        requires
            t < 64,
            o < 64;
}

/// Setting the bit of one target records a forward to it and changes the
/// record of no other target.
pub proof fn lemma_set_target_bit(history: u64, target_index: u8, other: u8)
    requires
        target_index < 64,
        other < 64,
    ensures
        has_forwarded(history | target_mask(target_index), target_index),
        other != target_index ==> (has_forwarded(history | target_mask(target_index), other)
            == has_forwarded(history, other)),
{
    let t = target_index as u64;
    let o = other as u64;
    assert((history | (1u64 << t)) & (1u64 << t) != 0) by (bit_vector)
        requires
            t < 64;
    assert(o != t ==> (((history | (1u64 << t)) & (1u64 << o) != 0) == (history & (1u64 << o)
        != 0))) by (bit_vector)
        requires
            t < 64,
            o < 64;
}

/// An empty bitmap records no forward.
pub proof fn lemma_empty_history(target_index: u8)
    requires
        target_index < 64,
    ensures
        !has_forwarded(0, target_index),
{
    let t = target_index as u64;
    assert(0u64 & (1u64 << t) == 0) by (bit_vector)
        requires
            t < 64;
}

/// Reference counters and forwarding-history bitmaps of the buckets of one
/// data segment, kept in the publisher's own memory.
pub struct SegmentState {
    sample_reference_counter: Vec<u64>,
    forwarding_history: Vec<u64>,
    payload_size: usize,
}

impl SegmentState {
    /// There is one counter and one bitmap per bucket.
    pub open spec fn well_formed(&self) -> bool {
        self.counters().len() == self.histories().len()
    }

    /// The reference counter of every bucket, by bucket index.
    pub closed spec fn counters(&self) -> Seq<u64> {
        self.sample_reference_counter@
    }

    /// The forwarding-history bitmap of every bucket, by bucket index.
    pub closed spec fn histories(&self) -> Seq<u64> {
        self.forwarding_history@
    }

    /// The size in bytes of one bucket.
    pub closed spec fn spec_payload_size(&self) -> usize {
        self.payload_size
    }

    /// The number of buckets.
    pub open spec fn number_of_samples(&self) -> nat {
        self.counters().len()
    }

    /// The bucket that starts `distance_to_chunk` bytes into the segment.
    pub open spec fn index_of(&self, distance_to_chunk: usize) -> int {
        distance_to_chunk as int / self.spec_payload_size() as int
    }

    /// `distance_to_chunk` is the start of a bucket of this segment.
    pub open spec fn addresses_bucket(&self, distance_to_chunk: usize) -> bool {
        &&& self.spec_payload_size() > 0
        &&& distance_to_chunk % self.spec_payload_size() == 0
        &&& self.index_of(distance_to_chunk) < self.number_of_samples()
    }

    /// Makes the state of a segment of `number_of_samples` buckets: every
    /// counter zero, every bitmap empty, payload size zero.
    pub fn new(number_of_samples: usize) -> (state: Self)
        ensures
            state.well_formed(),
            state.counters() == Seq::new(number_of_samples as nat, |i: int| 0u64),
            state.histories() == Seq::new(number_of_samples as nat, |i: int| 0u64),
            state.spec_payload_size() == 0,
    {
        let mut sample_reference_counter: Vec<u64> = Vec::with_capacity(number_of_samples);
        let mut forwarding_history: Vec<u64> = Vec::with_capacity(number_of_samples);
        let mut i: usize = 0;
        while i < number_of_samples
            invariant
                i <= number_of_samples,
                sample_reference_counter@ == Seq::new(i as nat, |k: int| 0u64),
                forwarding_history@ == Seq::new(i as nat, |k: int| 0u64),
            decreases number_of_samples - i,
        {
            sample_reference_counter.push(0);
            forwarding_history.push(0);
            i = i + 1;
        }
        SegmentState { sample_reference_counter, forwarding_history, payload_size: 0 }
    }

    /// Sets the size in bytes of one bucket.
    pub fn set_payload_size(&mut self, value: usize)
        ensures
            final(self).spec_payload_size() == value,
            final(self).counters() == old(self).counters(),
            final(self).histories() == old(self).histories(),
            final(self).well_formed() == old(self).well_formed(),
    {
        self.payload_size = value;
    }

    /// The size in bytes of one bucket.
    pub fn payload_size(&self) -> (size: usize)
        ensures
            size == self.spec_payload_size(),
    {
        self.payload_size
    }

    /// The index of the bucket that starts `distance_to_chunk` bytes into the
    /// segment.
    pub fn sample_index(&self, distance_to_chunk: usize) -> (index: usize)
        requires
            self.spec_payload_size() > 0,
            distance_to_chunk % self.spec_payload_size() == 0,
        ensures
            index == self.index_of(distance_to_chunk),
    {
        distance_to_chunk / self.payload_size
    }

    /// Counts one more borrow of the bucket and returns the counter as it
    /// was before.
    pub fn borrow_sample(&mut self, distance_to_chunk: usize) -> (previous: u64)
        requires
            old(self).well_formed(),
            old(self).addresses_bucket(distance_to_chunk),
        ensures
            final(self).well_formed(),
            final(self).spec_payload_size() == old(self).spec_payload_size(),
            previous == old(self).counters()[old(self).index_of(distance_to_chunk)],
            final(self).counters() == old(self).counters().update(
                old(self).index_of(distance_to_chunk),
                counter_after_borrow(previous),
            ),
            previous < u64::MAX ==> final(self).counters()[old(self).index_of(distance_to_chunk)] == previous + 1,
            previous == u64::MAX ==> final(self).counters()[old(self).index_of(distance_to_chunk)] == 0,
            final(self).histories() == old(self).histories(),
    {
        let index = self.sample_index(distance_to_chunk);
        let previous = self.sample_reference_counter[index];
        let next = if previous == u64::MAX { 0 } else { previous + 1 };
        self.sample_reference_counter.set(index, next);
        previous
    }

    /// Counts one release of the bucket and returns the counter as it was
    /// before. When that counter was one, the bucket is reclaimed and its
    /// forwarding history is cleared for the next loan.
    pub fn release_sample(&mut self, distance_to_chunk: usize) -> (previous: u64)
        requires
            old(self).well_formed(),
            old(self).addresses_bucket(distance_to_chunk),
        ensures
            final(self).well_formed(),
            final(self).spec_payload_size() == old(self).spec_payload_size(),
            previous == old(self).counters()[old(self).index_of(distance_to_chunk)],
            final(self).counters() == old(self).counters().update(
                old(self).index_of(distance_to_chunk),
                counter_after_release(previous),
            ),
            previous > 0 ==> final(self).counters()[old(self).index_of(distance_to_chunk)] == previous - 1,
            previous == 0 ==> final(self).counters()[old(self).index_of(distance_to_chunk)] == u64::MAX,
            previous == 1 ==> final(self).histories() == old(self).histories().update(
                old(self).index_of(distance_to_chunk),
                0u64,
            ),
            previous != 1 ==> final(self).histories() == old(self).histories(),
            previous == 1 ==> forall|t: u8|
                t < 64 ==> !#[trigger] has_forwarded(
                    final(self).histories()[old(self).index_of(distance_to_chunk)],
                    t,
                ),
    {
        let index = self.sample_index(distance_to_chunk);
        let previous = self.sample_reference_counter[index];
        let next = if previous == 0 { u64::MAX } else { previous - 1 };
        self.sample_reference_counter.set(index, next);
        if previous == 1 {
            self.forwarding_history.set(index, 0);
            proof {
                assert forall|t: u8| t < 64 implies !#[trigger] has_forwarded(0u64, t) by {
                    lemma_empty_history(t);
                }
            }
        }
        previous
    }

    /// The forwarding-history bitmap of the bucket.
    pub fn forwarding_history(&self, distance_to_chunk: usize) -> (history: u64)
        requires
            self.well_formed(),
            self.addresses_bucket(distance_to_chunk),
        ensures
            history == self.histories()[self.index_of(distance_to_chunk)],
    {
        let index = self.sample_index(distance_to_chunk);
        self.forwarding_history[index]
    }

    /// Records a forward of the bucket to `target_index`. Returns `true` when
    /// this call set the bit (the first forward to that target in the
    /// bucket's lifetime) and `false` when it was set already, in which case
    /// nothing changes.
    pub fn check_and_set_forwarding_bit(&mut self, distance_to_chunk: usize, target_index: u8) -> (first: bool)
        requires
            old(self).well_formed(),
            old(self).addresses_bucket(distance_to_chunk),
            target_index < 64,
        ensures
            final(self).well_formed(),
            final(self).spec_payload_size() == old(self).spec_payload_size(),
            final(self).counters() == old(self).counters(),
            first == !has_forwarded(
                old(self).histories()[old(self).index_of(distance_to_chunk)],
                target_index,
            ),
            first ==> final(self).histories() == old(self).histories().update(
                old(self).index_of(distance_to_chunk),
                old(self).histories()[old(self).index_of(distance_to_chunk)] | target_mask(target_index),
            ),
            !first ==> final(self).histories() == old(self).histories(),
            has_forwarded(final(self).histories()[old(self).index_of(distance_to_chunk)], target_index),
            forall|other: u8|
                other < 64 && other != target_index ==> #[trigger] has_forwarded(
                    final(self).histories()[old(self).index_of(distance_to_chunk)],
                    other,
                ) == has_forwarded(old(self).histories()[old(self).index_of(distance_to_chunk)], other),
    {
        let index = self.sample_index(distance_to_chunk);
        let mask = 1u64 << (target_index as u64);
        let previous = self.forwarding_history[index];
        if previous & mask != 0 {
            return false;
        }
        self.forwarding_history.set(index, previous | mask);
        proof {
            assert forall|other: u8|
                other < 64 && other != target_index implies #[trigger] has_forwarded(
                    previous | mask,
                    other,
                ) == has_forwarded(previous, other) by {
                lemma_set_target_bit(previous, target_index, other);
            }
            lemma_set_target_bit(previous, target_index, target_index);
        }
        true
    }
}

/// The bucket of a distance is the number of whole buckets before it: its
/// index times the bucket size is the distance, and distinct bucket starts
/// lie in distinct buckets.
pub proof fn lemma_bucket_index(state: &SegmentState, distance: usize, other: usize)
    requires
        state.spec_payload_size() > 0,
        distance % state.spec_payload_size() == 0,
        other % state.spec_payload_size() == 0,
    ensures
        state.index_of(distance) * state.spec_payload_size() == distance,
        distance != other ==> state.index_of(distance) != state.index_of(other),
{
    let p = state.spec_payload_size() as int;
    let d = distance as int;
    let o = other as int;
    assert((d / p) * p == d) by (nonlinear_arith)
        requires
            p > 0,
            d % p == 0;
    assert((o / p) * p == o) by (nonlinear_arith)
        requires
            p > 0,
            o % p == 0;
}

} // verus!
