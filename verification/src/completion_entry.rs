//! Completion entries and the wide-entry sidetable that carries them next to
//! a completion queue on forwarding-enabled connections.
//!
//! The sidetable is a plain ring of slots addressed by `position % capacity`.
//! It is no queue: there are no head or tail counters. Every slot holds a
//! [`CompletionEntry`]; a freshly initialized slot holds the default entry,
//! a `Drop` with target index and offset zero.
use vstd::prelude::*;

verus! {

/// What a [`CompletionEntry`] asks of the publisher.
#[derive(Debug, Clone, Copy, PartialEq, Eq, Structural, Hash)]
pub enum CompletionEntryTag {
    /// The subscriber releases its borrow on the bucket.
    Drop,
    /// The bucket is forwarded to the target named by `target_index`; the
    /// subscriber keeps its borrow.
    Forward,
    /// The subscriber releases its borrow and the bucket is forwarded to the
    /// target named by `target_index`.
    DropAndForward,
}

impl Default for CompletionEntryTag {
    fn default() -> (tag: Self)
        ensures
            tag == CompletionEntryTag::Drop,
    {
        CompletionEntryTag::Drop
    }
}

/// One entry of the completion-queue sidetable.
#[derive(Debug, Clone, Copy, PartialEq, Eq, Structural, Hash)]
pub struct CompletionEntry {
    /// Which kind of entry this is.
    pub tag: CompletionEntryTag,
    /// Index into the source service's `forwards_into` list; ignored for
    /// [`CompletionEntryTag::Drop`].
    pub target_index: u8,
    /// The offset of the bucket the subscriber acts on.
    pub offset: u64,
}

/// The entry that a slot holds before anything was written into it.
pub open spec fn default_entry() -> CompletionEntry {
    CompletionEntry { tag: CompletionEntryTag::Drop, target_index: 0, offset: 0 }
}

impl Default for CompletionEntry {
    fn default() -> (entry: Self)
        ensures
            entry == default_entry(),
    {
        CompletionEntry { tag: CompletionEntryTag::Drop, target_index: 0, offset: 0 }
    }
}

/// The bytes that back a sidetable of `capacity` slots: no bytes for a
/// disabled sidetable, otherwise room for `capacity` entries at an
/// arbitrarily aligned start.
pub open spec fn spec_memory_size(capacity: int) -> int {
    if capacity == 0 {
        0
    } else {
        capacity * vstd::layout::size_of::<CompletionEntry>() + vstd::layout::align_of::<CompletionEntry>() - 1
    }
}

/// Why an allocator could not hand out memory.
#[derive(Debug, Clone, Copy, PartialEq, Eq, Structural, Hash)]
pub enum AllocationError {
    /// A request for zero bytes.
    SizeIsZero,
    /// A request larger than the allocator can ever serve.
    SizeTooLarge,
    /// The requested alignment cannot be met.
    AlignmentFailure,
    /// The allocator has too little memory left.
    OutOfMemory,
    /// The allocator failed for a reason of its own.
    InternalError,
}

/// A request for memory: `size` bytes at an address that is a multiple of
/// `align`.
#[derive(Debug, Clone, Copy, PartialEq, Eq, Structural, Hash)]
pub struct AllocationRequest {
    pub size: usize,
    pub align: usize,
}

/// What a sidetable of `capacity` slots asks its allocator for.
pub open spec fn spec_allocation_request(capacity: usize) -> Option<AllocationRequest> {
    if capacity == 0 {
        None
    } else {
        Some(
            AllocationRequest {
                size: (capacity * vstd::layout::size_of::<CompletionEntry>()) as usize,
                align: vstd::layout::align_of::<CompletionEntry>() as usize,
            },
        )
    }
}

/// `count` slots, each holding the default entry.
fn default_slots(count: usize) -> (slots: Vec<CompletionEntry>)
    ensures
        slots@ == Seq::new(count as nat, |i: int| default_entry()),
{
    let mut slots: Vec<CompletionEntry> = Vec::new();
    let mut i: usize = 0;
    while i < count
        invariant
            i <= count,
            slots@ == Seq::new(i as nat, |k: int| default_entry()),
        decreases count - i,
    {
        slots.push(CompletionEntry::default());
        i = i + 1;
    }
    slots
}

/// A fixed-capacity ring of [`CompletionEntry`] slots.
pub struct WideEntrySidetable {
    slots: Vec<CompletionEntry>,
    capacity: usize,
    is_memory_initialized: bool,
}

impl View for WideEntrySidetable {
    type V = Seq<CompletionEntry>;

    /// The slots of the sidetable, in slot order (empty before `init`).
    closed spec fn view(&self) -> Seq<CompletionEntry> {
        self.slots@
    }
}

impl WideEntrySidetable {
    /// Before `init` no slot exists; afterwards there is one per unit of
    /// capacity.
    pub closed spec fn well_formed(&self) -> bool {
        if self.is_memory_initialized {
            self.slots@.len() == self.capacity
        } else {
            self.slots@.len() == 0
        }
    }

    /// The number of slots the sidetable was made with.
    pub closed spec fn spec_capacity(&self) -> usize {
        self.capacity
    }

    /// Whether the backing memory has been set up.
    pub closed spec fn is_initialized(&self) -> bool {
        self.is_memory_initialized
    }

    /// The slot that `position` addresses.
    pub open spec fn slot_of(&self, position: int) -> int {
        position % (self.spec_capacity() as int)
    }

    /// Makes a sidetable whose memory is set up at once, every slot holding
    /// the default entry.
    pub fn new(capacity: usize) -> (table: Self)
        ensures
            table.well_formed(),
            table.spec_capacity() == capacity,
            table.is_initialized(),
            table@ == Seq::new(capacity as nat, |i: int| default_entry()),
    {
        WideEntrySidetable { slots: default_slots(capacity), capacity, is_memory_initialized: true }
    }

    /// Makes a sidetable of `capacity` slots whose memory is not set up yet;
    /// [`Self::init`] sets it up.
    pub fn new_uninit(capacity: usize) -> (table: Self)
        ensures
            table.well_formed(),
            table.spec_capacity() == capacity,
            !table.is_initialized(),
            table@.len() == 0,
    {
        WideEntrySidetable { slots: Vec::new(), capacity, is_memory_initialized: false }
    }

    /// Bytes needed for the slots of a sidetable of `capacity` slots; zero for
    /// a disabled (capacity zero) sidetable.
    pub fn const_memory_size(capacity: usize) -> (size: usize)
        requires
            spec_memory_size(capacity as int) <= usize::MAX,
        ensures
            size == spec_memory_size(capacity as int),
    {
        vstd::layout::layout_for_type_is_valid::<CompletionEntry>();
        if capacity == 0 {
            0
        } else {
            let size = core::mem::size_of::<CompletionEntry>();
            let align = core::mem::align_of::<CompletionEntry>();
            assert(0 <= capacity * size <= capacity * size + align - 1) by (nonlinear_arith)
                requires
                    align >= 1;
            capacity * size + (align - 1)
        }
    }

    /// Same as [`Self::const_memory_size`].
    pub fn memory_size(capacity: usize) -> (size: usize)
        requires
            spec_memory_size(capacity as int) <= usize::MAX,
        ensures
            size == spec_memory_size(capacity as int),
    {
        Self::const_memory_size(capacity)
    }

    /// What the sidetable asks its allocator for: nothing for a disabled
    /// (capacity zero) sidetable, else room for `capacity` entries at the
    /// entry's alignment.
    pub fn allocation_request(&self) -> (request: Option<AllocationRequest>)
        requires
            self.spec_capacity() * vstd::layout::size_of::<CompletionEntry>() <= usize::MAX,
        ensures
            request == spec_allocation_request(self.spec_capacity()),
    {
        vstd::layout::layout_for_type_is_valid::<CompletionEntry>();
        if self.capacity == 0 {
            None
        } else {
            Some(
                AllocationRequest {
                    size: self.capacity * core::mem::size_of::<CompletionEntry>(),
                    align: core::mem::align_of::<CompletionEntry>(),
                },
            )
        }
    }

    /// Sets up the memory of a sidetable made by [`Self::new_uninit`].
    /// `allocation` is the allocator's answer to [`Self::allocation_request`].
    /// A disabled sidetable needs no memory: it is marked initialized and
    /// succeeds whatever `allocation` says. Otherwise the result is the
    /// allocator's answer: on success every slot holds the default entry, on
    /// failure the allocator's error is returned and nothing changes.
    pub fn init(&mut self, allocation: Result<(), AllocationError>) -> (result: Result<(), AllocationError>)
        requires
            old(self).well_formed(),
            !old(self).is_initialized(),
        ensures
            final(self).well_formed(),
            final(self).spec_capacity() == old(self).spec_capacity(),
            old(self).spec_capacity() == 0 ==> result is Ok,
            old(self).spec_capacity() > 0 ==> result == allocation,
            result is Err ==> *final(self) == *old(self),
            result is Ok ==> final(self).is_initialized() && final(self)@ == Seq::new(
                old(self).spec_capacity() as nat,
                |i: int| default_entry(),
            ),
    {
        if self.capacity == 0 {
            self.is_memory_initialized = true;
            return Ok(());
        }
        match allocation {
            Err(_) => {
                return allocation;
            },
            Ok(()) => {},
        }
        let capacity = self.capacity;
        *self = WideEntrySidetable { slots: default_slots(capacity), capacity, is_memory_initialized: true };
        allocation
    }

    /// The number of slots.
    pub fn capacity(&self) -> (capacity: usize)
        ensures
            capacity == self.spec_capacity(),
    {
        self.capacity
    }

    /// Writes `entry` into the slot at `position % capacity`.
    pub fn write(&mut self, position: usize, entry: CompletionEntry)
        requires
            old(self).well_formed(),
            old(self).is_initialized(),
            old(self).spec_capacity() > 0,
        ensures
            final(self).well_formed(),
            final(self).spec_capacity() == old(self).spec_capacity(),
            final(self).is_initialized(),
            old(self)@.len() == old(self).spec_capacity(),
            final(self)@ == old(self)@.update(old(self).slot_of(position as int), entry),
            final(self)@ == old(self)@.update(position as int % old(self).spec_capacity() as int, entry),
    {
        let slot = position % self.capacity;
        self.slots.set(slot, entry);
    }

    /// Reads the entry in the slot at `position % capacity`.
    pub fn read(&self, position: usize) -> (entry: CompletionEntry)
        requires
            self.well_formed(),
            self.is_initialized(),
            self.spec_capacity() > 0,
        ensures
            self@.len() == self.spec_capacity(),
            entry == self@[self.slot_of(position as int)],
            entry == self@[position as int % self.spec_capacity() as int],
    {
        self.slots[position % self.capacity]
    }
}

/// A read gives back what the last write into the same slot wrote, and a
/// write leaves every other slot as it was. Positions that differ by a
/// multiple of the capacity address the same slot.
pub proof fn lemma_read_after_write(
    before: WideEntrySidetable,
    after: WideEntrySidetable,
    written: usize,
    entry: CompletionEntry,
    read: usize,
)
    requires
        before.spec_capacity() > 0,
        before@.len() == before.spec_capacity(),
        after.spec_capacity() == before.spec_capacity(),
        after@ == before@.update(before.slot_of(written as int), entry),
    ensures
        before.slot_of(read as int) == before.slot_of(written as int) ==> after@[after.slot_of(read as int)]
            == entry,
        before.slot_of(read as int) != before.slot_of(written as int) ==> after@[after.slot_of(read as int)]
            == before@[before.slot_of(read as int)],
        before.slot_of(written as int + before.spec_capacity()) == before.slot_of(written as int),
{
    let c = before.spec_capacity() as int;
    assert((written as int + c) % c == (written as int) % c) by (nonlinear_arith)
        requires
            c > 0;
}

/// More slots never need less memory, and strictly more whenever entries
/// take up room.
pub proof fn lemma_memory_size_grows(smaller: usize, larger: usize)
    requires
        0 < smaller <= larger,
    ensures
        spec_memory_size(smaller as int) <= spec_memory_size(larger as int),
        smaller < larger && vstd::layout::size_of::<CompletionEntry>() > 0 ==> spec_memory_size(smaller as int)
            < spec_memory_size(larger as int),
{
    let size = vstd::layout::size_of::<CompletionEntry>() as int;
    assert(smaller * size <= larger * size) by (nonlinear_arith)
        requires
            smaller <= larger,
            size >= 0;
    assert(smaller < larger && size > 0 ==> smaller * size < larger * size) by (nonlinear_arith);
}

/// Within one lap of the ring every position has a slot of its own: the
/// slot of a position below the capacity is that position, so two distinct
/// such positions never share a slot, and a position one lap further
/// addresses the same slot again.
pub proof fn lemma_one_lap_distinct_slots(table: WideEntrySidetable, position: int, other: int)
    requires
        table.spec_capacity() > 0,
        0 <= position < table.spec_capacity(),
        0 <= other < table.spec_capacity(),
    ensures
        table.slot_of(position) == position,
        position != other ==> table.slot_of(position) != table.slot_of(other),
        table.slot_of(position + table.spec_capacity()) == position,
{
    let c = table.spec_capacity() as int;
    assert(position % c == position) by (nonlinear_arith)
        requires
            0 <= position < c;
    assert(other % c == other) by (nonlinear_arith)
        requires
            0 <= other < c;
    assert((position + c) % c == position) by (nonlinear_arith)
        requires
            0 <= position < c;
}

} // verus!