use crate::error::{BufferError, DeviceFailure};
use crate::record::{spec_zeroed_records, ParticleRecord};
use crate::transfer::Transfer;
use vstd::prelude::*;

verus! {

/// Number of slots of the first backing allocation.
pub const START_CAPACITY: u64 = 1024;

/// No backing allocation is ever larger than this many slots: growth is only asked for
/// while the populated slots fit in 32 bits, so a capacity below that limit is at most
/// doubled.
pub const MAX_CAPACITY: u64 = 8_589_934_590;

/// The capacity a buffer takes when it has to grow to hold `needed` slots: twice the
/// present capacity, or `needed` where that is more.
pub open spec fn spec_grown_capacity(capacity: nat, needed: nat) -> nat {
    if capacity * 2 >= needed {
        capacity * 2
    } else {
        needed
    }
}

/// What a particle buffer is, seen from the host.
pub struct BufferView {
    /// The populated records as the confirmed copies left them. What the device itself
    /// writes to them afterwards is not followed.
    pub records: Seq<ParticleRecord>,
    /// Number of slots of the current backing allocation.
    pub capacity: nat,
    /// Number of times the backing allocation has been replaced.
    pub generation: nat,
    /// The generation of the allocation that the published binding refers to.
    pub binding: nat,
    /// Whether a wait for the device has failed.
    pub poisoned: bool,
}

impl BufferView {
    /// Number of populated slots.
    pub open spec fn size(self) -> nat {
        self.records.len()
    }

    /// The invariant of every buffer: the populated slots fit the allocation, and the
    /// binding refers to the current allocation.
    pub open spec fn wf(self) -> bool {
        &&& self.size() <= self.capacity
        &&& self.size() <= u32::MAX
        &&& START_CAPACITY <= self.capacity <= MAX_CAPACITY
        &&& self.generation + START_CAPACITY <= self.capacity
        &&& self.binding == self.generation
    }

    /// The buffer at start-up: nothing populated, in its first allocation.
    pub open spec fn initial() -> BufferView {
        BufferView {
            records: Seq::empty(),
            capacity: START_CAPACITY as nat,
            generation: 0,
            binding: 0,
            poisoned: false,
        }
    }

    /// Whether `count` more slots can be asked for at all.
    pub open spec fn accepts(self, count: nat) -> bool {
        !self.poisoned && self.size() + count <= u32::MAX
    }

    /// Whether `count` more slots do not fit the current allocation.
    pub open spec fn needs_growth(self, count: nat) -> bool {
        self.size() + count > self.capacity
    }

    /// The buffer after its allocation was replaced by one of `new_capacity` slots.
    pub open spec fn grown(self, new_capacity: nat) -> BufferView {
        BufferView {
            capacity: new_capacity,
            generation: self.generation + 1,
            binding: self.generation + 1,
            ..self
        }
    }

    /// The buffer after `count` zeroed records were put behind the populated ones.
    pub open spec fn extended(self, count: nat) -> BufferView {
        BufferView { records: self.records + spec_zeroed_records(count), ..self }
    }

    /// The buffer made ready for `count` more slots: grown, by the doubling rule, where
    /// they do not fit, and as it is where they do.
    pub open spec fn prepared(self, count: nat) -> BufferView {
        if self.needs_growth(count) {
            self.grown(spec_grown_capacity(self.capacity, self.size() + count))
        } else {
            self
        }
    }

    /// The buffer after an append of `count` slots that went through: made ready, then
    /// extended.
    pub open spec fn appended(self, count: nat) -> BufferView {
        self.prepared(count).extended(count)
    }

    /// The copy that carries the populated records over to a new allocation: none where
    /// nothing is populated.
    pub open spec fn spec_migration(self) -> Option<Transfer> {
        if self.size() == 0 {
            None
        } else {
            Some(Transfer { src_offset: 0, dst_offset: 0, count: self.size() as u64 })
        }
    }

    /// The copy that puts a staging region of `count` records behind the populated ones:
    /// none where `count` is zero or the records do not fit the allocation.
    pub open spec fn spec_upload(self, count: nat) -> Option<Transfer> {
        if count == 0 || self.needs_growth(count) {
            None
        } else {
            Some(
                Transfer { src_offset: 0, dst_offset: self.size() as u64, count: count as u64 },
            )
        }
    }

    /// The buffer after a piece of device work failed: lost where the failure leaves the
    /// contents in doubt, and as it was otherwise.
    pub open spec fn after_failure(self, failure: DeviceFailure) -> BufferView {
        if failure.spec_loses_contents() {
            self.lost()
        } else {
            self
        }
    }

    /// The buffer after a wait for the device failed.
    pub open spec fn lost(self) -> BufferView {
        BufferView { poisoned: true, ..self }
    }

    /// The buffer after an append of `count` slots was asked for and no step failed:
    /// appended where the request is accepted, and as it was where it is refused.
    pub open spec fn after_append(self, count: nat) -> BufferView {
        if self.accepts(count) {
            self.appended(count)
        } else {
            self
        }
    }

    /// The buffer after one append for each entry of `counts`, in order.
    pub open spec fn after_appends(self, counts: Seq<nat>) -> BufferView
        decreases counts.len(),
    {
        if counts.len() == 0 {
            self
        } else {
            self.after_appends(counts.drop_last()).after_append(counts.last())
        }
    }
}

/// The host's account of a particle buffer: how many slots are populated, how large the
/// backing allocation is, and which allocation the binding refers to.
///
/// It decides what has to be done on the device and is told what was done; it does no
/// device work itself.
#[derive(Clone, Copy)]
pub struct BufferState {
    size: u32,
    capacity: u64,
    generation: u64,
    binding: u64,
    poisoned: bool,
    records: Ghost<Seq<ParticleRecord>>,
}

impl View for BufferState {
    type V = BufferView;

    closed spec fn view(&self) -> BufferView {
        BufferView {
            records: self.records@,
            capacity: self.capacity as nat,
            generation: self.generation as nat,
            binding: self.binding as nat,
            poisoned: self.poisoned,
        }
    }
}

impl BufferState {
    #[verifier::type_invariant]
    spec fn inv(self) -> bool {
        &&& self.records@.len() == self.size
        &&& self@.wf()
    }

    /// A buffer with nothing populated and `START_CAPACITY` slots.
    pub fn new() -> (s: BufferState)
        ensures
            s@ == BufferView::initial(),
    {
        BufferState {
            size: 0,
            capacity: START_CAPACITY,
            generation: 0,
            binding: 0,
            poisoned: false,
            records: Ghost(Seq::empty()),
        }
    }

    /// Number of populated slots.
    pub fn size(&self) -> (n: u32)
        ensures
            n == self@.size(),
            self@.wf(),
    {
        proof {
            use_type_invariant(self);
        }
        self.size
    }

    /// Number of slots of the current backing allocation.
    pub fn capacity(&self) -> (n: u64)
        ensures
            n == self@.capacity,
            self@.wf(),
    {
        proof {
            use_type_invariant(self);
        }
        self.capacity
    }

    /// Number of times the backing allocation has been replaced.
    pub fn generation(&self) -> (n: u64)
        ensures
            n == self@.generation,
    {
        self.generation
    }

    /// The generation of the allocation that the binding refers to.
    pub fn binding_generation(&self) -> (n: u64)
        ensures
            n == self@.binding,
            n == self@.generation,
    {
        proof {
            use_type_invariant(self);
        }
        self.binding
    }

    /// Whether a wait for the device has failed.
    pub fn is_poisoned(&self) -> (b: bool)
        ensures
            b == self@.poisoned,
    {
        self.poisoned
    }

    /// Decides whether `count` more slots need a larger allocation, and of what
    /// capacity.
    pub fn growth_for(&self, count: u32) -> (r: Result<Option<u64>, BufferError>)
        ensures
            self@.wf(),
            self@.poisoned ==> r == Err::<Option<u64>, BufferError>(BufferError::Poisoned),
            !self@.poisoned && !self@.accepts(count as nat) ==> r == Err::<
                Option<u64>,
                BufferError,
            >(BufferError::SizeOverflow),
            self@.accepts(count as nat) && !self@.needs_growth(count as nat) ==> r == Ok::<
                Option<u64>,
                BufferError,
            >(None),
            self@.accepts(count as nat) && self@.needs_growth(count as nat) ==> {
                &&& r matches Ok(Some(new_capacity))
                &&& new_capacity == spec_grown_capacity(
                    self@.capacity,
                    self@.size() + count as nat,
                )
                &&& self@.capacity < new_capacity <= MAX_CAPACITY
            },
    {
        proof {
            use_type_invariant(self);
        }
        if self.poisoned {
            return Err(BufferError::Poisoned);
        }
        if count > u32::MAX - self.size {
            return Err(BufferError::SizeOverflow);
        }
        let needed: u64 = self.size as u64 + count as u64;
        if needed > self.capacity {
            let doubled: u64 = self.capacity * 2;
            if doubled >= needed {
                Ok(Some(doubled))
            } else {
                Ok(Some(needed))
            }
        } else {
            Ok(None)
        }
    }

    /// The copy that carries the populated records over to a new allocation, or `None`
    /// where nothing is populated.
    pub fn migration(&self) -> (r: Option<Transfer>)
        ensures
            self@.wf(),
            r == self@.spec_migration(),
    {
        proof {
            use_type_invariant(self);
        }
        if self.size == 0 {
            None
        } else {
            Some(Transfer { src_offset: 0, dst_offset: 0, count: self.size as u64 })
        }
    }

    /// The copy that puts a staging region of `count` records behind the populated ones,
    /// or `None` where `count` is zero or the records do not fit the allocation.
    pub fn upload(&self, count: u32) -> (r: Option<Transfer>)
        ensures
            self@.wf(),
            r == self@.spec_upload(count as nat),
    {
        proof {
            use_type_invariant(self);
        }
        if count == 0 || self.size as u64 + count as u64 > self.capacity {
            None
        } else {
            Some(Transfer { src_offset: 0, dst_offset: self.size as u64, count: count as u64 })
        }
    }

    /// Records that the populated records now live in a new allocation of `new_capacity`
    /// slots and that the binding was rebuilt against it.
    pub fn commit_grow(&mut self, new_capacity: u64)
        requires
            old(self)@.capacity < new_capacity <= MAX_CAPACITY,
        ensures
            final(self)@ == old(self)@.grown(new_capacity as nat),
            final(self)@.wf(),
    {
        proof {
            use_type_invariant(&*self);
        }
        let generation: u64 = self.generation + 1;
        *self = BufferState {
            size: self.size,
            capacity: new_capacity,
            generation,
            binding: generation,
            poisoned: self.poisoned,
            records: self.records,
        };
    }

    /// Records that `count` zeroed records were copied behind the populated ones.
    pub fn commit_append(&mut self, count: u32)
        requires
            old(self)@.accepts(count as nat),
            !old(self)@.needs_growth(count as nat),
        ensures
            final(self)@ == old(self)@.extended(count as nat),
            final(self)@.wf(),
    {
        proof {
            use_type_invariant(&*self);
        }
        *self = BufferState {
            size: self.size + count,
            capacity: self.capacity,
            generation: self.generation,
            binding: self.binding,
            poisoned: self.poisoned,
            records: Ghost(self.records@ + spec_zeroed_records(count as nat)),
        };
    }

    /// Takes what came of the device work of a growth to `new_capacity` slots, in which
    /// `carried` was the copy to carry out, and settles the account: grown where the work
    /// succeeded, lost where a wait failed, and untouched where the work stopped before.
    /// The failure is handed on as the error it stands for.
    pub fn settle_growth(
        &mut self,
        new_capacity: u64,
        carried: Option<Transfer>,
        outcome: Result<(), DeviceFailure>,
    ) -> (r: Result<(), BufferError>)
        requires
            old(self)@.capacity < new_capacity <= MAX_CAPACITY,
            carried == old(self)@.spec_migration(),
        ensures
            final(self)@.wf(),
            match outcome {
                Ok(()) => r.is_ok() && final(self)@ == old(self)@.grown(new_capacity as nat),
                Err(failure) => {
                    &&& r == Err::<(), BufferError>(failure.spec_error())
                    &&& final(self)@ == old(self)@.after_failure(failure)
                },
            },
    {
        proof {
            use_type_invariant(&*self);
        }
        match outcome {
            Ok(()) => {
                self.commit_grow(new_capacity);
                Ok(())
            },
            Err(failure) => {
                if failure.loses_contents() {
                    self.mark_lost();
                }
                Err(failure.error())
            },
        }
    }

    /// Takes what came of the device work of an append of `count` slots, in which
    /// `carried` was the copy to carry out, and settles the account: extended where the
    /// work succeeded, lost where a wait failed, and untouched where the work stopped
    /// before. The failure is handed on as the error it stands for.
    pub fn settle_append(
        &mut self,
        count: u32,
        carried: Option<Transfer>,
        outcome: Result<(), DeviceFailure>,
    ) -> (r: Result<(), BufferError>)
        requires
            old(self)@.accepts(count as nat),
            !old(self)@.needs_growth(count as nat),
            carried == old(self)@.spec_upload(count as nat),
        ensures
            final(self)@.wf(),
            match outcome {
                Ok(()) => r.is_ok() && final(self)@ == old(self)@.extended(count as nat),
                Err(failure) => {
                    &&& r == Err::<(), BufferError>(failure.spec_error())
                    &&& final(self)@ == old(self)@.after_failure(failure)
                },
            },
    {
        proof {
            use_type_invariant(&*self);
        }
        match outcome {
            Ok(()) => {
                self.commit_append(count);
                Ok(())
            },
            Err(failure) => {
                if failure.loses_contents() {
                    self.mark_lost();
                }
                Err(failure.error())
            },
        }
    }

    /// Records that a wait for the device failed: from now on every append is refused.
    pub fn mark_lost(&mut self)
        ensures
            final(self)@ == old(self)@.lost(),
            final(self)@.wf(),
    {
        proof {
            use_type_invariant(&*self);
        }
        *self = BufferState {
            size: self.size,
            capacity: self.capacity,
            generation: self.generation,
            binding: self.binding,
            poisoned: true,
            records: self.records,
        };
    }
}

/// One append keeps the invariant: afterwards the populated slots still fit the
/// allocation.
pub proof fn lemma_append_keeps_invariant(buffer: BufferView, count: nat)
    requires
        buffer.wf(),
    ensures
        buffer.after_append(count).wf(),
        buffer.after_append(count).size() <= buffer.after_append(count).capacity,
{
}

/// Whatever appends are made, and however many: after each of them the populated slots
/// fit the allocation.
pub proof fn lemma_appends_keep_invariant(buffer: BufferView, counts: Seq<nat>)
    requires
        buffer.wf(),
    ensures
        buffer.after_appends(counts).wf(),
        buffer.after_appends(counts).size() <= buffer.after_appends(counts).capacity,
        forall|k: int|
            0 <= k <= counts.len() ==> (#[trigger] buffer.after_appends(counts.take(k))).size()
                <= buffer.after_appends(counts.take(k)).capacity,
    decreases counts.len(),
{
    if counts.len() > 0 {
        lemma_appends_keep_invariant(buffer, counts.drop_last());
        lemma_append_keeps_invariant(buffer.after_appends(counts.drop_last()), counts.last());
    }
    assert forall|k: int| 0 <= k <= counts.len() implies (#[trigger] buffer.after_appends(
        counts.take(k),
    )).size() <= buffer.after_appends(counts.take(k)).capacity by {
        if k == counts.len() {
            assert(counts.take(k) =~= counts);
        } else {
            assert(counts.drop_last().take(k) =~= counts.take(k));
        }
    }
}

/// Growing keeps every populated record, at its index, as it was.
pub proof fn lemma_growth_keeps_records(buffer: BufferView, count: nat, new_capacity: nat)
    requires
        buffer.wf(),
    ensures
        buffer.grown(new_capacity).records == buffer.records,
        buffer.prepared(count).records == buffer.records,
        buffer.appended(count).records.subrange(0, buffer.size() as int) == buffer.records,
        forall|i: int| 0 <= i < buffer.size() ==> buffer.appended(count).records[i] == buffer.records[i],
{
    assert(buffer.appended(count).records.subrange(0, buffer.size() as int) =~= buffer.records);
}

/// An accepted append replaces the allocation once when the new slots do not fit and
/// never when they do. Where it does, the new capacity is twice the old one, or the
/// number of slots needed where that is more; where it does not, the capacity stays.
pub proof fn lemma_growth_when_needed(buffer: BufferView, count: nat)
    requires
        buffer.wf(),
        buffer.accepts(count),
    ensures
        buffer.needs_growth(count) <==> buffer.size() + count > buffer.capacity,
        buffer.needs_growth(count) ==> {
            &&& buffer.appended(count).generation == buffer.generation + 1
            &&& buffer.appended(count).capacity == spec_grown_capacity(
                buffer.capacity,
                buffer.size() + count,
            )
            &&& buffer.appended(count).capacity >= 2 * buffer.capacity
            &&& buffer.appended(count).capacity >= buffer.size() + count
            &&& buffer.appended(count).capacity == 2 * buffer.capacity
                || buffer.appended(count).capacity == buffer.size() + count
        },
        !buffer.needs_growth(count) ==> {
            &&& buffer.appended(count).generation == buffer.generation
            &&& buffer.appended(count).capacity == buffer.capacity
        },
{
}

/// Every slot that an append adds holds the zeroed record, and the size grows by the
/// number of slots added.
pub proof fn lemma_new_slots_are_zeroed(buffer: BufferView, count: nat)
    requires
        buffer.wf(),
    ensures
        buffer.appended(count).size() == buffer.size() + count,
        buffer.appended(count).records.subrange(
            buffer.size() as int,
            (buffer.size() + count) as int,
        ) == spec_zeroed_records(count),
        forall|i: int|
            buffer.size() <= i < buffer.size() + count ==> buffer.appended(count).records[i]
                == ParticleRecord::spec_zeroed(),
{
    assert(buffer.appended(count).records.subrange(
        buffer.size() as int,
        (buffer.size() + count) as int,
    ) =~= spec_zeroed_records(count));
}

/// Right after the allocation was replaced, and after every append, the binding refers
/// to the allocation that is current.
pub proof fn lemma_binding_is_fresh(buffer: BufferView, count: nat, new_capacity: nat)
    requires
        buffer.wf(),
    ensures
        buffer.grown(new_capacity).binding == buffer.grown(new_capacity).generation,
        buffer.grown(new_capacity).binding != buffer.generation,
        buffer.after_append(count).binding == buffer.after_append(count).generation,
{
}

/// On memory, a growth keeps the records: carrying out the copy that the account plans,
/// from a backing array whose first slots hold the account's records into any new array
/// with room for them, puts each record at its index in the new array and leaves the rest
/// of the new array as it was.
pub proof fn lemma_migration_carries_records(
    buffer: BufferView,
    old_slots: Seq<ParticleRecord>,
    new_slots: Seq<ParticleRecord>,
)
    requires
        buffer.wf(),
        old_slots.len() == buffer.capacity,
        old_slots.subrange(0, buffer.size() as int) == buffer.records,
        new_slots.len() >= buffer.size(),
    ensures
        ({
            let after = match buffer.spec_migration() {
                Some(copy) => copy.spec_apply(old_slots, new_slots),
                None => new_slots,
            };
            &&& after.len() == new_slots.len()
            &&& after.subrange(0, buffer.size() as int) == buffer.records
            &&& forall|i: int| buffer.size() <= i < new_slots.len() ==> after[i] == new_slots[i]
        }),
{
    let after = match buffer.spec_migration() {
        Some(copy) => copy.spec_apply(old_slots, new_slots),
        None => new_slots,
    };
    assert forall|i: int| 0 <= i < buffer.size() implies after[i] == buffer.records[i] by {
        assert(old_slots.subrange(0, buffer.size() as int)[i] == old_slots[i]);
    }
    assert(after.subrange(0, buffer.size() as int) =~= buffer.records);
}

/// On memory, an append puts zeroed records behind the populated ones: carrying out
/// the copy that the account plans, from a staging region of `count` zeroed records into
/// a backing array whose first slots hold the account's records, leaves in its first
/// slots the records of the account after the append, and the rest as it was.
pub proof fn lemma_upload_carries_zeroes(
    buffer: BufferView,
    count: nat,
    slots: Seq<ParticleRecord>,
)
    requires
        buffer.wf(),
        buffer.accepts(count),
        !buffer.needs_growth(count),
        slots.len() == buffer.capacity,
        slots.subrange(0, buffer.size() as int) == buffer.records,
    ensures
        ({
            let after = match buffer.spec_upload(count) {
                Some(copy) => copy.spec_apply(spec_zeroed_records(count), slots),
                None => slots,
            };
            &&& after.len() == slots.len()
            &&& after.subrange(0, (buffer.size() + count) as int) == buffer.extended(
                count,
            ).records
            &&& forall|i: int| buffer.size() + count <= i < slots.len() ==> after[i] == slots[i]
        }),
{
    let after = match buffer.spec_upload(count) {
        Some(copy) => copy.spec_apply(spec_zeroed_records(count), slots),
        None => slots,
    };
    let expected = buffer.extended(count).records;
    assert forall|i: int| 0 <= i < buffer.size() + count implies after[i] == expected[i] by {
        if i < buffer.size() {
            assert(slots.subrange(0, buffer.size() as int)[i] == slots[i]);
        }
    }
    assert(after.subrange(0, (buffer.size() + count) as int) =~= expected);
}

} // verus!
