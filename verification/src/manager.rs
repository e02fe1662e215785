use crate::device::{
    allocate_slots, binding_layout_present, bound_buffer, build_binding, copy_recorded,
    hands_out_primary, has_binding_layout, lemma_backing_usage, on_device, on_one_device,
    pools_descriptor_sets, read_slots, record_copy, run_to_completion, single_device, slot_count,
    usage_bits_of, write_slots, Completed, CopyCommand, DeviceContext, Placement, SlotBuffer,
    BACKING_USAGE, USAGE_TRANSFER_DST, USAGE_TRANSFER_SRC,
};
use crate::error::{BufferError, DeviceFailure, SubmitFailure};
use crate::record::{decode, encode, zeroed_records, ParticleRecord};
use crate::state::{BufferState, BufferView, MAX_CAPACITY, START_CAPACITY};
use crate::transfer::Transfer;
use std::sync::Arc;
use vstd::prelude::*;
use vulkano::command_buffer::allocator::StandardCommandBufferAllocator;
use vulkano::descriptor_set::allocator::StandardDescriptorSetAllocator;
use vulkano::descriptor_set::DescriptorSet;
use vulkano::device::Queue;
use vulkano::memory::allocator::{FreeListAllocator, GenericMemoryAllocator};
use vulkano::pipeline::ComputePipeline;

verus! {

/// Index of the descriptor set of the compute pipeline that holds the particle buffer.
pub const PARTICLE_SET: usize = 0;

/// The binding of the particle buffer in that set.
pub const PARTICLE_BINDING: u32 = 0;

/// The backing allocation that is current, the binding built against it, and the
/// host's account of both. The three are only ever replaced together.
struct Current {
    buffer: SlotBuffer,
    descriptor_set: Arc<DescriptorSet>,
    state: BufferState,
}

/// A backing allocation with the binding built against it, ready to become current,
/// and the copy that carried the populated records into it, if there were any.
struct Prepared {
    buffer: SlotBuffer,
    descriptor_set: Arc<DescriptorSet>,
    migrated: Option<Completed>,
}

/// A growable array of particle records in device memory.
///
/// Appending blocks until the device has confirmed every copy, so between two calls the
/// buffer is never half written, and the binding always refers to the allocation that
/// is current.
pub struct DynMemoryManager {
    context: DeviceContext,
    current: Current,
}

impl View for DynMemoryManager {
    type V = BufferView;

    closed spec fn view(&self) -> BufferView {
        self.current.state@
    }
}

/// Whether `done` is the copy `copy` from `source` to `target`, carried out to the end.
pub open spec fn spec_carried(
    done: Completed,
    source: SlotBuffer,
    target: SlotBuffer,
    copy: Transfer,
) -> bool {
    copy_recorded(done.spec_commands()) == (CopyCommand { source, target, copy })
}

/// Records the copy `copy` from `src` to `dst`, submits it and waits for it. What comes
/// back as completed is that copy between those buffers.
fn run_transfer(context: &DeviceContext, src: &SlotBuffer, dst: &SlotBuffer, copy: Transfer) -> (r:
    Result<Completed, SubmitFailure>)
    requires
        single_device(*context),
        hands_out_primary(*context.command_buffer_allocator),
        on_device(*context, *src),
        on_device(*context, *dst),
        copy.count > 0,
        copy.fits(slot_count(*src), slot_count(*dst)),
        slot_count(*src) <= u64::MAX,
        slot_count(*dst) <= u64::MAX,
    ensures
        r matches Ok(done) ==> spec_carried(done, *src, *dst, copy),
{
    let recorded = record_copy(
        context,
        src,
        copy.src_offset,
        copy.src_offset + copy.count,
        dst,
        copy.dst_offset,
        copy.dst_offset + copy.count,
    );
    match recorded {
        Ok(commands) => run_to_completion(context, commands),
        Err(_) => Err(SubmitFailure::NotSubmitted),
    }
}

impl DynMemoryManager {
    #[verifier::type_invariant]
    spec fn inv(self) -> bool {
        &&& single_device(self.context)
        &&& hands_out_primary(*self.context.command_buffer_allocator)
        &&& pools_descriptor_sets(*self.context.descriptor_set_allocator)
        &&& has_binding_layout(self.context, PARTICLE_SET as nat)
        &&& on_device(self.context, self.current.buffer)
        &&& slot_count(self.current.buffer) == self.current.state@.capacity
        &&& usage_bits_of(self.current.buffer) == BACKING_USAGE
        &&& bound_buffer(*self.current.descriptor_set, PARTICLE_BINDING) == self.current.buffer
    }

    /// The backing allocation that is current.
    pub closed spec fn spec_buffer(&self) -> SlotBuffer {
        self.current.buffer
    }

    /// The binding that is published.
    pub closed spec fn spec_descriptor_set(&self) -> DescriptorSet {
        *self.current.descriptor_set
    }

    /// The handles that the manager shares with the graphics context.
    pub closed spec fn spec_context(&self) -> DeviceContext {
        self.context
    }

    /// What holds of the handles between any two calls: the backing allocation has as
    /// many slots as the account says and every usage it needs, and the binding was
    /// written with it and with no other buffer.
    pub open spec fn handles_agree(&self) -> bool {
        &&& slot_count(self.spec_buffer()) == self@.capacity
        &&& usage_bits_of(self.spec_buffer()) == BACKING_USAGE
        &&& bound_buffer(self.spec_descriptor_set(), PARTICLE_BINDING) == self.spec_buffer()
        &&& on_device(self.spec_context(), self.spec_buffer())
    }

    /// Whether `self` has the same handles as `other`.
    pub open spec fn same_handles(&self, other: &DynMemoryManager) -> bool {
        &&& self.spec_buffer() == other.spec_buffer()
        &&& self.spec_descriptor_set() == other.spec_descriptor_set()
    }

    /// What holds of a backing allocation that was made ready for a growth to
    /// `new_capacity` slots: it has that many slots and every usage it needs, its binding
    /// was written with it, and the copy `copy`, if there was one to make, was carried
    /// out from the current allocation into it.
    spec fn spec_ready(
        &self,
        prepared: Prepared,
        new_capacity: u64,
        copy: Option<Transfer>,
    ) -> bool {
        &&& slot_count(prepared.buffer) == new_capacity
        &&& usage_bits_of(prepared.buffer) == BACKING_USAGE
        &&& on_device(self.context, prepared.buffer)
        &&& bound_buffer(*prepared.descriptor_set, PARTICLE_BINDING) == prepared.buffer
        &&& copy matches Some(copy) ==> {
            &&& prepared.migrated matches Some(done)
            &&& spec_carried(done, self.current.buffer, prepared.buffer, copy)
        }
    }

    /// What holds of the copy of an append that was carried out: it was `copy`, from a
    /// staging region of as many records as it copies, into the current allocation.
    spec fn spec_uploaded(&self, done: Completed, copy: Transfer) -> bool {
        let command = copy_recorded(done.spec_commands());
        &&& command.copy == copy
        &&& command.target == self.current.buffer
        &&& slot_count(command.source) == copy.count
    }

    /// Allocates the first backing array, of `START_CAPACITY` slots, and builds the
    /// binding against it. Nothing is populated yet.
    ///
    /// The command buffer allocator must hand out primary command buffers, and the
    /// descriptor set allocator must be able to make a pool, as those made with the
    /// default settings do. Neither allocator tells how it was made, so this cannot be
    /// tested here.
    pub fn new(
        memory_allocator: Arc<GenericMemoryAllocator<FreeListAllocator>>,
        descriptor_set_allocator: Arc<StandardDescriptorSetAllocator>,
        command_buffer_allocator: Arc<StandardCommandBufferAllocator>,
        queue: Arc<Queue>,
        compute_pipeline: Arc<ComputePipeline>,
    ) -> (r: Result<DynMemoryManager, BufferError>)
        requires
            hands_out_primary(*command_buffer_allocator),
            pools_descriptor_sets(*descriptor_set_allocator),
        ensures
            ({
                let context = DeviceContext {
                    memory_allocator,
                    descriptor_set_allocator,
                    command_buffer_allocator,
                    queue,
                    compute_pipeline,
                };
                let bindable = has_binding_layout(context, PARTICLE_SET as nat);
                match r {
                    Ok(manager) => {
                        &&& manager@ == BufferView::initial()
                        &&& manager.spec_context() == context
                        &&& single_device(context) && bindable
                        &&& manager.handles_agree()
                    },
                    Err(e) => {
                        &&& e == BufferError::DeviceMismatch <==> !single_device(context)
                        &&& e == BufferError::NoBindingLayout <==> single_device(context)
                            && !bindable
                        &&& e == BufferError::DeviceMismatch || e == BufferError::NoBindingLayout
                            || e == BufferError::Allocation || e == BufferError::Binding
                    },
                }
            }),
    {
        let context = DeviceContext {
            memory_allocator,
            descriptor_set_allocator,
            command_buffer_allocator,
            queue,
            compute_pipeline,
        };
        if !on_one_device(&context) {
            return Err(BufferError::DeviceMismatch);
        }
        if !binding_layout_present(&context, PARTICLE_SET) {
            return Err(BufferError::NoBindingLayout);
        }
        proof {
            lemma_backing_usage();
        }
        let buffer = match allocate_slots(
            &context,
            BACKING_USAGE,
            Placement::Device,
            START_CAPACITY,
        ) {
            Ok(buffer) => buffer,
            Err(_) => {
                return Err(BufferError::Allocation);
            },
        };
        let descriptor_set = match build_binding(
            &context,
            PARTICLE_SET,
            PARTICLE_BINDING,
            &buffer,
        ) {
            Ok(set) => set,
            Err(_) => {
                return Err(BufferError::Binding);
            },
        };
        let current = Current { buffer, descriptor_set, state: BufferState::new() };
        Ok(DynMemoryManager { context, current })
    }

    /// Does the device work of a growth and changes nothing of the manager: allocates a
    /// backing array of `new_capacity` slots, carries out `copy` from the current one
    /// into it and waits, then builds a binding against it.
    fn grow_on_device(&self, new_capacity: u64, copy: Option<Transfer>) -> (r: Result<
        Prepared,
        DeviceFailure,
    >)
        requires
            self@.wf(),
            self@.capacity <= new_capacity <= MAX_CAPACITY,
            copy == self@.spec_migration(),
        ensures
            r matches Ok(prepared) ==> self.spec_ready(prepared, new_capacity, copy),
    {
        proof {
            use_type_invariant(self);
            lemma_backing_usage();
        }
        let buffer = match allocate_slots(
            &self.context,
            BACKING_USAGE,
            Placement::Device,
            new_capacity,
        ) {
            Ok(buffer) => buffer,
            Err(_) => {
                return Err(DeviceFailure::Allocation);
            },
        };
        let migrated = match copy {
            Some(copy) => match run_transfer(
                &self.context,
                &self.current.buffer,
                &buffer,
                copy,
            ) {
                Ok(done) => Some(done),
                Err(failure) => {
                    return Err(DeviceFailure::Copy(failure));
                },
            },
            None => None,
        };
        match build_binding(&self.context, PARTICLE_SET, PARTICLE_BINDING, &buffer) {
            Ok(descriptor_set) => Ok(Prepared { buffer, descriptor_set, migrated }),
            Err(_) => Err(DeviceFailure::Binding),
        }
    }

    /// Does the device work of an append and changes nothing of the manager: fills a
    /// staging region with `count` zeroed records, carries out `copy` from it into the
    /// backing array and waits.
    fn upload_on_device(&self, count: u32, copy: Transfer) -> (r: Result<
        Completed,
        DeviceFailure,
    >)
        requires
            self@.wf(),
            Some(copy) == self@.spec_upload(count as nat),
        ensures
            r matches Ok(done) ==> self.spec_uploaded(done, copy),
    {
        proof {
            use_type_invariant(self);
        }
        let zeroes = encode(&zeroed_records(count));
        assert(zeroes@.len() == crate::record::spec_word_groups(zeroes@).len());
        let staging = match allocate_slots(
            &self.context,
            USAGE_TRANSFER_SRC,
            Placement::Host,
            copy.count,
        ) {
            Ok(buffer) => buffer,
            Err(_) => {
                return Err(DeviceFailure::Allocation);
            },
        };
        if write_slots(&staging, &zeroes).is_err() {
            return Err(DeviceFailure::Copy(SubmitFailure::NotSubmitted));
        }
        match run_transfer(&self.context, &staging, &self.current.buffer, copy) {
            Ok(done) => Ok(done),
            Err(failure) => Err(DeviceFailure::Copy(failure)),
        }
    }

    /// Takes what came of the device work of a growth and settles the manager. Where the
    /// work succeeded, the allocation made ready and its binding become current together
    /// and the account grows; where it failed, the handles stay, the account is settled
    /// as the failure asks, and the failure is handed on as its error.
    fn settle_growth(
        &mut self,
        new_capacity: u64,
        copy: Option<Transfer>,
        outcome: Result<Prepared, DeviceFailure>,
    ) -> (r: Result<(), BufferError>)
        requires
            old(self)@.capacity < new_capacity <= MAX_CAPACITY,
            copy == old(self)@.spec_migration(),
            outcome matches Ok(prepared) ==> old(self).spec_ready(prepared, new_capacity, copy),
        ensures
            final(self).spec_context() == old(self).spec_context(),
            final(self).handles_agree(),
            match outcome {
                Ok(prepared) => {
                    &&& r.is_ok()
                    &&& final(self)@ == old(self)@.grown(new_capacity as nat)
                    &&& final(self).spec_buffer() == prepared.buffer
                    &&& final(self).spec_descriptor_set() == *prepared.descriptor_set
                },
                Err(failure) => {
                    &&& r == Err::<(), BufferError>(failure.spec_error())
                    &&& final(self)@ == old(self)@.after_failure(failure)
                    &&& final(self).same_handles(old(self))
                },
            },
    {
        proof {
            use_type_invariant(&*self);
        }
        let mut state = self.current.state;
        match outcome {
            Ok(prepared) => {
                let settled = state.settle_growth(new_capacity, copy, Ok(()));
                self.current = Current {
                    buffer: prepared.buffer,
                    descriptor_set: prepared.descriptor_set,
                    state,
                };
                settled
            },
            Err(failure) => {
                let settled = state.settle_growth(new_capacity, copy, Err(failure));
                self.current.state = state;
                settled
            },
        }
    }

    /// Takes what came of the device work of an append of `count` slots and settles the
    /// manager: the account is extended where the work succeeded and settled as the
    /// failure asks where it did not. The handles stay either way.
    fn settle_append(
        &mut self,
        count: u32,
        copy: Option<Transfer>,
        outcome: Result<Option<Completed>, DeviceFailure>,
    ) -> (r: Result<(), BufferError>)
        requires
            old(self)@.accepts(count as nat),
            !old(self)@.needs_growth(count as nat),
            copy == old(self)@.spec_upload(count as nat),
            outcome matches Ok(uploaded) ==> (copy matches Some(copy) ==> {
                &&& uploaded matches Some(done)
                &&& old(self).spec_uploaded(done, copy)
            }),
        ensures
            final(self).spec_context() == old(self).spec_context(),
            final(self).handles_agree(),
            final(self).same_handles(old(self)),
            match outcome {
                Ok(_) => r.is_ok() && final(self)@ == old(self)@.extended(count as nat),
                Err(failure) => {
                    &&& r == Err::<(), BufferError>(failure.spec_error())
                    &&& final(self)@ == old(self)@.after_failure(failure)
                },
            },
    {
        proof {
            use_type_invariant(&*self);
        }
        let mut state = self.current.state;
        let settled = match outcome {
            Ok(_) => state.settle_append(count, copy, Ok(())),
            Err(failure) => state.settle_append(count, copy, Err(failure)),
        };
        self.current.state = state;
        settled
    }

    /// Replaces the backing allocation by one of `new_capacity` slots: allocates it,
    /// copies the populated records over, waits, rebuilds the binding, and only then
    /// makes both current. When a step fails, the allocation and the binding that were
    /// current stay so.
    fn recreate_buffer(&mut self, new_capacity: u64) -> (r: Result<(), BufferError>)
        requires
            old(self)@.capacity < new_capacity <= MAX_CAPACITY,
        ensures
            final(self).spec_context() == old(self).spec_context(),
            final(self).handles_agree(),
            match r {
                Ok(()) => final(self)@ == old(self)@.grown(new_capacity as nat),
                Err(e) => {
                    &&& final(self).same_handles(old(self))
                    &&& if e == BufferError::FenceWait {
                        final(self)@ == old(self)@.lost()
                    } else {
                        &&& final(self)@ == old(self)@
                        &&& e == BufferError::Allocation || e == BufferError::Transfer || e
                            == BufferError::Binding
                    }
                },
            },
    {
        let copy = self.current.state.migration();
        let outcome = self.grow_on_device(new_capacity, copy);
        self.settle_growth(new_capacity, copy, outcome)
    }

    /// Adds `num_pixels` zeroed records behind the populated ones, growing the backing
    /// allocation first where they do not fit.
    ///
    /// Returns only when the device has confirmed every copy. When a step fails the
    /// populated records are as they were; the backing allocation may already have
    /// grown.
    pub fn add_pixels(&mut self, num_pixels: u32) -> (r: Result<(), BufferError>)
        ensures
            old(self)@.wf(),
            final(self)@.wf(),
            match r {
                Ok(()) => {
                    &&& old(self)@.accepts(num_pixels as nat)
                    &&& final(self)@ == old(self)@.appended(num_pixels as nat)
                },
                Err(e) => {
                    &&& e == BufferError::Poisoned <==> old(self)@.poisoned
                    &&& e == BufferError::SizeOverflow <==> !old(self)@.poisoned
                        && !old(self)@.accepts(num_pixels as nat)
                    &&& e == BufferError::Poisoned || e == BufferError::SizeOverflow
                        ==> final(self)@ == old(self)@
                    &&& e == BufferError::Allocation || e == BufferError::Transfer || e
                        == BufferError::Binding ==> final(self)@ == old(self)@ || final(self)@
                        == old(self)@.prepared(num_pixels as nat)
                    &&& e == BufferError::FenceWait ==> final(self)@ == old(self)@.lost()
                        || final(self)@ == old(self)@.prepared(num_pixels as nat).lost()
                    &&& e != BufferError::DeviceMismatch && e != BufferError::NoBindingLayout
                },
            },
            num_pixels == 0 && !old(self)@.poisoned ==> r.is_ok(),
            final(self).spec_context() == old(self).spec_context(),
            final(self).handles_agree(),
            final(self)@.generation == old(self)@.generation ==> final(self).same_handles(
                old(self),
            ),
    {
        proof {
            use_type_invariant(&*self);
        }
        let target = match self.current.state.growth_for(num_pixels) {
            Ok(target) => target,
            Err(e) => {
                return Err(e);
            },
        };
        if let Some(new_capacity) = target {
            match self.recreate_buffer(new_capacity) {
                Ok(()) => {},
                Err(e) => {
                    return Err(e);
                },
            }
        }
        let copy = self.current.state.upload(num_pixels);
        let outcome = match copy {
            Some(copy) => match self.upload_on_device(num_pixels, copy) {
                Ok(done) => Ok(Some(done)),
                Err(failure) => Err(failure),
            },
            None => Ok(None),
        };
        self.settle_append(num_pixels, copy, outcome)
    }

    /// Reads the populated records back from the device.
    pub fn debug_buffer(&self) -> (r: Result<Vec<ParticleRecord>, BufferError>)
        ensures
            match r {
                Ok(records) => records@.len() == self@.size(),
                Err(e) => e == BufferError::Allocation || e == BufferError::Transfer || e
                    == BufferError::FenceWait,
            },
            self@.size() == 0 ==> r.is_ok(),
    {
        proof {
            use_type_invariant(self);
        }
        let state = self.current.state;
        let copy = match state.migration() {
            Some(copy) => copy,
            None => {
                return Ok(Vec::new());
            },
        };
        let readback = match allocate_slots(
            &self.context,
            USAGE_TRANSFER_DST,
            Placement::Host,
            copy.count,
        ) {
            Ok(buffer) => buffer,
            Err(_) => {
                return Err(BufferError::Allocation);
            },
        };
        match run_transfer(&self.context, &self.current.buffer, &readback, copy) {
            Ok(_) => {},
            Err(failure) => {
                return Err(DeviceFailure::Copy(failure).error());
            },
        }
        match read_slots(&readback) {
            Ok(words) => {
                assert(words@.len() == crate::record::spec_word_groups(words@).len());
                Ok(decode(&words))
            },
            Err(_) => Err(BufferError::Transfer),
        }
    }

    /// Number of populated slots.
    pub fn size(&self) -> (n: u32)
        ensures
            n == self@.size(),
            self@.wf(),
    {
        self.current.state.size()
    }

    /// Number of slots of the current backing allocation.
    pub fn capacity(&self) -> (n: u64)
        ensures
            n == self@.capacity,
    {
        self.current.state.capacity()
    }

    /// The account of the buffer that the host keeps.
    pub fn state(&self) -> (s: BufferState)
        ensures
            s@ == self@,
    {
        self.current.state
    }

    /// The backing allocation that is current. A grow replaces it: fetch it anew each
    /// frame.
    pub fn buffer(&self) -> (buffer: &SlotBuffer)
        ensures
            *buffer == self.spec_buffer(),
            self.handles_agree(),
    {
        proof {
            use_type_invariant(self);
        }
        &self.current.buffer
    }

    /// The binding, which refers to the backing allocation that is current.
    pub fn descriptor_set(&self) -> (set: &Arc<DescriptorSet>)
        ensures
            **set == self.spec_descriptor_set(),
            self.handles_agree(),
    {
        proof {
            use_type_invariant(self);
        }
        &self.current.descriptor_set
    }
}

} // verus!
