use crate::error::SubmitFailure;
use crate::state::MAX_CAPACITY;
use crate::transfer::Transfer;
use ash::vk::BufferUsageFlags;
use std::sync::Arc;
use vstd::prelude::*;
use vulkano::buffer::{AllocateBufferError, Buffer, BufferCreateInfo, BufferUsage, Subbuffer};
use vulkano::command_buffer::allocator::StandardCommandBufferAllocator;
use vulkano::command_buffer::{
    AutoCommandBufferBuilder, CommandBufferUsage, CopyBufferInfo, PrimaryAutoCommandBuffer,
};
use vulkano::descriptor_set::allocator::StandardDescriptorSetAllocator;
use vulkano::descriptor_set::{DescriptorSet, WriteDescriptorSet};
use vulkano::device::{DeviceOwned, Queue};
use vulkano::memory::allocator::{
    AllocationCreateInfo, FreeListAllocator, GenericMemoryAllocator, MemoryTypeFilter,
};
use vulkano::pipeline::{ComputePipeline, Pipeline};
use vulkano::sync::{GpuFuture, HostAccessError};
use vulkano::{Validated, VulkanError};

verus! {

#[verifier::external_type_specification]
#[verifier::external_body]
#[verifier::reject_recursive_types(T)]
pub struct ExSubbuffer<T: ?Sized>(Subbuffer<T>);

#[verifier::external_type_specification]
#[verifier::external_body]
#[verifier::reject_recursive_types(S)]
pub struct ExGenericMemoryAllocator<S>(GenericMemoryAllocator<S>);

#[verifier::external_type_specification]
#[verifier::external_body]
pub struct ExFreeListAllocator(FreeListAllocator);

#[verifier::external_type_specification]
#[verifier::external_body]
pub struct ExStandardCommandBufferAllocator(StandardCommandBufferAllocator);

#[verifier::external_type_specification]
#[verifier::external_body]
pub struct ExStandardDescriptorSetAllocator(StandardDescriptorSetAllocator);

#[verifier::external_type_specification]
#[verifier::external_body]
pub struct ExQueue(Queue);

#[verifier::external_type_specification]
#[verifier::external_body]
pub struct ExComputePipeline(ComputePipeline);

#[verifier::external_type_specification]
#[verifier::external_body]
pub struct ExDescriptorSet(DescriptorSet);

#[verifier::external_type_specification]
#[verifier::external_body]
pub struct ExPrimaryAutoCommandBuffer(PrimaryAutoCommandBuffer);

#[verifier::external_type_specification]
#[verifier::external_body]
#[verifier::reject_recursive_types(E)]
pub struct ExValidated<E>(Validated<E>);

#[verifier::external_type_specification]
#[verifier::external_body]
pub struct ExAllocateBufferError(AllocateBufferError);

#[verifier::external_type_specification]
#[verifier::external_body]
pub struct ExVulkanError(VulkanError);

#[verifier::external_type_specification]
#[verifier::external_body]
pub struct ExHostAccessError(HostAccessError);

/// A region of device memory seen as an array of records, four words each.
pub type SlotBuffer = Subbuffer<[[u32; 4]]>;

/// The buffer can be read by copy commands.
pub const USAGE_TRANSFER_SRC: u32 = 0x01;

/// The buffer can be written by copy commands.
pub const USAGE_TRANSFER_DST: u32 = 0x02;

/// The buffer can be read and written by compute work.
pub const USAGE_STORAGE_BUFFER: u32 = 0x20;

/// The buffer can feed vertices to a draw.
pub const USAGE_VERTEX_BUFFER: u32 = 0x80;

/// The nine usages that core Vulkan defines, together.
pub const USAGE_CORE_MASK: u32 = 0x1FF;

/// What every backing allocation must allow: compute storage, vertex input, and copies
/// in both directions.
pub const BACKING_USAGE: u32 = USAGE_STORAGE_BUFFER | USAGE_TRANSFER_DST | USAGE_VERTEX_BUFFER
    | USAGE_TRANSFER_SRC;

/// The usage of a backing allocation holds each of the four usages and no other.
pub proof fn lemma_backing_usage()
    ensures
        BACKING_USAGE == 0xA3,
        BACKING_USAGE <= USAGE_CORE_MASK,
        BACKING_USAGE & USAGE_STORAGE_BUFFER == USAGE_STORAGE_BUFFER,
        BACKING_USAGE & USAGE_VERTEX_BUFFER == USAGE_VERTEX_BUFFER,
        BACKING_USAGE & USAGE_TRANSFER_SRC == USAGE_TRANSFER_SRC,
        BACKING_USAGE & USAGE_TRANSFER_DST == USAGE_TRANSFER_DST,
{
    assert(0x20u32 | 0x02u32 | 0x80u32 | 0x01u32 == 0xA3u32) by (bit_vector);
    assert(0xA3u32 & 0x20u32 == 0x20u32) by (bit_vector);
    assert(0xA3u32 & 0x80u32 == 0x80u32) by (bit_vector);
    assert(0xA3u32 & 0x01u32 == 0x01u32) by (bit_vector);
    assert(0xA3u32 & 0x02u32 == 0x02u32) by (bit_vector);
}

/// Where an allocation should live.
#[derive(Clone, Copy, Debug, PartialEq, Eq, Structural)]
pub enum Placement {
    /// In memory of the device.
    Device,
    /// In memory that the host can reach.
    Host,
}

/// For each handle of a context but the queue, whether its device is the queue's.
#[derive(Clone, Copy, Debug)]
pub struct DeviceMatches {
    pub memory_allocator: bool,
    pub descriptor_set_allocator: bool,
    pub command_buffer_allocator: bool,
    pub compute_pipeline: bool,
}

/// The number that Vulkan gives to the kind of descriptor called inline uniform block.
pub const INLINE_UNIFORM_BLOCK: i32 = 1_000_138_000;

/// The most descriptors of one kind that a layout may count here: with up to 65536 sets
/// to a pool, the size of the pool still fits in 32 bits.
pub const MAX_LAYOUT_COUNT: u32 = 65535;

/// The handles that a buffer manager shares with the graphics context around it.
pub struct DeviceContext {
    pub memory_allocator: Arc<GenericMemoryAllocator<FreeListAllocator>>,
    pub descriptor_set_allocator: Arc<StandardDescriptorSetAllocator>,
    pub command_buffer_allocator: Arc<StandardCommandBufferAllocator>,
    pub queue: Arc<Queue>,
    pub compute_pipeline: Arc<ComputePipeline>,
}

/// One copy command: `copy.count` records from `source`, starting at `copy.src_offset`,
/// to `target`, starting at `copy.dst_offset`.
pub struct CopyCommand {
    pub source: SlotBuffer,
    pub target: SlotBuffer,
    pub copy: Transfer,
}

/// Commands that the device has carried out to the end. Only `run_to_completion` makes
/// one.
pub struct Completed {
    commands: Arc<PrimaryAutoCommandBuffer>,
}

impl Completed {
    /// The commands that were carried out.
    pub closed spec fn spec_commands(self) -> PrimaryAutoCommandBuffer {
        *self.commands
    }
}

/// For each handle of `context` but the queue, whether its device is the queue's.
pub uninterp spec fn device_matches(context: DeviceContext) -> DeviceMatches;

/// What the descriptor set layout at `set_index` of the compute pipeline of `context`
/// counts: for each kind of descriptor in it, the number of the kind and how many of it.
/// `None` where the pipeline has no layout at that index.
pub uninterp spec fn set_layout_counts(context: DeviceContext, set_index: nat) -> Option<
    Set<(i32, u32)>,
>;

/// Whether `allocator` was made with settings under which it can make a pool: from 1 to
/// 65536 sets to a pool, and updates after binding only where its device allows them.
/// The allocator does not tell.
pub uninterp spec fn pools_descriptor_sets(allocator: StandardDescriptorSetAllocator) -> bool;

/// Whether `allocator` was made to hand out primary command buffers. The allocator does
/// not tell.
pub uninterp spec fn hands_out_primary(allocator: StandardCommandBufferAllocator) -> bool;

/// Whether `buffer` lives on the device of the memory allocator of `context`.
pub uninterp spec fn on_device(context: DeviceContext, buffer: SlotBuffer) -> bool;

/// Whether `commands` were recorded with the command buffer allocator of `context`.
pub uninterp spec fn recorded_on(context: DeviceContext, commands: PrimaryAutoCommandBuffer) -> bool;

/// The one copy that `commands` hold.
pub uninterp spec fn copy_recorded(commands: PrimaryAutoCommandBuffer) -> CopyCommand;

/// Number of records that `buffer` spans.
pub uninterp spec fn slot_count(buffer: SlotBuffer) -> nat;

/// The usage bits that `buffer` was created with.
pub uninterp spec fn usage_bits_of(buffer: SlotBuffer) -> u32;

/// The buffer that `binding` of `set` was written with.
pub uninterp spec fn bound_buffer(set: DescriptorSet, binding: u32) -> SlotBuffer;

/// Whether the five handles of `context` belong to one and the same device.
pub open spec fn single_device(context: DeviceContext) -> bool {
    let matches = device_matches(context);
    &&& matches.memory_allocator
    &&& matches.descriptor_set_allocator
    &&& matches.command_buffer_allocator
    &&& matches.compute_pipeline
}

/// Whether a pool of descriptor sets can be made for a layout that counts `(kind, count)`:
/// the kind is no inline uniform block, and there are at most `MAX_LAYOUT_COUNT` of it.
pub open spec fn spec_poolable(entry: (i32, u32)) -> bool {
    entry.0 != INLINE_UNIFORM_BLOCK && entry.1 <= MAX_LAYOUT_COUNT
}

/// Whether the compute pipeline of `context` has, at `set_index`, a descriptor set
/// layout that a pool of descriptor sets can be made for: one that counts descriptors,
/// and only such as can be pooled.
pub open spec fn has_binding_layout(context: DeviceContext, set_index: nat) -> bool {
    match set_layout_counts(context, set_index) {
        Some(counts) => spec_all_poolable(counts),
        None => false,
    }
}

/// Whether `counts` holds an entry, and only entries that can be pooled.
pub open spec fn spec_all_poolable(counts: Set<(i32, u32)>) -> bool {
    &&& exists|entry: (i32, u32)| #[trigger] counts.contains(entry)
    &&& forall|entry: (i32, u32)| #[trigger] counts.contains(entry) ==> spec_poolable(entry)
}

/// Compares the device that each handle reports through `DeviceOwned::device` with the
/// queue's. Trusted: the result is what `device_matches` stands for.
#[verifier::external_body]
pub(crate) fn compare_devices(context: &DeviceContext) -> (matches: DeviceMatches)
    ensures
        matches == device_matches(*context),
{
    let device = context.queue.device();
    DeviceMatches {
        memory_allocator: context.memory_allocator.device() == device,
        descriptor_set_allocator: context.descriptor_set_allocator.device() == device,
        command_buffer_allocator: context.command_buffer_allocator.device() == device,
        compute_pipeline: context.compute_pipeline.device() == device,
    }
}

/// Hands out what `DescriptorSetLayout::descriptor_counts` holds for the layout at
/// `set_index` of `PipelineLayout::set_layouts`, each kind as its number. Trusted: the
/// pairs handed out, in whatever order, are what `set_layout_counts` stands for.
#[verifier::external_body]
pub(crate) fn read_set_layout(context: &DeviceContext, set_index: usize) -> (counts: Option<
    Vec<(i32, u32)>,
>)
    ensures
        counts matches Some(pairs) ==> set_layout_counts(*context, set_index as nat) == Some(
            pairs@.to_set(),
        ),
        counts is None ==> set_layout_counts(*context, set_index as nat) is None,
{
    let layout = context.compute_pipeline.layout().set_layouts().get(set_index)?;
    Some(layout.descriptor_counts().iter().map(|(kind, count)| (*kind as i32, *count)).collect())
}

/// Decides whether the five handles belong to one device.
pub(crate) fn on_one_device(context: &DeviceContext) -> (same: bool)
    ensures
        same == single_device(*context),
{
    let matches = compare_devices(context);
    matches.memory_allocator && matches.descriptor_set_allocator
        && matches.command_buffer_allocator && matches.compute_pipeline
}

/// Decides whether the buffer can be bound through the descriptor set layout at
/// `set_index` of the compute pipeline.
#[verifier::loop_isolation(false)]
pub(crate) fn binding_layout_present(context: &DeviceContext, set_index: usize) -> (present: bool)
    ensures
        present == has_binding_layout(*context, set_index as nat),
{
    let pairs = match read_set_layout(context, set_index) {
        Some(pairs) => pairs,
        None => {
            return false;
        },
    };
    let ghost counts = pairs@.to_set();
    assert(forall|entry: (i32, u32)| counts.contains(entry) <==> pairs@.contains(entry));
    if pairs.len() == 0 {
        return false;
    }
    assert(pairs@.contains(pairs@[0]));
    let mut i: usize = 0;
    while i < pairs.len()
        invariant
            i <= pairs.len(),
            forall|j: int| 0 <= j < i ==> spec_poolable(#[trigger] pairs@[j]),
        decreases pairs.len() - i,
    {
        let entry = pairs[i];
        if entry.0 == INLINE_UNIFORM_BLOCK || entry.1 > MAX_LAYOUT_COUNT {
            proof {
                assert(pairs@.contains(pairs@[i as int]));
                assert(counts.contains(pairs@[i as int]) && !spec_poolable(pairs@[i as int]));
            }
            return false;
        }
        i = i + 1;
    }
    proof {
        assert(set_layout_counts(*context, set_index as nat) == Some(counts));
        assert(counts.contains(pairs@[0]));
        assert(exists|entry: (i32, u32)| counts.contains(entry));
        assert forall|entry: (i32, u32)| counts.contains(entry) implies spec_poolable(entry) by {
            assert(pairs@.contains(entry));
            let j = choose|j: int| 0 <= j < pairs@.len() && pairs@[j] == entry;
            assert(spec_poolable(pairs@[j]));
        }
        assert(spec_all_poolable(counts));
    }
    true
}

/// Calls `StandardCommandBufferAllocator::new` for the device of `queue` with the
/// default settings. Trusted: what comes back hands out primary command buffers, 32 to
/// a pool by default.
#[verifier::external_body]
pub fn default_command_buffer_allocator(queue: &Arc<Queue>) -> (allocator: Arc<
    StandardCommandBufferAllocator,
>)
    ensures
        hands_out_primary(*allocator),
{
    Arc::new(StandardCommandBufferAllocator::new(queue.device().clone(), Default::default()))
}

/// Calls `StandardDescriptorSetAllocator::new` for the device of `queue` with the
/// default settings. Trusted: what comes back can make a pool: by default it puts 32
/// sets in one and asks for no updates after binding.
#[verifier::external_body]
pub fn default_descriptor_set_allocator(queue: &Arc<Queue>) -> (allocator: Arc<
    StandardDescriptorSetAllocator,
>)
    ensures
        pools_descriptor_sets(*allocator),
{
    Arc::new(StandardDescriptorSetAllocator::new(queue.device().clone(), Default::default()))
}

/// Calls `Buffer::new_slice` for `len` records. Trusted: a buffer that comes back spans
/// `len` records, was created with the usage asked for, and lives on the device of the
/// allocator. `new_slice` panics on a length of zero and on one whose bytes exceed the
/// largest layout, so both are left out; bits beyond the nine usages of core Vulkan
/// could be dropped in the conversion, so they are left out too.
#[verifier::external_body]
pub(crate) fn allocate_slots(
    context: &DeviceContext,
    usage_bits: u32,
    placement: Placement,
    len: u64,
) -> (r: Result<SlotBuffer, Validated<AllocateBufferError>>)
    requires
        0 < len <= MAX_CAPACITY,
        usage_bits <= USAGE_CORE_MASK,
    ensures
        r matches Ok(buffer) ==> {
            &&& slot_count(buffer) == len
            &&& usage_bits_of(buffer) == usage_bits
            &&& on_device(*context, buffer)
        },
{
    let memory_type_filter = match placement {
        Placement::Device => MemoryTypeFilter::PREFER_DEVICE,
        Placement::Host => MemoryTypeFilter::PREFER_HOST,
    };
    Buffer::new_slice::<[u32; 4]>(
        context.memory_allocator.clone(),
        BufferCreateInfo {
            usage: BufferUsage::from(BufferUsageFlags::from_raw(usage_bits)),
            ..Default::default()
        },
        AllocationCreateInfo { memory_type_filter, ..Default::default() },
        len,
    )
}

/// Calls `Subbuffer::write` and copies `data` into the mapped records. Nothing is
/// promised of the outcome. The copy panics on unequal lengths, so they are left out.
#[verifier::external_body]
pub(crate) fn write_slots(buffer: &SlotBuffer, data: &Vec<[u32; 4]>) -> (r: Result<
    (),
    HostAccessError,
>)
    requires
        data@.len() == slot_count(*buffer),
{
    let mut mapped = buffer.write()?;
    mapped.copy_from_slice(data);
    Ok(())
}

/// Calls `Subbuffer::read` and hands the mapped records out. Trusted: as many records
/// come out as the buffer spans.
#[verifier::external_body]
pub(crate) fn read_slots(buffer: &SlotBuffer) -> (r: Result<Vec<[u32; 4]>, HostAccessError>)
    ensures
        r matches Ok(data) ==> data@.len() == slot_count(*buffer),
{
    let mapped = buffer.read()?;
    Ok(mapped.to_vec())
}

/// Records one copy command in a primary command buffer of its own:
/// `AutoCommandBufferBuilder::primary`, `copy_buffer` between the two ranges cut out
/// with `Subbuffer::slice`, then `build`. Trusted: what comes back was recorded with
/// the allocator of `context` and holds that one copy.
///
/// Left out, because the call panics on them: an empty range or one that leaves its
/// buffer (`slice`), a buffer of another device than the builder's (`copy_buffer`), and
/// an allocator made to hand out no primary command buffers (`primary`).
#[verifier::external_body]
pub(crate) fn record_copy(
    context: &DeviceContext,
    src: &SlotBuffer,
    src_first: u64,
    src_end: u64,
    dst: &SlotBuffer,
    dst_first: u64,
    dst_end: u64,
) -> (r: Result<Arc<PrimaryAutoCommandBuffer>, Validated<VulkanError>>)
    requires
        single_device(*context),
        hands_out_primary(*context.command_buffer_allocator),
        on_device(*context, *src),
        on_device(*context, *dst),
        src_first < src_end <= slot_count(*src),
        dst_first < dst_end <= slot_count(*dst),
        src_end - src_first == dst_end - dst_first,
    ensures
        r matches Ok(commands) ==> {
            &&& recorded_on(*context, *commands)
            &&& copy_recorded(*commands) == (CopyCommand {
                source: *src,
                target: *dst,
                copy: Transfer {
                    src_offset: src_first,
                    dst_offset: dst_first,
                    count: (src_end - src_first) as u64,
                },
            })
        },
{
    let mut builder = AutoCommandBufferBuilder::primary(
        context.command_buffer_allocator.clone(),
        context.queue.queue_family_index(),
        CommandBufferUsage::OneTimeSubmit,
    )?;
    builder.copy_buffer(CopyBufferInfo::buffers(
        src.clone().slice(src_first..src_end),
        dst.clone().slice(dst_first..dst_end),
    ))?;
    builder.build()
}

/// Submits `commands` to the queue with a fence behind them (`then_execute`,
/// `then_signal_fence`, `flush`), waits without a timeout until the queue has fallen idle
/// (`QueueGuard::wait_idle`), and lets the future confirm on the fence that the work is
/// done (`cleanup_finished`, `queue_change_allowed`). Trusted: what comes back as
/// completed are `commands`. The error tells whether the device had taken the work.
///
/// vulkano's futures unwrap when they are dropped with their work undone, so a future
/// whose work failed is given to `std::mem::forget` and never dropped. The future cannot
/// be named outside this body, which is why all of this stands in one place.
///
/// Left out, because `then_execute` panics on them: commands of another device than the
/// queue's. Two things no argument decides: the call does not return while the device
/// does not finish the work, and `then_signal_fence` unwraps the making of the fence.
#[verifier::external_body]
pub(crate) fn run_to_completion(
    context: &DeviceContext,
    commands: Arc<PrimaryAutoCommandBuffer>,
) -> (r: Result<Completed, SubmitFailure>)
    requires
        single_device(*context),
        recorded_on(*context, *commands),
    ensures
        r matches Ok(done) ==> done.spec_commands() == *commands,
{
    let kept = commands.clone();
    let started = vulkano::sync::now(context.queue.device().clone());
    let Ok(executing) = started.then_execute(context.queue.clone(), commands) else {
        return Err(SubmitFailure::NotSubmitted);
    };
    let mut fenced = executing.then_signal_fence();
    let flushed = fenced.flush().is_ok();
    let idle = flushed && context.queue.with(|mut guard| guard.wait_idle()).is_ok();
    fenced.cleanup_finished();
    if idle && fenced.queue_change_allowed() {
        return Ok(Completed { commands: kept });
    }
    std::mem::forget(fenced);
    Err(if flushed { SubmitFailure::WaitFailed } else { SubmitFailure::NotSubmitted })
}

/// Calls `DescriptorSet::new` with the set layout at `set_index` of the compute pipeline
/// and one write, `WriteDescriptorSet::buffer`, of `buffer` to `binding`. Trusted: in a
/// set that comes back, `binding` was written with `buffer`.
///
/// Left out, because the call panics on them: a pipeline without a layout at
/// `set_index`; handles of different devices; and what makes the allocator's pool fail
/// vulkano's validation, which the allocator unwraps: a layout that counts no descriptor
/// or an inline uniform block, a pool size beyond 32 bits, and an allocator made with no
/// sets to a pool or with updates after binding that its device does not allow.
#[verifier::external_body]
pub(crate) fn build_binding(
    context: &DeviceContext,
    set_index: usize,
    binding: u32,
    buffer: &SlotBuffer,
) -> (r: Result<Arc<DescriptorSet>, Validated<VulkanError>>)
    requires
        single_device(*context),
        has_binding_layout(*context, set_index as nat),
        pools_descriptor_sets(*context.descriptor_set_allocator),
        on_device(*context, *buffer),
    ensures
        r matches Ok(set) ==> bound_buffer(*set, binding) == *buffer,
{
    DescriptorSet::new(
        context.descriptor_set_allocator.clone(),
        context.compute_pipeline.layout().set_layouts()[set_index].clone(),
        [WriteDescriptorSet::buffer(binding, buffer.clone())],
        [],
    )
}

} // verus!
