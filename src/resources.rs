//! The workload's two resources (the image that is cleared and the buffer
//! that the host reads), the memory each asks for, and the recording of the
//! work on both queues.

use vstd::prelude::*;
use crate::device::{Extent2D, PhysicalDevice};
use crate::errors::AllocationError;
use crate::memory::{
    allocation_outcome, AllocationPlan, MemoryRequirements, MEMORY_DEVICE_LOCAL,
    MEMORY_HOST_CACHED, MEMORY_HOST_COHERENT, MEMORY_HOST_VISIBLE,
};
use crate::pools::{
    BufferState, ComputeCommandBufferPool, PoolError, TransferCommandBufferPool,
};
use crate::queue::{has_flag, QueueFamilies};
use crate::sync::{clear_sequence, copy_sequence, ClearColor};

verus! {

/// The image needs no memory property; device-local memory is preferred.
pub const IMAGE_REQUIRED_MEMORY: u32 = 0;

pub const IMAGE_OPTIONAL_MEMORY: u32 = MEMORY_DEVICE_LOCAL;

/// The buffer must be host-visible; host-cached memory is preferred.
pub const BUFFER_REQUIRED_MEMORY: u32 = MEMORY_HOST_VISIBLE;

pub const BUFFER_OPTIONAL_MEMORY: u32 = MEMORY_HOST_CACHED;

/// Plans the memory of the image: device-local if possible.
pub fn plan_image_memory(device: &PhysicalDevice, reqs: MemoryRequirements) -> (r: Result<
    AllocationPlan,
    AllocationError,
>)
    requires
        device.wf(),
    ensures
        allocation_outcome(
            device.memory_properties(),
            device.max_allocation_size(),
            seq![reqs],
            IMAGE_REQUIRED_MEMORY,
            IMAGE_OPTIONAL_MEMORY,
            r,
        ),
{
    let mut all: Vec<MemoryRequirements> = Vec::new();
    all.push(reqs);
    assert(all@ =~= seq![reqs]);
    device.plan_allocation(&all, IMAGE_REQUIRED_MEMORY, IMAGE_OPTIONAL_MEMORY)
}

/// Plans the memory of the readback buffer: host-visible, and host-cached if
/// possible.
pub fn plan_buffer_memory(device: &PhysicalDevice, reqs: MemoryRequirements) -> (r: Result<
    AllocationPlan,
    AllocationError,
>)
    requires
        device.wf(),
    ensures
        allocation_outcome(
            device.memory_properties(),
            device.max_allocation_size(),
            seq![reqs],
            BUFFER_REQUIRED_MEMORY,
            BUFFER_OPTIONAL_MEMORY,
            r,
        ),
{
    let mut all: Vec<MemoryRequirements> = Vec::new();
    all.push(reqs);
    assert(all@ =~= seq![reqs]);
    device.plan_allocation(&all, BUFFER_REQUIRED_MEMORY, BUFFER_OPTIONAL_MEMORY)
}

/// Memory of this type must be invalidated before the host reads what the
/// device wrote: it is not host-coherent.
pub fn needs_invalidation(device: &PhysicalDevice, type_index: u32) -> (r: bool)
    requires
        type_index < device.memory_properties().memory_types@.len(),
    ensures
        r == !has_flag(
            device.memory_properties().memory_types@[type_index as int].property_flags,
            MEMORY_HOST_COHERENT,
        ),
{
    let memory_type = device.get_memory_type(type_index);
    memory_type.property_flags & MEMORY_HOST_COHERENT != MEMORY_HOST_COHERENT
}

/// The workload's resources, bound to their memory. Handles are the
/// driver's, as integers.
#[derive(Clone, Copy, Debug, PartialEq, Eq, Structural)]
pub struct GPUData {
    pub clear_image: u64,
    pub clear_image_memory: u64,
    pub final_buffer: u64,
    pub final_buffer_size: u64,
    pub final_buffer_memory: u64,
    /// The buffer's memory must be invalidated before the host reads it.
    pub final_buffer_needs_invalidation: bool,
}

/// Resets both pools and records the clear on the compute pool and the copy
/// on the transfer pool. Refused, with the pools as they were, while a
/// submission from either may still run.
pub fn record_work(
    compute_pool: &mut ComputeCommandBufferPool,
    transfer_pool: &mut TransferCommandBufferPool,
    families: &QueueFamilies,
    data: &GPUData,
    extent: Extent2D,
    color: ClearColor,
) -> (r: Result<(), PoolError>)
    ensures
        (old(compute_pool).recording.state() == BufferState::Pending || old(
            transfer_pool,
        ).recording.state() == BufferState::Pending) ==> r == Err::<(), PoolError>(
            PoolError::StillPending,
        ) && final(compute_pool).recording.state() == old(compute_pool).recording.state()
            && final(transfer_pool).recording.state() == old(transfer_pool).recording.state(),
        (old(compute_pool).recording.state() != BufferState::Pending && old(
            transfer_pool,
        ).recording.state() != BufferState::Pending) ==> {
            &&& r is Ok
            &&& final(compute_pool).recording.state() == BufferState::Executable
            &&& final(transfer_pool).recording.state() == BufferState::Executable
            &&& final(compute_pool).recording.commands() == clear_sequence(
                families.compute_index(),
                families.transfer_index(),
                data.clear_image,
                color,
            )
            &&& final(transfer_pool).recording.commands() == copy_sequence(
                families.compute_index(),
                families.transfer_index(),
                data.clear_image,
                data.final_buffer,
                extent,
            )
        },
{
    if compute_pool.recording.state_now() == BufferState::Pending
        || transfer_pool.recording.state_now() == BufferState::Pending {
        return Err(PoolError::StillPending);
    }
    compute_pool.reset()?;
    compute_pool.record_clear_img(families, data.clear_image, color)?;
    transfer_pool.reset()?;
    transfer_pool.record_copy_img_to_buffer(families, data.clear_image, data.final_buffer, extent)?;
    Ok(())
}

} // verus!
