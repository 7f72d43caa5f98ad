//! Trusted bindings to the `vulkano` GPU API.
//!
//! Everything the library asks of the GPU goes through this module:
//! the type declarations make vulkano's handle types known, and each
//! wrapper carries the contract this library relies on, trusted
//! rather than proved. A handle returned by the platform is opaque
//! here; the wrappers state only what holds of every outcome, and the
//! verified callers do the rest.

use vstd::prelude::*;

use std::sync::Arc;
use vulkano::VulkanLibrary;
use vulkano::command_buffer::pool::standard::StandardCommandPoolAlloc;
use vulkano::command_buffer::{
    AutoCommandBufferBuilder, CommandBufferExecFuture, CommandBufferUsage,
    PrimaryAutoCommandBuffer,
};
use vulkano::descriptor_set::pool::standard::StandardDescriptorPoolAlloc;
use vulkano::descriptor_set::{DescriptorSet, PersistentDescriptorSet, WriteDescriptorSet};
use vulkano::device::physical::PhysicalDevice;
use vulkano::device::{Device, DeviceCreateInfo, DeviceOwned, Queue, QueueCreateInfo};
use vulkano::instance::{Instance, InstanceCreateInfo};
use vulkano::pipeline::{ComputePipeline, Pipeline, PipelineBindPoint};
use vulkano::shader::ShaderModule;
use vulkano::sync::{FenceSignalFuture, GpuFuture, NowFuture};

use crate::buffer::WordBuffer;
use crate::errors::{DispatchError, DispatchStage, RuntimeError};
use crate::families::QueueFamilyCaps;

verus! {

#[verifier::external_type_specification]
#[verifier::external_body]
pub struct ExVulkanLibrary(VulkanLibrary);

#[verifier::external_type_specification]
#[verifier::external_body]
pub struct ExInstance(Instance);

#[verifier::external_type_specification]
#[verifier::external_body]
pub struct ExPhysicalDevice(PhysicalDevice);

#[verifier::external_type_specification]
#[verifier::external_body]
pub struct ExDevice(Device);

#[verifier::external_type_specification]
#[verifier::external_body]
pub struct ExQueue(Queue);

/// Relies on `VulkanLibrary::new`: loads the platform Vulkan loader,
/// failing exactly when no loader library is present or usable.
#[verifier::external_body]
pub(crate) fn load_library() -> (r: Result<Arc<VulkanLibrary>, RuntimeError>)
    ensures
        r matches Err(e) ==> e == RuntimeError::NoLibrary,
{
    VulkanLibrary::new().map_err(|_| RuntimeError::NoLibrary)
}

/// Relies on `Instance::new` with default creation info. Its documented
/// panic conditions concern oversized version numbers in the creation
/// info, which the default info does not contain.
#[verifier::external_body]
pub(crate) fn create_instance(library: &Arc<VulkanLibrary>) -> (r: Result<
    Arc<Instance>,
    RuntimeError,
>)
    ensures
        r matches Err(e) ==> e == RuntimeError::InstanceCreationFailed,
{
    Instance::new(library.clone(), InstanceCreateInfo::default())
        .map_err(|_| RuntimeError::InstanceCreationFailed)
}

/// Relies on `Instance::enumerate_physical_devices`: yields the devices
/// in enumeration order. A failure of the enumeration call itself is
/// reported as no device being obtainable.
#[verifier::external_body]
pub(crate) fn enumerate_physical_devices(instance: &Arc<Instance>) -> (r: Result<
    Vec<Arc<PhysicalDevice>>,
    RuntimeError,
>)
    ensures
        r matches Err(e) ==> e == RuntimeError::NoPhysicalDevice,
{
    match instance.enumerate_physical_devices() {
        Ok(devices) => Ok(devices.collect()),
        Err(_) => Err(RuntimeError::NoPhysicalDevice),
    }
}

/// Relies on `PhysicalDevice::queue_family_properties`: one entry per
/// queue family, in family-index order. Vulkan reports the family count
/// as a 32-bit value, and each existing family has at least one queue.
#[verifier::external_body]
pub(crate) fn queue_family_caps(physical: &Arc<PhysicalDevice>) -> (r: Vec<QueueFamilyCaps>)
    ensures
        r@.len() <= u32::MAX,
        forall|i: int| 0 <= i < r@.len() ==> r@[i].queue_count >= 1,
{
    physical
        .queue_family_properties()
        .iter()
        .map(|f| QueueFamilyCaps {
            graphics: f.queue_flags.graphics,
            compute: f.queue_flags.compute,
            queue_count: f.queue_count,
        })
        .collect()
}

/// Relies on `Device::new` with a single queue-create request: on
/// success the returned iterator yields exactly the queues of that
/// request, so the first queue belongs to the requested family. The
/// index is checked against the device's family count before the call,
/// because `Device::new` panics on an out-of-range index; runtime
/// construction always passes an index from this device's own
/// capability list.
#[verifier::external_body]
pub(crate) fn create_device_and_queue(physical: &Arc<PhysicalDevice>, queue_family_index: u32) -> (r:
    Result<(Arc<Device>, Arc<Queue>), RuntimeError>)
    ensures
        r matches Err(e) ==> e == RuntimeError::DeviceCreationFailed,
{
    if queue_family_index as usize >= physical.queue_family_properties().len() {
        return Err(RuntimeError::DeviceCreationFailed);
    }
    let queue_create_infos = vec![QueueCreateInfo { queue_family_index, ..Default::default() }];
    let (device, mut queues) = Device::new(
        physical.clone(),
        DeviceCreateInfo { queue_create_infos, ..Default::default() },
    ).map_err(|_| RuntimeError::DeviceCreationFailed)?;
    let queue = queues.next().ok_or(RuntimeError::DeviceCreationFailed)?;
    Ok((device, queue))
}

#[verifier::external_type_specification]
#[verifier::external_body]
pub struct ExShaderModule(ShaderModule);

#[verifier::external_type_specification]
#[verifier::external_body]
pub struct ExComputePipeline(ComputePipeline);

#[verifier::external_type_specification]
#[verifier::external_body]
#[verifier::reject_recursive_types(P)]
pub struct ExPersistentDescriptorSet<P>(PersistentDescriptorSet<P>);

#[verifier::external_type_specification]
#[verifier::external_body]
pub struct ExStandardDescriptorPoolAlloc(StandardDescriptorPoolAlloc);

#[verifier::external_type_specification]
#[verifier::external_body]
#[verifier::reject_recursive_types(P)]
pub struct ExPrimaryAutoCommandBuffer<P>(PrimaryAutoCommandBuffer<P>);

#[verifier::external_type_specification]
#[verifier::external_body]
pub struct ExStandardCommandPoolAlloc(StandardCommandPoolAlloc);

/// The waitable handle a dispatch returns: a future that becomes ready
/// when the submitted command buffer has completed on the device. The
/// future's type cannot be declared to the verifier (it is generic over
/// an outside trait), so it is held opaquely.
#[verifier::external_body]
pub struct ComputeFence {
    inner: FenceSignalFuture<CommandBufferExecFuture<NowFuture, PrimaryAutoCommandBuffer>>,
}

impl ComputeFence {
    /// Relies on `FenceSignalFuture::wait` with no timeout: blocks the
    /// calling thread until the device signals completion of the
    /// dispatch, and reports whether the wait succeeded. The sole
    /// suspension point the library exposes; a caller must see `true`
    /// here before reading the dispatch's buffer back.
    #[verifier::external_body]
    pub fn wait(&self) -> bool {
        self.inner.wait(None).is_ok()
    }
}

/// Relies on `ShaderModule::entry_point` and `ComputePipeline::new`:
/// builds a compute pipeline from the module's `main` entry point with
/// an empty specialization-constant record and no pipeline cache. A
/// missing entry point, like a rejected pipeline, is a pipeline-stage
/// failure. A module is only valid against the device that produced
/// it; pairing it with another device is invalid use of the platform
/// API that nothing here can observe, and every caller in this library
/// pairs a module with the runtime whose device loaded it.
#[verifier::external_body]
pub(crate) fn create_compute_pipeline(device: &Arc<Device>, shader: &Arc<ShaderModule>) -> (r: Result<
    Arc<ComputePipeline>,
    DispatchError,
>)
    ensures
        r matches Err(e) ==> e == DispatchError::Failed(DispatchStage::Pipeline),
{
    let entry = match shader.entry_point("main") {
        Some(e) => e,
        None => return Err(DispatchError::Failed(DispatchStage::Pipeline)),
    };
    ComputePipeline::new(device.clone(), entry, &(), None, |_| {})
        .map_err(|_| DispatchError::Failed(DispatchStage::Pipeline))
}

/// Relies on `PipelineLayout::set_layouts` and
/// `PersistentDescriptorSet::new`: allocates a persistent descriptor
/// set from descriptor-set layout 0 of the pipeline, with the single
/// write `binding` ← the buffer. A pipeline whose layout has no set 0
/// is a descriptor-stage failure. The layout of a compute pipeline is
/// never a push-descriptor layout, which is the one documented panic
/// condition of the set constructor.
#[verifier::external_body]
pub(crate) fn create_descriptor_set(
    pipeline: &Arc<ComputePipeline>,
    buffer: &WordBuffer,
    binding: u32,
) -> (r: Result<Arc<PersistentDescriptorSet>, DispatchError>)
    ensures
        r matches Err(e) ==> e == DispatchError::Failed(DispatchStage::DescriptorSet),
{
    let layout = match pipeline.layout().set_layouts().get(0) {
        Some(l) => l,
        None => return Err(DispatchError::Failed(DispatchStage::DescriptorSet)),
    };
    PersistentDescriptorSet::new(
        layout.clone(),
        [WriteDescriptorSet::buffer(binding, buffer.inner.clone())],
    ).map_err(|_| DispatchError::Failed(DispatchStage::DescriptorSet))
}

/// Relies on `AutoCommandBufferBuilder::primary`, the two bind
/// commands, `dispatch` and `build`: records a one-time-submit primary
/// command buffer on the given queue family that binds the pipeline,
/// binds the set at set index 0 and dispatches `group_counts`
/// workgroups; within it, record order is execution order. The bind
/// commands panic rather than fail on a queue family without compute
/// capability, on mismatched devices, on a layout without a set, and
/// on a set whose layout is incompatible with set 0 of the pipeline's
/// layout, so exactly those conditions are tested first and reported
/// as record-stage failures.
#[verifier::external_body]
pub(crate) fn record_dispatch(
    device: &Arc<Device>,
    queue_family_index: u32,
    pipeline: &Arc<ComputePipeline>,
    set: &Arc<PersistentDescriptorSet>,
    group_counts: [u32; 3],
) -> (r: Result<PrimaryAutoCommandBuffer, DispatchError>)
    ensures
        r matches Err(e) ==> e == DispatchError::Failed(DispatchStage::Record),
{
    let failed = DispatchError::Failed(DispatchStage::Record);
    if device.physical_device().queue_family_properties().get(queue_family_index as usize)
        .map_or(true, |f| !f.queue_flags.compute)
        || pipeline.layout().set_layouts().first().map_or(true, |l| !l.is_compatible_with(set.layout()))
        || pipeline.device() != device || set.device() != device {
        return Err(failed);
    }
    let usage = CommandBufferUsage::OneTimeSubmit;
    let mut builder = AutoCommandBufferBuilder::primary(device.clone(), queue_family_index, usage)
        .map_err(|_| failed)?;
    builder.bind_pipeline_compute(pipeline.clone())
        .bind_descriptor_sets(PipelineBindPoint::Compute, pipeline.layout().clone(), 0, set.clone())
        .dispatch(group_counts).map_err(|_| failed)?;
    builder.build().map_err(|_| failed)
}

/// Relies on `sync::now`, `then_execute` and
/// `then_signal_fence_and_flush`: submits the command buffer to the
/// queue after a fresh "now" synchronization point, requests a fence
/// signal at completion, and returns the fence future without
/// blocking. Execution after a future asserts rather than fails that
/// the command buffer belongs to the future's device, so a command
/// buffer of another device is tested first and reported as a
/// submit-stage failure.
#[verifier::external_body]
pub(crate) fn submit_and_signal(
    device: &Arc<Device>,
    queue: &Arc<Queue>,
    command_buffer: PrimaryAutoCommandBuffer,
) -> (r: Result<ComputeFence, DispatchError>)
    ensures
        r matches Err(e) ==> e == DispatchError::Failed(DispatchStage::Submit),
{
    if command_buffer.device() != device {
        return Err(DispatchError::Failed(DispatchStage::Submit));
    }
    let inner = vulkano::sync::now(device.clone())
        .then_execute(queue.clone(), command_buffer)
        .map_err(|_| DispatchError::Failed(DispatchStage::Submit))?
        .then_signal_fence_and_flush()
        .map_err(|_| DispatchError::Failed(DispatchStage::Submit))?;
    Ok(ComputeFence { inner })
}

} // verus!
