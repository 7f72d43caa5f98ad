//! The runtime initialization façade: one `new` call that walks the
//! construction chain library → instance → physical device → logical
//! device → queue, with defaults suitable for offscreen work.

use vstd::prelude::*;

use std::sync::Arc;
use vulkano::VulkanLibrary;
use vulkano::device::physical::PhysicalDevice;
use vulkano::device::{Device, Queue};
use vulkano::instance::Instance;

use crate::errors::RuntimeError;
use crate::families::{is_selected_family, select_queue_family, QueueFamilyCaps};
use crate::vk;

verus! {

/// A usable GPU context: the loader library, instance, chosen physical
/// device, logical device, and one queue together with the index of the
/// queue family it was created from. All handles are shared references,
/// so a runtime can be cloned cheaply and passed to helpers; the
/// underlying objects live as long as the longest holder.
#[derive(Clone)]
pub struct VulkanRuntime {
    library: Arc<VulkanLibrary>,
    instance: Arc<Instance>,
    physical_device: Arc<PhysicalDevice>,
    device: Arc<Device>,
    queue: Arc<Queue>,
    queue_family_index: u32,
    families: Ghost<Seq<QueueFamilyCaps>>,
}

impl VulkanRuntime {
    /// The queue-family capability list the physical device reported
    /// when this runtime was constructed.
    pub closed spec fn spec_families(self) -> Seq<QueueFamilyCaps> {
        self.families@
    }

    /// The index of the queue family the runtime's queue was created
    /// from.
    pub closed spec fn spec_queue_family_index(self) -> u32 {
        self.queue_family_index
    }

    pub closed spec fn spec_instance(self) -> Arc<Instance> {
        self.instance
    }

    pub closed spec fn spec_physical_device(self) -> Arc<PhysicalDevice> {
        self.physical_device
    }

    pub closed spec fn spec_device(self) -> Arc<Device> {
        self.device
    }

    pub closed spec fn spec_queue(self) -> Arc<Queue> {
        self.queue
    }

    /// The invariant every runtime built by [`VulkanRuntime::new`]
    /// carries: its queue family is the selected one — the lowest index
    /// whose reported capability set includes graphics (and compute) —
    /// so in particular a graphics-capable family.
    pub open spec fn wf(self) -> bool {
        is_selected_family(self.spec_families(), self.spec_queue_family_index() as int)
    }

    /// Produces a ready-to-use GPU context, in strict order: load the
    /// platform loader, create an instance with default creation info,
    /// take the first physical device in enumeration order, pick the
    /// lowest-indexed usable queue family, create a logical device with
    /// a single queue-create request for that family, and take the
    /// first queue it yields. Each step surfaces its own error kind.
    pub fn new() -> (r: Result<VulkanRuntime, RuntimeError>)
        ensures
            r matches Ok(rt) ==> rt.wf(),
    {
        let library = match vk::load_library() {
            Ok(l) => l,
            Err(e) => {
                return Err(e);
            },
        };
        let instance = match vk::create_instance(&library) {
            Ok(i) => i,
            Err(e) => {
                return Err(e);
            },
        };
        let devices = match vk::enumerate_physical_devices(&instance) {
            Ok(d) => d,
            Err(e) => {
                return Err(e);
            },
        };
        let physical_device = match first_physical_device(devices) {
            Ok(d) => d,
            Err(e) => {
                return Err(e);
            },
        };

        let caps = vk::queue_family_caps(&physical_device);
        let queue_family_index: u32 = match select_queue_family(&caps) {
            Some(i) => i as u32,
            None => {
                return Err(RuntimeError::NoGraphicsQueueFamily);
            },
        };
        let (device, queue) = match vk::create_device_and_queue(
            &physical_device,
            queue_family_index,
        ) {
            Ok(dq) => dq,
            Err(e) => {
                return Err(e);
            },
        };

        Ok(
            VulkanRuntime {
                library,
                instance,
                physical_device,
                device,
                queue,
                queue_family_index,
                families: Ghost(caps@),
            },
        )
    }

    /// Read-only reference to the instance handle.
    pub fn instance(&self) -> (r: &Arc<Instance>)
        ensures
            *r == self.spec_instance(),
    {
        &self.instance
    }

    /// Read-only reference to the chosen physical device.
    pub fn physical_device(&self) -> (r: &Arc<PhysicalDevice>)
        ensures
            *r == self.spec_physical_device(),
    {
        &self.physical_device
    }

    /// Read-only reference to the logical device.
    pub fn device(&self) -> (r: &Arc<Device>)
        ensures
            *r == self.spec_device(),
    {
        &self.device
    }

    /// Read-only reference to the queue the runtime submits to.
    pub fn queue(&self) -> (r: &Arc<Queue>)
        ensures
            *r == self.spec_queue(),
    {
        &self.queue
    }

    /// The index of the queue family the queue was created from.
    pub fn queue_family_index(&self) -> (r: u32)
        ensures
            r == self.spec_queue_family_index(),
    {
        self.queue_family_index
    }
}

/// Picks the physical device the runtime will use: the first one in
/// enumeration order. The tie-break is deliberately trivial;
/// higher-level device selection is out of scope. Fails exactly when
/// the enumeration was empty.
pub fn first_physical_device(devices: Vec<Arc<PhysicalDevice>>) -> (r: Result<
    Arc<PhysicalDevice>,
    RuntimeError,
>)
    ensures
        match r {
            Ok(d) => devices@.len() > 0 && d == devices@[0],
            Err(e) => e == RuntimeError::NoPhysicalDevice && devices@.len() == 0,
        },
{
    let mut devices = devices;
    if devices.len() == 0 {
        return Err(RuntimeError::NoPhysicalDevice);
    }
    Ok(devices.remove(0))
}

/// Every runtime that `new` hands out uses a queue family whose
/// capability set includes graphics — and compute, since the selection
/// demands both.
pub proof fn lemma_runtime_family_capable(rt: VulkanRuntime)
    requires
        rt.wf(),
    ensures
        rt.spec_families()[rt.spec_queue_family_index() as int].graphics,
        rt.spec_families()[rt.spec_queue_family_index() as int].compute,
{
}

} // verus!
