//! Runtime construction, with or without a GPU present.

use std::sync::Arc;
use vulkano::device::physical::PhysicalDevice;

use vulqueno::errors::{ImageError, RuntimeError};
use vulqueno::image::{create_imagebuffer, ImageExtent};
use vulqueno::runtime::{first_physical_device, VulkanRuntime};

#[test]
fn empty_enumeration_means_no_physical_device() {
    let devices: Vec<Arc<PhysicalDevice>> = Vec::new();
    match first_physical_device(devices) {
        Err(RuntimeError::NoPhysicalDevice) => (),
        Err(other) => panic!("wrong error kind: {:?}", other),
        Ok(_) => panic!("a device out of an empty enumeration"),
    }
}

#[test]
fn runtime_construction_is_repeatable() {
    // No hidden singleton: a second construction in the same process
    // completes like the first, whether or not this machine offers a
    // Vulkan loader and a device. On a machine with a device, the two
    // runtimes are independently usable.
    let first = VulkanRuntime::new();
    let second = VulkanRuntime::new();
    match (&first, &second) {
        (Ok(a), Ok(b)) => {
            let _ = (a.instance(), a.physical_device(), a.device(), a.queue());
            let _ = (b.instance(), b.physical_device(), b.device(), b.queue());
            // An image cannot have a zero width or height; the request
            // is rejected, not passed to the platform.
            assert!(matches!(
                create_imagebuffer(a, ImageExtent { width: 0, height: 1 }),
                Err(ImageError::ImageCreationFailed)
            ));
        },
        (Err(_), Err(_)) => (),
        _ => panic!("two constructions in one process disagreed"),
    }
}

#[test]
fn runtime_construction_failure_names_a_construction_stage() {
    match VulkanRuntime::new() {
        Ok(runtime) => {
            // A clone shares the same queue family.
            let copy = runtime.clone();
            assert_eq!(copy.queue_family_index(), runtime.queue_family_index());
        },
        Err(e) => {
            assert!(matches!(
                e,
                RuntimeError::NoLibrary
                    | RuntimeError::InstanceCreationFailed
                    | RuntimeError::NoPhysicalDevice
                    | RuntimeError::NoGraphicsQueueFamily
                    | RuntimeError::DeviceCreationFailed
            ));
        },
    }
}
