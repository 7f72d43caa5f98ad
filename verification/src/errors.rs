//! Structured errors surfaced by the library.
//!
//! Every failure is reported to the caller with the originating stage
//! identified; the library performs no local recovery.

use vstd::prelude::*;

verus! {

/// A failure while constructing a [`crate::runtime::VulkanRuntime`].
#[derive(Clone, Copy, Debug, PartialEq, Eq, Structural)]
pub enum RuntimeError {
    /// No platform Vulkan loader library is present.
    NoLibrary,
    /// The instance constructor rejected the default creation info.
    InstanceCreationFailed,
    /// Physical-device enumeration returned an empty list.
    NoPhysicalDevice,
    /// No queue family of the chosen device advertises both graphics
    /// and compute capability, the pair the selection demands; a
    /// device whose graphics families all lack compute gets this error
    /// too.
    NoGraphicsQueueFamily,
    /// The logical-device constructor failed.
    DeviceCreationFailed,
}

/// A failure while turning SPIR-V bytecode into a device-bound shader module.
#[derive(Clone, Copy, Debug, PartialEq, Eq, Structural)]
pub enum ShaderError {
    /// The shader file could not be opened.
    FileOpenFailed,
    /// The shader file could not be read to the end.
    FileReadFailed,
    /// The byte payload was not accepted as a SPIR-V module.
    ShaderModuleRejected,
}

/// A failure while creating or reading back a storage buffer.
#[derive(Clone, Copy, Debug, PartialEq, Eq, Structural)]
pub enum BufferError {
    /// The buffer could not be allocated; an empty buffer in
    /// particular cannot exist.
    BufferCreationFailed,
    /// The device still holds the buffer: the dispatch's fence has not
    /// been awaited yet.
    BufferInUse,
}

/// A failure while creating an offscreen image.
#[derive(Clone, Copy, Debug, PartialEq, Eq, Structural)]
pub enum ImageError {
    /// The image could not be allocated, or did not report the
    /// requested dimensions.
    ImageCreationFailed,
}

/// The step of a compute dispatch at which a failure arose.
#[derive(Clone, Copy, Debug, PartialEq, Eq, Structural)]
pub enum DispatchStage {
    /// Compute-pipeline creation.
    Pipeline,
    /// Descriptor-set allocation or write.
    DescriptorSet,
    /// Command-buffer allocation or recording.
    Record,
    /// Submission to the queue.
    Submit,
}

/// A failure while executing a compute dispatch.
#[derive(Clone, Copy, Debug, PartialEq, Eq, Structural)]
pub enum DispatchError {
    /// The shader module could not be produced from the given bytes.
    Shader(ShaderError),
    /// A later stage of the dispatch failed.
    Failed(DispatchStage),
}

} // verus!
