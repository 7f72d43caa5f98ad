//! The offscreen image-creation collaborator: a 2-D storage image in
//! the standard 8-bit RGBA unorm format, bound to the runtime's queue
//! family, for offscreen rendering.

use vstd::prelude::*;

use std::sync::Arc;
use vulkano::device::Device;
use vulkano::format::Format;
use vulkano::image::{ImageAccess, ImageDimensions, StorageImage};

use crate::errors::ImageError;
use crate::runtime::VulkanRuntime;

verus! {

/// The extent of a 2-D image, in pixels.
#[derive(Clone, Copy, Debug, PartialEq, Eq, Structural)]
pub struct ImageExtent {
    pub width: u32,
    pub height: u32,
}

/// The platform image handle. Its type cannot be declared to the
/// verifier (it is generic over an outside trait), so it is held
/// opaquely; the dimensions the helper reports are read back from the
/// platform and checked against the request instead.
#[verifier::external_body]
pub struct StorageImageHandle {
    inner: Arc<StorageImage>,
}

/// Relies on `StorageImage::new` with the `R8G8B8A8_UNORM` format and
/// the single given queue family: an image of exactly the requested
/// 2-D dimensions, with one array layer. Image creation asserts a
/// nonzero extent, so the zero values are excluded here and rejected
/// by the public helper below; the remaining documented panic
/// condition is a compressed format, which this format is not.
#[verifier::external_body]
fn create_storage_image(
    device: &Arc<Device>,
    extent: ImageExtent,
    queue_family_index: u32,
) -> (r: Result<StorageImageHandle, ImageError>)
    requires
        extent.width > 0,
        extent.height > 0,
    ensures
        r matches Err(e) ==> e == ImageError::ImageCreationFailed,
{
    let dimensions = ImageDimensions::Dim2d {
        width: extent.width,
        height: extent.height,
        array_layers: 1,
    };
    match StorageImage::new(
        device.clone(),
        dimensions,
        Format::R8G8B8A8_UNORM,
        Some(queue_family_index),
    ) {
        Ok(inner) => Ok(StorageImageHandle { inner }),
        Err(_) => Err(ImageError::ImageCreationFailed),
    }
}

/// Relies on `ImageAccess::dimensions`: the width and height the
/// platform reports for the image.
#[verifier::external_body]
fn storage_image_extent(image: &StorageImageHandle) -> (r: (u32, u32)) {
    let dimensions = image.inner.dimensions();
    (dimensions.width(), dimensions.height())
}

/// A 2-D storage image together with the extent it reports.
pub struct OffscreenImage {
    handle: StorageImageHandle,
    extent: ImageExtent,
}

impl OffscreenImage {
    /// The extent the image reports: checked at creation to be the
    /// extent that was requested.
    pub closed spec fn spec_extent(self) -> ImageExtent {
        self.extent
    }

    /// The width and height of the image, in pixels.
    pub fn extent(&self) -> (r: ImageExtent)
        ensures
            r == self.spec_extent(),
    {
        self.extent
    }

    /// The platform handle, for callers that record their own commands
    /// against the image.
    pub fn handle(&self) -> &StorageImageHandle {
        &self.handle
    }
}

/// Allocates a 2-D storage image of the requested extent in the
/// standard 8-bit RGBA unorm format, bound to the runtime's queue
/// family. An image cannot have a zero width or height, so such a
/// request is rejected. On success the image reports exactly the
/// requested dimensions: the helper reads them back from the platform
/// and refuses the image otherwise.
pub fn create_imagebuffer(runtime: &VulkanRuntime, dims: ImageExtent) -> (r: Result<
    OffscreenImage,
    ImageError,
>)
    ensures
        r matches Ok(img) ==> img.spec_extent() == dims,
        r matches Err(e) ==> e == ImageError::ImageCreationFailed,
        dims.width == 0 || dims.height == 0 ==> r is Err,
{
    if dims.width == 0 || dims.height == 0 {
        return Err(ImageError::ImageCreationFailed);
    }
    let handle = match create_storage_image(runtime.device(), dims, runtime.queue_family_index()) {
        Ok(h) => h,
        Err(e) => {
            return Err(e);
        },
    };
    let (width, height) = storage_image_extent(&handle);
    if width != dims.width || height != dims.height {
        return Err(ImageError::ImageCreationFailed);
    }
    Ok(OffscreenImage { handle, extent: dims })
}

} // verus!
