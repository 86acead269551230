//! Descriptions of the caller's Vulkan resources, and the native resource
//! structs made from them.
use vstd::prelude::*;
use crate::bridge::{handle_to_pointer, spec_handle_to_pointer, NativePointer};

verus! {

/// A mode that a vulkan resource might have.
#[derive(Debug, Clone, Copy, PartialEq, Eq, Structural)]
pub enum VkResourceMode {
    /// Indicates that the resource can only be read.
    Readable,
    /// Indicates that the resource can be written to.
    Writable,
}

impl Default for VkResourceMode {
    fn default() -> (r: VkResourceMode)
        ensures
            r == VkResourceMode::Readable,
    {
        VkResourceMode::Readable
    }
}

/// A width and a height, in pixels.
#[derive(Debug, Clone, Copy, PartialEq, Eq, Structural)]
pub struct Extent2D {
    pub width: u32,
    pub height: u32,
}

/// The part of an image that a view covers, as Vulkan describes it.
#[derive(Debug, Clone, Copy, PartialEq, Eq, Structural)]
pub struct ImageSubresourceRange {
    /// The raw `VkImageAspectFlags`.
    pub aspect_mask: u32,
    pub base_mip_level: u32,
    pub level_count: u32,
    pub base_array_layer: u32,
    pub layer_count: u32,
}

/// An image that takes part in a feature evaluation. The handles are the raw
/// Vulkan handles of the caller's objects, which must outlive their use.
#[derive(Debug, Clone, Copy, PartialEq, Eq, Structural)]
pub struct VkImageResourceDescription {
    /// The raw handle of the image view.
    pub image_view: u64,
    /// The raw handle of the image.
    pub image: u64,
    /// The subresource range.
    pub subresource_range: ImageSubresourceRange,
    /// The raw `VkFormat`.
    pub format: i32,
    /// The width of the image.
    pub width: u32,
    /// The height of the image.
    pub height: u32,
    /// The mode this resource has.
    pub mode: VkResourceMode,
}

impl VkImageResourceDescription {
    /// Sets the writable bit.
    pub fn set_writable(&mut self)
        ensures
            *final(self) == (VkImageResourceDescription { mode: VkResourceMode::Writable, ..*old(self) }),
    {
        self.mode = VkResourceMode::Writable;
    }
}

/// A buffer that takes part in a feature evaluation.
#[derive(Debug, Clone, Copy, PartialEq, Eq, Structural)]
pub struct VkBufferResourceDescription {
    /// The raw handle of the buffer.
    pub buffer: u64,
    /// The size of the buffer in bytes.
    pub size_in_bytes: usize,
    /// The mode this resource has.
    pub mode: VkResourceMode,
}

/// The image-view part of a native resource struct.
#[derive(Debug, Clone, Copy, PartialEq, Eq, Structural)]
pub struct ImageViewInfo {
    pub image_view: NativePointer,
    pub image: NativePointer,
    pub subresource_range: ImageSubresourceRange,
    pub format: i32,
    pub width: u32,
    pub height: u32,
}

/// The native description of one Vulkan resource, as the evaluation entry
/// points read it. Only image views are described by this crate.
#[derive(Debug, Clone, Copy, PartialEq, Eq, Structural)]
pub struct ResourceVk {
    pub image_view_info: ImageViewInfo,
    /// Whether the SDK may write to the resource.
    pub read_write: bool,
}

/// The native resource struct that describes an image.
pub open spec fn spec_image_resource(d: VkImageResourceDescription) -> ResourceVk {
    ResourceVk {
        image_view_info: ImageViewInfo {
            image_view: spec_handle_to_pointer(d.image_view),
            image: spec_handle_to_pointer(d.image),
            subresource_range: d.subresource_range,
            format: d.format,
            width: d.width,
            height: d.height,
        },
        read_write: d.mode == VkResourceMode::Writable,
    }
}

impl ResourceVk {
    /// The all-zero native struct: a read-only view of no image.
    pub open spec fn spec_zeroed() -> ResourceVk {
        ResourceVk {
            image_view_info: ImageViewInfo {
                image_view: NativePointer { address: 0 },
                image: NativePointer { address: 0 },
                subresource_range: ImageSubresourceRange {
                    aspect_mask: 0,
                    base_mip_level: 0,
                    level_count: 0,
                    base_array_layer: 0,
                    layer_count: 0,
                },
                format: 0,
                width: 0,
                height: 0,
            },
            read_write: false,
        }
    }

    /// The all-zero native struct.
    pub fn zeroed() -> (r: ResourceVk)
        ensures
            r == ResourceVk::spec_zeroed(),
    {
        ResourceVk {
            image_view_info: ImageViewInfo {
                image_view: handle_to_pointer(0),
                image: handle_to_pointer(0),
                subresource_range: ImageSubresourceRange {
                    aspect_mask: 0,
                    base_mip_level: 0,
                    level_count: 0,
                    base_array_layer: 0,
                    layer_count: 0,
                },
                format: 0,
                width: 0,
                height: 0,
            },
            read_write: false,
        }
    }
}

impl From<VkImageResourceDescription> for ResourceVk {
    fn from(value: VkImageResourceDescription) -> (r: ResourceVk) {
        let read_write = match value.mode {
            VkResourceMode::Writable => true,
            VkResourceMode::Readable => false,
        };
        ResourceVk {
            image_view_info: ImageViewInfo {
                image_view: handle_to_pointer(value.image_view),
                image: handle_to_pointer(value.image),
                subresource_range: value.subresource_range,
                format: value.format,
                width: value.width,
                height: value.height,
            },
            read_write,
        }
    }
}

impl vstd::std_specs::convert::FromSpecImpl<VkImageResourceDescription> for ResourceVk {
    open spec fn obeys_from_spec() -> bool {
        true
    }

    open spec fn from_spec(v: VkImageResourceDescription) -> ResourceVk {
        spec_image_resource(v)
    }
}

} // verus!
