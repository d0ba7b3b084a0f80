//! Raw values of the Vulkan API, as the device expects them.
//!
//! Bit masks are `u32`, enumerations are `i32`, object handles are `u64`.

use vstd::prelude::*;

verus! {

/// Access mask bit: uniform buffer reads.
pub const ACCESS_UNIFORM_READ: u32 = 0x8;

/// Access mask bit: shader reads.
pub const ACCESS_SHADER_READ: u32 = 0x20;

/// Access mask bit: shader writes.
pub const ACCESS_SHADER_WRITE: u32 = 0x40;

/// Access mask bit: transfer writes.
pub const ACCESS_TRANSFER_WRITE: u32 = 0x1000;

/// Pipeline stage bit: fragment shader.
pub const STAGE_FRAGMENT_SHADER: u32 = 0x80;

/// Pipeline stage bit: compute shader.
pub const STAGE_COMPUTE_SHADER: u32 = 0x800;

/// Pipeline stage bit: transfer.
pub const STAGE_TRANSFER: u32 = 0x1000;

/// Image layout: contents undefined.
pub const LAYOUT_UNDEFINED: i32 = 0;

/// Image layout: any access.
pub const LAYOUT_GENERAL: i32 = 1;

/// Image layout: read-only shader access.
pub const LAYOUT_SHADER_READ_ONLY_OPTIMAL: i32 = 5;

/// Image layout: destination of a transfer.
pub const LAYOUT_TRANSFER_DST_OPTIMAL: i32 = 7;

/// Descriptor type: image with sampler.
pub const DESCRIPTOR_COMBINED_IMAGE_SAMPLER: i32 = 1;

/// Descriptor type: storage image.
pub const DESCRIPTOR_STORAGE_IMAGE: i32 = 3;

/// Descriptor type: uniform buffer.
pub const DESCRIPTOR_UNIFORM_BUFFER: i32 = 6;

/// Descriptor type: input attachment.
pub const DESCRIPTOR_INPUT_ATTACHMENT: i32 = 10;

/// Shader stage bit: vertex.
pub const SHADER_STAGE_VERTEX: u32 = 0x1;

/// Shader stage bit: fragment.
pub const SHADER_STAGE_FRAGMENT: u32 = 0x10;

/// Shader stage bit: compute.
pub const SHADER_STAGE_COMPUTE: u32 = 0x20;

/// Image usage bit: transfer destination.
pub const IMAGE_USAGE_TRANSFER_DST: u32 = 0x2;

/// Image usage bit: sampled.
pub const IMAGE_USAGE_SAMPLED: u32 = 0x4;

/// Image usage bit: storage.
pub const IMAGE_USAGE_STORAGE: u32 = 0x8;

/// Buffer usage bit: transfer destination.
pub const BUFFER_USAGE_TRANSFER_DST: u32 = 0x2;

/// Buffer usage bit: uniform buffer.
pub const BUFFER_USAGE_UNIFORM_BUFFER: u32 = 0x10;

/// Memory property bit: device local.
pub const MEMORY_PROPERTY_DEVICE_LOCAL: u32 = 0x1;

/// Image aspect bit: colour.
pub const IMAGE_ASPECT_COLOR: u32 = 0x1;

/// Sample count bit: one sample per pixel.
pub const SAMPLE_COUNT_1: u32 = 0x1;

/// Image type: one-dimensional.
pub const IMAGE_TYPE_1D: i32 = 0;

/// Image type: two-dimensional.
pub const IMAGE_TYPE_2D: i32 = 1;

/// Image type: three-dimensional.
pub const IMAGE_TYPE_3D: i32 = 2;

/// Image view type: one-dimensional.
pub const IMAGE_VIEW_TYPE_1D: i32 = 0;

/// Image view type: two-dimensional.
pub const IMAGE_VIEW_TYPE_2D: i32 = 1;

/// Image view type: three-dimensional.
pub const IMAGE_VIEW_TYPE_3D: i32 = 2;

/// Format: four 16-bit floats.
pub const FORMAT_R16G16B16A16_SFLOAT: i32 = 97;

/// Format: four 32-bit floats.
pub const FORMAT_R32G32B32A32_SFLOAT: i32 = 109;

/// Image tiling: implementation-chosen.
pub const IMAGE_TILING_OPTIMAL: i32 = 0;

/// Sharing mode: one queue family at a time.
pub const SHARING_MODE_EXCLUSIVE: i32 = 0;

/// Component swizzle: identity.
pub const COMPONENT_SWIZZLE_IDENTITY: i32 = 0;

/// Pipeline bind point: graphics.
pub const BIND_POINT_GRAPHICS: i32 = 0;

/// Pipeline bind point: compute.
pub const BIND_POINT_COMPUTE: i32 = 1;

/// Filter: linear.
pub const FILTER_LINEAR: i32 = 1;

/// Mipmap mode: nearest.
pub const MIPMAP_MODE_NEAREST: i32 = 0;

/// Address mode: clamp to edge.
pub const ADDRESS_MODE_CLAMP_TO_EDGE: i32 = 2;

/// Primitive topology: triangle list.
pub const TOPOLOGY_TRIANGLE_LIST: i32 = 3;

/// Cull mode: nothing is culled.
pub const CULL_MODE_NONE: u32 = 0;

/// Polygon mode: filled.
pub const POLYGON_MODE_FILL: i32 = 0;

/// Stencil operation: keep the value.
pub const STENCIL_OP_KEEP: i32 = 0;

/// Comparison: always passes.
pub const COMPARE_OP_ALWAYS: i32 = 7;

/// Blend factor: zero.
pub const BLEND_FACTOR_ZERO: i32 = 0;

/// Blend factor: one.
pub const BLEND_FACTOR_ONE: i32 = 1;

/// Blend factor: the second colour that the fragment shader puts out.
pub const BLEND_FACTOR_SRC1_COLOR: i32 = 15;

/// Blend operation: addition.
pub const BLEND_OP_ADD: i32 = 0;

/// Colour components: all four.
pub const COLOR_COMPONENT_ALL: u32 = 0xf;

/// Dynamic state: viewport.
pub const DYNAMIC_STATE_VIEWPORT: i32 = 0;

/// Dynamic state: scissor.
pub const DYNAMIC_STATE_SCISSOR: i32 = 1;

/// Queue family index that leaves ownership where it is.
pub const QUEUE_FAMILY_IGNORED: u32 = 0xffff_ffff;

/// Size that stands for "to the end of the buffer".
pub const WHOLE_SIZE: u64 = 0xffff_ffff_ffff_ffff;

/// The largest number of memory types a device reports.
pub const MAX_MEMORY_TYPES: u32 = 32;

/// Whether every bit of `wanted` is set in `flags`.
pub open spec fn contains_flags(flags: u32, wanted: u32) -> bool {
    flags & wanted == wanted
}

/// Tests whether every bit of `wanted` is set in `flags`.
pub fn contains(flags: u32, wanted: u32) -> (r: bool)
    ensures
        r == contains_flags(flags, wanted),
{
    flags & wanted == wanted
}

} // verus!
