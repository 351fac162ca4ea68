//! Vulkan's numbers, and the parts of `ash` that compute with them.

use vstd::prelude::*;

verus! {

pub const FORMAT_UNDEFINED: i32 = 0;

pub const FORMAT_R8_UINT: i32 = 13;

pub const FORMAT_R8G8B8A8_UNORM: i32 = 37;

pub const FORMAT_R8G8B8A8_SRGB: i32 = 43;

pub const FORMAT_B8G8R8A8_SRGB: i32 = 50;

pub const FORMAT_D16_UNORM: i32 = 124;

pub const FORMAT_X8_D24_UNORM_PACK32: i32 = 125;

pub const FORMAT_D32_SFLOAT: i32 = 126;

pub const FORMAT_S8_UINT: i32 = 127;

pub const FORMAT_D16_UNORM_S8_UINT: i32 = 128;

pub const FORMAT_D24_UNORM_S8_UINT: i32 = 129;

pub const FORMAT_D32_SFLOAT_S8_UINT: i32 = 130;

pub const ASPECT_COLOR: u32 = 1;

pub const ASPECT_DEPTH: u32 = 2;

pub const ASPECT_STENCIL: u32 = 4;

pub const ASPECT_DEPTH_STENCIL: u32 = 6;

pub const SAMPLES_1: u32 = 1;

pub const LOAD_OP_LOAD: i32 = 0;

pub const LOAD_OP_CLEAR: i32 = 1;

pub const LOAD_OP_DONT_CARE: i32 = 2;

pub const STORE_OP_STORE: i32 = 0;

pub const STORE_OP_DONT_CARE: i32 = 1;

pub const LAYOUT_UNDEFINED: i32 = 0;

pub const LAYOUT_COLOR_ATTACHMENT: i32 = 2;

pub const LAYOUT_TRANSFER_DST: i32 = 7;

pub const LAYOUT_DEPTH_ATTACHMENT: i32 = 1_000_241_000;

/// The layout in which an image serves as a shading-rate attachment.
pub const LAYOUT_SHADING_RATE: i32 = 1_000_164_003;

pub const VIEW_2D: i32 = 1;

pub const VIEW_2D_ARRAY: i32 = 5;

pub const USAGE_COLOR_ATTACHMENT: u32 = 0x10;

pub const USAGE_DEPTH_ATTACHMENT: u32 = 0x20;

pub const USAGE_SHADING_RATE: u32 = 0x100;

/// An image that is copied to and read as a shading-rate attachment.
pub const USAGE_SHADING_RATE_DST: u32 = 0x102;

pub const USAGE_BUFFER_TRANSFER_SRC: u32 = 1;

pub const STAGE_TOP: u32 = 1;

pub const STAGE_COLOR_OUTPUT: u32 = 0x400;

/// The stages that write colour, and the depth test before shading.
pub const STAGE_COLOR_OUTPUT_EARLY_TESTS: u32 = 0x500;

pub const STAGE_TRANSFER: u32 = 0x1000;

pub const STAGE_SHADING_RATE: u32 = 0x40_0000;

pub const ACCESS_NONE: u32 = 0;

pub const ACCESS_COLOR_WRITE: u32 = 0x100;

pub const ACCESS_COLOR_READ_WRITE: u32 = 0x180;

pub const ACCESS_DEPTH_WRITE: u32 = 0x400;

pub const ACCESS_TRANSFER_WRITE: u32 = 0x1000;

pub const ACCESS_SHADING_RATE_READ: u32 = 0x80_0000;

/// The index of an attachment reference that refers to nothing.
pub const ATTACHMENT_UNUSED: u32 = 0xffff_ffff;

pub const TYPE_RENDER_PASS_MULTIVIEW: i32 = 1_000_053_000;

/// The type of the link that the loader puts into the instance chain.
pub const TYPE_LOADER_INSTANCE: i32 = 47;

/// The type of the link that the loader puts into the device chain.
pub const TYPE_LOADER_DEVICE: i32 = 48;

/// The kind of loader link that carries the next layer's entry points.
pub const LAYER_LINK_INFO: i32 = 0;

pub const BIND_POINT_GRAPHICS: i32 = 0;

pub const MEMORY_DEVICE_LOCAL: u32 = 1;

/// Memory that the host can map and that needs no flushing.
pub const MEMORY_HOST_VISIBLE_COHERENT: u32 = 6;

pub const QUEUE_GRAPHICS: u32 = 1;

pub const SEVERITY_WARNING: u32 = 0x100;

pub const SEVERITY_ERROR: u32 = 0x1000;

pub const FRAMEBUFFER_IMAGELESS: u32 = 1;

/// The code of a call that succeeded.
pub const SUCCESS: i32 = 0;

/// The code of a call that could not be set up.
pub const ERROR_INITIALIZATION_FAILED: i32 = -3;

/// The code of a call that returned fewer items than there are.
pub const INCOMPLETE: i32 = 5;

pub const TRUE: u32 = 1;

/// An extent in pixels or texels.
#[derive(Clone, Copy, Debug, PartialEq, Eq, Structural)]
pub struct Extent2 {
    pub width: u32,
    pub height: u32,
}

/// A rectangle in pixels.
#[derive(Clone, Copy, Debug, PartialEq, Eq, Structural)]
pub struct Rect {
    pub x: i32,
    pub y: i32,
    pub width: u32,
    pub height: u32,
}

/// A packed API version.
pub open spec fn packed_version(variant: u32, major: u32, minor: u32, patch: u32) -> u32 {
    (variant << 29u32) | (major << 22u32) | (minor << 12u32) | patch
}

/// `ash::vk::make_api_version`: the four parts, shifted to their places and
/// joined; bits that do not fit are lost.
pub assume_specification[ ash::vk::make_api_version ](
    variant: u32,
    major: u32,
    minor: u32,
    patch: u32,
) -> (r: u32)
    ensures
        r == packed_version(variant, major, minor, patch),
;

/// `ash::vk::api_version_major`: the seven bits above bit 22.
pub assume_specification[ ash::vk::api_version_major ](version: u32) -> (r: u32)
    ensures
        r == (version >> 22u32) & 0x7fu32,
;

/// `ash::vk::api_version_minor`: the ten bits above bit 12.
pub assume_specification[ ash::vk::api_version_minor ](version: u32) -> (r: u32)
    ensures
        r == (version >> 12u32) & 0x3ffu32,
;

/// `ash::vk::api_version_patch`: the lowest twelve bits.
pub assume_specification[ ash::vk::api_version_patch ](version: u32) -> (r: u32)
    ensures
        r == version & 0xfffu32,
;

/// `ash::vk::MemoryPropertyFlags::contains`: whether every flag of `want` is
/// set in `have`.
#[verifier::external_body]
pub(crate) fn memory_flags_contain(have: u32, want: u32) -> (r: bool)
    ensures
        r == (have & want == want),
{
    ash::vk::MemoryPropertyFlags::from_raw(have).contains(
        ash::vk::MemoryPropertyFlags::from_raw(want),
    )
}

/// `ash::vk::QueueFlags::contains`: whether every flag of `want` is set in
/// `have`.
#[verifier::external_body]
pub(crate) fn queue_flags_contain(have: u32, want: u32) -> (r: bool)
    ensures
        r == (have & want == want),
{
    ash::vk::QueueFlags::from_raw(have).contains(ash::vk::QueueFlags::from_raw(want))
}

/// `ash::vk::DebugUtilsMessageSeverityFlagsEXT::contains`: whether every flag
/// of `want` is set in `have`.
#[verifier::external_body]
pub(crate) fn severity_contains(have: u32, want: u32) -> (r: bool)
    ensures
        r == (have & want == want),
{
    ash::vk::DebugUtilsMessageSeverityFlagsEXT::from_raw(have).contains(
        ash::vk::DebugUtilsMessageSeverityFlagsEXT::from_raw(want),
    )
}

/// `ash::vk::FramebufferCreateFlags::contains`: whether every flag of `want`
/// is set in `have`.
#[verifier::external_body]
pub(crate) fn framebuffer_flags_contain(have: u32, want: u32) -> (r: bool)
    ensures
        r == (have & want == want),
{
    ash::vk::FramebufferCreateFlags::from_raw(have).contains(
        ash::vk::FramebufferCreateFlags::from_raw(want),
    )
}

/// The number that starts a SPIR-V module.
pub const SPIRV_MAGIC: u32 = 0x0723_0203;

/// Four bytes as a word, the lowest byte first.
pub open spec fn low_first(b: Seq<u8>, at: int) -> u32 {
    (b[at] + 0x100 * b[at + 1] + 0x1_0000 * b[at + 2] + 0x100_0000 * b[at + 3]) as u32
}

/// Four bytes as a word, the highest byte first.
pub open spec fn high_first(b: Seq<u8>, at: int) -> u32 {
    (0x100_0000 * b[at] + 0x1_0000 * b[at + 1] + 0x100 * b[at + 2] + b[at + 3]) as u32
}

/// The words of a SPIR-V module: its bytes in fours, in the byte order in
/// which the first four make the magic number. Without that number, or with a
/// length that is not a multiple of four, the bytes are no module.
pub open spec fn module_words(b: Seq<u8>) -> Option<Seq<u32>> {
    if b.len() == 0 || b.len() % 4 != 0 {
        None
    } else if low_first(b, 0) == SPIRV_MAGIC {
        Some(Seq::new(b.len() / 4, |i: int| low_first(b, 4 * i)))
    } else if high_first(b, 0) == SPIRV_MAGIC {
        Some(Seq::new(b.len() / 4, |i: int| high_first(b, 4 * i)))
    } else {
        None
    }
}

/// `ash::util::read_spv`, on bytes in memory: the words of the module in the
/// machine's own representation, whichever byte order the bytes are in, or an
/// error where the bytes are no module.
#[verifier::external_body]
fn read_spv(spv: &Vec<u8>) -> (r: Option<Vec<u32>>)
    ensures
        r is Some <==> module_words(spv@) is Some,
        r matches Some(w) ==> w@ == module_words(spv@)->0,
{
    ash::util::read_spv(&mut std::io::Cursor::new(spv.as_slice())).ok()
}

/// The words of a shader module, if the bytes are one.
pub fn shader_code(spv: &Vec<u8>) -> (r: Option<Vec<u32>>)
    ensures
        r is Some <==> module_words(spv@) is Some,
        r matches Some(w) ==> w@ == module_words(spv@)->0,
{
    read_spv(spv)
}

} // verus!
