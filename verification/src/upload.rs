//! Shading-rate images, and how their maps get there.

use crate::foveation::{FoveationMap, TileDistances};
use crate::vk::{
    memory_flags_contain, Extent2, ACCESS_COLOR_READ_WRITE, ACCESS_COLOR_WRITE, ACCESS_NONE,
    ACCESS_SHADING_RATE_READ, ACCESS_TRANSFER_WRITE, ASPECT_COLOR, FORMAT_R8_UINT,
    LAYOUT_COLOR_ATTACHMENT, LAYOUT_SHADING_RATE, LAYOUT_TRANSFER_DST, LAYOUT_UNDEFINED,
    MEMORY_DEVICE_LOCAL, MEMORY_HOST_VISIBLE_COHERENT, SAMPLES_1, STAGE_COLOR_OUTPUT,
    STAGE_SHADING_RATE, STAGE_TOP, STAGE_TRANSFER, USAGE_BUFFER_TRANSFER_SRC,
    USAGE_SHADING_RATE_DST, VIEW_2D, VIEW_2D_ARRAY,
};
use crate::wire::FoveationDesc;
use vstd::prelude::*;

verus! {

/// An image to make, the kind of memory for it, and the view of all of it.
#[derive(Clone, Copy, Debug, PartialEq, Eq, Structural)]
pub struct ImagePlan {
    pub format: i32,
    pub width: u32,
    pub height: u32,
    pub layers: u32,
    pub samples: u32,
    pub usage: u32,
    pub memory: u32,
    pub view_type: i32,
    pub aspect: u32,
}

/// A shading-rate image: one byte for each tile, on the device, to be copied
/// to and then read as an attachment. Several layers take an array view.
pub open spec fn sr_image(cols: u32, rows: u32, layers: u32) -> ImagePlan {
    ImagePlan {
        format: FORMAT_R8_UINT,
        width: cols,
        height: rows,
        layers,
        samples: SAMPLES_1,
        usage: USAGE_SHADING_RATE_DST,
        memory: MEMORY_DEVICE_LOCAL,
        view_type: if layers > 1 {
            VIEW_2D_ARRAY
        } else {
            VIEW_2D
        },
        aspect: ASPECT_COLOR,
    }
}

/// The shading-rate image of a framebuffer.
pub fn alloc_sr_image(cols: u32, rows: u32, layers: u32) -> (r: ImagePlan)
    ensures
        r == sr_image(cols, rows, layers),
{
    ImagePlan {
        format: FORMAT_R8_UINT,
        width: cols,
        height: rows,
        layers,
        samples: SAMPLES_1,
        usage: USAGE_SHADING_RATE_DST,
        memory: MEMORY_DEVICE_LOCAL,
        view_type: if layers > 1 {
            VIEW_2D_ARRAY
        } else {
            VIEW_2D
        },
        aspect: ASPECT_COLOR,
    }
}

/// A shading-rate image to make for an eye, and the map that it is to hold.
pub struct EyeMap {
    pub map: FoveationMap,
    pub image: ImagePlan,
}

/// Whether `r` is the shading-rate image of an eye with its map.
pub open spec fn eye_map_of(
    desc: FoveationDesc,
    area: Extent2,
    texel: Extent2,
    distances: TileDistances,
    r: EyeMap,
) -> bool {
    &&& r.map.wf()
    &&& crate::foveation::map_of(
        r.map,
        area.width,
        area.height,
        texel.width,
        distances,
        desc.falloff,
    )
    &&& r.image == sr_image(r.map.cols, r.map.rows, 1)
}

/// The shading-rate image of an eye, with a texel for each tile of the render
/// area, and its map: that of the record's falloff, around the centre from
/// which `distances` are taken.
pub fn create_vrs_image(
    desc: &FoveationDesc,
    area: Extent2,
    texel: Extent2,
    distances: &TileDistances,
) -> (r: EyeMap)
    requires
        distances.cover(
            crate::foveation::tiles(
                area.width as int,
                crate::foveation::tile_side(texel.width) as int,
            ),
            crate::foveation::tiles(
                area.height as int,
                crate::foveation::tile_side(texel.width) as int,
            ),
        ),
    ensures
        eye_map_of(*desc, area, texel, *distances, r),
{
    let map: FoveationMap = FoveationMap::generate(
        area.width,
        area.height,
        texel.width,
        distances,
        &desc.falloff,
    );
    let image: ImagePlan = alloc_sr_image(map.cols, map.rows, 1);
    EyeMap { map, image }
}

/// A change of an image's layout, and what has to be over before it and wait
/// for it.
#[derive(Clone, Copy, Debug, PartialEq, Eq, Structural)]
pub struct Barrier {
    pub aspect: u32,
    pub base_layer: u32,
    pub layer_count: u32,
    pub old_layout: i32,
    pub new_layout: i32,
    pub src_stage: u32,
    pub dst_stage: u32,
    pub src_access: u32,
    pub dst_access: u32,
}

/// How a map gets into a layer of a shading-rate image: through a buffer of
/// `size` bytes that the host writes, copied between two barriers.
#[derive(Clone, Copy, Debug, PartialEq, Eq, Structural)]
pub struct UploadPlan {
    pub size: u64,
    pub buffer_usage: u32,
    pub buffer_memory: u32,
    pub before: Barrier,
    /// The layout, layer and extent of the copy.
    pub copy_layout: i32,
    pub copy_layer: u32,
    pub copy_width: u32,
    pub copy_height: u32,
    pub after: Barrier,
}

/// What was in the layer is not kept, and the copy waits for the change.
pub open spec fn before_copy(base_layer: u32) -> Barrier {
    Barrier {
        aspect: ASPECT_COLOR,
        base_layer,
        layer_count: 1,
        old_layout: LAYOUT_UNDEFINED,
        new_layout: LAYOUT_TRANSFER_DST,
        src_stage: STAGE_TOP,
        dst_stage: STAGE_TRANSFER,
        src_access: ACCESS_NONE,
        dst_access: ACCESS_TRANSFER_WRITE,
    }
}

/// The copy is over before the layer is read as a shading-rate attachment.
pub open spec fn after_copy(base_layer: u32) -> Barrier {
    Barrier {
        aspect: ASPECT_COLOR,
        base_layer,
        layer_count: 1,
        old_layout: LAYOUT_TRANSFER_DST,
        new_layout: LAYOUT_SHADING_RATE,
        src_stage: STAGE_TRANSFER,
        dst_stage: STAGE_SHADING_RATE,
        src_access: ACCESS_TRANSFER_WRITE,
        dst_access: ACCESS_SHADING_RATE_READ,
    }
}

/// How a map gets into a layer of a shading-rate image.
pub open spec fn upload_of(map: FoveationMap, base_layer: u32) -> UploadPlan {
    UploadPlan {
        size: map.bytes@.len() as u64,
        buffer_usage: USAGE_BUFFER_TRANSFER_SRC,
        buffer_memory: MEMORY_HOST_VISIBLE_COHERENT,
        before: before_copy(base_layer),
        copy_layout: LAYOUT_TRANSFER_DST,
        copy_layer: base_layer,
        copy_width: map.cols,
        copy_height: map.rows,
        after: after_copy(base_layer),
    }
}

/// How a map gets into a layer of a shading-rate image.
pub fn upload_map(map: &FoveationMap, base_layer: u32) -> (r: UploadPlan)
    ensures
        r == upload_of(*map, base_layer),
        r.size == map.bytes@.len(),
{
    let before: Barrier = Barrier {
        aspect: ASPECT_COLOR,
        base_layer,
        layer_count: 1,
        old_layout: LAYOUT_UNDEFINED,
        new_layout: LAYOUT_TRANSFER_DST,
        src_stage: STAGE_TOP,
        dst_stage: STAGE_TRANSFER,
        src_access: ACCESS_NONE,
        dst_access: ACCESS_TRANSFER_WRITE,
    };
    let after: Barrier = Barrier {
        aspect: ASPECT_COLOR,
        base_layer,
        layer_count: 1,
        old_layout: LAYOUT_TRANSFER_DST,
        new_layout: LAYOUT_SHADING_RATE,
        src_stage: STAGE_TRANSFER,
        dst_stage: STAGE_SHADING_RATE,
        src_access: ACCESS_TRANSFER_WRITE,
        dst_access: ACCESS_SHADING_RATE_READ,
    };
    UploadPlan {
        size: map.bytes.len() as u64,
        buffer_usage: USAGE_BUFFER_TRANSFER_SRC,
        buffer_memory: MEMORY_HOST_VISIBLE_COHERENT,
        before,
        copy_layout: LAYOUT_TRANSFER_DST,
        copy_layer: base_layer,
        copy_width: map.cols,
        copy_height: map.rows,
        after,
    }
}

/// The application's colour writes to an eye are over before the overlay
/// reads and writes over them.
pub open spec fn before_overlay() -> Barrier {
    Barrier {
        aspect: ASPECT_COLOR,
        base_layer: 0,
        layer_count: 1,
        old_layout: LAYOUT_COLOR_ATTACHMENT,
        new_layout: LAYOUT_COLOR_ATTACHMENT,
        src_stage: STAGE_COLOR_OUTPUT,
        dst_stage: STAGE_COLOR_OUTPUT,
        src_access: ACCESS_COLOR_WRITE,
        dst_access: ACCESS_COLOR_READ_WRITE,
    }
}

/// The application's colour writes to an eye are over before the overlay
/// reads and writes over them.
pub fn overlay_barrier() -> (r: Barrier)
    ensures
        r == before_overlay(),
{
    Barrier {
        aspect: ASPECT_COLOR,
        base_layer: 0,
        layer_count: 1,
        old_layout: LAYOUT_COLOR_ATTACHMENT,
        new_layout: LAYOUT_COLOR_ATTACHMENT,
        src_stage: STAGE_COLOR_OUTPUT,
        dst_stage: STAGE_COLOR_OUTPUT,
        src_access: ACCESS_COLOR_WRITE,
        dst_access: ACCESS_COLOR_READ_WRITE,
    }
}

/// Whether a memory type is allowed and has all the flags that are wanted.
pub open spec fn suits(flags: Seq<u32>, allowed: u32, want: u32, i: int) -> bool {
    &&& 0 <= i < flags.len()
    &&& allowed & (1u32 << (i as u32)) != 0
    &&& flags[i] & want == want
}

/// Whether `r` is the first memory type that suits, or 0 where none does.
pub open spec fn first_suiting(flags: Seq<u32>, allowed: u32, want: u32, r: u32) -> bool {
    if exists|i: int| suits(flags, allowed, want, i) {
        &&& suits(flags, allowed, want, r as int)
        &&& forall|j: int| 0 <= j < r ==> !suits(flags, allowed, want, j)
    } else {
        r == 0
    }
}

/// The memory type to use: the first that is allowed and has all the flags
/// that are wanted, or 0 where there is none. `flags` holds those of each type.
pub fn memory_type(flags: &Vec<u32>, allowed: u32, want: u32) -> (r: u32)
    requires
        flags@.len() <= 32,
    ensures
        first_suiting(flags@, allowed, want, r),
{
    let mut i: u32 = 0;
    while (i as usize) < flags.len()
        invariant
            flags@.len() <= 32,
            i <= flags@.len(),
            forall|j: int| 0 <= j < i ==> !suits(flags@, allowed, want, j),
        decreases flags@.len() - i,
    {
        if allowed & (1u32 << i) != 0 && memory_flags_contain(flags[i as usize], want) {
            assert(suits(flags@, allowed, want, i as int));
            return i;
        }
        assert(!suits(flags@, allowed, want, i as int));
        i = i + 1;
    }
    0
}

/// A copied map fills its layer: the buffer holds a byte for each tile of the
/// copy.
pub proof fn copy_takes_whole_map(map: FoveationMap, base_layer: u32)
    requires
        map.wf(),
        map.bytes@.len() <= u64::MAX,
    ensures
        upload_of(map, base_layer).size == upload_of(map, base_layer).copy_width * upload_of(
            map,
            base_layer,
        ).copy_height,
{
}

/// The upload of an eye's map fills the image that was made for it: the copy has
/// the image's width and height, and a byte for each of its texels.
pub proof fn upload_fills_image(eye: EyeMap)
    requires
        eye.map.wf(),
        eye.map.bytes@.len() <= u64::MAX,
        eye.image == sr_image(eye.map.cols, eye.map.rows, 1),
    ensures
        upload_of(eye.map, 0).copy_layer < eye.image.layers,
        upload_of(eye.map, 0).copy_width == eye.image.width,
        upload_of(eye.map, 0).copy_height == eye.image.height,
        upload_of(eye.map, 0).size == eye.image.width * eye.image.height,
{
}

/// The layouts of an upload follow on each other, and the last is the one in
/// which a render pass finds its shading-rate attachment.
pub proof fn layouts_follow(map: FoveationMap, base_layer: u32)
    ensures
        upload_of(map, base_layer).before.new_layout == upload_of(map, base_layer).copy_layout,
        upload_of(map, base_layer).after.old_layout == upload_of(map, base_layer).copy_layout,
        upload_of(map, base_layer).after.new_layout
            == crate::render_pass::rate_attachment().initial_layout,
        upload_of(map, base_layer).before.base_layer == upload_of(map, base_layer).copy_layer,
        upload_of(map, base_layer).after.base_layer == upload_of(map, base_layer).copy_layer,
{
}

/// A shading-rate image has the format and the samples of the attachment that
/// it serves as.
pub proof fn image_suits_attachment(cols: u32, rows: u32, layers: u32)
    ensures
        sr_image(cols, rows, layers).format == crate::render_pass::rate_attachment().format,
        sr_image(cols, rows, layers).samples == crate::render_pass::rate_attachment().samples,
{
}

/// A shading-rate image has a byte and one sample for each tile and a layer for
/// each view, lies on the device, can be copied to and read as an attachment,
/// and is viewed as an array exactly where it has several layers.
pub proof fn image_has_a_byte_for_each_tile(cols: u32, rows: u32, layers: u32)
    ensures
        sr_image(cols, rows, layers).format == 13,
        sr_image(cols, rows, layers).width == cols,
        sr_image(cols, rows, layers).height == rows,
        sr_image(cols, rows, layers).layers == layers,
        sr_image(cols, rows, layers).samples == 1,
        sr_image(cols, rows, layers).usage == 0x102,
        sr_image(cols, rows, layers).memory == 1,
        sr_image(cols, rows, layers).aspect == 1,
        layers > 1 ==> sr_image(cols, rows, layers).view_type == 5,
        layers <= 1 ==> sr_image(cols, rows, layers).view_type == 1,
{
}

/// The image of an eye has as many texels across as it takes tiles to cover the
/// render area's width, as many down as its height takes, and the map that it
/// holds is that of the record's falloff.
pub proof fn eye_image_covers_its_area(
    desc: FoveationDesc,
    area: Extent2,
    texel: Extent2,
    distances: TileDistances,
    r: EyeMap,
)
    requires
        eye_map_of(desc, area, texel, distances, r),
        texel.width > 0,
    ensures
        r.image.width * texel.width >= area.width,
        r.image.height * texel.width >= area.height,
        area.width > 0 ==> (r.image.width - 1) * texel.width < area.width,
        area.height > 0 ==> (r.image.height - 1) * texel.width < area.height,
        r.map.texel_size == texel.width,
        r.map.bytes@.len() == r.image.width * r.image.height,
        r.image.layers == 1,
        crate::foveation::map_of(
            r.map,
            area.width,
            area.height,
            texel.width,
            distances,
            desc.falloff,
        ),
{
    crate::foveation::map_covers_its_extent(
        r.map,
        area.width,
        area.height,
        texel.width,
        distances,
        desc.falloff,
    );
}

/// An upload writes the layer that it is for and no other: it discards what was
/// there, waits for nothing, copies as many bytes as the map has over its whole
/// extent from memory that the host writes, and is over before the rates are
/// read.
pub proof fn uploads_are_ordered(map: FoveationMap, layer: u32)
    requires
        map.bytes@.len() <= u64::MAX,
    ensures
        ({
            let u = upload_of(map, layer);
            &&& u.size == map.bytes@.len()
            &&& u.buffer_usage == 1
            &&& u.buffer_memory == 6
            &&& u.copy_layer == layer
            &&& u.copy_width == map.cols
            &&& u.copy_height == map.rows
            &&& u.copy_layout == 7
            &&& u.before.aspect == 1 && u.after.aspect == 1
            &&& u.before.base_layer == layer && u.before.layer_count == 1
            &&& u.after.base_layer == layer && u.after.layer_count == 1
            &&& u.before.old_layout == 0 && u.before.new_layout == 7
            &&& u.after.old_layout == 7 && u.after.new_layout == 1_000_164_003
            &&& u.before.src_stage == 1 && u.before.src_access == 0
            &&& u.before.dst_stage == u.after.src_stage
            &&& u.before.dst_access == u.after.src_access
            &&& u.after.src_stage == 0x1000 && u.after.src_access == 0x1000
            &&& u.after.dst_stage == 0x40_0000 && u.after.dst_access == 0x80_0000
        }),
{
}

/// The overlay waits for the colour writes of the render, reads and writes in
/// the same stage, and leaves the layout as it is.
pub proof fn overlay_waits_for_colour()
    ensures
        before_overlay().aspect == 1,
        before_overlay().base_layer == 0,
        before_overlay().layer_count == 1,
        before_overlay().old_layout == before_overlay().new_layout,
        before_overlay().new_layout == 2,
        before_overlay().src_stage == 0x400,
        before_overlay().dst_stage == 0x400,
        before_overlay().src_access == 0x100,
        before_overlay().dst_access == 0x180,
{
}

/// The memory type is allowed and has every flag that is wanted, and no earlier
/// one does; 0 is taken where none does.
pub proof fn memory_type_is_the_first_that_suits(
    flags: Seq<u32>,
    allowed: u32,
    want: u32,
    r: u32,
    i: int,
)
    requires
        first_suiting(flags, allowed, want, r),
        0 <= i < flags.len(),
    ensures
        allowed & (1u32 << (i as u32)) != 0 && flags[i] & want == want ==> {
            &&& r <= i
            &&& r < flags.len()
            &&& allowed & (1u32 << r) != 0
            &&& flags[r as int] & want == want
        },
        (forall|j: int|
            0 <= j < flags.len() ==> allowed & (1u32 << (j as u32)) == 0 || (#[trigger] flags[j])
                & want != want) ==> r == 0,
{
    if allowed & (1u32 << (i as u32)) != 0 && flags[i] & want == want {
        assert(suits(flags, allowed, want, i));
        if i < r {
            assert(!suits(flags, allowed, want, i));
        }
    }
    if forall|j: int|
        0 <= j < flags.len() ==> allowed & (1u32 << (j as u32)) == 0 || (#[trigger] flags[j]) & want
            != want {
        if exists|j: int| suits(flags, allowed, want, j) {
            let j = choose|j: int| suits(flags, allowed, want, j);
            assert(flags[j] & want == want);
        }
    }
}

} // verus!
