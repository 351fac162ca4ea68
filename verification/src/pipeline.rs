//! Pipelines that take their shading rate from an attachment.

use crate::binary32;
use crate::rendering::OverlayPipeline;
use crate::vk::{Extent2, Rect, FORMAT_D32_SFLOAT, FORMAT_UNDEFINED, SAMPLES_1};
use vstd::prelude::*;

verus! {

pub const TOPOLOGY_TRIANGLE_LIST: i32 = 3;

pub const POLYGON_FILL: i32 = 0;

pub const CULL_NONE: u32 = 0;

pub const FRONT_COUNTER_CLOCKWISE: i32 = 0;

pub const COMPARE_NEVER: i32 = 0;

pub const COMPARE_LESS: i32 = 1;

pub const BLEND_ZERO: i32 = 0;

pub const BLEND_ONE: i32 = 1;

pub const BLEND_SRC_ALPHA: i32 = 6;

pub const BLEND_ONE_MINUS_SRC_ALPHA: i32 = 7;

pub const BLEND_ADD: i32 = 0;

pub const WRITE_RGBA: u32 = 15;

pub const COMBINE_KEEP: i32 = 0;

pub const COMBINE_REPLACE: i32 = 1;

/// Where a pipeline takes its shading rate from: `first` combines its own rate
/// with the primitive's, `second` the outcome with the attachment's. `next` is
/// the rest of the pipeline's chain.
#[derive(Clone, Copy, Debug, PartialEq, Eq, Structural)]
pub struct PipelineRate {
    pub fragment: Extent2,
    pub first: i32,
    pub second: i32,
    pub next: u64,
}

/// A full rate that the attachment's rate replaces.
pub open spec fn attachment_rate(next: u64) -> PipelineRate {
    PipelineRate {
        fragment: Extent2 { width: 1, height: 1 },
        first: COMBINE_KEEP,
        second: COMBINE_REPLACE,
        next,
    }
}

/// Whether pipelines take their rate from the attachment: their device has
/// shading-rate attachments, and they are not switched off.
pub open spec fn rated(vrs: Option<Extent2>, kill: bool) -> bool {
    vrs is Some && !kill
}

/// What is put in front of the chains of pipelines, in order.
pub open spec fn rates_of(nexts: Seq<u64>) -> Seq<PipelineRate> {
    nexts.map_values(|n: u64| attachment_rate(n))
}

fn make_rate(next: u64) -> (r: PipelineRate)
    ensures
        r == attachment_rate(next),
{
    PipelineRate {
        fragment: Extent2 { width: 1, height: 1 },
        first: COMBINE_KEEP,
        second: COMBINE_REPLACE,
        next,
    }
}

/// What is put in front of the chain of each pipeline that an application
/// makes, so that it takes its rate from the attachment. `None` means that the
/// pipelines are made as they are.
pub fn create_graphics_pipelines(vrs: Option<Extent2>, kill: bool, nexts: &Vec<u64>) -> (r: Option<
    Vec<PipelineRate>,
>)
    ensures
        r is Some <==> rated(vrs, kill),
        r matches Some(rates) ==> rates@ == rates_of(nexts@),
{
    if vrs.is_none() || kill {
        return None;
    }
    let mut rates: Vec<PipelineRate> = Vec::new();
    let mut i: usize = 0;
    while i < nexts.len()
        invariant
            i <= nexts@.len(),
            rates@.len() == i,
            forall|k: int| 0 <= k < i ==> #[trigger] rates@[k] == attachment_rate(nexts@[k]),
        decreases nexts@.len() - i,
    {
        rates.push(make_rate(nexts[i]));
        i = i + 1;
    }
    assert(rates@ =~= rates_of(nexts@));
    Some(rates)
}

/// How a pipeline blends.
#[derive(Clone, Copy, Debug, PartialEq, Eq, Structural)]
pub struct Blend {
    pub src_color: i32,
    pub dst_color: i32,
    pub color_op: i32,
    pub src_alpha: i32,
    pub dst_alpha: i32,
    pub alpha_op: i32,
}

/// A pipeline of two shaders, with one colour attachment.
#[derive(Clone, Copy, Debug, PartialEq, Eq, Structural)]
pub struct PipelineDesc {
    pub topology: i32,
    pub polygon_mode: i32,
    pub cull_mode: u32,
    pub front_face: i32,
    pub line_width: u32,
    pub samples: u32,
    /// The viewport and the scissor; both are set while recording where there
    /// is none.
    pub area: Option<Rect>,
    pub depth_test: bool,
    pub depth_write: bool,
    pub depth_test_op: i32,
    pub write_mask: u32,
    pub blend: Option<Blend>,
    pub color_format: i32,
    pub depth_format: i32,
    pub rate: Option<PipelineRate>,
}

/// Translucent drawing over what is there, which keeps the drawn alpha.
pub open spec fn over() -> Blend {
    Blend {
        src_color: BLEND_SRC_ALPHA,
        dst_color: BLEND_ONE_MINUS_SRC_ALPHA,
        color_op: BLEND_ADD,
        src_alpha: BLEND_ONE,
        dst_alpha: BLEND_ZERO,
        alpha_op: BLEND_ADD,
    }
}

fn make_over() -> (r: Blend)
    ensures
        r == over(),
{
    Blend {
        src_color: BLEND_SRC_ALPHA,
        dst_color: BLEND_ONE_MINUS_SRC_ALPHA,
        color_op: BLEND_ADD,
        src_alpha: BLEND_ONE,
        dst_alpha: BLEND_ZERO,
        alpha_op: BLEND_ADD,
    }
}

/// The overlay's pipeline, for a colour format and an area.
pub open spec fn overlay_desc(color_format: i32, area: Rect) -> PipelineDesc {
    PipelineDesc {
        topology: TOPOLOGY_TRIANGLE_LIST,
        polygon_mode: POLYGON_FILL,
        cull_mode: CULL_NONE,
        front_face: FRONT_COUNTER_CLOCKWISE,
        line_width: binary32::ONE,
        samples: SAMPLES_1,
        area: Some(area),
        depth_test: false,
        depth_write: false,
        depth_test_op: COMPARE_NEVER,
        write_mask: WRITE_RGBA,
        blend: Some(over()),
        color_format,
        depth_format: FORMAT_UNDEFINED,
        rate: Some(attachment_rate(0)),
    }
}

/// The overlay's pipeline: a triangle over the area of an eye, blended over
/// its image, at the attachment's rate. Nothing of it is set while recording,
/// so that the application's settings stay.
pub fn build_overlay_pipeline(color_format: i32, area: Rect) -> (r: PipelineDesc)
    ensures
        r == overlay_desc(color_format, area),
{
    PipelineDesc {
        topology: TOPOLOGY_TRIANGLE_LIST,
        polygon_mode: POLYGON_FILL,
        cull_mode: CULL_NONE,
        front_face: FRONT_COUNTER_CLOCKWISE,
        line_width: binary32::ONE,
        samples: SAMPLES_1,
        area: Some(area),
        depth_test: false,
        depth_write: false,
        depth_test_op: COMPARE_NEVER,
        write_mask: WRITE_RGBA,
        blend: Some(make_over()),
        color_format,
        depth_format: FORMAT_UNDEFINED,
        rate: Some(make_rate(0)),
    }
}

/// What the overlay keeps of its pipeline.
pub open spec fn kept_overlay(
    pipeline: Option<u64>,
    layout: u64,
    color_format: i32,
    area: Rect,
) -> Option<OverlayPipeline> {
    match pipeline {
        Some(p) => Some(
            OverlayPipeline {
                pipeline: p,
                layout,
                color_format,
                area_w: area.width,
                area_h: area.height,
            },
        ),
        None => None,
    }
}

/// What the overlay keeps of its pipeline. Without a pipeline, its layout is
/// of no use.
pub fn overlay_built(pipeline: Option<u64>, layout: u64, color_format: i32, area: &Rect) -> (r:
    Option<OverlayPipeline>)
    ensures
        r == kept_overlay(pipeline, layout, color_format, *area),
{
    match pipeline {
        Some(p) => Some(
            OverlayPipeline {
                pipeline: p,
                layout,
                color_format,
                area_w: area.width,
                area_h: area.height,
            },
        ),
        None => None,
    }
}

/// A pipeline of an application that renders dynamically.
pub open spec fn scene_desc(color_format: i32, depth_test: bool, blend: bool) -> PipelineDesc {
    PipelineDesc {
        topology: TOPOLOGY_TRIANGLE_LIST,
        polygon_mode: POLYGON_FILL,
        cull_mode: CULL_NONE,
        front_face: FRONT_COUNTER_CLOCKWISE,
        line_width: binary32::ONE,
        samples: SAMPLES_1,
        area: None,
        depth_test,
        depth_write: depth_test,
        depth_test_op: COMPARE_LESS,
        write_mask: WRITE_RGBA,
        blend: if blend {
            Some(over())
        } else {
            None
        },
        color_format,
        depth_format: FORMAT_D32_SFLOAT,
        rate: None,
    }
}

/// A pipeline of an application that renders dynamically, with a depth buffer.
/// Without a depth test it is that of a full-screen pass.
pub fn build_pipeline(color_format: i32, depth_test: bool, blend: bool) -> (r: PipelineDesc)
    ensures
        r == scene_desc(color_format, depth_test, blend),
{
    PipelineDesc {
        topology: TOPOLOGY_TRIANGLE_LIST,
        polygon_mode: POLYGON_FILL,
        cull_mode: CULL_NONE,
        front_face: FRONT_COUNTER_CLOCKWISE,
        line_width: binary32::ONE,
        samples: SAMPLES_1,
        area: None,
        depth_test,
        depth_write: depth_test,
        depth_test_op: COMPARE_LESS,
        write_mask: WRITE_RGBA,
        blend: if blend {
            Some(make_over())
        } else {
            None
        },
        color_format,
        depth_format: FORMAT_D32_SFLOAT,
        rate: None,
    }
}

/// Every pipeline, in order, gets a rate in front of its own chain: 1x1, kept
/// over the primitive's, and replaced by the attachment's.
pub proof fn pipelines_take_the_attachment_rate(nexts: Seq<u64>, i: int)
    ensures
        rates_of(nexts).len() == nexts.len(),
        0 <= i < nexts.len() ==> {
            let r = rates_of(nexts)[i];
            &&& r.next == nexts[i]
            &&& r.fragment.width == 1
            &&& r.fragment.height == 1
            &&& r.first == 0
            &&& r.second == 1
        },
{
}

/// Pipelines are changed exactly where their device has shading-rate
/// attachments and they are not switched off.
pub proof fn pipelines_are_rated_with_cause(texel: Extent2, kill: bool)
    ensures
        !rated(None, kill),
        !rated(Some(texel), true),
        rated(Some(texel), false),
{
}

/// The overlay's pipeline draws filled triangles over the area that it is made
/// for, blended over an image of the given format, without depth, at the
/// attachment's rate and with nothing left to set while recording.
pub proof fn overlay_pipeline_blends_over_its_area(color_format: i32, area: Rect)
    ensures
        ({
            let d = overlay_desc(color_format, area);
            &&& d.topology == 3
            &&& d.polygon_mode == 0
            &&& d.cull_mode == 0
            &&& d.front_face == 0
            &&& d.line_width == 0x3f80_0000
            &&& d.samples == 1
            &&& d.area == Some(area)
            &&& !d.depth_test && !d.depth_write && d.depth_test_op == 0
            &&& d.write_mask == 15
            &&& d.color_format == color_format
            &&& d.depth_format == 0
            &&& d.rate matches Some(r) && r.next == 0 && r.first == 0 && r.second == 1
                && r.fragment.width == 1 && r.fragment.height == 1
            &&& d.blend matches Some(b) && b.src_color == 6 && b.dst_color == 7 && b.color_op == 0
                && b.src_alpha == 1 && b.dst_alpha == 0 && b.alpha_op == 0
        }),
{
}

/// A pipeline of the scene writes depth exactly where it tests it, blends as
/// the overlay does or not at all, leaves the area to the recording, and has no
/// rate of its own.
pub proof fn scene_pipeline_tests_and_blends_as_asked(
    color_format: i32,
    depth_test: bool,
    blend: bool,
    area: Rect,
)
    ensures
        ({
            let d = scene_desc(color_format, depth_test, blend);
            let o = overlay_desc(color_format, area);
            &&& d.depth_test == depth_test
            &&& d.depth_write == depth_test
            &&& d.depth_test_op == 1
            &&& d.depth_format == 126
            &&& d.color_format == color_format
            &&& d.area is None
            &&& d.rate is None
            &&& blend ==> d.blend == o.blend
            &&& !blend ==> d.blend is None
            &&& d.topology == o.topology
            &&& d.polygon_mode == o.polygon_mode
            &&& d.cull_mode == o.cull_mode
            &&& d.front_face == o.front_face
            &&& d.line_width == o.line_width
            &&& d.samples == o.samples
            &&& d.write_mask == o.write_mask
        }),
{
}

/// The overlay's pipeline that was built serves the next render of the same
/// format and extent; where none was built, none is kept.
pub proof fn built_overlay_serves_its_area(
    p: u64,
    layout: u64,
    color_format: i32,
    area: Rect,
)
    ensures
        kept_overlay(None, layout, color_format, area) is None,
        kept_overlay(Some(p), layout, color_format, area) matches Some(o) && o.pipeline == p
            && o.layout == layout && o.color_format == color_format && o.area_w == area.width
            && o.area_h == area.height,
        crate::rendering::overlay_step(
            kept_overlay(Some(p), layout, color_format, area),
            color_format,
            area,
        ) == crate::rendering::OverlayStep::Use(p),
{
}

} // verus!
