//! The headless harness for render passes with several views: what it loads,
//! the passes it makes, and what its outcome is.
//!
//! It either has the layer augment a minimal pass of the first version, or
//! builds the augmented pass itself and has the validation layer look at it.

use crate::foveation::tile_count;
use crate::render_pass::{
    make_rate_attachment, make_rate_reference, Attachment, Dependency, Dependency2, Multiview,
    Reference, Reference2, RenderPass, RenderPass2, Subpass, Subpass2,
};
use crate::text::same_text;
use crate::upload::{Barrier, ImagePlan};
use crate::vk::{
    severity_contains, Extent2, ACCESS_NONE, ACCESS_SHADING_RATE_READ, ASPECT_COLOR,
    BIND_POINT_GRAPHICS, FORMAT_R8G8B8A8_UNORM, FORMAT_R8_UINT, LAYOUT_COLOR_ATTACHMENT,
    LAYOUT_SHADING_RATE, LAYOUT_UNDEFINED, LOAD_OP_CLEAR, LOAD_OP_LOAD, MEMORY_DEVICE_LOCAL,
    SAMPLES_1, SEVERITY_ERROR, SEVERITY_WARNING, STAGE_SHADING_RATE, STAGE_TOP, STORE_OP_STORE,
    USAGE_COLOR_ATTACHMENT, USAGE_SHADING_RATE, VIEW_2D_ARRAY,
};
use vstd::prelude::*;

verus! {

pub const WIDTH: u32 = 1024;

pub const HEIGHT: u32 = 1024;

/// The number of views, each a layer of the images.
pub const VIEWS: u32 = 2;

/// The mask of all views.
pub const VIEW_MASK: u32 = 3;

/// The side of a shading-rate tile.
pub const TEXEL: u32 = 16;

/// The layer that is loaded.
#[derive(Clone, Copy, Debug, PartialEq, Eq, Structural)]
pub enum LoadedLayer {
    /// The validation layer.
    Validation,
    /// None; the structure is built all the same.
    Nothing,
    /// The foveation layer.
    Foveation,
}

/// Whether a list of layers holds a name.
pub open spec fn has_layer(available: Seq<String>, name: Seq<char>) -> bool {
    exists|i: int| 0 <= i < available.len() && (#[trigger] available[i])@ == name
}

fn finds_layer(available: &Vec<String>, name: &str) -> (r: bool)
    ensures
        r == has_layer(available@, name@),
{
    let mut i: usize = 0;
    while i < available.len()
        invariant
            i <= available@.len(),
            forall|k: int| 0 <= k < i ==> (#[trigger] available@[k])@ != name@,
        decreases available@.len() - i,
    {
        if same_text(available[i].as_str(), name) {
            return true;
        }
        i = i + 1;
    }
    false
}

/// The layer to load.
pub open spec fn layer_chosen(self_augment: bool, available: Seq<String>) -> Option<LoadedLayer> {
    if self_augment {
        if has_layer(available, "VK_LAYER_KHRONOS_validation"@) {
            Some(LoadedLayer::Validation)
        } else {
            Some(LoadedLayer::Nothing)
        }
    } else if has_layer(available, "VK_LAYER_FFR_VRS_foveation"@) {
        Some(LoadedLayer::Foveation)
    } else {
        None
    }
}

/// The layer to load. A harness that builds the structure itself loads the
/// validation layer where there is one; the other needs the foveation layer,
/// and without it there is nothing to run.
pub fn choose_layer(self_augment: bool, available: &Vec<String>) -> (r: Option<LoadedLayer>)
    ensures
        r == layer_chosen(self_augment, available@),
{
    if self_augment {
        if finds_layer(available, "VK_LAYER_KHRONOS_validation") {
            Some(LoadedLayer::Validation)
        } else {
            Some(LoadedLayer::Nothing)
        }
    } else if finds_layer(available, "VK_LAYER_FFR_VRS_foveation") {
        Some(LoadedLayer::Foveation)
    } else {
        None
    }
}

/// What is done about a message of the validation layer.
#[derive(Clone, Copy, Debug, PartialEq, Eq, Structural)]
pub enum Message {
    /// It is counted and shown.
    Error,
    /// It is shown.
    Warning,
    Ignored,
}

/// What is done about a message of a severity.
pub open spec fn message_for(severity: u32) -> Message {
    if severity & SEVERITY_ERROR == SEVERITY_ERROR {
        Message::Error
    } else if severity & SEVERITY_WARNING == SEVERITY_WARNING {
        Message::Warning
    } else {
        Message::Ignored
    }
}

/// The exit code of a run.
pub open spec fn code_for(completed: bool, errors: u32) -> i32 {
    if !completed {
        2
    } else if errors == 0 {
        0
    } else {
        1
    }
}

/// What is done about a message of a severity.
pub fn debug_callback(severity: u32) -> (r: Message)
    ensures
        r == message_for(severity),
{
    if severity_contains(severity, SEVERITY_ERROR) {
        Message::Error
    } else if severity_contains(severity, SEVERITY_WARNING) {
        Message::Warning
    } else {
        Message::Ignored
    }
}

/// The exit code: 0 without validation errors, 1 with some, and 2 where the
/// harness could not run to its end.
pub fn exit_code(completed: bool, errors: u32) -> (r: i32)
    ensures
        r == code_for(completed, errors),
{
    if !completed {
        2
    } else if errors == 0 {
        0
    } else {
        1
    }
}

/// The extent of the shading-rate image.
pub fn sr_extent() -> (r: Extent2)
    ensures
        r.width == crate::foveation::tiles(WIDTH as int, TEXEL as int),
        r.height == crate::foveation::tiles(HEIGHT as int, TEXEL as int),
        r == (Extent2 { width: 64, height: 64 }),
{
    Extent2 { width: tile_count(WIDTH, TEXEL), height: tile_count(HEIGHT, TEXEL) }
}

/// An image with a layer for each view.
pub open spec fn layered(format: i32, extent: Extent2, usage: u32) -> ImagePlan {
    ImagePlan {
        format,
        width: extent.width,
        height: extent.height,
        layers: VIEWS,
        samples: SAMPLES_1,
        usage,
        memory: MEMORY_DEVICE_LOCAL,
        view_type: VIEW_2D_ARRAY,
        aspect: ASPECT_COLOR,
    }
}

fn alloc_image(format: i32, extent: Extent2, usage: u32) -> (r: ImagePlan)
    ensures
        r == layered(format, extent, usage),
{
    ImagePlan {
        format,
        width: extent.width,
        height: extent.height,
        layers: VIEWS,
        samples: SAMPLES_1,
        usage,
        memory: MEMORY_DEVICE_LOCAL,
        view_type: VIEW_2D_ARRAY,
        aspect: ASPECT_COLOR,
    }
}

/// The colour image of the harness.
pub open spec fn color_image() -> ImagePlan {
    layered(
        FORMAT_R8G8B8A8_UNORM,
        Extent2 { width: WIDTH, height: HEIGHT },
        USAGE_COLOR_ATTACHMENT,
    )
}

/// The shading-rate image, where the harness builds the structure itself.
pub open spec fn rate_image(self_augment: bool) -> Option<ImagePlan> {
    if self_augment {
        Some(layered(FORMAT_R8_UINT, Extent2 { width: 64, height: 64 }, USAGE_SHADING_RATE))
    } else {
        None
    }
}

/// The colour image, and the shading-rate image where the harness builds the
/// structure itself.
pub fn images(self_augment: bool) -> (r: (ImagePlan, Option<ImagePlan>))
    ensures
        r.0 == color_image(),
        r.1 == rate_image(self_augment),
{
    let color: ImagePlan = alloc_image(
        FORMAT_R8G8B8A8_UNORM,
        Extent2 { width: WIDTH, height: HEIGHT },
        USAGE_COLOR_ATTACHMENT,
    );
    if self_augment {
        (color, Some(alloc_image(FORMAT_R8_UINT, sr_extent(), USAGE_SHADING_RATE)))
    } else {
        (color, None)
    }
}

/// The colour attachment of the harness.
pub open spec fn color_attachment() -> Attachment {
    Attachment {
        flags: 0,
        format: FORMAT_R8G8B8A8_UNORM,
        samples: SAMPLES_1,
        load_op: LOAD_OP_CLEAR,
        store_op: STORE_OP_STORE,
        stencil_load_op: LOAD_OP_LOAD,
        stencil_store_op: STORE_OP_STORE,
        initial_layout: LAYOUT_UNDEFINED,
        final_layout: LAYOUT_COLOR_ATTACHMENT,
    }
}

fn make_color_attachment() -> (r: Attachment)
    ensures
        r == color_attachment(),
{
    Attachment {
        flags: 0,
        format: FORMAT_R8G8B8A8_UNORM,
        samples: SAMPLES_1,
        load_op: LOAD_OP_CLEAR,
        store_op: STORE_OP_STORE,
        stencil_load_op: LOAD_OP_LOAD,
        stencil_store_op: STORE_OP_STORE,
        initial_layout: LAYOUT_UNDEFINED,
        final_layout: LAYOUT_COLOR_ATTACHMENT,
    }
}

/// Whether `p` is the minimal pass: one subpass that draws to one colour
/// attachment.
pub open spec fn is_minimal(p: RenderPass) -> bool {
    &&& p.flags == 0
    &&& p.attachments@ == seq![color_attachment()]
    &&& p.subpasses@.len() == 1
    &&& p.subpasses@[0].flags == 0
    &&& p.subpasses@[0].bind_point == BIND_POINT_GRAPHICS
    &&& p.subpasses@[0].inputs@.len() == 0
    &&& p.subpasses@[0].colors@ == seq![
        Reference { attachment: 0, layout: LAYOUT_COLOR_ATTACHMENT },
    ]
    &&& p.subpasses@[0].resolves@.len() == 0
    &&& p.subpasses@[0].depth_stencil is None
    &&& p.subpasses@[0].preserves@.len() == 0
    &&& p.dependencies@.len() == 0
}

/// Whether `m` is what the harness says about views: one mask, of all views,
/// which are correlated.
pub open spec fn is_all_views(m: Multiview) -> bool {
    &&& m.view_masks@ == seq![VIEW_MASK]
    &&& m.view_offsets@.len() == 0
    &&& m.correlation_masks@ == seq![VIEW_MASK]
}

/// The minimal pass, for the layer to augment.
pub fn minimal_pass() -> (r: (RenderPass, Multiview))
    ensures
        is_minimal(r.0),
        is_all_views(r.1),
{
    let inputs: Vec<Reference> = Vec::new();
    let resolves: Vec<Reference> = Vec::new();
    let preserves: Vec<u32> = Vec::new();
    let dependencies: Vec<Dependency> = Vec::new();
    let subpass: Subpass = Subpass {
        flags: 0,
        bind_point: BIND_POINT_GRAPHICS,
        inputs,
        colors: vec![Reference { attachment: 0, layout: LAYOUT_COLOR_ATTACHMENT }],
        resolves,
        depth_stencil: None,
        preserves,
    };
    let pass: RenderPass = RenderPass {
        flags: 0,
        attachments: vec![make_color_attachment()],
        subpasses: vec![subpass],
        dependencies,
    };
    let offsets: Vec<i32> = Vec::new();
    let views: Multiview = Multiview {
        view_masks: vec![VIEW_MASK],
        view_offsets: offsets,
        correlation_masks: vec![VIEW_MASK],
    };
    proof {
        assert(pass.subpasses@[0] == subpass);
        assert(pass.attachments@ =~= seq![color_attachment()]);
        assert(subpass.colors@ =~= seq![
            Reference { attachment: 0, layout: LAYOUT_COLOR_ATTACHMENT },
        ]);
        assert(views.view_masks@ =~= seq![VIEW_MASK]);
        assert(views.correlation_masks@ =~= seq![VIEW_MASK]);
    }
    (pass, views)
}

/// Whether `p` is the augmented pass: the minimal one in the second version,
/// with a shading-rate attachment behind the colour attachment.
pub open spec fn is_augmented(p: RenderPass2) -> bool {
    &&& p.flags == 0
    &&& p.attachments@ == seq![color_attachment(), crate::render_pass::rate_attachment()]
    &&& p.subpasses@.len() == 1
    &&& p.subpasses@[0].flags == 0
    &&& p.subpasses@[0].bind_point == BIND_POINT_GRAPHICS
    &&& p.subpasses@[0].view_mask == VIEW_MASK
    &&& p.subpasses@[0].inputs@.len() == 0
    &&& p.subpasses@[0].colors@ == seq![
        Reference2 { attachment: 0, layout: LAYOUT_COLOR_ATTACHMENT, aspect_mask: ASPECT_COLOR },
    ]
    &&& p.subpasses@[0].resolves@.len() == 0
    &&& p.subpasses@[0].depth_stencil is None
    &&& p.subpasses@[0].preserves@.len() == 0
    &&& p.subpasses@[0].rate == crate::render_pass::rate_reference(
        1,
        Extent2 { width: TEXEL, height: TEXEL },
        0,
    )
    &&& p.dependencies@.len() == 0
    &&& p.correlated_view_masks@ == seq![VIEW_MASK]
}

/// The augmented pass, built by hand.
pub fn augmented_pass() -> (r: RenderPass2)
    ensures
        is_augmented(r),
{
    let inputs: Vec<Reference2> = Vec::new();
    let resolves: Vec<Reference2> = Vec::new();
    let preserves: Vec<u32> = Vec::new();
    let dependencies: Vec<Dependency2> = Vec::new();
    let texel: Extent2 = Extent2 { width: TEXEL, height: TEXEL };
    let subpass: Subpass2 = Subpass2 {
        flags: 0,
        bind_point: BIND_POINT_GRAPHICS,
        view_mask: VIEW_MASK,
        inputs,
        colors: vec![
            Reference2 {
                attachment: 0,
                layout: LAYOUT_COLOR_ATTACHMENT,
                aspect_mask: ASPECT_COLOR,
            },
        ],
        resolves,
        depth_stencil: None,
        preserves,
        rate: make_rate_reference(1, texel, 0),
    };
    let pass: RenderPass2 = RenderPass2 {
        flags: 0,
        attachments: vec![make_color_attachment(), make_rate_attachment()],
        subpasses: vec![subpass],
        dependencies,
        correlated_view_masks: vec![VIEW_MASK],
    };
    proof {
        assert(pass.subpasses@[0] == subpass);
        assert(pass.attachments@ =~= seq![
            color_attachment(),
            crate::render_pass::rate_attachment(),
        ]);
        assert(subpass.colors@ =~= seq![
            Reference2 {
                attachment: 0,
                layout: LAYOUT_COLOR_ATTACHMENT,
                aspect_mask: ASPECT_COLOR,
            },
        ]);
        assert(pass.correlated_view_masks@ =~= seq![VIEW_MASK]);
    }
    pass
}

/// The change of layout before the augmented pass.
pub open spec fn before_augmented() -> Barrier {
    Barrier {
        aspect: ASPECT_COLOR,
        base_layer: 0,
        layer_count: VIEWS,
        old_layout: LAYOUT_UNDEFINED,
        new_layout: LAYOUT_SHADING_RATE,
        src_stage: STAGE_TOP,
        dst_stage: STAGE_SHADING_RATE,
        src_access: ACCESS_NONE,
        dst_access: ACCESS_SHADING_RATE_READ,
    }
}

/// The change of layout before the augmented pass: the shading-rate image is
/// read as one, in all of its layers.
pub fn sr_barrier() -> (r: Barrier)
    ensures
        r == before_augmented(),
{
    Barrier {
        aspect: ASPECT_COLOR,
        base_layer: 0,
        layer_count: VIEWS,
        old_layout: LAYOUT_UNDEFINED,
        new_layout: LAYOUT_SHADING_RATE,
        src_stage: STAGE_TOP,
        dst_stage: STAGE_SHADING_RATE,
        src_access: ACCESS_NONE,
        dst_access: ACCESS_SHADING_RATE_READ,
    }
}

/// The pass that the harness builds by hand is the one that the layer makes of
/// the minimal pass.
pub proof fn harness_builds_what_the_layer_makes(
    minimal: RenderPass,
    views: Multiview,
    p: RenderPass2,
)
    requires
        is_minimal(minimal),
        is_all_views(views),
        minimal.becomes(Some(views), Extent2 { width: TEXEL, height: TEXEL }, p),
    ensures
        is_augmented(p),
{
    let sub = p.subpasses@[0];
    assert(minimal.subpasses@[0].becomes(
        minimal.attachments@,
        VIEW_MASK,
        crate::render_pass::rate_reference(1, Extent2 { width: TEXEL, height: TEXEL }, 0),
        sub,
    ));
    assert(p.attachments@ =~= seq![color_attachment(), crate::render_pass::rate_attachment()]);
    assert(sub.colors@ =~= seq![
        Reference2 { attachment: 0, layout: LAYOUT_COLOR_ATTACHMENT, aspect_mask: ASPECT_COLOR },
    ]);
}

/// The layer augments the minimal pass, on a device that has shading-rate
/// attachments and with them not switched off.
pub proof fn minimal_pass_is_augmented(minimal: RenderPass, texel: Extent2)
    requires
        is_minimal(minimal),
    ensures
        minimal.wf(),
        minimal.augmented(Some(texel), false),
{
    assert(minimal.subpasses@[0].colors@[0].attachment == 0);
    assert(crate::render_pass::draws_color(minimal.subpasses@));
}

/// The shading-rate attachment that the layer gives the minimal pass has a
/// layer for each view.
pub proof fn every_view_is_covered(views: Multiview, layers: u32)
    requires
        is_all_views(views),
        crate::render_pass::layers_cover(views.view_masks@, layers),
    ensures
        layers == VIEWS,
{
    vstd::arithmetic::power2::lemma2_to64();
    assert(views.view_masks@[0] == 3);
    assert(crate::render_pass::layers_cover(views.view_masks@, 2)) by {
        assert(views.view_masks@[0] >= vstd::arithmetic::power2::pow2(1));
    }
    crate::render_pass::layers_are_unique(views.view_masks@, layers, 2);
}

/// A harness that builds the structure itself never loads the foveation layer,
/// and runs without the validation layer too; the other runs with the foveation
/// layer or not at all.
pub proof fn layers_are_loaded_as_needed(available: Seq<String>, i: int)
    ensures
        0 <= i < available.len() && available[i]@ == "VK_LAYER_KHRONOS_validation"@
            ==> layer_chosen(true, available) == Some(LoadedLayer::Validation),
        (forall|j: int|
            0 <= j < available.len() ==> (#[trigger] available[j])@
                != "VK_LAYER_KHRONOS_validation"@) ==> layer_chosen(true, available) == Some(
            LoadedLayer::Nothing,
        ),
        0 <= i < available.len() && available[i]@ == "VK_LAYER_FFR_VRS_foveation"@
            ==> layer_chosen(false, available) == Some(LoadedLayer::Foveation),
        (forall|j: int|
            0 <= j < available.len() ==> (#[trigger] available[j])@
                != "VK_LAYER_FFR_VRS_foveation"@) ==> layer_chosen(false, available) is None,
{
    if 0 <= i < available.len() {
        assert(has_layer(available, available[i]@));
    }
}

/// A message is an error where its error bit is set, whatever else is; a warning
/// where only its warning bit is of the two; and ignored elsewhere.
pub proof fn messages_go_by_severity(severity: u32)
    ensures
        severity & 0x1000 == 0x1000 ==> message_for(severity) == Message::Error,
        severity & 0x1000 != 0x1000 && severity & 0x100 == 0x100 ==> message_for(severity)
            == Message::Warning,
        severity & 0x1000 != 0x1000 && severity & 0x100 != 0x100 ==> message_for(severity)
            == Message::Ignored,
{
}

/// A run passes exactly where it came to its end without an error.
pub proof fn runs_pass_without_errors(completed: bool, errors: u32)
    ensures
        code_for(completed, errors) == 0 <==> completed && errors == 0,
        completed && errors > 0 ==> code_for(completed, errors) == 1,
        !completed ==> code_for(completed, errors) == 2,
{
}

/// The two images have a layer for each of the two views; the shading-rate image
/// has a texel for each tile of the colour image and the format of the
/// attachment that it serves as.
pub proof fn harness_images_belong_together()
    ensures
        color_image().width == 1024 && color_image().height == 1024,
        color_image().layers == 2,
        color_image().format == color_attachment().format,
        color_image().samples == 1,
        color_image().usage == 0x10,
        color_image().memory == 1 && color_image().aspect == 1,
        color_image().view_type == 5,
        rate_image(false) is None,
        rate_image(true) matches Some(s) && s.layers == 2 && s.samples == 1 && s.usage == 0x100
            && s.view_type == 5 && s.memory == 1 && s.aspect == 1 && s.format
            == crate::render_pass::rate_attachment().format && s.width * 16
            == color_image().width && s.height * 16 == color_image().height,
{
}

/// The colour attachment of the harness is cleared, stored, and left as one.
pub proof fn harness_attachment_is_cleared()
    ensures
        color_attachment().flags == 0,
        color_attachment().format == 37,
        color_attachment().samples == 1,
        color_attachment().load_op == 1,
        color_attachment().store_op == 0,
        color_attachment().stencil_load_op == 0,
        color_attachment().stencil_store_op == 0,
        color_attachment().initial_layout == 0,
        color_attachment().final_layout == 2,
{
}

/// Before the augmented pass all layers of the shading-rate image go to the
/// layout of the attachment, and the pass waits for it.
pub proof fn rate_image_is_prepared()
    ensures
        before_augmented().layer_count == 2,
        before_augmented().base_layer == 0,
        before_augmented().aspect == 1,
        before_augmented().old_layout == 0,
        before_augmented().new_layout == crate::render_pass::rate_attachment().initial_layout,
        before_augmented().src_stage == 1,
        before_augmented().src_access == 0,
        before_augmented().dst_stage == 0x40_0000,
        before_augmented().dst_access == 0x80_0000,
{
}

/// A layered image has the format, the extent and the usage that it is made
/// with.
pub proof fn layered_image_has_its_parts(format: i32, extent: Extent2, usage: u32)
    ensures
        layered(format, extent, usage).format == format,
        layered(format, extent, usage).width == extent.width,
        layered(format, extent, usage).height == extent.height,
        layered(format, extent, usage).usage == usage,
        layered(format, extent, usage).layers == 2,
{
}

/// The minimal pass has one subpass that draws to its one colour attachment and
/// nothing else.
pub proof fn minimal_pass_draws_once(p: RenderPass, m: Multiview)
    requires
        is_minimal(p),
        is_all_views(m),
    ensures
        0 == p.flags,
        p.attachments@.len() == 1 && p.attachments@[0] == color_attachment(),
        1 == p.subpasses@.len(),
        0 == p.dependencies@.len(),
        ({
            let s = p.subpasses@[0];
            &&& s.flags == 0 && s.bind_point == 0
            &&& s.colors@.len() == 1 && s.colors@[0].attachment == 0 && s.colors@[0].layout == 2
            &&& s.inputs@.len() == 0 && s.resolves@.len() == 0 && s.preserves@.len() == 0
            &&& s.depth_stencil is None
        }),
        m.view_masks@.len() == 1 && m.view_masks@[0] == 3,
        m.correlation_masks@.len() == 1 && m.correlation_masks@[0] == 3,
        0 == m.view_offsets@.len(),
{
}

/// The augmented pass has the shading-rate attachment behind the colour
/// attachment, and its one subpass draws to the one, takes its rates from the
/// other, and covers both views.
pub proof fn augmented_pass_takes_its_rates(p: RenderPass2)
    requires
        is_augmented(p),
    ensures
        0 == p.flags,
        p.attachments@.len() == 2,
        p.attachments@[0] == color_attachment(),
        p.attachments@[1] == crate::render_pass::rate_attachment(),
        1 == p.subpasses@.len(),
        0 == p.dependencies@.len(),
        p.correlated_view_masks@.len() == 1 && p.correlated_view_masks@[0] == 3,
        ({
            let s = p.subpasses@[0];
            &&& s.flags == 0 && s.bind_point == 0 && s.view_mask == 3
            &&& s.colors@.len() == 1 && s.colors@[0].attachment == 0 && s.colors@[0].layout == 2
            &&& s.colors@[0].aspect_mask == 1
            &&& s.inputs@.len() == 0 && s.resolves@.len() == 0 && s.preserves@.len() == 0
            &&& s.depth_stencil is None
            &&& s.rate.reference.attachment == 1 && s.rate.next == 0
            &&& s.rate.reference.layout == p.attachments@[1].initial_layout
            &&& s.rate.reference.aspect_mask == 1
            &&& s.rate.texel.width == 16 && s.rate.texel.height == 16
        }),
{
}

} // verus!
