//! Shading rates for dynamic rendering.
//!
//! A render whose colour attachment is an eye image gets a shading-rate image
//! of that eye, made once and kept until the eye's foveation changes. With the
//! overlay on, the applied rates are drawn over the eye once its render ends.

use crate::binary32;
use crate::dispatch::{get_copied, DeviceData};
use crate::table::take_values;
use crate::vk::{
    Extent2, Rect, LAYOUT_COLOR_ATTACHMENT, LAYOUT_SHADING_RATE, LOAD_OP_LOAD, STORE_OP_STORE,
};
use crate::wire::{FalloffParams, FoveationDesc};
use std::collections::HashMap;
use vstd::prelude::*;

verus! {

broadcast use vstd::std_specs::hash::group_hash_axioms;

/// The place of the first answer that is not empty.
pub open spec fn first_answer(answers: Seq<Vec<FoveationDesc>>, from: int) -> Option<int>
    decreases answers.len() - from,
{
    if from < 0 || from >= answers.len() {
        None
    } else if answers[from]@.len() > 0 {
        Some(from)
    } else {
        first_answer(answers, from + 1)
    }
}

/// The record of the first eye image among the views of a render, and its view.
pub open spec fn matched(views: Seq<u64>, answers: Seq<Vec<FoveationDesc>>) -> Option<
    (FoveationDesc, u64),
> {
    match first_answer(answers, 0) {
        Some(i) => Some((answers[i]@[0], views[i])),
        None => None,
    }
}

/// The record of the first eye image among the colour attachments of a render,
/// and its view. `answers` holds the records that were found for the image of
/// each view, in order; the search may stop after the first that are not none.
pub fn matched_desc(views: &Vec<u64>, answers: &Vec<Vec<FoveationDesc>>) -> (r: Option<
    (FoveationDesc, u64),
>)
    requires
        answers@.len() <= views@.len(),
    ensures
        r == matched(views@, answers@),
{
    let mut i: usize = 0;
    while i < answers.len()
        invariant
            i <= answers@.len(),
            answers@.len() <= views@.len(),
            first_answer(answers@, 0) == first_answer(answers@, i as int),
        decreases answers@.len() - i,
    {
        if answers[i].len() > 0 {
            return Some((answers[i][0], views[i]));
        }
        i = i + 1;
    }
    None
}

/// Whether a render is to get shading rates: its device has shading-rate
/// attachments, they are not switched off, and it renders an eye image.
pub open spec fn foveated(
    device: DeviceData,
    matched: Option<(FoveationDesc, u64)>,
    kill: bool,
) -> bool {
    matched is Some && device.vrs is Some && !kill
}

/// Whether a render is to get shading rates.
pub fn foveates(device: &DeviceData, matched: &Option<(FoveationDesc, u64)>, kill: bool) -> (r:
    bool)
    ensures
        r == foveated(*device, *matched, kill),
{
    matched.is_some() && device.vrs.is_some() && !kill
}

/// A shading-rate image of one eye, and what its map was made for: the render
/// area, the optical centre within it, and the falloff.
#[derive(Clone, Copy, Debug)]
pub struct VrsImage {
    pub image: u64,
    pub memory: u64,
    pub view: u64,
    pub area_w: u32,
    pub area_h: u32,
    pub center_x: u32,
    pub center_y: u32,
    pub falloff: FalloffParams,
}

/// What a render asks of a shading-rate image. `dx` and `dy` say how far its
/// optical centre lies from that of the image that is kept for the eye.
#[derive(Clone, Copy, Debug)]
pub struct Wanted {
    pub area_w: u32,
    pub area_h: u32,
    pub dx: u32,
    pub dy: u32,
    pub falloff: FalloffParams,
}

impl VrsImage {
    /// The record of an image that was made for a render area, an optical
    /// centre within it, and the falloff of an eye's record.
    pub open spec fn made_for(
        image: u64,
        memory: u64,
        view: u64,
        area: Extent2,
        center: (u32, u32),
        desc: FoveationDesc,
    ) -> VrsImage {
        VrsImage {
            image,
            memory,
            view,
            area_w: area.width,
            area_h: area.height,
            center_x: center.0,
            center_y: center.1,
            falloff: desc.falloff,
        }
    }

    /// The record of an image that was made for a render area, an optical
    /// centre within it, and the falloff of an eye's record.
    pub fn new(
        image: u64,
        memory: u64,
        view: u64,
        area: Extent2,
        center: (u32, u32),
        desc: &FoveationDesc,
    ) -> (r: Self)
        ensures
            r == VrsImage::made_for(image, memory, view, area, center, *desc),
    {
        VrsImage {
            image,
            memory,
            view,
            area_w: area.width,
            area_h: area.height,
            center_x: center.0,
            center_y: center.1,
            falloff: desc.falloff,
        }
    }

    /// Whether the image still serves: the area and the falloff are the same,
    /// and the centre is less than a pixel off in each direction.
    pub open spec fn serves(self, w: Wanted) -> bool {
        &&& self.area_w == w.area_w
        &&& self.area_h == w.area_h
        &&& binary32::lt(w.dx, binary32::ONE)
        &&& binary32::lt(w.dy, binary32::ONE)
        &&& self.falloff.same(w.falloff)
    }

    /// Whether the image still serves.
    pub fn matches(&self, w: &Wanted) -> (r: bool)
        ensures
            r == self.serves(*w),
    {
        self.area_w == w.area_w && self.area_h == w.area_h && binary32::less(w.dx, binary32::ONE)
            && binary32::less(w.dy, binary32::ONE) && self.falloff == w.falloff
    }
}

/// How a render gets its shading-rate image.
#[derive(Clone, Copy, Debug)]
pub enum EyeStep {
    /// Not at all.
    Off,
    /// The image that is kept serves: its view, and the side of a tile.
    Use(u64, Extent2),
    /// One has to be made, for tiles of this side, after the one that no longer
    /// serves is destroyed.
    Make(Option<VrsImage>, Extent2),
}

/// The shading-rate images of a device, by eye.
pub struct EyeImages {
    pub images: HashMap<u64, VrsImage>,
}

/// How a render of an eye gets its shading-rate image.
pub open spec fn eye_step(
    images: Map<u64, VrsImage>,
    vrs: Option<Extent2>,
    eye: u32,
    w: Wanted,
) -> EyeStep {
    match vrs {
        None => EyeStep::Off,
        Some(texel) => match crate::dispatch::entry(images, eye as u64) {
            None => EyeStep::Make(None, texel),
            Some(img) => if img.serves(w) {
                EyeStep::Use(img.view, texel)
            } else {
                EyeStep::Make(Some(img), texel)
            },
        },
    }
}

/// The images that are kept after a render asked for one: one that no longer
/// serves is given up.
pub open spec fn kept_images(images: Map<u64, VrsImage>, eye: u32, step: EyeStep) -> Map<
    u64,
    VrsImage,
> {
    match step {
        EyeStep::Make(Some(_), _) => images.remove(eye as u64),
        _ => images,
    }
}

/// The optical centre of the image that is kept for an eye.
pub open spec fn kept_center(images: Map<u64, VrsImage>, eye: u32) -> Option<(u32, u32)> {
    match crate::dispatch::entry(images, eye as u64) {
        Some(img) => Some((img.center_x, img.center_y)),
        None => None,
    }
}

/// What a render gets of an image that was made, or was not.
pub open spec fn offered_view(image: Option<VrsImage>, texel: Extent2) -> Option<(u64, Extent2)> {
    match image {
        Some(img) => Some((img.view, texel)),
        None => None,
    }
}

/// The images that are kept after one was made for an eye, or was not.
pub open spec fn with_image(images: Map<u64, VrsImage>, eye: u32, image: Option<VrsImage>) -> Map<
    u64,
    VrsImage,
> {
    match image {
        Some(img) => images.insert(eye as u64, img),
        None => images,
    }
}

impl EyeImages {
    pub fn new() -> (r: Self)
        ensures
            r.images@ == Map::<u64, VrsImage>::empty(),
    {
        EyeImages { images: HashMap::new() }
    }

    /// The optical centre of the image that is kept for an eye.
    pub fn center_of(&self, eye: u32) -> (r: Option<(u32, u32)>)
        ensures
            r == kept_center(self.images@, eye),
    {
        match get_copied(&self.images, eye as u64) {
            Some(img) => Some((img.center_x, img.center_y)),
            None => None,
        }
    }

    /// How a render of an eye gets its shading-rate image. An image that no
    /// longer serves is given up.
    pub fn ensure_vrs_image(&mut self, vrs: Option<Extent2>, eye: u32, w: &Wanted) -> (r: EyeStep)
        ensures
            r == eye_step(old(self).images@, vrs, eye, *w),
            final(self).images@ == kept_images(old(self).images@, eye, r),
    {
        let texel: Extent2 = match vrs {
            Some(t) => t,
            None => {
                return EyeStep::Off;
            },
        };
        match get_copied(&self.images, eye as u64) {
            Some(img) => {
                if img.matches(w) {
                    return EyeStep::Use(img.view, texel);
                }
                self.images.remove(&(eye as u64));
                EyeStep::Make(Some(img), texel)
            },
            None => EyeStep::Make(None, texel),
        }
    }

    /// Keep the image that was made for an eye. Without one, the render gets
    /// no shading rates.
    pub fn made(&mut self, eye: u32, image: Option<VrsImage>, texel: Extent2) -> (r: Option<
        (u64, Extent2),
    >)
        ensures
            r == offered_view(image, texel),
            final(self).images@ == with_image(old(self).images@, eye, image),
    {
        match image {
            Some(img) => {
                self.images.insert(eye as u64, img);
                Some((img.view, texel))
            },
            None => None,
        }
    }

    /// Give up all images, when their device is destroyed.
    pub fn take_all(&mut self) -> (r: Vec<VrsImage>)
        ensures
            final(self).images@ == Map::<u64, VrsImage>::empty(),
            crate::table::values_once(old(self).images@, r@),
    {
        take_values(&mut self.images)
    }
}

/// What is put in front of a render's chain: the shading-rate image, its
/// layout, the side of its tiles, and the rest of the chain.
#[derive(Clone, Copy, Debug, PartialEq, Eq, Structural)]
pub struct RateInfo {
    pub view: u64,
    pub layout: i32,
    pub texel: Extent2,
    pub next: u64,
}

/// What is put in front of a render's chain.
pub open spec fn info_of(view: u64, texel: Extent2, next: u64) -> RateInfo {
    RateInfo { view, layout: LAYOUT_SHADING_RATE, texel, next }
}

/// What is put in front of a render's chain.
pub fn rate_info(view: u64, texel: Extent2, next: u64) -> (r: RateInfo)
    ensures
        r == info_of(view, texel, next),
{
    RateInfo { view, layout: LAYOUT_SHADING_RATE, texel, next }
}

/// An eye render that is being recorded, for the overlay.
#[derive(Clone, Copy, Debug, PartialEq, Eq, Structural)]
pub struct RenderState {
    pub color_image: u64,
    pub color_view: u64,
    pub color_format: i32,
    pub render_area: Rect,
    pub sr_view: u64,
    pub texel: Extent2,
    pub multiview: bool,
}

/// The eye renders that are being recorded, by command buffer.
pub struct Renders {
    pub states: HashMap<u64, RenderState>,
}

/// The eye renders that are being recorded after one begins.
pub open spec fn begun(
    states: Map<u64, RenderState>,
    buffer: u64,
    overlay: bool,
    desc: FoveationDesc,
    color_view: u64,
    render_area: Rect,
    rate: RateInfo,
    view_mask: u32,
) -> Map<u64, RenderState> {
    if overlay {
        states.insert(
            buffer,
            RenderState {
                color_image: desc.vk_image,
                color_view,
                color_format: desc.vk_format,
                render_area,
                sr_view: rate.view,
                texel: rate.texel,
                multiview: view_mask != 0,
            },
        )
    } else {
        states
    }
}

/// The eye render of a command buffer that ends, if the overlay is to be drawn
/// over it.
pub open spec fn ended(states: Map<u64, RenderState>, buffer: u64, overlay: bool) -> Option<
    RenderState,
> {
    match crate::dispatch::entry(states, buffer) {
        Some(s) => if overlay && !s.multiview {
            Some(s)
        } else {
            None
        },
        None => None,
    }
}

impl Renders {
    pub fn new() -> (r: Self)
        ensures
            r.states@ == Map::<u64, RenderState>::empty(),
    {
        Renders { states: HashMap::new() }
    }

    /// Note an eye render that got its shading rates, if the overlay is on.
    pub fn cmd_begin_rendering(
        &mut self,
        buffer: u64,
        overlay: bool,
        desc: &FoveationDesc,
        color_view: u64,
        render_area: Rect,
        rate: &RateInfo,
        view_mask: u32,
    )
        ensures
            final(self).states@ == begun(
                old(self).states@,
                buffer,
                overlay,
                *desc,
                color_view,
                render_area,
                *rate,
                view_mask,
            ),
    {
        if overlay {
            let state: RenderState = RenderState {
                color_image: desc.vk_image,
                color_view,
                color_format: desc.vk_format,
                render_area,
                sr_view: rate.view,
                texel: rate.texel,
                multiview: view_mask != 0,
            };
            self.states.insert(buffer, state);
        }
    }

    /// The eye render that ends, if the overlay is to be drawn over it. A
    /// render of several views at once gets none.
    pub fn cmd_end_rendering(&mut self, buffer: u64, overlay: bool) -> (r: Option<RenderState>)
        ensures
            final(self).states@ == old(self).states@.remove(buffer),
            r == ended(old(self).states@, buffer, overlay),
    {
        match self.states.remove(&buffer) {
            Some(s) => if overlay && !s.multiview {
                Some(s)
            } else {
                None
            },
            None => None,
        }
    }
}

/// The render that draws the overlay: it keeps what the eye image holds, and
/// draws one triangle over all of it at the eye's shading rates.
#[derive(Clone, Copy, Debug, PartialEq, Eq, Structural)]
pub struct OverlayPass {
    pub image: u64,
    pub view: u64,
    pub layout: i32,
    pub load_op: i32,
    pub store_op: i32,
    pub render_area: Rect,
    pub layer_count: u32,
    pub rate: RateInfo,
    pub vertex_count: u32,
    pub instance_count: u32,
}

/// The render that draws the overlay over an eye.
pub open spec fn overlay_of(state: RenderState) -> OverlayPass {
    OverlayPass {
        image: state.color_image,
        view: state.color_view,
        layout: LAYOUT_COLOR_ATTACHMENT,
        load_op: LOAD_OP_LOAD,
        store_op: STORE_OP_STORE,
        render_area: state.render_area,
        layer_count: 1,
        rate: info_of(state.sr_view, state.texel, 0),
        vertex_count: 3,
        instance_count: 1,
    }
}

/// The render that draws the overlay over an eye.
pub fn draw_overlay(state: &RenderState) -> (r: OverlayPass)
    ensures
        r == overlay_of(*state),
{
    OverlayPass {
        image: state.color_image,
        view: state.color_view,
        layout: LAYOUT_COLOR_ATTACHMENT,
        load_op: LOAD_OP_LOAD,
        store_op: STORE_OP_STORE,
        render_area: state.render_area,
        layer_count: 1,
        rate: rate_info(state.sr_view, state.texel, 0),
        vertex_count: 3,
        instance_count: 1,
    }
}

/// The overlay's pipeline, and what it was made for.
#[derive(Clone, Copy, Debug, PartialEq, Eq, Structural)]
pub struct OverlayPipeline {
    pub pipeline: u64,
    pub layout: u64,
    pub color_format: i32,
    pub area_w: u32,
    pub area_h: u32,
}

/// How the overlay gets its pipeline.
#[derive(Clone, Copy, Debug, PartialEq, Eq, Structural)]
pub enum OverlayStep {
    /// The one that is kept serves.
    Use(u64),
    /// One has to be made, after the one that does not serve is destroyed.
    Make(Option<OverlayPipeline>),
}

/// How the overlay gets its pipeline for a colour format and a render area.
pub open spec fn overlay_step(
    slot: Option<OverlayPipeline>,
    color_format: i32,
    area: Rect,
) -> OverlayStep {
    match slot {
        Some(o) => if o.color_format == color_format && o.area_w == area.width && o.area_h
            == area.height {
            OverlayStep::Use(o.pipeline)
        } else {
            OverlayStep::Make(Some(o))
        },
        None => OverlayStep::Make(None),
    }
}

/// The pipeline that is kept after the overlay asked for one.
pub open spec fn kept_pipeline(slot: Option<OverlayPipeline>, step: OverlayStep) -> Option<
    OverlayPipeline,
> {
    match step {
        OverlayStep::Use(_) => slot,
        OverlayStep::Make(_) => None,
    }
}

/// What the overlay gets of a pipeline that was made, or was not.
pub open spec fn offered_pipeline(made: Option<OverlayPipeline>) -> Option<u64> {
    match made {
        Some(o) => Some(o.pipeline),
        None => None,
    }
}

/// The pipeline that is kept after one was made, or was not.
pub open spec fn with_pipeline(
    slot: Option<OverlayPipeline>,
    made: Option<OverlayPipeline>,
) -> Option<OverlayPipeline> {
    match made {
        Some(_) => made,
        None => slot,
    }
}

/// How the overlay gets its pipeline for a colour format and a render area. One
/// that was made for others is given up.
pub fn ensure_overlay_pipeline(
    slot: &mut Option<OverlayPipeline>,
    color_format: i32,
    area: &Rect,
) -> (r: OverlayStep)
    ensures
        r == overlay_step(*old(slot), color_format, *area),
        *final(slot) == kept_pipeline(*old(slot), r),
{
    match *slot {
        Some(o) => {
            if o.color_format == color_format && o.area_w == area.width && o.area_h == area.height {
                OverlayStep::Use(o.pipeline)
            } else {
                *slot = None;
                OverlayStep::Make(Some(o))
            }
        },
        None => OverlayStep::Make(None),
    }
}

/// Keep the pipeline that was made for the overlay. Without one, the overlay
/// is not drawn.
pub fn overlay_made(slot: &mut Option<OverlayPipeline>, made: Option<OverlayPipeline>) -> (r: Option<
    u64,
>)
    ensures
        r == offered_pipeline(made),
        *final(slot) == with_pipeline(*old(slot), made),
{
    match made {
        Some(o) => {
            *slot = Some(o);
            Some(o.pipeline)
        },
        None => None,
    }
}

/// A shading-rate image that was made for an eye serves the eye's renders for
/// as long as their area and falloff stay and their centre moves by less than
/// a pixel.
pub proof fn made_image_is_reused(
    images: Map<u64, VrsImage>,
    eye: u32,
    img: VrsImage,
    texel: Extent2,
    w: Wanted,
)
    requires
        img.serves(w),
    ensures
        eye_step(images.insert(eye as u64, img), Some(texel), eye, w) == EyeStep::Use(
            img.view,
            texel,
        ),
{
}

/// A shading-rate image serves the render that it was made for, so the eye's
/// next render uses it: one with the same area and falloff, whose centre has
/// not moved. A falloff that is not in numbers differs from itself.
pub proof fn made_image_serves_its_render(
    images: Map<u64, VrsImage>,
    handles: (u64, u64, u64),
    area: Extent2,
    center: (u32, u32),
    desc: FoveationDesc,
    texel: Extent2,
    w: Wanted,
)
    requires
        desc.falloff.in_numbers(),
        w.area_w == area.width,
        w.area_h == area.height,
        w.falloff == desc.falloff,
        w.dx == binary32::ZERO,
        w.dy == binary32::ZERO,
    ensures
        ({
            let img = VrsImage::made_for(handles.0, handles.1, handles.2, area, center, desc);
            &&& img.serves(w)
            &&& eye_step(images.insert(desc.eye as u64, img), Some(texel), desc.eye, w)
                == EyeStep::Use(handles.2, texel)
        }),
{
    binary32::zero_is_below_one();
}

/// A change of area, falloff or centre that the image does not serve has the
/// image destroyed before another is made.
pub proof fn stale_image_is_replaced(
    images: Map<u64, VrsImage>,
    eye: u32,
    img: VrsImage,
    texel: Extent2,
    w: Wanted,
)
    requires
        !img.serves(w),
    ensures
        eye_step(images.insert(eye as u64, img), Some(texel), eye, w) == EyeStep::Make(
            Some(img),
            texel,
        ),
{
}

/// What is kept for one eye does not matter to another.
pub proof fn eyes_are_independent(
    images: Map<u64, VrsImage>,
    vrs: Option<Extent2>,
    eye: u32,
    other: u32,
    img: VrsImage,
    w: Wanted,
)
    requires
        eye != other,
    ensures
        eye_step(images.insert(other as u64, img), vrs, eye, w) == eye_step(images, vrs, eye, w),
        eye_step(images.remove(other as u64), vrs, eye, w) == eye_step(images, vrs, eye, w),
{
}

/// The first answer that is not empty is one, and all before it are empty.
pub proof fn first_answer_is_first(answers: Seq<Vec<FoveationDesc>>, i: int)
    requires
        first_answer(answers, 0) == Some(i),
    ensures
        0 <= i < answers.len(),
        answers[i]@.len() > 0,
        forall|j: int| 0 <= j < i ==> (#[trigger] answers[j])@.len() == 0,
{
    first_answer_from(answers, 0, i);
}

proof fn first_answer_from(answers: Seq<Vec<FoveationDesc>>, from: int, i: int)
    requires
        first_answer(answers, from) == Some(i),
    ensures
        from <= i < answers.len(),
        answers[i]@.len() > 0,
        forall|j: int| from <= j < i ==> (#[trigger] answers[j])@.len() == 0,
    decreases answers.len() - from,
{
    if answers[from]@.len() == 0 {
        first_answer_from(answers, from + 1, i);
    }
}

/// The record and the view of a match stand at the same place, the first whose
/// image is an eye's, and the record is the first of that image. A render of
/// other images matches nothing.
pub proof fn match_is_the_first_eye_image(
    views: Seq<u64>,
    answers: Seq<Vec<FoveationDesc>>,
    i: int,
)
    requires
        0 <= i < answers.len(),
        forall|j: int| 0 <= j < i ==> (#[trigger] answers[j])@.len() == 0,
    ensures
        answers[i]@.len() > 0 ==> matched(views, answers) == Some((answers[i]@[0], views[i])),
        answers[i]@.len() == 0 && i == answers.len() - 1 ==> matched(views, answers) is None,
{
    answer_reached(answers, 0, i);
}

proof fn answer_reached(answers: Seq<Vec<FoveationDesc>>, from: int, i: int)
    requires
        0 <= from <= i < answers.len(),
        forall|j: int| 0 <= j < i ==> (#[trigger] answers[j])@.len() == 0,
    ensures
        answers[i]@.len() > 0 ==> first_answer(answers, from) == Some(i),
        answers[i]@.len() == 0 && i == answers.len() - 1 ==> first_answer(answers, from) is None,
    decreases i - from,
{
    if from < i {
        answer_reached(answers, from + 1, i);
    } else if answers[i]@.len() == 0 && i == answers.len() - 1 {
        assert(first_answer(answers, i + 1) is None);
    }
}

/// A render is foveated exactly where it renders an eye image, its device has
/// shading-rate attachments, and they are not switched off.
pub proof fn renders_foveate_with_cause(
    device: DeviceData,
    m: (FoveationDesc, u64),
    kill: bool,
)
    ensures
        !foveated(device, None, kill),
        device.vrs is None ==> !foveated(device, Some(m), kill),
        kill ==> !foveated(device, Some(m), kill),
        device.vrs is Some && !kill ==> foveated(device, Some(m), kill),
{
}

/// An image serves a render only where the area is the same, the centre is less
/// than a pixel off in each direction, and every field of the falloff is equal;
/// and it serves every such render. Where it does not serve, another is made in
/// its place.
pub proof fn image_serves_what_it_was_made_for(
    images: Map<u64, VrsImage>,
    eye: u32,
    img: VrsImage,
    texel: Extent2,
    w: Wanted,
)
    ensures
        ({
            let a = img.falloff;
            let b = w.falloff;
            let falloff = binary32::eq(a.inner_radius, b.inner_radius) && binary32::eq(
                a.mid_radius,
                b.mid_radius,
            ) && binary32::eq(a.outer_radius, b.outer_radius) && a.rate_inner == b.rate_inner
                && a.rate_mid == b.rate_mid && a.rate_outer == b.rate_outer && a.rate_edge
                == b.rate_edge && a.radius_basis == b.radius_basis && binary32::eq(
                a.vertical_scale,
                b.vertical_scale,
            ) && a._pad@ == b._pad@;
            let near = binary32::lt(w.dx, 0x3f80_0000) && binary32::lt(w.dy, 0x3f80_0000);
            let fits = img.area_w == w.area_w && img.area_h == w.area_h && near && falloff;
            let step = eye_step(images.insert(eye as u64, img), Some(texel), eye, w);
            &&& img.serves(w) <==> fits
            &&& fits ==> step == EyeStep::Use(img.view, texel)
            &&& !fits ==> step == EyeStep::Make(Some(img), texel)
        }),
{
}

/// An eye without an image gets one made, and a device without shading-rate
/// attachments gives none, whatever is kept.
pub proof fn first_image_is_made(
    images: Map<u64, VrsImage>,
    eye: u32,
    texel: Extent2,
    w: Wanted,
)
    ensures
        eye_step(images, None, eye, w) == EyeStep::Off,
        eye_step(images.remove(eye as u64), Some(texel), eye, w) == EyeStep::Make(None, texel),
{
}

/// An image that no longer serves is given up and no other; all stay where one
/// is used or none was there.
pub proof fn only_stale_images_are_given_up(
    images: Map<u64, VrsImage>,
    eye: u32,
    other: u32,
    img: VrsImage,
    view: u64,
    texel: Extent2,
)
    ensures
        !kept_images(images, eye, EyeStep::Make(Some(img), texel)).contains_key(eye as u64),
        other != eye ==> kept_images(
            images,
            eye,
            EyeStep::Make(Some(img), texel),
        ).contains_key(other as u64) == images.contains_key(other as u64),
        other != eye && images.contains_key(other as u64) ==> kept_images(
            images,
            eye,
            EyeStep::Make(Some(img), texel),
        )[other as u64] == images[other as u64],
        kept_images(images, eye, EyeStep::Make(None, texel)) == images,
        kept_images(images, eye, EyeStep::Use(view, texel)) == images,
        kept_images(images, eye, EyeStep::Off) == images,
{
}

/// The image that was made for an eye is kept for that eye, in place of any
/// other; a failure keeps what is there, and other eyes keep theirs.
pub proof fn made_image_is_kept(
    images: Map<u64, VrsImage>,
    eye: u32,
    other: u32,
    img: VrsImage,
)
    ensures
        with_image(images, eye, Some(img)).contains_key(eye as u64),
        with_image(images, eye, Some(img))[eye as u64] == img,
        with_image(images, eye, None) == images,
        other != eye ==> with_image(images, eye, Some(img)).contains_key(other as u64)
            == images.contains_key(other as u64),
        other != eye && images.contains_key(other as u64) ==> with_image(
            images,
            eye,
            Some(img),
        )[other as u64] == images[other as u64],
{
}

/// What is put in front of a render's chain names the image's view, in the
/// layout in which its upload leaves it, the side of its tiles, and the chain.
pub proof fn info_names_image_and_chain(view: u64, texel: Extent2, next: u64)
    ensures
        info_of(view, texel, next).view == view,
        info_of(view, texel, next).layout == crate::render_pass::rate_attachment().initial_layout,
        info_of(view, texel, next).layout == 1_000_164_003,
        info_of(view, texel, next).texel.width == texel.width,
        info_of(view, texel, next).texel.height == texel.height,
        info_of(view, texel, next).next == next,
{
}

/// A render that begins with the overlay on is given back when it ends: the
/// eye image and its format from the record, the view and the area that it
/// renders, and the shading rates that it got. A render of several views is
/// not, nor is one whose overlay is off at either end.
pub proof fn render_that_ends_is_the_one_that_began(
    states: Map<u64, RenderState>,
    buffer: u64,
    desc: FoveationDesc,
    color_view: u64,
    area: Rect,
    rate: RateInfo,
    view_mask: u32,
    other: u64,
)
    ensures
        ({
            let on = begun(states, buffer, true, desc, color_view, area, rate, view_mask);
            let off = begun(states, buffer, false, desc, color_view, area, rate, view_mask);
            &&& off == states
            &&& ended(on, buffer, false) is None
            &&& view_mask != 0 ==> ended(on, buffer, true) is None
            &&& view_mask == 0 ==> ended(on, buffer, true) is Some
            &&& ended(on, buffer, true) matches Some(s) ==> {
                &&& s.color_image == desc.vk_image
                &&& s.color_format == desc.vk_format
                &&& s.color_view == color_view
                &&& s.render_area == area
                &&& s.sr_view == rate.view
                &&& s.texel == rate.texel
            }
            &&& other != buffer ==> ended(on, other, true) == ended(states, other, true)
        }),
        !states.contains_key(buffer) ==> ended(states, buffer, true) is None,
{
}

/// The overlay is drawn over the eye image in place: what the image holds is
/// loaded and stored again, one triangle covers the area of the eye's render,
/// and it is shaded at the rates of that render.
pub proof fn overlay_draws_over_the_render(s: RenderState)
    ensures
        overlay_of(s).image == s.color_image,
        overlay_of(s).view == s.color_view,
        overlay_of(s).render_area == s.render_area,
        overlay_of(s).layout == 2,
        overlay_of(s).load_op == 0,
        overlay_of(s).store_op == 0,
        overlay_of(s).layer_count == 1,
        overlay_of(s).vertex_count == 3,
        overlay_of(s).instance_count == 1,
        overlay_of(s).rate.view == s.sr_view,
        overlay_of(s).rate.texel == s.texel,
        overlay_of(s).rate.next == 0,
        overlay_of(s).rate.layout == 1_000_164_003,
{
}

/// The overlay's pipeline is used again for the same format and extent, and for
/// no other: a change of format, width or height has it destroyed and another
/// made.
pub proof fn overlay_pipeline_serves_its_format_and_extent(
    o: OverlayPipeline,
    color_format: i32,
    area: Rect,
)
    ensures
        overlay_step(None, color_format, area) == OverlayStep::Make(None),
        o.color_format != color_format || o.area_w != area.width || o.area_h != area.height
            ==> overlay_step(Some(o), color_format, area) == OverlayStep::Make(Some(o)),
        o.color_format == color_format && o.area_w == area.width && o.area_h == area.height
            ==> overlay_step(Some(o), color_format, area) == OverlayStep::Use(o.pipeline),
        kept_pipeline(Some(o), OverlayStep::Use(o.pipeline)) == Some(o),
        kept_pipeline(Some(o), OverlayStep::Make(Some(o))) is None,
        with_pipeline(None, Some(o)) == Some(o),
        with_pipeline(Some(o), None) == Some(o),
        with_pipeline(None, None) is None,
{
}

/// The record of a made image holds the handles, the area, the centre and the
/// falloff that it was made with, each in its place.
pub proof fn made_image_is_recorded(
    image: u64,
    memory: u64,
    view: u64,
    area: Extent2,
    center: (u32, u32),
    desc: FoveationDesc,
)
    ensures
        ({
            let img = VrsImage::made_for(image, memory, view, area, center, desc);
            &&& img.image == image
            &&& img.memory == memory
            &&& img.view == view
            &&& img.area_w == area.width
            &&& img.area_h == area.height
            &&& img.center_x == center.0
            &&& img.center_y == center.1
            &&& img.falloff == desc.falloff
        }),
{
}

/// The centre that an eye's image was made for is the one that its next render
/// is compared with; an eye without an image has none.
pub proof fn kept_center_is_that_of_the_image(
    images: Map<u64, VrsImage>,
    eye: u32,
    img: VrsImage,
    texel: Extent2,
)
    ensures
        kept_center(with_image(images, eye, Some(img)), eye) == Some((img.center_x, img.center_y)),
        kept_center(images.remove(eye as u64), eye) is None,
        offered_view(Some(img), texel) == Some((img.view, texel)),
        offered_view(None, texel) is None,
{
}

/// The overlay is drawn with the pipeline that was made for it, and not at all
/// without one.
pub proof fn made_pipeline_is_offered(o: OverlayPipeline)
    ensures
        offered_pipeline(Some(o)) == Some(o.pipeline),
        offered_pipeline(None) is None,
{
}

} // verus!
