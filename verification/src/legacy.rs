//! Shading rates for render passes.
//!
//! A render pass that was given a shading-rate attachment needs one in each of
//! its framebuffers too. The layer makes that image with the framebuffer, and
//! fills it when a pass begins, whenever the foveation of the eye image behind
//! the framebuffer has changed.

use crate::binary32;
use crate::dispatch::{get_copied, Devices};
use crate::foveation::{FoveationMap, TileDistances};
use crate::vk::{framebuffer_flags_contain, Extent2, FRAMEBUFFER_IMAGELESS, SUCCESS};
use crate::wire::{FalloffParams, FoveationDesc};
use std::collections::HashMap;
use vstd::prelude::*;

verus! {

broadcast use vstd::std_specs::hash::group_hash_axioms;

/// A render pass with a shading-rate attachment: the side of its tiles, and
/// its layers, one for each view.
#[derive(Clone, Copy, Debug, PartialEq, Eq, Structural)]
pub struct LegacyRp {
    pub texel: Extent2,
    pub layers: u32,
}

/// The render passes that were given a shading-rate attachment.
pub struct LegacyPasses {
    pub passes: HashMap<u64, LegacyRp>,
}

/// The code of a render pass's creation.
pub open spec fn pass_code(pass: Result<u64, i32>) -> i32 {
    match pass {
        Ok(_) => SUCCESS,
        Err(e) => e,
    }
}

/// The render passes with a shading-rate attachment after one was created.
pub open spec fn with_pass(
    passes: Map<u64, LegacyRp>,
    pass: Result<u64, i32>,
    given: Option<LegacyRp>,
) -> Map<u64, LegacyRp> {
    match (pass, given) {
        (Ok(p), Some(g)) => passes.insert(p, g),
        _ => passes,
    }
}

impl LegacyPasses {
    pub fn new() -> (r: Self)
        ensures
            r.passes@ == Map::<u64, LegacyRp>::empty(),
    {
        LegacyPasses { passes: HashMap::new() }
    }

    /// Note the outcome of a render pass's creation, and give its code. `given`
    /// says what the pass was given; a pass that was passed on as it is was
    /// given nothing.
    pub fn create_render_pass(&mut self, pass: Result<u64, i32>, given: Option<LegacyRp>) -> (r:
        i32)
        ensures
            r == pass_code(pass),
            final(self).passes@ == with_pass(old(self).passes@, pass, given),
    {
        match pass {
            Ok(p) => {
                match given {
                    Some(g) => {
                        self.passes.insert(p, g);
                    },
                    None => {},
                }
                SUCCESS
            },
            Err(e) => e,
        }
    }

    /// Forget a render pass.
    pub fn destroy_render_pass(&mut self, pass: u64)
        ensures
            final(self).passes@ == old(self).passes@.remove(pass),
    {
        self.passes.remove(&pass);
    }
}

/// The shading-rate image that a framebuffer needs: the eye image it belongs
/// to, its tiles and layers, and the side of a tile and the framebuffer's area
/// for which it is made.
#[derive(Clone, Copy, Debug, PartialEq, Eq, Structural)]
pub struct FramebufferPlan {
    pub color_image: u64,
    pub cols: u32,
    pub rows: u32,
    pub layers: u32,
    pub texel: Extent2,
    pub area: Extent2,
}

/// The first view of a framebuffer; none is 0.
pub open spec fn first_view(views: Seq<u64>) -> u64 {
    if views.len() == 0 {
        0
    } else {
        views[0]
    }
}

/// Whether a framebuffer says what its views are.
pub open spec fn has_views(flags: u32) -> bool {
    flags & FRAMEBUFFER_IMAGELESS != FRAMEBUFFER_IMAGELESS
}

/// The shading-rate image that a framebuffer of a pass needs.
pub open spec fn plan_of(
    rp: LegacyRp,
    images: Map<u64, u64>,
    views: Seq<u64>,
    width: u32,
    height: u32,
) -> FramebufferPlan {
    FramebufferPlan {
        color_image: match crate::dispatch::entry(images, first_view(views)) {
            Some(i) => i,
            None => 0,
        },
        cols: crate::foveation::tiles(
            width as int,
            crate::foveation::tile_side(rp.texel.width) as int,
        ) as u32,
        rows: crate::foveation::tiles(
            height as int,
            crate::foveation::tile_side(rp.texel.height) as int,
        ) as u32,
        layers: rp.layers,
        texel: rp.texel,
        area: Extent2 { width, height },
    }
}

/// The shading-rate image that a framebuffer needs, if it needs one.
pub open spec fn planned(
    passes: Map<u64, LegacyRp>,
    images: Map<u64, u64>,
    pass: u64,
    flags: u32,
    views: Seq<u64>,
    width: u32,
    height: u32,
) -> Option<FramebufferPlan> {
    match crate::dispatch::entry(passes, pass) {
        Some(rp) => if has_views(flags) {
            Some(plan_of(rp, images, views, width, height))
        } else {
            None
        },
        None => None,
    }
}

/// The shading-rate image that a framebuffer needs, if its pass was given an
/// attachment for one. `None` means that the framebuffer is passed on as it is;
/// so is one that does not say what its views are.
pub fn create_framebuffer(
    passes: &LegacyPasses,
    devices: &Devices,
    pass: u64,
    flags: u32,
    views: &Vec<u64>,
    width: u32,
    height: u32,
) -> (r: Option<FramebufferPlan>)
    ensures
        r == planned(passes.passes@, devices.images@, pass, flags, views@, width, height),
{
    let rp: LegacyRp = match get_copied(&passes.passes, pass) {
        Some(rp) => rp,
        None => {
            return None;
        },
    };
    if framebuffer_flags_contain(flags, FRAMEBUFFER_IMAGELESS) {
        return None;
    }
    let view: u64 = if views.len() == 0 {
        0
    } else {
        views[0]
    };
    let color_image: u64 = devices.image_or_none(view);
    let (cols, _, _) = FoveationMap::grid(width, 0, rp.texel.width);
    let (_, rows, _) = FoveationMap::grid(0, height, rp.texel.height);
    Some(
        FramebufferPlan {
            color_image,
            cols,
            rows,
            layers: rp.layers,
            texel: rp.texel,
            area: Extent2 { width, height },
        },
    )
}

/// The views of a framebuffer with that of its shading-rate image behind them.
pub open spec fn rated_views(views: Seq<u64>, rate_view: u64) -> Seq<u64> {
    views.push(rate_view)
}

/// The views of a framebuffer with that of its shading-rate image behind them.
pub fn with_rate_view(views: &Vec<u64>, rate_view: u64) -> (r: Vec<u64>)
    ensures
        r@ == rated_views(views@, rate_view),
{
    let mut out: Vec<u64> = Vec::new();
    let mut i: usize = 0;
    while i < views.len()
        invariant
            i <= views@.len(),
            out@ == views@.take(i as int),
        decreases views@.len() - i,
    {
        out.push(views[i]);
        assert(out@ =~= views@.take(i + 1));
        i = i + 1;
    }
    assert(out@ =~= views@);
    out.push(rate_view);
    out
}

/// A framebuffer with a shading-rate image, and the foveation that the image
/// was last filled from.
#[derive(Clone, Copy, Debug)]
pub struct LegacyFb {
    pub plan: FramebufferPlan,
    pub sr_image: u64,
    pub sr_memory: u64,
    pub sr_view: u64,
    pub filled: bool,
    pub fill_center_x: u32,
    pub fill_center_y: u32,
    pub fill_falloff: FalloffParams,
}

/// The foveation that a shading-rate image is filled from.
#[derive(Clone, Copy, Debug)]
pub struct FillSource {
    pub center_x: u32,
    pub center_y: u32,
    pub falloff: FalloffParams,
}

/// The record at `i` is the freshest: none is of a later generation, and none
/// behind it of the same.
pub open spec fn is_freshest(descs: Seq<FoveationDesc>, i: int) -> bool {
    &&& 0 <= i < descs.len()
    &&& forall|j: int| 0 <= j < i ==> (#[trigger] descs[j]).generation <= descs[i].generation
    &&& forall|j: int|
        i < j < descs.len() ==> (#[trigger] descs[j]).generation < descs[i].generation
}

/// Whether `r` is the freshest record; there is one unless there are none.
pub open spec fn freshest_found(descs: Seq<FoveationDesc>, r: Option<FoveationDesc>) -> bool {
    match r {
        Some(d) => exists|i: int| #[trigger] is_freshest(descs, i) && d == descs[i],
        None => descs.len() == 0,
    }
}

/// The freshest of an image's records.
pub fn freshest(descs: &Vec<FoveationDesc>) -> (r: Option<FoveationDesc>)
    ensures
        freshest_found(descs@, r),
{
    if descs.len() == 0 {
        return None;
    }
    let mut best: usize = 0;
    let mut i: usize = 1;
    while i < descs.len()
        invariant
            1 <= i <= descs@.len(),
            best < i,
            forall|j: int|
                0 <= j < best ==> (#[trigger] descs@[j]).generation
                    <= descs@[best as int].generation,
            forall|j: int|
                best < j < i ==> (#[trigger] descs@[j]).generation < descs@[best as int].generation,
        decreases descs@.len() - i,
    {
        if descs[i].generation >= descs[best].generation {
            best = i;
        }
        i = i + 1;
    }
    assert(is_freshest(descs@, best as int));
    Some(descs[best])
}

/// Whether `s` is the foveation to fill from: that of the freshest record, or
/// without one a centre at (-1, -1) with the standard falloff.
pub open spec fn source_found(descs: Seq<FoveationDesc>, s: FillSource) -> bool {
    if descs.len() == 0 {
        &&& s.center_x == binary32::MINUS_ONE
        &&& s.center_y == binary32::MINUS_ONE
        &&& s.falloff.standard()
    } else {
        exists|i: int|
            {
                &&& #[trigger] is_freshest(descs, i)
                &&& s.center_x == descs[i].center_px_x
                &&& s.center_y == descs[i].center_px_y
                &&& s.falloff == descs[i].falloff
            }
    }
}

/// The foveation to fill a shading-rate image from.
pub fn fill_source(descs: &Vec<FoveationDesc>) -> (r: FillSource)
    ensures
        source_found(descs@, r),
{
    match freshest(descs) {
        Some(d) => FillSource {
            center_x: d.center_px_x,
            center_y: d.center_px_y,
            falloff: d.falloff,
        },
        None => FillSource {
            center_x: binary32::MINUS_ONE,
            center_y: binary32::MINUS_ONE,
            falloff: FalloffParams::default(),
        },
    }
}

/// The record at `i` is the first one of an array layer.
pub open spec fn is_first_of_layer(descs: Seq<FoveationDesc>, layer: u32, i: int) -> bool {
    &&& 0 <= i < descs.len()
    &&& descs[i].image_array_index == layer
    &&& forall|j: int| 0 <= j < i ==> (#[trigger] descs[j]).image_array_index != layer
}

/// Whether `r` is the record to fill an array layer from: the first of that
/// layer, or the freshest of all where the layer has none.
pub open spec fn layer_found(
    descs: Seq<FoveationDesc>,
    layer: u32,
    r: Option<FoveationDesc>,
) -> bool {
    if exists|i: int| is_first_of_layer(descs, layer, i) {
        exists|i: int| #[trigger] is_first_of_layer(descs, layer, i) && r == Some(descs[i])
    } else {
        freshest_found(descs, r)
    }
}

/// The record to fill an array layer from.
pub fn layer_desc(descs: &Vec<FoveationDesc>, layer: u32) -> (r: Option<FoveationDesc>)
    ensures
        layer_found(descs@, layer, r),
{
    let mut i: usize = 0;
    while i < descs.len()
        invariant
            i <= descs@.len(),
            forall|j: int| 0 <= j < i ==> (#[trigger] descs@[j]).image_array_index != layer,
        decreases descs@.len() - i,
    {
        if descs[i].image_array_index == layer {
            assert(is_first_of_layer(descs@, layer, i as int));
            return Some(descs[i]);
        }
        i = i + 1;
    }
    freshest(descs)
}

impl LegacyFb {
    /// Whether the shading-rate image is still right: it was filled, from a
    /// centre less than a pixel off in each direction (`dx` and `dy` say by how
    /// much) and the same falloff.
    pub open spec fn up_to_date(self, dx: u32, dy: u32, falloff: FalloffParams) -> bool {
        &&& self.filled
        &&& binary32::lt(dx, binary32::ONE)
        &&& binary32::lt(dy, binary32::ONE)
        &&& self.fill_falloff.same(falloff)
    }

    /// The framebuffer after its image was filled from `source`.
    pub open spec fn filled_from(self, source: FillSource) -> LegacyFb {
        LegacyFb {
            filled: true,
            fill_center_x: source.center_x,
            fill_center_y: source.center_y,
            fill_falloff: source.falloff,
            ..self
        }
    }
}

/// Whether `r` are the records to fill a framebuffer's shading-rate image from,
/// layer by layer, if it has to be filled.
pub open spec fn fill_found(
    fb: LegacyFb,
    descs: Seq<FoveationDesc>,
    source: FillSource,
    dx: u32,
    dy: u32,
    r: Option<Vec<Option<FoveationDesc>>>,
) -> bool {
    match r {
        Some(layers) => {
            &&& !fb.up_to_date(dx, dy, source.falloff)
            &&& layers@.len() == fb.plan.layers
            &&& forall|l: int|
                0 <= l < layers@.len() ==> layer_found(descs, l as u32, #[trigger] layers@[l])
        },
        None => fb.up_to_date(dx, dy, source.falloff),
    }
}

/// Whether `map` is the map of one layer.
pub open spec fn layer_map(
    fb: LegacyFb,
    desc: Option<FoveationDesc>,
    distances: TileDistances,
    map: FoveationMap,
) -> bool {
    match desc {
        Some(d) => crate::foveation::map_of(
            map,
            fb.plan.area.width,
            fb.plan.area.height,
            fb.plan.texel.width,
            distances,
            d.falloff,
        ),
        None => {
            &&& map.cols == fb.plan.cols
            &&& map.rows == fb.plan.rows
            &&& map.texel_size == fb.plan.texel.width
            &&& forall|i: int| 0 <= i < map.bytes@.len() ==> #[trigger] map.bytes@[i] == 0
        },
    }
}

/// The records to fill the layers of a framebuffer's shading-rate image from,
/// if it has to be filled. A layer without a record is filled with full rate.
pub fn ensure_legacy_fill(
    fb: &LegacyFb,
    descs: &Vec<FoveationDesc>,
    source: &FillSource,
    dx: u32,
    dy: u32,
) -> (r: Option<Vec<Option<FoveationDesc>>>)
    ensures
        fill_found(*fb, descs@, *source, dx, dy, r),
{
    if fb.filled && binary32::less(dx, binary32::ONE) && binary32::less(dy, binary32::ONE)
        && fb.fill_falloff == source.falloff {
        return None;
    }
    let mut layers: Vec<Option<FoveationDesc>> = Vec::new();
    let mut l: u32 = 0;
    while l < fb.plan.layers
        invariant
            l <= fb.plan.layers,
            layers@.len() == l,
            forall|k: int|
                0 <= k < l ==> layer_found(descs@, k as u32, #[trigger] layers@[k]),
        decreases fb.plan.layers - l,
    {
        layers.push(layer_desc(descs, l));
        l = l + 1;
    }
    Some(layers)
}

/// The map of one layer: that of the record, for the framebuffer's area, or
/// full rate everywhere without one.
pub fn fill_map(fb: &LegacyFb, desc: &Option<FoveationDesc>, distances: &TileDistances) -> (r:
    FoveationMap)
    requires
        desc is Some ==> distances.cover(
            crate::foveation::tiles(
                fb.plan.area.width as int,
                crate::foveation::tile_side(fb.plan.texel.width) as int,
            ),
            crate::foveation::tiles(
                fb.plan.area.height as int,
                crate::foveation::tile_side(fb.plan.texel.width) as int,
            ),
        ),
        desc is None ==> fb.plan.cols * fb.plan.rows <= u32::MAX,
    ensures
        r.wf(),
        layer_map(*fb, *desc, *distances, r),
{
    match desc {
        Some(d) => FoveationMap::generate(
            fb.plan.area.width,
            fb.plan.area.height,
            fb.plan.texel.width,
            distances,
            &d.falloff,
        ),
        None => FoveationMap::uniform(fb.plan.cols, fb.plan.rows, fb.plan.texel.width),
    }
}

/// The framebuffers with a shading-rate image.
pub struct Framebuffers {
    pub by_handle: HashMap<u64, LegacyFb>,
}

/// Whether `fb` is a framebuffer with a shading-rate image that is not filled
/// yet.
pub open spec fn fresh(
    fb: LegacyFb,
    plan: FramebufferPlan,
    sr_image: u64,
    sr_memory: u64,
    sr_view: u64,
) -> bool {
    &&& fb.plan == plan
    &&& fb.sr_image == sr_image
    &&& fb.sr_memory == sr_memory
    &&& fb.sr_view == sr_view
    &&& !fb.filled
    &&& fb.fill_center_x == binary32::ZERO
    &&& fb.fill_center_y == binary32::ZERO
    &&& fb.fill_falloff.standard()
}

/// The framebuffers after the image of one was filled, in all of its layers or
/// not.
pub open spec fn with_fill(
    framebuffers: Map<u64, LegacyFb>,
    framebuffer: u64,
    source: FillSource,
    all_layers: bool,
) -> Map<u64, LegacyFb> {
    if all_layers && framebuffers.contains_key(framebuffer) {
        framebuffers.insert(framebuffer, framebuffers[framebuffer].filled_from(source))
    } else {
        framebuffers
    }
}

impl Framebuffers {
    pub fn new() -> (r: Self)
        ensures
            r.by_handle@ == Map::<u64, LegacyFb>::empty(),
    {
        Framebuffers { by_handle: HashMap::new() }
    }

    /// Note a framebuffer that was made with a shading-rate image, which is not
    /// filled yet.
    pub fn created(
        &mut self,
        framebuffer: u64,
        plan: FramebufferPlan,
        sr_image: u64,
        sr_memory: u64,
        sr_view: u64,
    )
        ensures
            final(self).by_handle@ == old(self).by_handle@.insert(
                framebuffer,
                final(self).by_handle@[framebuffer],
            ),
            fresh(final(self).by_handle@[framebuffer], plan, sr_image, sr_memory, sr_view),
    {
        let fb: LegacyFb = LegacyFb {
            plan,
            sr_image,
            sr_memory,
            sr_view,
            filled: false,
            fill_center_x: binary32::ZERO,
            fill_center_y: binary32::ZERO,
            fill_falloff: FalloffParams::default(),
        };
        self.by_handle.insert(framebuffer, fb);
    }

    /// A framebuffer, if it has a shading-rate image.
    pub fn framebuffer(&self, framebuffer: u64) -> (r: Option<LegacyFb>)
        ensures
            r == crate::dispatch::entry(self.by_handle@, framebuffer),
    {
        get_copied(&self.by_handle, framebuffer)
    }

    /// Forget a framebuffer. Its shading-rate image, where it has one, is to be
    /// destroyed with it.
    pub fn destroy_framebuffer(&mut self, framebuffer: u64) -> (r: Option<LegacyFb>)
        ensures
            r == crate::dispatch::entry(old(self).by_handle@, framebuffer),
            final(self).by_handle@ == old(self).by_handle@.remove(framebuffer),
    {
        self.by_handle.remove(&framebuffer)
    }

    /// Note what a framebuffer's shading-rate image was filled from, if all of
    /// its layers were.
    pub fn filled(&mut self, framebuffer: u64, source: FillSource, all_layers: bool)
        ensures
            final(self).by_handle@ == with_fill(
                old(self).by_handle@,
                framebuffer,
                source,
                all_layers,
            ),
    {
        if all_layers {
            match get_copied(&self.by_handle, framebuffer) {
                Some(fb) => {
                    let mut next: LegacyFb = fb;
                    next.filled = true;
                    next.fill_center_x = source.center_x;
                    next.fill_center_y = source.center_y;
                    next.fill_falloff = source.falloff;
                    self.by_handle.insert(framebuffer, next);
                },
                None => {},
            }
        }
    }
}

/// No two places of a list hold the freshest record.
pub proof fn freshest_is_unique(descs: Seq<FoveationDesc>, i: int, j: int)
    requires
        is_freshest(descs, i),
        is_freshest(descs, j),
    ensures
        i == j,
{
    let a = descs[i].generation;
    let b = descs[j].generation;
}

/// A record that is published with a later generation than all others of its
/// image is the freshest, so the next fill goes by it.
pub proof fn latest_record_is_freshest(s: Seq<FoveationDesc>, d: FoveationDesc)
    requires
        forall|i: int| 0 <= i < s.len() ==> (#[trigger] s[i]).generation < d.generation,
    ensures
        is_freshest(
            crate::shared::placed(s, d),
            crate::shared::eye_slot(s, d.eye, 0),
        ),
        crate::shared::placed(s, d)[crate::shared::eye_slot(s, d.eye, 0)] == d,
{
    crate::shared::eye_slot_is_first(s, d.eye, 0);
}

/// A framebuffer whose image was filled is not filled again for as long as its
/// foveation stays: the falloff is the same, and the centre moves by less than
/// a pixel.
pub proof fn unchanged_is_not_refilled(fb: LegacyFb, source: FillSource, dx: u32, dy: u32)
    requires
        source.falloff.same(source.falloff),
        binary32::lt(dx, 0x3f80_0000),
        binary32::lt(dy, 0x3f80_0000),
    ensures
        fb.filled_from(source).up_to_date(dx, dy, source.falloff),
{
}

/// A framebuffer's image that was never filled is filled.
pub proof fn unfilled_is_filled(fb: LegacyFb, dx: u32, dy: u32, falloff: FalloffParams)
    requires
        !fb.filled,
    ensures
        !fb.up_to_date(dx, dy, falloff),
{
}

/// The tiles of a framebuffer's shading-rate image cover the framebuffer.
pub proof fn tiles_cover_framebuffer(
    rp: LegacyRp,
    images: Map<u64, u64>,
    views: Seq<u64>,
    width: u32,
    height: u32,
)
    ensures
        plan_of(rp, images, views, width, height).cols * crate::foveation::tile_side(rp.texel.width)
            >= width,
        plan_of(rp, images, views, width, height).rows * crate::foveation::tile_side(
            rp.texel.height,
        ) >= height,
{
    crate::foveation::tiles_cover(width, crate::foveation::tile_side(rp.texel.width));
    crate::foveation::tiles_cover(height, crate::foveation::tile_side(rp.texel.height));
}

/// In a framebuffer made for a promoted pass, the view of the shading-rate
/// image stands where the pass's subpasses refer to.
pub proof fn rate_view_stands_at_its_index(
    pass: crate::render_pass::RenderPass,
    mv: Option<crate::render_pass::Multiview>,
    texel: Extent2,
    p: crate::render_pass::RenderPass2,
    s: int,
    views: Seq<u64>,
    rate_view: u64,
)
    requires
        pass.wf(),
        pass.becomes(mv, texel, p),
        pass.attachments@.len() < u32::MAX,
        0 <= s < pass.subpasses@.len(),
        views.len() == pass.attachments@.len(),
    ensures
        views.push(rate_view).len() == p.attachments@.len(),
        views.push(rate_view)[p.subpasses@[s].rate.reference.attachment as int] == rate_view,
{
    crate::render_pass::rate_references_are_valid(pass, mv, texel, p, s);
    let sub = p.subpasses@[s];
    assert(sub.rate.reference.attachment == pass.attachments@.len());
}

/// A pass that was given an attachment is noted under its handle with what it
/// was given. One that was given nothing, and one that failed, is not, and the
/// other passes stay. The code is the driver's.
pub proof fn augmented_passes_are_noted(
    passes: Map<u64, LegacyRp>,
    p: u64,
    e: i32,
    g: LegacyRp,
    other: u64,
)
    ensures
        with_pass(passes, Ok(p), Some(g)).contains_key(p),
        with_pass(passes, Ok(p), Some(g))[p].texel == g.texel,
        with_pass(passes, Ok(p), Some(g))[p].layers == g.layers,
        with_pass(passes, Ok(p), None) == passes,
        with_pass(passes, Err(e), Some(g)) == passes,
        with_pass(passes, Err(e), None) == passes,
        other != p ==> with_pass(passes, Ok(p), Some(g)).contains_key(other)
            == passes.contains_key(other),
        other != p && passes.contains_key(other) ==> with_pass(passes, Ok(p), Some(g))[other]
            == passes[other],
        pass_code(Ok(p)) == 0,
        pass_code(Err(e)) == e,
{
}

/// A framebuffer gets a shading-rate image exactly where its pass was given an
/// attachment and it says what its views are. The image is that of the eye image
/// behind the first view, has the pass's layers and tiles, and as many tiles as
/// cover the framebuffer: by the tile's width across, by its height down.
pub proof fn framebuffers_of_augmented_passes_are_planned(
    passes: Map<u64, LegacyRp>,
    images: Map<u64, u64>,
    pass: u64,
    flags: u32,
    views: Seq<u64>,
    width: u32,
    height: u32,
)
    ensures
        ({
            let r = planned(passes, images, pass, flags, views, width, height);
            let rp = passes[pass];
            &&& !passes.contains_key(pass) ==> r is None
            &&& flags & 1 == 1 ==> r is None
            &&& passes.contains_key(pass) && flags & 1 != 1 ==> r is Some
            &&& r matches Some(p) ==> {
                &&& views.len() > 0 && images.contains_key(views[0]) ==> p.color_image
                    == images[views[0]]
                &&& views.len() > 0 && !images.contains_key(views[0]) ==> p.color_image == 0
                &&& views.len() == 0 && !images.contains_key(0) ==> p.color_image == 0
                &&& p.layers == rp.layers
                &&& p.texel == rp.texel
                &&& p.area.width == width
                &&& p.area.height == height
                &&& rp.texel.width > 0 ==> p.cols * rp.texel.width >= width
                &&& rp.texel.height > 0 ==> p.rows * rp.texel.height >= height
                &&& rp.texel.width > 0 && width > 0 ==> (p.cols - 1) * rp.texel.width < width
                &&& rp.texel.height > 0 && height > 0 ==> (p.rows - 1) * rp.texel.height < height
            }
        }),
{
    crate::foveation::tiles_cover(width, crate::foveation::tile_side(passes[pass].texel.width));
    crate::foveation::tiles_cover(height, crate::foveation::tile_side(passes[pass].texel.height));
}

/// The foveation to fill from is that of the record with the latest generation:
/// its optical centre and its falloff.
pub proof fn source_is_the_latest_record(descs: Seq<FoveationDesc>, s: FillSource, i: int)
    requires
        source_found(descs, s),
        0 <= i < descs.len(),
        forall|j: int|
            0 <= j < descs.len() && j != i ==> (#[trigger] descs[j]).generation
                < descs[i].generation,
    ensures
        descs[i].center_px_x == s.center_x,
        descs[i].center_px_y == s.center_y,
        descs[i].falloff == s.falloff,
{
    assert(is_freshest(descs, i));
    assert forall|k: int| #[trigger] is_freshest(descs, k) implies k == i by {
        freshest_is_unique(descs, k, i);
    }
}

/// Of records of one generation the last counts, and no record that was found
/// is older than another.
pub proof fn freshest_is_the_last_of_the_latest(
    descs: Seq<FoveationDesc>,
    r: Option<FoveationDesc>,
    j: int,
)
    requires
        freshest_found(descs, r),
    ensures
        r is None <==> descs.len() == 0,
        r matches Some(d) ==> 0 <= j < descs.len() ==> descs[j].generation <= d.generation,
        r matches Some(d) ==> descs.len() > 0 && descs.last().generation == d.generation ==> d
            == descs.last(),
{
    if r is Some {
        let i = choose|i: int| #[trigger] is_freshest(descs, i) && r->0 == descs[i];
        assert(is_freshest(descs, i));
    }
}

/// Without a record, an image is filled as for a centre at (-1, -1) with the
/// standard falloff.
pub proof fn no_record_no_eye(s: FillSource)
    requires
        source_found(Seq::empty(), s),
    ensures
        s.center_x == 0xbf80_0000,
        s.center_y == 0xbf80_0000,
        s.falloff.standard(),
{
}

/// An array layer is filled from the first record of that layer. One without a
/// record of its own is filled from the latest of all, and from none where
/// there is none.
pub proof fn layers_take_their_own_record(
    descs: Seq<FoveationDesc>,
    layer: u32,
    r: Option<FoveationDesc>,
    i: int,
)
    requires
        layer_found(descs, layer, r),
    ensures
        descs.len() == 0 ==> r is None,
        descs.len() > 0 ==> r is Some,
        0 <= i < descs.len() && descs[i].image_array_index == layer && (forall|j: int|
            0 <= j < i ==> (#[trigger] descs[j]).image_array_index != layer) ==> r
            == Some(descs[i]),
        0 <= i < descs.len() && (forall|j: int|
            0 <= j < descs.len() ==> (#[trigger] descs[j]).image_array_index != layer) && (forall|
            j: int,
        |
            0 <= j < descs.len() && j != i ==> (#[trigger] descs[j]).generation
                < descs[i].generation) ==> r == Some(descs[i]),
{
    if 0 <= i < descs.len() && descs[i].image_array_index == layer && (forall|j: int|
        0 <= j < i ==> (#[trigger] descs[j]).image_array_index != layer) {
        assert(is_first_of_layer(descs, layer, i));
        assert forall|k: int| #[trigger] is_first_of_layer(descs, layer, k) implies k == i by {
            if k < i {
                assert(descs[k].image_array_index != layer);
            }
        }
    }
    if exists|k: int| is_first_of_layer(descs, layer, k) {
        let k = choose|k: int| is_first_of_layer(descs, layer, k);
        assert(descs[k].image_array_index == layer);
    } else if 0 <= i < descs.len() && (forall|j: int|
        0 <= j < descs.len() && j != i ==> (#[trigger] descs[j]).generation
            < descs[i].generation) {
        assert(is_freshest(descs, i));
        assert forall|k: int| #[trigger] is_freshest(descs, k) implies k == i by {
            freshest_is_unique(descs, k, i);
        }
    }
}

/// A shading-rate image is filled exactly where it was never filled, the centre
/// has moved by a pixel or more in either direction, or any field of the falloff
/// has changed. Every layer of it is then filled, each from its own record.
pub proof fn fills_follow_changes(
    fb: LegacyFb,
    descs: Seq<FoveationDesc>,
    source: FillSource,
    dx: u32,
    dy: u32,
    r: Option<Vec<Option<FoveationDesc>>>,
    l: int,
)
    requires
        fill_found(fb, descs, source, dx, dy, r),
    ensures
        ({
            let a = fb.fill_falloff;
            let b = source.falloff;
            let falloff = binary32::eq(a.inner_radius, b.inner_radius) && binary32::eq(
                a.mid_radius,
                b.mid_radius,
            ) && binary32::eq(a.outer_radius, b.outer_radius) && a.rate_inner == b.rate_inner
                && a.rate_mid == b.rate_mid && a.rate_outer == b.rate_outer && a.rate_edge
                == b.rate_edge && a.radius_basis == b.radius_basis && binary32::eq(
                a.vertical_scale,
                b.vertical_scale,
            ) && a._pad@ == b._pad@;
            let near = binary32::lt(dx, 0x3f80_0000) && binary32::lt(dy, 0x3f80_0000);
            &&& r is None <==> fb.filled && near && falloff
            &&& r matches Some(layers) ==> layers@.len() == fb.plan.layers
            &&& r matches Some(layers) ==> 0 <= l < fb.plan.layers ==> layer_found(
                descs,
                l as u32,
                layers@[l],
            )
        }),
{
}

/// The map of a layer with a record is that of the record's falloff over the
/// framebuffer's area. Without one every tile of the framebuffer's grid is
/// shaded at full rate.
pub proof fn layer_maps_suit_their_framebuffer(
    fb: LegacyFb,
    distances: TileDistances,
    map: FoveationMap,
    d: FoveationDesc,
    i: int,
)
    ensures
        layer_map(fb, Some(d), distances, map) <==> crate::foveation::map_of(
            map,
            fb.plan.area.width,
            fb.plan.area.height,
            fb.plan.texel.width,
            distances,
            d.falloff,
        ),
        layer_map(fb, None, distances, map) ==> {
            &&& fb.plan.cols == map.cols
            &&& fb.plan.rows == map.rows
            &&& fb.plan.texel.width == map.texel_size
            &&& 0 <= i < map.bytes@.len() ==> crate::rate::ShadingRate::of_byte(map.bytes@[i])
                == (crate::rate::ShadingRate { width: 1, height: 1 })
        },
{
}

/// A framebuffer that was just made has the handles and the plan that it was
/// made with, and has to be filled.
pub proof fn fresh_framebuffer_is_not_filled(
    fb: LegacyFb,
    plan: FramebufferPlan,
    sr_image: u64,
    sr_memory: u64,
    sr_view: u64,
    dx: u32,
    dy: u32,
    falloff: FalloffParams,
)
    requires
        fresh(fb, plan, sr_image, sr_memory, sr_view),
    ensures
        plan == fb.plan,
        sr_image == fb.sr_image,
        sr_memory == fb.sr_memory,
        sr_view == fb.sr_view,
        !fb.up_to_date(dx, dy, falloff),
        fb.fill_center_x == 0,
        fb.fill_center_y == 0,
        fb.fill_falloff.standard(),
{
}

/// A fill of all layers is noted with the centre and the falloff that it was
/// made from, and changes nothing else of the framebuffer, nor any other. A
/// fill that missed a layer is not noted, so the next pass fills again.
pub proof fn whole_fills_are_noted(
    framebuffers: Map<u64, LegacyFb>,
    framebuffer: u64,
    source: FillSource,
    other: u64,
)
    requires
        framebuffers.contains_key(framebuffer),
    ensures
        with_fill(framebuffers, framebuffer, source, false) == framebuffers,
        ({
            let after = with_fill(framebuffers, framebuffer, source, true);
            let a = framebuffers[framebuffer];
            let b = after[framebuffer];
            &&& after.contains_key(framebuffer)
            &&& b.filled
            &&& b.fill_center_x == source.center_x
            &&& b.fill_center_y == source.center_y
            &&& b.fill_falloff == source.falloff
            &&& b.plan == a.plan
            &&& b.sr_image == a.sr_image
            &&& b.sr_memory == a.sr_memory
            &&& b.sr_view == a.sr_view
            &&& other != framebuffer ==> after.contains_key(other) == framebuffers.contains_key(
                other,
            )
            &&& other != framebuffer && framebuffers.contains_key(other) ==> after[other]
                == framebuffers[other]
        }),
        !framebuffers.contains_key(other) ==> with_fill(framebuffers, other, source, true)
            == framebuffers,
{
}

/// The views of a framebuffer stay at their places, and that of the
/// shading-rate image stands behind them.
pub proof fn framebuffer_keeps_its_views(views: Seq<u64>, rate_view: u64, i: int)
    ensures
        rated_views(views, rate_view).len() == views.len() + 1,
        0 <= i < views.len() ==> rated_views(views, rate_view)[i] == views[i],
        rated_views(views, rate_view)[views.len() as int] == rate_view,
{
}

} // verus!
