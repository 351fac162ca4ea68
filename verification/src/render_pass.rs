//! Render passes with a shading-rate attachment.
//!
//! An application that does not use dynamic rendering gets foveation through
//! its render passes: each one that draws colour is given one more attachment,
//! and every subpass a reference to it. A pass of the first version is first
//! rewritten in the second, which alone can carry such a reference.

use crate::vk::{
    Extent2, ASPECT_COLOR, ASPECT_DEPTH, ASPECT_DEPTH_STENCIL, ASPECT_STENCIL, ATTACHMENT_UNUSED,
    FORMAT_D16_UNORM, FORMAT_D16_UNORM_S8_UINT, FORMAT_D24_UNORM_S8_UINT, FORMAT_D32_SFLOAT,
    FORMAT_D32_SFLOAT_S8_UINT, FORMAT_R8_UINT, FORMAT_S8_UINT, FORMAT_X8_D24_UNORM_PACK32,
    LAYOUT_SHADING_RATE, LOAD_OP_DONT_CARE, LOAD_OP_LOAD, SAMPLES_1, STORE_OP_DONT_CARE,
    TYPE_RENDER_PASS_MULTIVIEW,
};
use vstd::arithmetic::power2::*;
use vstd::prelude::*;

verus! {

/// An attachment of a render pass.
#[derive(Clone, Copy, Debug, PartialEq, Eq, Structural)]
pub struct Attachment {
    pub flags: u32,
    pub format: i32,
    pub samples: u32,
    pub load_op: i32,
    pub store_op: i32,
    pub stencil_load_op: i32,
    pub stencil_store_op: i32,
    pub initial_layout: i32,
    pub final_layout: i32,
}

/// A reference to an attachment, in a pass of the first version.
#[derive(Clone, Copy, Debug, PartialEq, Eq, Structural)]
pub struct Reference {
    pub attachment: u32,
    pub layout: i32,
}

/// A reference to an attachment, in a pass of the second version.
#[derive(Clone, Copy, Debug, PartialEq, Eq, Structural)]
pub struct Reference2 {
    pub attachment: u32,
    pub layout: i32,
    pub aspect_mask: u32,
}

/// A subpass of the first version.
#[derive(Debug)]
pub struct Subpass {
    pub flags: u32,
    pub bind_point: i32,
    pub inputs: Vec<Reference>,
    pub colors: Vec<Reference>,
    /// As long as `colors`, or empty.
    pub resolves: Vec<Reference>,
    pub depth_stencil: Option<Reference>,
    pub preserves: Vec<u32>,
}

/// A dependency between subpasses.
#[derive(Clone, Copy, Debug, PartialEq, Eq, Structural)]
pub struct Dependency {
    pub src_subpass: u32,
    pub dst_subpass: u32,
    pub src_stage_mask: u32,
    pub dst_stage_mask: u32,
    pub src_access_mask: u32,
    pub dst_access_mask: u32,
    pub flags: u32,
}

/// A render pass of the first version.
#[derive(Debug)]
pub struct RenderPass {
    pub flags: u32,
    pub attachments: Vec<Attachment>,
    pub subpasses: Vec<Subpass>,
    pub dependencies: Vec<Dependency>,
}

/// What a pass of the first version says about views in its chain: a mask for
/// each subpass, an offset for each dependency, and the correlated masks.
#[derive(Debug)]
pub struct Multiview {
    pub view_masks: Vec<u32>,
    pub view_offsets: Vec<i32>,
    pub correlation_masks: Vec<u32>,
}

/// The shading-rate reference of a subpass: the attachment, the side of its
/// tiles, and the rest of the subpass's chain behind it.
#[derive(Clone, Copy, Debug, PartialEq, Eq, Structural)]
pub struct RateReference {
    pub reference: Reference2,
    pub texel: Extent2,
    pub next: u64,
}

/// A subpass of the second version.
#[derive(Debug)]
pub struct Subpass2 {
    pub flags: u32,
    pub bind_point: i32,
    pub view_mask: u32,
    pub inputs: Vec<Reference2>,
    pub colors: Vec<Reference2>,
    pub resolves: Vec<Reference2>,
    pub depth_stencil: Option<Reference2>,
    pub preserves: Vec<u32>,
    pub rate: RateReference,
}

/// A dependency of the second version.
#[derive(Clone, Copy, Debug, PartialEq, Eq, Structural)]
pub struct Dependency2 {
    pub dependency: Dependency,
    pub view_offset: i32,
}

/// A render pass of the second version, with its shading-rate attachment last.
#[derive(Debug)]
pub struct RenderPass2 {
    pub flags: u32,
    pub attachments: Vec<Attachment>,
    pub subpasses: Vec<Subpass2>,
    pub dependencies: Vec<Dependency2>,
    pub correlated_view_masks: Vec<u32>,
}

/// A pass rewritten and given its attachment, and the number of layers that
/// the attachment needs.
#[derive(Debug)]
pub struct Promotion {
    pub pass: RenderPass2,
    pub layers: u32,
    pub texel: Extent2,
}

/// The attachment that carries the shading rates: one byte for each tile,
/// read as it stands.
pub open spec fn rate_attachment() -> Attachment {
    Attachment {
        flags: 0,
        format: FORMAT_R8_UINT,
        samples: SAMPLES_1,
        load_op: LOAD_OP_LOAD,
        store_op: STORE_OP_DONT_CARE,
        stencil_load_op: LOAD_OP_DONT_CARE,
        stencil_store_op: STORE_OP_DONT_CARE,
        initial_layout: LAYOUT_SHADING_RATE,
        final_layout: LAYOUT_SHADING_RATE,
    }
}

/// The reference to the shading-rate attachment at `index`.
pub open spec fn rate_reference(index: u32, texel: Extent2, next: u64) -> RateReference {
    RateReference {
        reference: Reference2 {
            attachment: index,
            layout: LAYOUT_SHADING_RATE,
            aspect_mask: ASPECT_COLOR,
        },
        texel,
        next,
    }
}

/// The aspects of an image of a format.
pub open spec fn aspect_of(format: i32) -> u32 {
    if format == FORMAT_D16_UNORM || format == FORMAT_D32_SFLOAT || format
        == FORMAT_X8_D24_UNORM_PACK32 {
        ASPECT_DEPTH
    } else if format == FORMAT_D16_UNORM_S8_UINT || format == FORMAT_D24_UNORM_S8_UINT || format
        == FORMAT_D32_SFLOAT_S8_UINT {
        ASPECT_DEPTH_STENCIL
    } else if format == FORMAT_S8_UINT {
        ASPECT_STENCIL
    } else {
        ASPECT_COLOR
    }
}

/// A reference in the second version: the same attachment in the same layout,
/// with the aspects of the attachment's format.
pub open spec fn converted(r: Reference, attachments: Seq<Attachment>) -> Reference2 {
    Reference2 {
        attachment: r.attachment,
        layout: r.layout,
        aspect_mask: if r.attachment == ATTACHMENT_UNUSED {
            ASPECT_COLOR
        } else {
            aspect_of(attachments[r.attachment as int].format)
        },
    }
}

/// A list of references in the second version.
pub open spec fn all_converted(rs: Seq<Reference>, attachments: Seq<Attachment>) -> Seq<
    Reference2,
> {
    rs.map_values(|r: Reference| converted(r, attachments))
}

/// A reference refers to one of `count` attachments, or to nothing.
pub open spec fn refers(r: Reference, count: nat) -> bool {
    r.attachment == ATTACHMENT_UNUSED || r.attachment < count
}

/// Every reference of a list refers to one of `count` attachments, or to
/// nothing.
pub open spec fn all_refer(rs: Seq<Reference>, count: nat) -> bool {
    forall|i: int| 0 <= i < rs.len() ==> refers(#[trigger] rs[i], count)
}

impl Subpass {
    /// Every reference of the subpass refers to one of `count` attachments, or
    /// to nothing.
    pub open spec fn wf(self, count: nat) -> bool {
        &&& all_refer(self.inputs@, count)
        &&& all_refer(self.colors@, count)
        &&& all_refer(self.resolves@, count)
        &&& self.depth_stencil matches Some(r) ==> refers(r, count)
    }

    /// What the subpass becomes in the second version.
    pub open spec fn becomes(
        self,
        attachments: Seq<Attachment>,
        view_mask: u32,
        rate: RateReference,
        s: Subpass2,
    ) -> bool {
        &&& s.flags == self.flags
        &&& s.bind_point == self.bind_point
        &&& s.view_mask == view_mask
        &&& s.inputs@ == all_converted(self.inputs@, attachments)
        &&& s.colors@ == all_converted(self.colors@, attachments)
        &&& s.resolves@ == all_converted(self.resolves@, attachments)
        &&& s.depth_stencil == (match self.depth_stencil {
            Some(r) => Some(converted(r, attachments)),
            None => None,
        })
        &&& s.preserves@ == self.preserves@
        &&& s.rate == rate
    }
}

/// The view mask of a subpass: 0 without views.
pub open spec fn mask_of(mv: Option<Multiview>, i: int) -> u32 {
    match mv {
        Some(m) => if i < m.view_masks@.len() {
            m.view_masks@[i]
        } else {
            0
        },
        None => 0,
    }
}

/// The view offset of a dependency: 0 without views.
pub open spec fn offset_of(mv: Option<Multiview>, i: int) -> i32 {
    match mv {
        Some(m) => if i < m.view_offsets@.len() {
            m.view_offsets@[i]
        } else {
            0
        },
        None => 0,
    }
}

/// The view masks of a pass: none without views.
pub open spec fn masks_of(mv: Option<Multiview>) -> Seq<u32> {
    match mv {
        Some(m) => m.view_masks@,
        None => Seq::empty(),
    }
}

/// The correlated masks of a pass: none without views.
pub open spec fn correlated_of(mv: Option<Multiview>) -> Seq<u32> {
    match mv {
        Some(m) => m.correlation_masks@,
        None => Seq::empty(),
    }
}

/// Whether `layers` is the number of array layers that cover the views of all
/// masks: one more than the highest view that any mask selects, and 1 where no
/// mask selects a view.
pub open spec fn layers_cover(masks: Seq<u32>, layers: u32) -> bool {
    &&& layers >= 1
    &&& forall|i: int| 0 <= i < masks.len() ==> #[trigger] masks[i] < pow2(layers as nat)
    &&& layers == 1 || exists|i: int|
        0 <= i < masks.len() && #[trigger] masks[i] >= pow2((layers - 1) as nat)
}

/// Some subpass draws colour.
pub open spec fn draws_color(subpasses: Seq<Subpass>) -> bool {
    exists|i: int| 0 <= i < subpasses.len() && (#[trigger] subpasses[i]).colors@.len() > 0
}

impl RenderPass {
    /// The attachments can be counted in 32 bits, and every reference of every
    /// subpass refers to one of them, or to nothing.
    pub open spec fn wf(self) -> bool {
        &&& self.attachments@.len() <= u32::MAX
        &&& forall|i: int|
            0 <= i < self.subpasses@.len() ==> (#[trigger] self.subpasses@[i]).wf(
                self.attachments@.len(),
            )
    }

    /// Whether the pass is given a shading-rate attachment: the device has
    /// them, they are not switched off, and the pass draws colour.
    pub open spec fn augmented(self, vrs: Option<Extent2>, kill: bool) -> bool {
        vrs is Some && !kill && self.attachments@.len() >= 1 && draws_color(self.subpasses@)
    }

    /// What the pass becomes in the second version, with its shading-rate
    /// attachment last.
    pub open spec fn becomes(self, mv: Option<Multiview>, texel: Extent2, p: RenderPass2) -> bool {
        &&& p.flags == self.flags
        &&& p.attachments@ == self.attachments@.push(rate_attachment())
        &&& p.subpasses@.len() == self.subpasses@.len()
        &&& forall|i: int|
            0 <= i < self.subpasses@.len() ==> self.subpasses@[i].becomes(
                self.attachments@,
                mask_of(mv, i),
                rate_reference(self.attachments@.len() as u32, texel, 0),
                #[trigger] p.subpasses@[i],
            )
        &&& p.dependencies@ == Seq::new(
            self.dependencies@.len(),
            |i: int|
                Dependency2 {
                    dependency: self.dependencies@[i],
                    view_offset: offset_of(mv, i),
                },
        )
        &&& p.correlated_view_masks@ == correlated_of(mv)
    }
}

/// The aspects to name in a reference to an attachment of a format.
pub fn aspect_for(format: i32) -> (r: u32)
    ensures
        r == aspect_of(format),
{
    if format == FORMAT_D16_UNORM || format == FORMAT_D32_SFLOAT || format
        == FORMAT_X8_D24_UNORM_PACK32 {
        ASPECT_DEPTH
    } else if format == FORMAT_D16_UNORM_S8_UINT || format == FORMAT_D24_UNORM_S8_UINT || format
        == FORMAT_D32_SFLOAT_S8_UINT {
        ASPECT_DEPTH_STENCIL
    } else if format == FORMAT_S8_UINT {
        ASPECT_STENCIL
    } else {
        ASPECT_COLOR
    }
}

/// A nonzero number lies between the powers of two around its highest bit.
proof fn highest_bit(m: u32)
    requires
        m != 0,
    ensures
        vstd::std_specs::bits::u32_leading_zeros(m) <= 31,
        m < pow2((32 - vstd::std_specs::bits::u32_leading_zeros(m)) as nat),
        m >= pow2((31 - vstd::std_specs::bits::u32_leading_zeros(m)) as nat),
{
    let z = vstd::std_specs::bits::u32_leading_zeros(m);
    vstd::std_specs::bits::axiom_u32_leading_zeros(m);
    let hi = (31 - z) as u32;
    lemma_pow2_pos(hi as nat);
    vstd::bits::lemma_u32_shr_is_div(m, hi);
    let top = m >> hi;
    assert(top != 0) by (bit_vector)
        requires
            top & 1u32 != 0u32,
    ;
    let p = pow2(hi as nat) as int;
    let q = m as int / p;
    vstd::arithmetic::div_mod::lemma_fundamental_div_mod(m as int, p);
    vstd::arithmetic::div_mod::lemma_mod_bound(m as int, p);
    assert(m >= p) by (nonlinear_arith)
        requires
            m == p * q + m as int % p,
            m as int % p >= 0,
            q >= 1,
            p > 0,
    ;
    if z == 0 {
        lemma2_to64();
    } else {
        let lo = (32 - z) as u32;
        lemma_pow2_pos(lo as nat);
        vstd::bits::lemma_u32_shr_is_div(m, lo);
        let r = pow2(lo as nat) as int;
        vstd::arithmetic::div_mod::lemma_fundamental_div_mod(m as int, r);
        vstd::arithmetic::div_mod::lemma_mod_bound(m as int, r);
        assert(m as int / r == 0);
    }
}

/// The number of array layers that a shading-rate attachment needs to cover
/// all views of a pass: the highest view that a mask selects, plus one, or 1
/// without views.
pub fn layers_from_masks(masks: &Vec<u32>) -> (r: u32)
    ensures
        layers_cover(masks@, r),
        r <= 32,
{
    let mut layers: u32 = 1;
    let mut i: usize = 0;
    assert(pow2(1) == 2) by {
        lemma2_to64();
    }
    while i < masks.len()
        invariant
            i <= masks@.len(),
            1 <= layers <= 32,
            forall|k: int| 0 <= k < i ==> #[trigger] masks@[k] < pow2(layers as nat),
            layers == 1 || exists|k: int|
                0 <= k < i && #[trigger] masks@[k] >= pow2((layers - 1) as nat),
        decreases masks@.len() - i,
    {
        let m: u32 = masks[i];
        let ghost before = layers;
        if m != 0 {
            proof {
                highest_bit(m);
            }
            let needed: u32 = 32 - m.leading_zeros();
            if layers < needed {
                layers = needed;
                proof {
                    lemma_pow2_strictly_increases(before as nat, layers as nat);
                    assert(masks@[i as int] >= pow2((layers - 1) as nat));
                }
            } else if needed < layers {
                proof {
                    lemma_pow2_strictly_increases(needed as nat, layers as nat);
                }
            }
        } else {
            proof {
                lemma_pow2_pos(layers as nat);
            }
        }
        i = i + 1;
    }
    layers
}

/// No two numbers of layers cover the same masks.
pub proof fn layers_are_unique(masks: Seq<u32>, a: u32, b: u32)
    requires
        layers_cover(masks, a),
        layers_cover(masks, b),
    ensures
        a == b,
{
    layers_not_above(masks, a, b);
    layers_not_above(masks, b, a);
}

/// A number of layers that covers the masks is not above another.
proof fn layers_not_above(masks: Seq<u32>, a: u32, b: u32)
    requires
        layers_cover(masks, a),
        layers_cover(masks, b),
    ensures
        b <= a,
{
    if a < b {
        let i = choose|i: int| 0 <= i < masks.len() && #[trigger] masks[i] >= pow2((b - 1) as nat);
        if a < b - 1 {
            lemma_pow2_strictly_increases(a as nat, (b - 1) as nat);
        }
    }
}

/// A reference in the second version.
fn convert(r: &Reference, attachments: &Vec<Attachment>) -> (t: Reference2)
    requires
        refers(*r, attachments@.len()),
    ensures
        t == converted(*r, attachments@),
{
    let aspect: u32 = if r.attachment == ATTACHMENT_UNUSED {
        ASPECT_COLOR
    } else {
        aspect_for(attachments[r.attachment as usize].format)
    };
    Reference2 { attachment: r.attachment, layout: r.layout, aspect_mask: aspect }
}

/// A list of references in the second version.
fn convert_all(rs: &Vec<Reference>, attachments: &Vec<Attachment>) -> (t: Vec<Reference2>)
    requires
        all_refer(rs@, attachments@.len()),
    ensures
        t@ == all_converted(rs@, attachments@),
{
    let mut out: Vec<Reference2> = Vec::new();
    let mut i: usize = 0;
    while i < rs.len()
        invariant
            i <= rs@.len(),
            all_refer(rs@, attachments@.len()),
            out@ == all_converted(rs@.take(i as int), attachments@),
        decreases rs@.len() - i,
    {
        out.push(convert(&rs[i], attachments));
        assert(out@ =~= all_converted(rs@.take(i + 1), attachments@));
        i = i + 1;
    }
    assert(rs@.take(rs@.len() as int) =~= rs@);
    out
}

/// A list of numbers, once more.
pub(crate) fn copy_u32(v: &Vec<u32>) -> (r: Vec<u32>)
    ensures
        r@ == v@,
{
    let mut out: Vec<u32> = Vec::new();
    let mut i: usize = 0;
    while i < v.len()
        invariant
            i <= v@.len(),
            out@ == v@.take(i as int),
        decreases v@.len() - i,
    {
        out.push(v[i]);
        assert(out@ =~= v@.take(i + 1));
        i = i + 1;
    }
    assert(v@.take(v@.len() as int) =~= v@);
    out
}

/// Some subpass draws colour.
fn has_color(subpasses: &Vec<Subpass>) -> (r: bool)
    ensures
        r == draws_color(subpasses@),
{
    let mut i: usize = 0;
    while i < subpasses.len()
        invariant
            i <= subpasses@.len(),
            forall|k: int| 0 <= k < i ==> (#[trigger] subpasses@[k]).colors@.len() == 0,
        decreases subpasses@.len() - i,
    {
        if subpasses[i].colors.len() > 0 {
            return true;
        }
        i = i + 1;
    }
    false
}

/// A subpass in the second version.
fn promote_subpass(
    sub: &Subpass,
    attachments: &Vec<Attachment>,
    view_mask: u32,
    rate: RateReference,
) -> (s: Subpass2)
    requires
        sub.wf(attachments@.len()),
    ensures
        sub.becomes(attachments@, view_mask, rate, s),
{
    let depth_stencil: Option<Reference2> = match &sub.depth_stencil {
        Some(r) => Some(convert(r, attachments)),
        None => None,
    };
    Subpass2 {
        flags: sub.flags,
        bind_point: sub.bind_point,
        view_mask,
        inputs: convert_all(&sub.inputs, attachments),
        colors: convert_all(&sub.colors, attachments),
        resolves: convert_all(&sub.resolves, attachments),
        depth_stencil,
        preserves: copy_u32(&sub.preserves),
        rate,
    }
}

/// The attachment that carries the shading rates.
pub(crate) fn make_rate_attachment() -> (r: Attachment)
    ensures
        r == rate_attachment(),
{
    Attachment {
        flags: 0,
        format: FORMAT_R8_UINT,
        samples: SAMPLES_1,
        load_op: LOAD_OP_LOAD,
        store_op: STORE_OP_DONT_CARE,
        stencil_load_op: LOAD_OP_DONT_CARE,
        stencil_store_op: STORE_OP_DONT_CARE,
        initial_layout: LAYOUT_SHADING_RATE,
        final_layout: LAYOUT_SHADING_RATE,
    }
}

/// The reference to the shading-rate attachment at `index`.
pub(crate) fn make_rate_reference(index: u32, texel: Extent2, next: u64) -> (r: RateReference)
    ensures
        r == rate_reference(index, texel, next),
{
    RateReference {
        reference: Reference2 {
            attachment: index,
            layout: LAYOUT_SHADING_RATE,
            aspect_mask: ASPECT_COLOR,
        },
        texel,
        next,
    }
}

/// Whether every reference of a list refers to one of `count` attachments, or
/// to nothing.
fn list_refers(rs: &Vec<Reference>, count: usize) -> (r: bool)
    ensures
        r == all_refer(rs@, count as nat),
{
    let mut i: usize = 0;
    while i < rs.len()
        invariant
            i <= rs@.len(),
            forall|k: int| 0 <= k < i ==> refers(#[trigger] rs@[k], count as nat),
        decreases rs@.len() - i,
    {
        if rs[i].attachment != ATTACHMENT_UNUSED && rs[i].attachment as usize >= count {
            assert(!refers(rs@[i as int], count as nat));
            return false;
        }
        i = i + 1;
    }
    true
}

/// Whether every reference of every subpass refers to an attachment of the
/// pass, or to nothing.
pub fn references_hold(pass: &RenderPass) -> (r: bool)
    ensures
        r == pass.wf(),
{
    let count: usize = pass.attachments.len();
    if count > u32::MAX as usize {
        return false;
    }
    let mut i: usize = 0;
    while i < pass.subpasses.len()
        invariant
            i <= pass.subpasses@.len(),
            count == pass.attachments@.len(),
            count <= u32::MAX,
            forall|k: int| 0 <= k < i ==> (#[trigger] pass.subpasses@[k]).wf(count as nat),
        decreases pass.subpasses@.len() - i,
    {
        let s: &Subpass = &pass.subpasses[i];
        let depth: bool = match &s.depth_stencil {
            Some(r) => r.attachment == ATTACHMENT_UNUSED || (r.attachment as usize) < count,
            None => true,
        };
        if !(list_refers(&s.inputs, count) && list_refers(&s.colors, count) && list_refers(
            &s.resolves,
            count,
        ) && depth) {
            assert(!pass.subpasses@[i as int].wf(count as nat));
            return false;
        }
        i = i + 1;
    }
    true
}

/// Whether a pass of the first version is given a shading-rate attachment.
pub fn augments(pass: &RenderPass, vrs: Option<Extent2>, kill: bool) -> (r: bool)
    ensures
        r == pass.augmented(vrs, kill),
{
    vrs.is_some() && !kill && pass.attachments.len() >= 1 && has_color(&pass.subpasses)
}

/// Whether `p` is a pass rewritten and given its attachment.
pub open spec fn promotion_of(
    pass: RenderPass,
    mv: Option<Multiview>,
    texel: Extent2,
    p: Promotion,
) -> bool {
    &&& p.texel == texel
    &&& layers_cover(masks_of(mv), p.layers)
    &&& pass.becomes(mv, texel, p.pass)
}

/// Rewrite a render pass of the first version in the second and give it a
/// shading-rate attachment. `None` means that it is passed on as it is.
pub fn create_render_pass(
    pass: &RenderPass,
    mv: &Option<Multiview>,
    vrs: Option<Extent2>,
    kill: bool,
) -> (r: Option<Promotion>)
    requires
        pass.wf(),
    ensures
        r is Some <==> pass.augmented(vrs, kill),
        r matches Some(p) ==> {
            &&& Some(p.texel) == vrs
            &&& promotion_of(*pass, *mv, p.texel, p)
        },
{
    let texel: Extent2 = match vrs {
        Some(t) => t,
        None => {
            return None;
        },
    };
    if !augments(pass, vrs, kill) {
        return None;
    }
    let masks: Vec<u32> = match mv {
        Some(m) => copy_u32(&m.view_masks),
        None => Vec::new(),
    };
    assert(masks@ =~= masks_of(*mv));
    let layers: u32 = layers_from_masks(&masks);
    let index: u32 = pass.attachments.len() as u32;

    let mut attachments: Vec<Attachment> = Vec::new();
    let mut i: usize = 0;
    while i < pass.attachments.len()
        invariant
            i <= pass.attachments@.len(),
            attachments@ == pass.attachments@.take(i as int),
        decreases pass.attachments@.len() - i,
    {
        attachments.push(pass.attachments[i]);
        assert(attachments@ =~= pass.attachments@.take(i + 1));
        i = i + 1;
    }
    assert(attachments@ =~= pass.attachments@);
    attachments.push(make_rate_attachment());

    let rate: RateReference = make_rate_reference(index, texel, 0);
    let mut subpasses: Vec<Subpass2> = Vec::new();
    let mut j: usize = 0;
    while j < pass.subpasses.len()
        invariant
            j <= pass.subpasses@.len(),
            pass.wf(),
            masks@ == masks_of(*mv),
            subpasses@.len() == j,
            forall|k: int|
                0 <= k < j ==> pass.subpasses@[k].becomes(
                    pass.attachments@,
                    mask_of(*mv, k),
                    rate,
                    #[trigger] subpasses@[k],
                ),
        decreases pass.subpasses@.len() - j,
    {
        let mask: u32 = if j < masks.len() {
            masks[j]
        } else {
            0
        };
        let s: Subpass2 = promote_subpass(&pass.subpasses[j], &pass.attachments, mask, rate);
        subpasses.push(s);
        j = j + 1;
    }

    let mut dependencies: Vec<Dependency2> = Vec::new();
    let mut d: usize = 0;
    while d < pass.dependencies.len()
        invariant
            d <= pass.dependencies@.len(),
            dependencies@.len() == d,
            forall|k: int|
                0 <= k < d ==> #[trigger] dependencies@[k] == (Dependency2 {
                    dependency: pass.dependencies@[k],
                    view_offset: offset_of(*mv, k),
                }),
        decreases pass.dependencies@.len() - d,
    {
        let view_offset: i32 = match mv {
            Some(m) => if d < m.view_offsets.len() {
                m.view_offsets[d]
            } else {
                0
            },
            None => 0,
        };
        dependencies.push(Dependency2 { dependency: pass.dependencies[d], view_offset });
        d = d + 1;
    }

    let correlated_view_masks: Vec<u32> = match mv {
        Some(m) => copy_u32(&m.correlation_masks),
        None => Vec::new(),
    };
    proof {
        assert(correlated_view_masks@ =~= correlated_of(*mv));
        assert(dependencies@ =~= Seq::new(
            pass.dependencies@.len(),
            |i: int|
                Dependency2 {
                    dependency: pass.dependencies@[i],
                    view_offset: offset_of(*mv, i),
                },
        ));
    }
    let promoted: RenderPass2 = RenderPass2 {
        flags: pass.flags,
        attachments,
        subpasses,
        dependencies,
        correlated_view_masks,
    };
    Some(Promotion { pass: promoted, layers, texel })
}

/// One structure of a render pass's chain. The lists are those of a multiview
/// structure, and empty for every other type.
#[derive(Debug)]
pub struct PassExtension {
    pub s_type: i32,
    pub view_masks: Vec<u32>,
    pub view_offsets: Vec<i32>,
    pub correlation_masks: Vec<u32>,
}

/// Some mask selects a view.
pub open spec fn selects_view(masks: Seq<u32>) -> bool {
    exists|i: int| 0 <= i < masks.len() && #[trigger] masks[i] != 0
}

/// The structure at `at` is the first multiview structure of the chain.
pub open spec fn first_multiview(chain: Seq<PassExtension>, at: int) -> bool {
    &&& 0 <= at < chain.len()
    &&& chain[at].s_type == TYPE_RENDER_PASS_MULTIVIEW
    &&& forall|j: int| 0 <= j < at ==> (#[trigger] chain[j]).s_type != TYPE_RENDER_PASS_MULTIVIEW
}

/// What a pass's chain says about views: the lists of its first multiview
/// structure, if there is one and it selects a view at all.
pub open spec fn multiview_found(chain: Seq<PassExtension>, r: Option<Multiview>) -> bool {
    match r {
        Some(m) => exists|at: int|
            {
                &&& #[trigger] first_multiview(chain, at)
                &&& selects_view(chain[at].view_masks@)
                &&& m.view_masks@ == chain[at].view_masks@
                &&& m.view_offsets@ == chain[at].view_offsets@
                &&& m.correlation_masks@ == chain[at].correlation_masks@
            },
        None => forall|at: int|
            #[trigger] first_multiview(chain, at) ==> !selects_view(chain[at].view_masks@),
    }
}

/// A list of offsets, once more.
fn copy_i32(v: &Vec<i32>) -> (r: Vec<i32>)
    ensures
        r@ == v@,
{
    let mut out: Vec<i32> = Vec::new();
    let mut i: usize = 0;
    while i < v.len()
        invariant
            i <= v@.len(),
            out@ == v@.take(i as int),
        decreases v@.len() - i,
    {
        out.push(v[i]);
        assert(out@ =~= v@.take(i + 1));
        i = i + 1;
    }
    assert(v@.take(v@.len() as int) =~= v@);
    out
}

/// What a pass of the first version says about views in its chain. A structure
/// that is there but selects no view counts as none.
pub fn find_multiview_v1(chain: &Vec<PassExtension>) -> (r: Option<Multiview>)
    ensures
        multiview_found(chain@, r),
{
    let mut i: usize = 0;
    while i < chain.len()
        invariant
            i <= chain@.len(),
            forall|j: int|
                0 <= j < i ==> (#[trigger] chain@[j]).s_type != TYPE_RENDER_PASS_MULTIVIEW,
        decreases chain@.len() - i,
    {
        if chain[i].s_type == TYPE_RENDER_PASS_MULTIVIEW {
            assert(first_multiview(chain@, i as int));
            let masks: &Vec<u32> = &chain[i].view_masks;
            let mut k: usize = 0;
            while k < masks.len()
                invariant
                    k <= masks@.len(),
                    i < chain@.len(),
                    *masks == chain@[i as int].view_masks,
                    first_multiview(chain@, i as int),
                    forall|j: int| 0 <= j < k ==> #[trigger] masks@[j] == 0,
                decreases masks@.len() - k,
            {
                if masks[k] != 0 {
                    assert(selects_view(chain@[i as int].view_masks@));
                    return Some(
                        Multiview {
                            view_masks: copy_u32(masks),
                            view_offsets: copy_i32(&chain[i].view_offsets),
                            correlation_masks: copy_u32(&chain[i].correlation_masks),
                        },
                    );
                }
                k = k + 1;
            }
            assert forall|at: int| #[trigger] first_multiview(chain@, at) implies !selects_view(
                chain@[at].view_masks@,
            ) by {
                assert(at == i);
            }
            return None;
        }
        i = i + 1;
    }
    None
}

/// What the layer reads of a subpass of the second version: its views, how
/// many colour attachments it draws to, and its chain.
#[derive(Clone, Copy, Debug, PartialEq, Eq, Structural)]
pub struct SubpassHead {
    pub view_mask: u32,
    pub color_count: u32,
    pub next: u64,
}

/// What is added to a render pass of the second version: the attachment behind
/// its own, and in front of each subpass's chain a reference to it.
#[derive(Debug)]
pub struct Augmentation {
    pub attachment: Attachment,
    pub rates: Vec<RateReference>,
    pub layers: u32,
    pub texel: Extent2,
}

/// Some subpass draws colour.
pub open spec fn head_draws_color(subpasses: Seq<SubpassHead>) -> bool {
    exists|i: int| 0 <= i < subpasses.len() && (#[trigger] subpasses[i]).color_count > 0
}

/// Some subpass of a pass of the second version draws colour.
pub fn has_color_subpass(subpasses: &Vec<SubpassHead>) -> (r: bool)
    ensures
        r == head_draws_color(subpasses@),
{
    let mut i: usize = 0;
    while i < subpasses.len()
        invariant
            i <= subpasses@.len(),
            forall|k: int| 0 <= k < i ==> (#[trigger] subpasses@[k]).color_count == 0,
        decreases subpasses@.len() - i,
    {
        if subpasses[i].color_count > 0 {
            return true;
        }
        i = i + 1;
    }
    false
}

/// Whether a pass of the second version is given a shading-rate attachment.
pub open spec fn augmented2(
    attachment_count: u32,
    subpasses: Seq<SubpassHead>,
    vrs: Option<Extent2>,
    kill: bool,
) -> bool {
    vrs is Some && !kill && attachment_count >= 1 && head_draws_color(subpasses)
}

/// Whether `a` is what is added to a render pass of the second version.
pub open spec fn augmentation_of(
    attachment_count: u32,
    subpasses: Seq<SubpassHead>,
    texel: Extent2,
    a: Augmentation,
) -> bool {
    &&& a.texel == texel
    &&& a.attachment == rate_attachment()
    &&& layers_cover(subpasses.map_values(|s: SubpassHead| s.view_mask), a.layers)
    &&& a.rates@ == subpasses.map_values(
        |s: SubpassHead| rate_reference(attachment_count, texel, s.next),
    )
}

/// Give a render pass of the second version a shading-rate attachment. `None`
/// means that it is passed on as it is.
pub fn create_render_pass2(
    attachment_count: u32,
    subpasses: &Vec<SubpassHead>,
    vrs: Option<Extent2>,
    kill: bool,
) -> (r: Option<Augmentation>)
    ensures
        r is Some <==> augmented2(attachment_count, subpasses@, vrs, kill),
        r matches Some(a) ==> {
            &&& Some(a.texel) == vrs
            &&& augmentation_of(attachment_count, subpasses@, a.texel, a)
        },
{
    let texel: Extent2 = match vrs {
        Some(t) => t,
        None => {
            return None;
        },
    };
    if kill || attachment_count < 1 || !has_color_subpass(subpasses) {
        return None;
    }
    let mut masks: Vec<u32> = Vec::new();
    let mut rates: Vec<RateReference> = Vec::new();
    let mut i: usize = 0;
    while i < subpasses.len()
        invariant
            i <= subpasses@.len(),
            masks@.len() == i,
            rates@.len() == i,
            forall|k: int| 0 <= k < i ==> #[trigger] masks@[k] == subpasses@[k].view_mask,
            forall|k: int|
                0 <= k < i ==> #[trigger] rates@[k] == rate_reference(
                    attachment_count,
                    texel,
                    subpasses@[k].next,
                ),
        decreases subpasses@.len() - i,
    {
        masks.push(subpasses[i].view_mask);
        rates.push(make_rate_reference(attachment_count, texel, subpasses[i].next));
        i = i + 1;
    }
    assert(masks@ =~= subpasses@.map_values(|s: SubpassHead| s.view_mask));
    assert(rates@ =~= subpasses@.map_values(
        |s: SubpassHead| rate_reference(attachment_count, texel, s.next),
    ));
    let layers: u32 = layers_from_masks(&masks);
    Some(Augmentation { attachment: make_rate_attachment(), rates, layers, texel })
}

/// A promoted pass keeps its own attachments at their indices, and its
/// shading-rate attachment stands behind them.
pub proof fn promotion_keeps_attachments(
    pass: RenderPass,
    mv: Option<Multiview>,
    texel: Extent2,
    p: RenderPass2,
)
    requires
        pass.wf(),
        pass.becomes(mv, texel, p),
    ensures
        p.attachments@.len() == pass.attachments@.len() + 1,
        forall|i: int|
            0 <= i < pass.attachments@.len() ==> #[trigger] p.attachments@[i]
                == pass.attachments@[i],
        p.attachments@.last() == rate_attachment(),
{
}

/// Two lists of references refer to the same attachments in the same layouts,
/// and never to the attachment at `rate`.
pub open spec fn same_targets(rs: Seq<Reference>, ts: Seq<Reference2>, rate: u32) -> bool {
    &&& ts.len() == rs.len()
    &&& forall|i: int|
        0 <= i < rs.len() ==> {
            &&& (#[trigger] ts[i]).attachment == rs[i].attachment
            &&& ts[i].layout == rs[i].layout
            &&& ts[i].attachment != rate
        }
}

/// Every reference of a promoted pass refers to the same attachment as before,
/// or to nothing as before, and none of them to the shading-rate attachment.
pub proof fn promotion_keeps_references(
    pass: RenderPass,
    mv: Option<Multiview>,
    texel: Extent2,
    p: RenderPass2,
    s: int,
)
    requires
        pass.wf(),
        pass.becomes(mv, texel, p),
        pass.attachments@.len() < u32::MAX,
        0 <= s < pass.subpasses@.len(),
    ensures
        same_targets(
            pass.subpasses@[s].inputs@,
            p.subpasses@[s].inputs@,
            p.subpasses@[s].rate.reference.attachment,
        ),
        same_targets(
            pass.subpasses@[s].colors@,
            p.subpasses@[s].colors@,
            p.subpasses@[s].rate.reference.attachment,
        ),
        same_targets(
            pass.subpasses@[s].resolves@,
            p.subpasses@[s].resolves@,
            p.subpasses@[s].rate.reference.attachment,
        ),
        p.subpasses@[s].depth_stencil is Some <==> pass.subpasses@[s].depth_stencil is Some,
        p.subpasses@[s].depth_stencil matches Some(t) ==> {
            &&& t.attachment == pass.subpasses@[s].depth_stencil->0.attachment
            &&& t.layout == pass.subpasses@[s].depth_stencil->0.layout
            &&& t.attachment != p.subpasses@[s].rate.reference.attachment
        },
{
    let sub = p.subpasses@[s];
    assert(pass.subpasses@[s].wf(pass.attachments@.len()));
    let rate = sub.rate.reference.attachment;
    assert(rate == pass.attachments@.len());
    targets_are_kept(pass.subpasses@[s].inputs@, pass.attachments@, rate);
    targets_are_kept(pass.subpasses@[s].colors@, pass.attachments@, rate);
    targets_are_kept(pass.subpasses@[s].resolves@, pass.attachments@, rate);
}

/// A list of references refers to the same attachments in the second version.
proof fn targets_are_kept(rs: Seq<Reference>, attachments: Seq<Attachment>, rate: u32)
    requires
        all_refer(rs, attachments.len()),
        rate == attachments.len(),
        rate < u32::MAX,
    ensures
        same_targets(rs, all_converted(rs, attachments), rate),
{
    assert forall|i: int| 0 <= i < rs.len() implies {
        &&& (#[trigger] all_converted(rs, attachments)[i]).attachment == rs[i].attachment
        &&& all_converted(rs, attachments)[i].layout == rs[i].layout
        &&& all_converted(rs, attachments)[i].attachment != rate
    } by {
        assert(refers(rs[i], attachments.len()));
    }
}

/// The shading-rate reference of every subpass of a promoted pass refers to
/// the shading-rate attachment, which is an attachment of the pass.
pub proof fn rate_references_are_valid(
    pass: RenderPass,
    mv: Option<Multiview>,
    texel: Extent2,
    p: RenderPass2,
    s: int,
)
    requires
        pass.wf(),
        pass.becomes(mv, texel, p),
        pass.attachments@.len() < u32::MAX,
        0 <= s < pass.subpasses@.len(),
    ensures
        p.subpasses@[s].rate.reference.attachment < p.attachments@.len(),
        p.attachments@[p.subpasses@[s].rate.reference.attachment as int] == rate_attachment(),
        p.subpasses@[s].rate.texel == texel,
{
    let sub = p.subpasses@[s];
    assert(sub.rate == rate_reference(pass.attachments@.len() as u32, texel, 0));
}

/// Without views, a shading-rate attachment has one layer.
pub proof fn one_layer_without_views(masks: Seq<u32>, layers: u32)
    requires
        layers_cover(masks, layers),
        !selects_view(masks),
    ensures
        layers == 1,
{
    if layers != 1 {
        let i = choose|i: int|
            0 <= i < masks.len() && #[trigger] masks[i] >= pow2((layers - 1) as nat);
        lemma_pow2_pos((layers - 1) as nat);
        assert(selects_view(masks));
    }
}

/// Every view that a mask selects has a layer of its own in the shading-rate
/// attachment.
pub proof fn every_view_has_a_layer(masks: Seq<u32>, layers: u32, i: int, view: u32)
    requires
        layers_cover(masks, layers),
        0 <= i < masks.len(),
        view < 32,
        (masks[i] >> view) & 1 == 1,
    ensures
        view < layers,
{
    let m = masks[i];
    assert(m < pow2(layers as nat));
    if view >= layers {
        let top = m >> view;
        assert(top != 0) by (bit_vector)
            requires
                top & 1u32 == 1u32,
        ;
        lemma_pow2_pos(view as nat);
        vstd::bits::lemma_u32_shr_is_div(m, view);
        if layers < view {
            lemma_pow2_strictly_increases(layers as nat, view as nat);
        }
        vstd::arithmetic::div_mod::lemma_basic_div(m as int, pow2(view as nat) as int);
    }
}

/// What the layer would read of the subpasses of a pass in the second version.
pub open spec fn heads_of(pass: RenderPass, mv: Option<Multiview>) -> Seq<SubpassHead> {
    Seq::new(
        pass.subpasses@.len(),
        |i: int|
            SubpassHead {
                view_mask: mask_of(mv, i),
                color_count: pass.subpasses@[i].colors@.len() as u32,
                next: 0,
            },
    )
}

/// It does not matter in which version an application describes a pass: it is
/// given a shading-rate attachment in the one exactly where it is in the other,
/// with as many layers, and its subpasses refer to it in the same way.
pub proof fn versions_agree(
    pass: RenderPass,
    mv: Option<Multiview>,
    vrs: Option<Extent2>,
    kill: bool,
    texel: Extent2,
    p: RenderPass2,
    layers: u32,
    s: int,
)
    requires
        pass.wf(),
        forall|i: int|
            0 <= i < pass.subpasses@.len() ==> (#[trigger] pass.subpasses@[i]).colors@.len()
                <= u32::MAX,
        mv is Some ==> masks_of(mv).len() == pass.subpasses@.len(),
        pass.becomes(mv, texel, p),
        layers_cover(masks_of(mv), layers),
        0 <= s < pass.subpasses@.len(),
    ensures
        pass.augmented(vrs, kill) <==> augmented2(
            pass.attachments@.len() as u32,
            heads_of(pass, mv),
            vrs,
            kill,
        ),
        layers_cover(heads_of(pass, mv).map_values(|h: SubpassHead| h.view_mask), layers),
        p.subpasses@[s].rate == rate_reference(
            pass.attachments@.len() as u32,
            texel,
            heads_of(pass, mv)[s].next,
        ),
{
    let heads = heads_of(pass, mv);
    assert(draws_color(pass.subpasses@) <==> head_draws_color(heads)) by {
        if draws_color(pass.subpasses@) {
            let i = choose|i: int|
                0 <= i < pass.subpasses@.len() && (#[trigger] pass.subpasses@[i]).colors@.len() > 0;
            assert(heads[i].color_count > 0);
        }
        if head_draws_color(heads) {
            let i = choose|i: int| 0 <= i < heads.len() && (#[trigger] heads[i]).color_count > 0;
            assert(pass.subpasses@[i].colors@.len() > 0);
        }
    }
    let masks = heads.map_values(|h: SubpassHead| h.view_mask);
    if mv is Some {
        assert(masks =~= masks_of(mv));
    } else {
        one_layer_without_views(masks_of(mv), layers);
        lemma_pow2_pos(1);
        assert forall|i: int| 0 <= i < masks.len() implies #[trigger] masks[i] < pow2(1) by {
            assert(masks[i] == 0);
        }
    }
    let sub = p.subpasses@[s];
    assert(sub.rate == rate_reference(pass.attachments@.len() as u32, texel, 0));
}

/// Every dependency of a promoted pass is the one of the same place before,
/// with its own subpasses, stages, accesses and flags, and the view offset that
/// the application gave for that place; 0 where it gave none.
pub proof fn promotion_keeps_dependencies(
    pass: RenderPass,
    mv: Option<Multiview>,
    texel: Extent2,
    p: RenderPass2,
    i: int,
)
    requires
        pass.becomes(mv, texel, p),
    ensures
        p.dependencies@.len() == pass.dependencies@.len(),
        0 <= i < pass.dependencies@.len() ==> {
            &&& p.dependencies@[i].dependency == pass.dependencies@[i]
            &&& p.dependencies@[i].dependency.src_subpass == pass.dependencies@[i].src_subpass
            &&& p.dependencies@[i].dependency.dst_subpass == pass.dependencies@[i].dst_subpass
            &&& mv is None ==> p.dependencies@[i].view_offset == 0
            &&& mv matches Some(m) ==> i < m.view_offsets@.len() ==> p.dependencies@[i].view_offset
                == m.view_offsets@[i]
            &&& mv matches Some(m) ==> i >= m.view_offsets@.len()
                ==> p.dependencies@[i].view_offset == 0
        },
{
}

/// A promoted pass has its own flags, and the correlated views that the
/// application gave, none without views.
pub proof fn promotion_keeps_pass(
    pass: RenderPass,
    mv: Option<Multiview>,
    texel: Extent2,
    p: RenderPass2,
)
    requires
        pass.becomes(mv, texel, p),
    ensures
        p.flags == pass.flags,
        mv is None ==> p.correlated_view_masks@.len() == 0,
        mv matches Some(m) ==> p.correlated_view_masks@ == m.correlation_masks@,
        p.subpasses@.len() == pass.subpasses@.len(),
{
}

/// Every subpass of a promoted pass is the one of the same place before: its
/// flags, its bind point, its preserved attachments, and the view mask that the
/// application gave for that place; 0 where it gave none.
pub proof fn promotion_keeps_subpasses(
    pass: RenderPass,
    mv: Option<Multiview>,
    texel: Extent2,
    p: RenderPass2,
    s: int,
)
    requires
        pass.becomes(mv, texel, p),
        0 <= s < pass.subpasses@.len(),
    ensures
        p.subpasses@[s].flags == pass.subpasses@[s].flags,
        p.subpasses@[s].bind_point == pass.subpasses@[s].bind_point,
        p.subpasses@[s].preserves@ == pass.subpasses@[s].preserves@,
        mv is None ==> p.subpasses@[s].view_mask == 0,
        mv matches Some(m) ==> s < m.view_masks@.len() ==> p.subpasses@[s].view_mask
            == m.view_masks@[s],
        mv matches Some(m) ==> s >= m.view_masks@.len() ==> p.subpasses@[s].view_mask == 0,
        p.subpasses@[s].rate.reference.layout == p.attachments@.last().initial_layout,
        p.subpasses@[s].rate.reference.aspect_mask == aspect_of(p.attachments@.last().format),
        p.subpasses@[s].rate.next == 0,
        p.subpasses@[s].rate.texel == texel,
{
    assert(pass.subpasses@[s].becomes(
        pass.attachments@,
        mask_of(mv, s),
        rate_reference(pass.attachments@.len() as u32, texel, 0),
        p.subpasses@[s],
    ));
}

/// Every reference of a promoted pass, in each of its lists, is the one of the
/// same place before: the same attachment in the same layout, and beside it the
/// aspects of that attachment's format; colour where it refers to nothing.
pub proof fn promotion_keeps_each_reference(
    pass: RenderPass,
    mv: Option<Multiview>,
    texel: Extent2,
    p: RenderPass2,
    s: int,
    i: int,
)
    requires
        pass.wf(),
        pass.becomes(mv, texel, p),
        0 <= s < pass.subpasses@.len(),
    ensures
        ({
            let a = pass.subpasses@[s];
            let b = p.subpasses@[s];
            let formats = pass.attachments@;
            &&& formats.len() < u32::MAX ==> b.rate.reference.attachment == formats.len()
            &&& a.inputs@.len() == b.inputs@.len()
            &&& a.colors@.len() == b.colors@.len()
            &&& a.resolves@.len() == b.resolves@.len()
            &&& 0 <= i < a.inputs@.len() ==> {
                let (x, y) = (a.inputs@[i], b.inputs@[i]);
                &&& y.attachment == x.attachment && y.layout == x.layout
                &&& x.attachment == 0xffff_ffff ==> y.aspect_mask == 1
                &&& x.attachment != 0xffff_ffff ==> y.aspect_mask == aspect_of(
                    formats[x.attachment as int].format,
                )
            }
            &&& 0 <= i < a.colors@.len() ==> {
                let (x, y) = (a.colors@[i], b.colors@[i]);
                &&& y.attachment == x.attachment && y.layout == x.layout
                &&& x.attachment == 0xffff_ffff ==> y.aspect_mask == 1
                &&& x.attachment != 0xffff_ffff ==> y.aspect_mask == aspect_of(
                    formats[x.attachment as int].format,
                )
            }
            &&& 0 <= i < a.resolves@.len() ==> {
                let (x, y) = (a.resolves@[i], b.resolves@[i]);
                &&& y.attachment == x.attachment && y.layout == x.layout
                &&& x.attachment == 0xffff_ffff ==> y.aspect_mask == 1
                &&& x.attachment != 0xffff_ffff ==> y.aspect_mask == aspect_of(
                    formats[x.attachment as int].format,
                )
            }
            &&& a.depth_stencil is None ==> b.depth_stencil is None
            &&& a.depth_stencil is Some ==> {
                let (x, y) = (a.depth_stencil->0, b.depth_stencil->0);
                &&& b.depth_stencil is Some
                &&& y.attachment == x.attachment && y.layout == x.layout
                &&& x.attachment == 0xffff_ffff ==> y.aspect_mask == 1
                &&& x.attachment != 0xffff_ffff ==> y.aspect_mask == aspect_of(
                    formats[x.attachment as int].format,
                )
            }
        }),
{
    let a = pass.subpasses@[s];
    let b = p.subpasses@[s];
    assert(a.becomes(
        pass.attachments@,
        mask_of(mv, s),
        rate_reference(pass.attachments@.len() as u32, texel, 0),
        b,
    ));
    if 0 <= i < a.inputs@.len() {
        assert(b.inputs@[i] == converted(a.inputs@[i], pass.attachments@));
    }
    if 0 <= i < a.colors@.len() {
        assert(b.colors@[i] == converted(a.colors@[i], pass.attachments@));
    }
    if 0 <= i < a.resolves@.len() {
        assert(b.resolves@[i] == converted(a.resolves@[i], pass.attachments@));
    }
}

/// The aspects of the formats: depth for those with depth alone, stencil for
/// the one with stencil alone, both for those with both, and colour for every
/// other format.
pub proof fn aspects_follow_formats(format: i32)
    ensures
        format == 124 || format == 125 || format == 126 ==> aspect_of(format) == 2,
        format == 127 ==> aspect_of(format) == 4,
        format == 128 || format == 129 || format == 130 ==> aspect_of(format) == 6,
        format < 124 || format > 130 ==> aspect_of(format) == 1,
{
}

/// The shading-rate attachment has one byte and one sample for each tile. What
/// it holds is read and not written back, and it stays in the layout in which
/// shading rates are read.
pub proof fn rate_attachment_is_read_as_it_stands()
    ensures
        rate_attachment().flags == 0,
        rate_attachment().format == 13,
        rate_attachment().samples == 1,
        rate_attachment().load_op == 0,
        rate_attachment().store_op == 1,
        rate_attachment().stencil_load_op == 2,
        rate_attachment().stencil_store_op == 1,
        rate_attachment().initial_layout == 1_000_164_003,
        rate_attachment().final_layout == rate_attachment().initial_layout,
{
}

/// A reference to the shading-rate attachment has the index, the tile and the
/// chain that it is made with, the attachment's layout, and colour.
pub proof fn rate_reference_has_its_parts(index: u32, texel: Extent2, next: u64)
    ensures
        rate_reference(index, texel, next).reference.attachment == index,
        rate_reference(index, texel, next).reference.layout == rate_attachment().initial_layout,
        rate_reference(index, texel, next).reference.aspect_mask == 1,
        rate_reference(index, texel, next).texel.width == texel.width,
        rate_reference(index, texel, next).texel.height == texel.height,
        rate_reference(index, texel, next).next == next,
{
}

/// A pass of the first version is given an attachment exactly where the device
/// has shading-rate attachments, they are not switched off, and one of its
/// subpasses draws to a colour attachment.
pub proof fn passes_that_draw_are_augmented(
    pass: RenderPass,
    vrs: Option<Extent2>,
    kill: bool,
    s: int,
)
    ensures
        vrs is None ==> !pass.augmented(vrs, kill),
        kill ==> !pass.augmented(vrs, kill),
        pass.attachments@.len() == 0 ==> !pass.augmented(vrs, kill),
        (forall|i: int|
            0 <= i < pass.subpasses@.len() ==> (#[trigger] pass.subpasses@[i]).colors@.len() == 0)
            ==> !pass.augmented(vrs, kill),
        vrs is Some && !kill && pass.attachments@.len() > 0 && 0 <= s < pass.subpasses@.len()
            && pass.subpasses@[s].colors@.len() > 0 ==> pass.augmented(vrs, kill),
{
}

/// A pass of the second version is given an attachment exactly where the device
/// has shading-rate attachments, they are not switched off, and one of its
/// subpasses draws to a colour attachment.
pub proof fn second_version_passes_that_draw_are_augmented(
    count: u32,
    heads: Seq<SubpassHead>,
    vrs: Option<Extent2>,
    kill: bool,
    s: int,
)
    ensures
        vrs is None ==> !augmented2(count, heads, vrs, kill),
        kill ==> !augmented2(count, heads, vrs, kill),
        count == 0 ==> !augmented2(count, heads, vrs, kill),
        (forall|i: int| 0 <= i < heads.len() ==> (#[trigger] heads[i]).color_count == 0)
            ==> !augmented2(count, heads, vrs, kill),
        vrs is Some && !kill && count > 0 && 0 <= s < heads.len() && heads[s].color_count > 0
            ==> augmented2(count, heads, vrs, kill),
{
}

/// What is added to a pass of the second version: behind its own attachments
/// the shading-rate attachment, and in every subpass, in order, a reference to
/// it with the subpass's own chain behind it. The attachment has a layer for
/// every view of every subpass.
pub proof fn augmentation_adds_to_every_subpass(
    count: u32,
    heads: Seq<SubpassHead>,
    texel: Extent2,
    a: Augmentation,
    s: int,
    view: u32,
)
    requires
        augmentation_of(count, heads, texel, a),
        0 <= s < heads.len(),
    ensures
        a.rates@.len() == heads.len(),
        a.rates@[s].reference.attachment == count,
        a.rates@[s].reference.layout == a.attachment.initial_layout,
        a.rates@[s].reference.aspect_mask == aspect_of(a.attachment.format),
        a.rates@[s].next == heads[s].next,
        a.rates@[s].texel == texel,
        texel == a.texel,
        rate_attachment() == a.attachment,
        view < 32 && (heads[s].view_mask >> view) & 1 == 1 ==> view < a.layers,
        (forall|i: int| 0 <= i < heads.len() ==> (#[trigger] heads[i]).view_mask == 0) ==> a.layers
            == 1,
{
    let masks = heads.map_values(|h: SubpassHead| h.view_mask);
    assert(masks[s] == heads[s].view_mask);
    if view < 32 && (heads[s].view_mask >> view) & 1 == 1 {
        every_view_has_a_layer(masks, a.layers, s, view);
    }
    if forall|i: int| 0 <= i < heads.len() ==> (#[trigger] heads[i]).view_mask == 0 {
        assert forall|i: int| 0 <= i < masks.len() implies #[trigger] masks[i] == 0 by {
            assert(heads[i].view_mask == 0);
        }
        one_layer_without_views(masks, a.layers);
    }
}

/// The last layer of a shading-rate attachment of several is that of a view.
pub proof fn last_layer_has_a_view(masks: Seq<u32>, layers: u32)
    requires
        layers_cover(masks, layers),
        1 < layers <= 32,
    ensures
        exists|i: int|
            0 <= i < masks.len() && ((#[trigger] masks[i]) >> ((layers - 1) as u32)) & 1 == 1,
{
    let i = choose|i: int| 0 <= i < masks.len() && #[trigger] masks[i] >= pow2((layers - 1) as nat);
    let m = masks[i];
    let n = (layers - 1) as u32;
    assert(m < pow2(layers as nat));
    lemma_pow2_unfold(layers as nat);
    lemma_pow2_pos(n as nat);
    vstd::bits::lemma_u32_shr_is_div(m, n);
    vstd::arithmetic::div_mod::lemma_fundamental_div_mod_converse(
        m as int,
        pow2(n as nat) as int,
        1,
        m - pow2(n as nat),
    );
    assert(1u32 & 1u32 == 1u32) by (bit_vector);
    assert(((masks[i]) >> ((layers - 1) as u32)) & 1 == 1);
}

/// A promoted pass has a layer for every view of every subpass, and one without
/// views.
pub proof fn promoted_views_have_layers(
    mv: Option<Multiview>,
    layers: u32,
    s: int,
    view: u32,
)
    requires
        layers_cover(masks_of(mv), layers),
    ensures
        mv is None ==> layers == 1,
        mv matches Some(m) ==> 0 <= s < m.view_masks@.len() && view < 32 && (m.view_masks@[s]
            >> view) & 1 == 1 ==> view < layers,
{
    match mv {
        None => {
            one_layer_without_views(masks_of(mv), layers);
        },
        Some(m) => {
            if 0 <= s < m.view_masks@.len() && view < 32 && (m.view_masks@[s] >> view) & 1 == 1 {
                every_view_has_a_layer(masks_of(mv), layers, s, view);
            }
        },
    }
}

/// The views of a pass are those of the first multiview structure in its chain,
/// all three lists of it, where some mask of it selects a view. Later structures
/// and structures of other types do not count.
pub proof fn views_come_from_first_structure(
    chain: Seq<PassExtension>,
    r: Option<Multiview>,
    k: int,
)
    requires
        multiview_found(chain, r),
        0 <= k < chain.len(),
        chain[k].s_type == 1_000_053_000,
        forall|j: int| 0 <= j < k ==> (#[trigger] chain[j]).s_type != 1_000_053_000,
    ensures
        r is Some <==> exists|i: int|
            0 <= i < chain[k].view_masks@.len() && #[trigger] chain[k].view_masks@[i] != 0,
        r matches Some(m) ==> {
            &&& m.view_masks@ == chain[k].view_masks@
            &&& m.view_offsets@ == chain[k].view_offsets@
            &&& m.correlation_masks@ == chain[k].correlation_masks@
        },
{
    assert(first_multiview(chain, k));
    assert forall|at: int| #[trigger] first_multiview(chain, at) implies at == k by {
        if at < k {
            assert(chain[at].s_type != 1_000_053_000);
        }
    }
}

/// A pass whose chain has no multiview structure has no views.
pub proof fn no_structure_no_views(chain: Seq<PassExtension>, r: Option<Multiview>)
    requires
        multiview_found(chain, r),
        forall|j: int| 0 <= j < chain.len() ==> (#[trigger] chain[j]).s_type != 1_000_053_000,
    ensures
        r is None,
{
}

/// A reference beyond the attachments, in any list of any subpass, is noticed;
/// a reference to nothing is not taken for one.
pub proof fn dangling_references_are_noticed(pass: RenderPass, s: int, i: int)
    requires
        pass.attachments@.len() < u32::MAX,
        0 <= s < pass.subpasses@.len(),
    ensures
        ({
            let sub = pass.subpasses@[s];
            let count = pass.attachments@.len();
            &&& 0 <= i < sub.inputs@.len() && count <= sub.inputs@[i].attachment < 0xffff_ffff
                ==> !pass.wf()
            &&& 0 <= i < sub.colors@.len() && count <= sub.colors@[i].attachment < 0xffff_ffff
                ==> !pass.wf()
            &&& 0 <= i < sub.resolves@.len() && count <= sub.resolves@[i].attachment < 0xffff_ffff
                ==> !pass.wf()
            &&& sub.depth_stencil matches Some(r) ==> count <= r.attachment < 0xffff_ffff
                ==> !pass.wf()
        }),
        refers(Reference { attachment: 0xffff_ffff, layout: 0 }, 0),
        pass.subpasses@.len() == 1 && pass.subpasses@[s].inputs@.len() == 0
            && pass.subpasses@[s].colors@.len() == 0 && pass.subpasses@[s].resolves@.len() == 0
            && pass.subpasses@[s].depth_stencil is None ==> pass.wf(),
{
    let sub = pass.subpasses@[s];
    let count = pass.attachments@.len();
    if pass.wf() {
        assert(sub.wf(count));
        if 0 <= i < sub.inputs@.len() {
            assert(refers(sub.inputs@[i], count));
        }
        if 0 <= i < sub.colors@.len() {
            assert(refers(sub.colors@[i], count));
        }
        if 0 <= i < sub.resolves@.len() {
            assert(refers(sub.resolves@[i], count));
        }
    }
}

/// A promotion has the device's tiles, a layer for every view of the
/// application's masks and no more than that takes, and the pass rewritten with
/// the application's own views.
pub proof fn promotion_has_tiles_and_layers(
    pass: RenderPass,
    mv: Option<Multiview>,
    texel: Extent2,
    p: Promotion,
    s: int,
    view: u32,
)
    requires
        promotion_of(pass, mv, texel, p),
    ensures
        p.texel.width == texel.width,
        p.texel.height == texel.height,
        mv is None ==> p.layers == 1,
        mv matches Some(m) ==> 0 <= s < m.view_masks@.len() && view < 32 && (m.view_masks@[s]
            >> view) & 1 == 1 ==> view < p.layers,
        mv matches Some(m) ==> 1 < p.layers <= 32 ==> exists|i: int|
            0 <= i < m.view_masks@.len() && ((#[trigger] m.view_masks@[i]) >> ((p.layers
                - 1) as u32)) & 1 == 1,
        pass.becomes(mv, texel, p.pass),
{
    promoted_views_have_layers(mv, p.layers, s, view);
    if mv is Some && 1 < p.layers <= 32 {
        last_layer_has_a_view(masks_of(mv), p.layers);
    }
}

} // verus!
