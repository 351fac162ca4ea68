//! The kill switch: the layer stays in the chain of calls, and adds nothing.
//!
//! It serves to compare renders with and without foveation, and to get the
//! layer out of the way.

use vstd::prelude::*;

verus! {

/// Switched off, the layer adds nothing anywhere: no extension and so no
/// feature to a device, no attachment to a render pass of either version, no
/// rate to a pipeline, and no attachment to a dynamic render.
pub proof fn switched_off_layer_adds_nothing(
    caps: Option<crate::vk::Extent2>,
    enabled: Seq<Option<String>>,
    api: u32,
    pass: crate::render_pass::RenderPass,
    attachment_count: u32,
    subpasses: Seq<crate::render_pass::SubpassHead>,
    device: crate::dispatch::DeviceData,
    matched: Option<(crate::wire::FoveationDesc, u64)>,
)
    ensures
        !crate::device::turned_on(caps, true, enabled),
        crate::device::added(caps, true, enabled, api) == Seq::<crate::device::Extension>::empty(),
        !pass.augmented(device.vrs, true),
        !crate::render_pass::augmented2(attachment_count, subpasses, device.vrs, true),
        !crate::pipeline::rated(device.vrs, true),
        !crate::rendering::foveated(device, matched, true),
{
}

} // verus!
