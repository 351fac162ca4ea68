//! Turning on shading-rate attachments at device creation.
//!
//! A device that can have them gets the extension and those of its
//! dependencies that are neither part of the device's API version nor enabled
//! by the application. A layer that is switched off adds nothing.

use crate::text::{decimal_string, same_text};
use crate::vk::{Extent2, TRUE};
use vstd::prelude::*;
use vstd::string::*;

verus! {

/// The extensions that the layer may add.
#[derive(Clone, Copy, Debug, PartialEq, Eq, Structural)]
pub enum Extension {
    FragmentShadingRate,
    CreateRenderpass2,
    Multiview,
    Maintenance2,
}

/// The API versions that matter here.
pub open spec fn api_1_0() -> u32 {
    crate::vk::packed_version(0, 1, 0, 0)
}

pub open spec fn api_1_1() -> u32 {
    crate::vk::packed_version(0, 1, 1, 0)
}

pub open spec fn api_1_2() -> u32 {
    crate::vk::packed_version(0, 1, 2, 0)
}

impl Extension {
    /// The name of the extension.
    pub open spec fn name(self) -> Seq<char> {
        match self {
            Extension::FragmentShadingRate => "VK_KHR_fragment_shading_rate"@,
            Extension::CreateRenderpass2 => "VK_KHR_create_renderpass2"@,
            Extension::Multiview => "VK_KHR_multiview"@,
            Extension::Maintenance2 => "VK_KHR_maintenance2"@,
        }
    }

    /// Whether the extension is part of an API version.
    pub open spec fn is_core(self, api: u32) -> bool {
        match self {
            Extension::FragmentShadingRate => false,
            Extension::CreateRenderpass2 => api >= api_1_2(),
            Extension::Multiview => api >= api_1_1(),
            Extension::Maintenance2 => api >= api_1_1(),
        }
    }

    /// The name of the extension.
    pub fn text(self) -> (r: &'static str)
        ensures
            r@ == self.name(),
    {
        match self {
            Extension::FragmentShadingRate => "VK_KHR_fragment_shading_rate",
            Extension::CreateRenderpass2 => "VK_KHR_create_renderpass2",
            Extension::Multiview => "VK_KHR_multiview",
            Extension::Maintenance2 => "VK_KHR_maintenance2",
        }
    }

    /// Whether the extension is part of an API version.
    pub fn core_in(self, api: u32) -> (r: bool)
        ensures
            r == self.is_core(api),
    {
        match self {
            Extension::FragmentShadingRate => false,
            Extension::CreateRenderpass2 => api >= ash::vk::make_api_version(0, 1, 2, 0),
            Extension::Multiview => api >= ash::vk::make_api_version(0, 1, 1, 0),
            Extension::Maintenance2 => api >= ash::vk::make_api_version(0, 1, 1, 0),
        }
    }
}

/// Whether a list of names holds a name.
pub open spec fn listed(names: Seq<Option<String>>, name: Seq<char>) -> bool {
    exists|i: int| 0 <= i < names.len() && (#[trigger] names[i]) is Some && names[i]->0@ == name
}

/// Whether a list of enabled extensions holds a name. A place of the list may
/// be empty.
pub fn device_has_extension(names: &Vec<Option<String>>, name: &str) -> (r: bool)
    ensures
        r == listed(names@, name@),
{
    let mut i: usize = 0;
    while i < names.len()
        invariant
            i <= names@.len(),
            forall|k: int|
                0 <= k < i ==> !((#[trigger] names@[k]) is Some && names@[k]->0@ == name@),
        decreases names@.len() - i,
    {
        match &names[i] {
            Some(n) => {
                if same_text(n.as_str(), name) {
                    return true;
                }
            },
            None => {},
        }
        i = i + 1;
    }
    false
}

/// What the layer learns, step by step, about a physical device.
pub enum VrsAnswer {
    /// Whether its instance is known.
    Instance(bool),
    /// The names of its extensions, if they could be listed.
    Extensions(Option<Vec<String>>),
    /// Whether it has the attachment feature.
    Feature(u32),
    /// The largest side of a shading-rate tile.
    Texel(Extent2),
}

/// What to ask next, or the outcome: the side of a tile, where the device can
/// have shading-rate attachments.
#[derive(Clone, Copy, Debug, PartialEq, Eq, Structural)]
pub enum VrsStep {
    AskExtensions,
    AskFeature,
    AskTexel,
    Settled(Option<Extent2>),
}

/// Whether a device's list of extensions holds a name.
pub open spec fn offered(names: Seq<String>, name: Seq<char>) -> bool {
    exists|i: int| 0 <= i < names.len() && (#[trigger] names[i])@ == name
}

/// What follows from an answer: without an instance, the extension, the feature, or a tile
/// with two positive sides, there are no shading-rate attachments.
pub open spec fn vrs_step(answer: VrsAnswer) -> VrsStep {
    match answer {
        VrsAnswer::Instance(known) => if known {
            VrsStep::AskExtensions
        } else {
            VrsStep::Settled(None)
        },
        VrsAnswer::Extensions(names) => if names is Some && offered(
            names->0@,
            Extension::FragmentShadingRate.name(),
        ) {
            VrsStep::AskFeature
        } else {
            VrsStep::Settled(None)
        },
        VrsAnswer::Feature(f) => if f == TRUE {
            VrsStep::AskTexel
        } else {
            VrsStep::Settled(None)
        },
        VrsAnswer::Texel(t) => if t.width == 0 || t.height == 0 {
            VrsStep::Settled(None)
        } else {
            VrsStep::Settled(Some(t))
        },
    }
}

fn offers(names: &Vec<String>, name: &str) -> (r: bool)
    ensures
        r == offered(names@, name@),
{
    let mut i: usize = 0;
    while i < names.len()
        invariant
            i <= names@.len(),
            forall|k: int| 0 <= k < i ==> (#[trigger] names@[k])@ != name@,
        decreases names@.len() - i,
    {
        if same_text(names[i].as_str(), name) {
            return true;
        }
        i = i + 1;
    }
    false
}

/// The next step of finding out whether a physical device can have
/// shading-rate attachments.
pub fn query_vrs(answer: &VrsAnswer) -> (r: VrsStep)
    ensures
        r == vrs_step(*answer),
{
    match answer {
        VrsAnswer::Instance(known) => if *known {
            VrsStep::AskExtensions
        } else {
            VrsStep::Settled(None)
        },
        VrsAnswer::Extensions(names) => match names {
            Some(list) => if offers(list, "VK_KHR_fragment_shading_rate") {
                VrsStep::AskFeature
            } else {
                VrsStep::Settled(None)
            },
            None => VrsStep::Settled(None),
        },
        VrsAnswer::Feature(f) => if *f == TRUE {
            VrsStep::AskTexel
        } else {
            VrsStep::Settled(None)
        },
        VrsAnswer::Texel(t) => if t.width == 0 || t.height == 0 {
            VrsStep::Settled(None)
        } else {
            VrsStep::Settled(Some(*t))
        },
    }
}

/// An extension, as a list of one where it is missing and of none elsewhere.
pub open spec fn if_missing(e: Extension, enabled: Seq<Option<String>>, api: u32) -> Seq<
    Extension,
> {
    if !e.is_core(api) && !listed(enabled, e.name()) {
        seq![e]
    } else {
        Seq::empty()
    }
}

/// Whether the layer turns shading-rate attachments on: the device can have
/// them, the layer is not switched off, and the application has not turned
/// them on itself.
pub open spec fn turned_on(
    caps: Option<Extent2>,
    kill: bool,
    enabled: Seq<Option<String>>,
) -> bool {
    caps is Some && !kill && !listed(enabled, Extension::FragmentShadingRate.name())
}

/// The extensions that the layer adds to those that the application enabled.
pub open spec fn added(
    caps: Option<Extent2>,
    kill: bool,
    enabled: Seq<Option<String>>,
    api: u32,
) -> Seq<Extension> {
    if turned_on(caps, kill, enabled) {
        seq![Extension::FragmentShadingRate] + if_missing(
            Extension::CreateRenderpass2,
            enabled,
            api,
        ) + if_missing(Extension::Multiview, enabled, api) + if_missing(
            Extension::Maintenance2,
            enabled,
            api,
        )
    } else {
        Seq::empty()
    }
}

/// The extensions to add to those that the application enabled, in order. The
/// attachment feature is turned on exactly where the list is not empty.
pub fn added_extensions(
    caps: Option<Extent2>,
    kill: bool,
    enabled: &Vec<Option<String>>,
    api: u32,
) -> (r: Vec<Extension>)
    ensures
        r@ == added(caps, kill, enabled@, api),
        r@.len() > 0 <==> turned_on(caps, kill, enabled@),
{
    let mut out: Vec<Extension> = Vec::new();
    if caps.is_none() || kill || device_has_extension(
        enabled,
        Extension::FragmentShadingRate.text(),
    ) {
        return out;
    }
    out.push(Extension::FragmentShadingRate);
    let e: Extension = Extension::CreateRenderpass2;
    if !e.core_in(api) && !device_has_extension(enabled, e.text()) {
        out.push(e);
    }
    let e: Extension = Extension::Multiview;
    if !e.core_in(api) && !device_has_extension(enabled, e.text()) {
        out.push(e);
    }
    let e: Extension = Extension::Maintenance2;
    if !e.core_in(api) && !device_has_extension(enabled, e.text()) {
        out.push(e);
    }
    assert(out@ =~= added(caps, kill, enabled@, api));
    out
}

/// The name under which a device of an API version has the entry point that
/// makes a render pass of the second version.
pub open spec fn rp2_entry(api: u32) -> Seq<char> {
    if api >= api_1_2() {
        "vkCreateRenderPass2"@
    } else {
        "vkCreateRenderPass2KHR"@
    }
}

/// The name under which a device of an API version has the entry point that
/// makes a render pass of the second version.
pub fn rp2_name(api: u32) -> (r: &'static str)
    ensures
        r@ == rp2_entry(api),
{
    if api >= ash::vk::make_api_version(0, 1, 2, 0) {
        "vkCreateRenderPass2"
    } else {
        "vkCreateRenderPass2KHR"
    }
}

/// The API version that an application asks for.
pub open spec fn asked_api(asked: Option<u32>) -> u32 {
    match asked {
        Some(v) => if v == 0 {
            api_1_0()
        } else {
            v
        },
        None => api_1_0(),
    }
}

/// The API version that holds for a device.
pub open spec fn device_api(app_api: Option<u32>, gpu_api: u32) -> u32 {
    match app_api {
        Some(a) => if a <= gpu_api {
            a
        } else {
            gpu_api
        },
        None => api_1_0(),
    }
}

/// The first queue family that an application asks for.
pub open spec fn first_family(families: Seq<u32>) -> u32 {
    if families.len() == 0 {
        0
    } else {
        families[0]
    }
}

/// The API version that an application asks for: 1.0 where it says nothing or
/// 0.
pub fn app_api_version_raw(asked: Option<u32>) -> (r: u32)
    ensures
        r == asked_api(asked),
{
    let v: u32 = match asked {
        Some(v) => v,
        None => 0,
    };
    if v == 0 {
        ash::vk::make_api_version(0, 1, 0, 0)
    } else {
        v
    }
}

/// A version as text: its three parts in decimal, with dots between.
pub open spec fn version_text(v: u32) -> Seq<char> {
    crate::text::decimal(((v >> 22u32) & 0x7fu32) as nat) + "."@ + crate::text::decimal(
        ((v >> 12u32) & 0x3ffu32) as nat,
    ) + "."@ + crate::text::decimal((v & 0xfffu32) as nat)
}

/// The API version that an application asks for, as text: that of 0 where it
/// says nothing.
pub fn app_api_version(asked: Option<u32>) -> (r: String)
    ensures
        r@ == version_text(
            match asked {
                Some(v) => v,
                None => 0,
            },
        ),
{
    let v: u32 = match asked {
        Some(v) => v,
        None => 0,
    };
    let mut out: String = decimal_string(ash::vk::api_version_major(v) as u64);
    let minor: String = decimal_string(ash::vk::api_version_minor(v) as u64);
    let patch: String = decimal_string(ash::vk::api_version_patch(v) as u64);
    out.append(".");
    out.append(minor.as_str());
    out.append(".");
    out.append(patch.as_str());
    out
}

/// The API version that holds for a device: the lower of the application's and
/// the device's, and 1.0 where the instance is unknown.
pub fn effective_device_api(app_api: Option<u32>, gpu_api: u32) -> (r: u32)
    ensures
        r == device_api(app_api, gpu_api),
{
    match app_api {
        Some(a) => if a <= gpu_api {
            a
        } else {
            gpu_api
        },
        None => ash::vk::make_api_version(0, 1, 0, 0),
    }
}

/// The first queue family that an application asks for; 0 where it asks for
/// none.
pub fn first_queue_family(families: &Vec<u32>) -> (r: u32)
    ensures
        r == first_family(families@),
{
    if families.len() == 0 {
        0
    } else {
        families[0]
    }
}

/// What the layer does at a device's creation: the instance to ask for the
/// next layer's entry point, the API version that holds, the extensions to add,
/// and the queue family for its own work.
#[derive(Debug)]
pub struct DevicePlan {
    pub instance: u64,
    pub api: u32,
    pub added: Vec<Extension>,
    pub queue_family: u32,
}

/// Whether `r` is what the layer does at a device's creation.
pub open spec fn device_plan(
    owner: Option<(u64, u32)>,
    gpu_api: u32,
    caps: Option<Extent2>,
    kill: bool,
    enabled: Seq<Option<String>>,
    families: Seq<u32>,
    r: DevicePlan,
) -> bool {
    &&& r.instance == (match owner {
        Some(o) => o.0,
        None => 0,
    })
    &&& r.api == device_api(
        match owner {
            Some(o) => Some(o.1),
            None => None,
        },
        gpu_api,
    )
    &&& r.added@ == added(caps, kill, enabled, r.api)
    &&& r.queue_family == first_family(families)
}

/// What the layer does at a device's creation. `owner` is the instance of the
/// physical device and the API version that its application asked for; where
/// it is unknown the instance is 0. `caps` is the outcome of asking the
/// physical device, `kill` says whether the layer is switched off, `enabled` and
/// `families` are what the application asks for.
pub fn plan_device(
    owner: Option<(u64, u32)>,
    gpu_api: u32,
    caps: Option<Extent2>,
    kill: bool,
    enabled: &Vec<Option<String>>,
    families: &Vec<u32>,
) -> (r: DevicePlan)
    ensures
        device_plan(owner, gpu_api, caps, kill, enabled@, families@, r),
        r.added@ == added(caps, kill, enabled@, r.api),
        r.added@.len() > 0 <==> turned_on(caps, kill, enabled@),
{
    let (instance, app_api): (u64, Option<u32>) = match owner {
        Some(o) => (o.0, Some(o.1)),
        None => (0, None),
    };
    let api: u32 = effective_device_api(app_api, gpu_api);
    DevicePlan {
        instance,
        api,
        added: added_extensions(caps, kill, enabled, api),
        queue_family: first_queue_family(families),
    }
}

/// A name, or what stands for one that is missing.
pub open spec fn name_or(name: Option<String>, missing: Seq<char>) -> Seq<char> {
    match name {
        Some(n) => n@,
        None => missing,
    }
}

/// The name of an application, for the log.
pub fn app_name(name: Option<String>) -> (r: String)
    ensures
        r@ == name_or(name, "<none>"@),
{
    match name {
        Some(n) => n,
        None => "<none>".to_owned(),
    }
}

/// The name of a device, for the log.
pub fn gpu_name(name: Option<String>) -> (r: String)
    ensures
        r@ == name_or(name, "<unknown>"@),
{
    match name {
        Some(n) => n,
        None => "<unknown>".to_owned(),
    }
}

/// Where the layer turns shading-rate attachments on, each of the extensions
/// that they depend on is part of the device's API version, enabled by the
/// application, or added.
pub proof fn dependencies_are_met(
    caps: Option<Extent2>,
    kill: bool,
    enabled: Seq<Option<String>>,
    api: u32,
    e: Extension,
)
    requires
        turned_on(caps, kill, enabled),
    ensures
        e.is_core(api) || listed(enabled, e.name()) || added(caps, kill, enabled, api).contains(e),
{
    let a = seq![Extension::FragmentShadingRate];
    let b = if_missing(Extension::CreateRenderpass2, enabled, api);
    let c = if_missing(Extension::Multiview, enabled, api);
    let d = if_missing(Extension::Maintenance2, enabled, api);
    let all = added(caps, kill, enabled, api);
    assert(all == a + b + c + d);
    match e {
        Extension::FragmentShadingRate => {
            assert(all[0] == e);
        },
        Extension::CreateRenderpass2 => {
            if b.len() > 0 {
                assert(all[1] == e);
            }
        },
        Extension::Multiview => {
            if c.len() > 0 {
                assert(all[(a + b).len() as int] == e);
            }
        },
        Extension::Maintenance2 => {
            if d.len() > 0 {
                assert(all[(a + b + c).len() as int] == e);
            }
        },
    }
}

/// The layer adds no extension that the application has enabled, and none
/// twice.
pub proof fn nothing_is_enabled_twice(
    caps: Option<Extent2>,
    kill: bool,
    enabled: Seq<Option<String>>,
    api: u32,
    i: int,
)
    requires
        0 <= i < added(caps, kill, enabled, api).len(),
    ensures
        !listed(enabled, added(caps, kill, enabled, api)[i].name()),
        forall|j: int|
            0 <= j < added(caps, kill, enabled, api).len() && j != i ==> #[trigger] added(
                caps,
                kill,
                enabled,
                api,
            )[j] != added(caps, kill, enabled, api)[i],
{
    let a = seq![Extension::FragmentShadingRate];
    let b = if_missing(Extension::CreateRenderpass2, enabled, api);
    let c = if_missing(Extension::Multiview, enabled, api);
    let d = if_missing(Extension::Maintenance2, enabled, api);
    assert(added(caps, kill, enabled, api) == a + b + c + d);
}

/// Below 1.2 the entry point for render passes of the second version comes
/// from the extension, so a device with shading-rate attachments turned on by
/// the layer has it there.
pub proof fn render_pass_entry_is_there(
    caps: Option<Extent2>,
    kill: bool,
    enabled: Seq<Option<String>>,
    api: u32,
)
    requires
        turned_on(caps, kill, enabled),
        api < api_1_2(),
    ensures
        listed(enabled, Extension::CreateRenderpass2.name()) || added(caps, kill, enabled, api).contains(
            Extension::CreateRenderpass2,
        ),
{
    dependencies_are_met(caps, kill, enabled, api, Extension::CreateRenderpass2);
}

/// A shading-rate tile has two positive sides.
pub proof fn tiles_have_sides(answer: VrsAnswer, texel: Extent2)
    requires
        vrs_step(answer) == VrsStep::Settled(Some(texel)),
    ensures
        texel.width > 0,
        texel.height > 0,
{
}

/// The versions that matter, as packed numbers.
pub proof fn versions_are_packed()
    ensures
        api_1_0() == 0x40_0000,
        api_1_1() == 0x40_1000,
        api_1_2() == 0x40_2000,
{
    assert((0u32 << 29u32) | (1u32 << 22u32) | (0u32 << 12u32) | 0u32 == 0x40_0000u32)
        by (bit_vector);
    assert((0u32 << 29u32) | (1u32 << 22u32) | (1u32 << 12u32) | 0u32 == 0x40_1000u32)
        by (bit_vector);
    assert((0u32 << 29u32) | (1u32 << 22u32) | (2u32 << 12u32) | 0u32 == 0x40_2000u32)
        by (bit_vector);
}

/// Shading-rate attachments themselves are never part of an API version.
/// Multiview and the second maintenance extension are from 1.1 on, render
/// passes of the second version from 1.2 on.
pub proof fn extensions_become_core(api: u32)
    ensures
        !Extension::FragmentShadingRate.is_core(api),
        Extension::CreateRenderpass2.is_core(api) <==> api >= 0x40_2000,
        Extension::Multiview.is_core(api) <==> api >= 0x40_1000,
        Extension::Maintenance2.is_core(api) <==> api >= 0x40_1000,
{
    versions_are_packed();
}

/// An extension is listed exactly where some place of the list holds its name;
/// empty places do not count.
pub proof fn listed_names_are_found(names: Seq<Option<String>>, name: Seq<char>, i: int)
    ensures
        0 <= i < names.len() && names[i] is Some && names[i]->0@ == name ==> listed(names, name),
        (forall|j: int|
            0 <= j < names.len() ==> (#[trigger] names[j]) is None || names[j]->0@ != name)
            ==> !listed(names, name),
{
}

/// A physical device can have shading-rate attachments only where its instance
/// is known, it offers the extension, it has the feature, and its tiles have two
/// positive sides; each answer that says otherwise settles the matter, and the
/// last gives the side of a tile as the device reports it.
pub proof fn support_takes_every_answer(
    known: bool,
    names: Vec<String>,
    feature: u32,
    texel: Extent2,
    i: int,
)
    ensures
        vrs_step(VrsAnswer::Instance(false)) == VrsStep::Settled(None),
        vrs_step(VrsAnswer::Instance(true)) == VrsStep::AskExtensions,
        vrs_step(VrsAnswer::Extensions(None)) == VrsStep::Settled(None),
        0 <= i < names@.len() && names@[i]@ == "VK_KHR_fragment_shading_rate"@ ==> vrs_step(
            VrsAnswer::Extensions(Some(names)),
        ) == VrsStep::AskFeature,
        (forall|j: int|
            0 <= j < names@.len() ==> (#[trigger] names@[j])@ != "VK_KHR_fragment_shading_rate"@)
            ==> vrs_step(VrsAnswer::Extensions(Some(names))) == VrsStep::Settled(None),
        feature == 1 ==> vrs_step(VrsAnswer::Feature(feature)) == VrsStep::AskTexel,
        feature != 1 ==> vrs_step(VrsAnswer::Feature(feature)) == VrsStep::Settled(None),
        texel.width == 0 || texel.height == 0 ==> vrs_step(VrsAnswer::Texel(texel))
            == VrsStep::Settled(None),
        texel.width > 0 && texel.height > 0 ==> vrs_step(VrsAnswer::Texel(texel))
            == VrsStep::Settled(Some(texel)),
{
    if 0 <= i < names@.len() && names@[i]@ == "VK_KHR_fragment_shading_rate"@ {
        assert(offered(names@, Extension::FragmentShadingRate.name()));
    }
}

/// The layer turns shading-rate attachments on exactly where the device can
/// have them, it is not switched off, and the application has not; it then adds
/// the extension first, and nothing is added elsewhere.
pub proof fn attachments_are_turned_on_with_cause(
    caps: Option<Extent2>,
    kill: bool,
    enabled: Seq<Option<String>>,
    api: u32,
)
    ensures
        ({
            let on = caps is Some && !kill && !listed(enabled, "VK_KHR_fragment_shading_rate"@);
            let a = added(caps, kill, enabled, api);
            &&& turned_on(caps, kill, enabled) <==> on
            &&& on ==> a.len() > 0 && a[0] == Extension::FragmentShadingRate
            &&& !on ==> a.len() == 0
        }),
{
}

/// A dependency is added exactly where the layer turns shading-rate attachments
/// on, the API version does not have it, and the application has not enabled it.
pub proof fn missing_dependencies_are_added(
    caps: Option<Extent2>,
    kill: bool,
    enabled: Seq<Option<String>>,
    api: u32,
    e: Extension,
)
    requires
        e != Extension::FragmentShadingRate,
    ensures
        added(caps, kill, enabled, api).contains(e) <==> turned_on(caps, kill, enabled)
            && !e.is_core(api) && !listed(enabled, e.name()),
{
    let all = added(caps, kill, enabled, api);
    if turned_on(caps, kill, enabled) {
        dependencies_are_met(caps, kill, enabled, api, e);
        let a = seq![Extension::FragmentShadingRate];
        let b = if_missing(Extension::CreateRenderpass2, enabled, api);
        let c = if_missing(Extension::Multiview, enabled, api);
        let d = if_missing(Extension::Maintenance2, enabled, api);
        assert(all == a + b + c + d);
        if all.contains(e) {
            let i = choose|i: int| 0 <= i < all.len() && all[i] == e;
            assert(!e.is_core(api) && !listed(enabled, e.name()));
        }
    }
}

/// Below 1.2 the entry point has the extension's name, and the core name from
/// there on.
pub proof fn entry_name_follows_version(api: u32)
    ensures
        api < 0x40_2000 ==> rp2_entry(api) == "vkCreateRenderPass2KHR"@,
        api >= 0x40_2000 ==> rp2_entry(api) == "vkCreateRenderPass2"@,
{
    versions_are_packed();
}

/// The version that an application asks for counts, where it asks for one; the
/// version that holds for a device is neither above that nor above the device's
/// own, and is one of the two. Where the instance is unknown it is 1.0.
pub proof fn lower_version_holds(asked: u32, gpu_api: u32)
    ensures
        asked != 0 ==> asked_api(Some(asked)) == asked,
        asked_api(Some(0)) == 0x40_0000,
        asked_api(None) == 0x40_0000,
        device_api(Some(asked), gpu_api) <= asked,
        device_api(Some(asked), gpu_api) <= gpu_api,
        device_api(Some(asked), gpu_api) == asked || device_api(Some(asked), gpu_api) == gpu_api,
        device_api(None, gpu_api) == 0x40_0000,
{
    versions_are_packed();
}

/// The plan of a device's creation asks the physical device's own instance, or
/// 0 where it is unknown, goes by the lower of the two API versions, and submits
/// to the first queue family that the application asks for, or to 0.
pub proof fn device_plan_follows_its_parts(
    owner: Option<(u64, u32)>,
    gpu_api: u32,
    caps: Option<Extent2>,
    kill: bool,
    enabled: Seq<Option<String>>,
    families: Seq<u32>,
    r: DevicePlan,
)
    requires
        device_plan(owner, gpu_api, caps, kill, enabled, families, r),
    ensures
        owner is None ==> r.instance == 0 && r.api == 0x40_0000,
        owner matches Some(o) ==> r.instance == o.0,
        owner matches Some(o) ==> o.1 <= gpu_api ==> r.api == o.1,
        owner matches Some(o) ==> o.1 > gpu_api ==> r.api == gpu_api,
        families.len() == 0 ==> r.queue_family == 0,
        families.len() > 0 ==> r.queue_family == families[0],
        kill ==> r.added@.len() == 0,
        caps is None ==> r.added@.len() == 0,
        added(caps, kill, enabled, r.api) == r.added@,
{
    versions_are_packed();
}

/// The text of a version is its major, minor and patch number, with dots
/// between.
pub proof fn version_text_has_three_parts(major: u32, minor: u32, patch: u32)
    requires
        major < 0x80,
        minor < 0x400,
        patch < 0x1000,
    ensures
        version_text(crate::vk::packed_version(0, major, minor, patch)) == crate::text::decimal(
            major as nat,
        ) + "."@ + crate::text::decimal(minor as nat) + "."@ + crate::text::decimal(patch as nat),
{
    let v = crate::vk::packed_version(0, major, minor, patch);
    assert((v >> 22u32) & 0x7fu32 == major && (v >> 12u32) & 0x3ffu32 == minor && v & 0xfffu32
        == patch) by (bit_vector)
        requires
            major < 0x80,
            minor < 0x400,
            patch < 0x1000,
            v == (0u32 << 29u32) | (major << 22u32) | (minor << 12u32) | patch,
    ;
}

/// A name that is there is given as it is, and only a missing one is replaced.
pub proof fn names_are_given(name: String, missing: Seq<char>)
    ensures
        name_or(Some(name), missing) == name@,
        name_or(None, missing) == missing,
{
}

} // verus!
