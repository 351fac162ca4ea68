//! The OpenXR layer: which calls it takes, what it keeps of instances,
//! sessions and swapchains, and what it publishes of a frame.
//!
//! Handles and entry points are plain numbers.

use crate::dispatch::get_copied;
use crate::table::{drop_children, Owned};
use crate::text::same_text;
use crate::wire::{FalloffParams, FoveationDesc, FFR_SHARED_MAGIC, FFR_SHARED_VERSION};
use std::collections::HashMap;
use vstd::prelude::*;
use vstd::string::*;

verus! {

broadcast use vstd::std_specs::hash::group_hash_axioms;

pub const XR_SUCCESS: i32 = 0;

pub const XR_ERROR_VALIDATION_FAILURE: i32 = -1;

pub const XR_ERROR_INITIALIZATION_FAILED: i32 = -6;

pub const XR_ERROR_FUNCTION_UNSUPPORTED: i32 = -7;

pub const XR_ERROR_HANDLE_INVALID: i32 = -12;

pub const TYPE_COMPOSITION_LAYER_PROJECTION: i32 = 35;

pub const TYPE_GRAPHICS_BINDING_VULKAN: i32 = 1_000_025_000;

pub const TYPE_SWAPCHAIN_IMAGE_VULKAN: i32 = 1_000_025_001;

/// The version of the loader's interface that the layer speaks.
pub const XR_CURRENT_LOADER_API_LAYER_VERSION: u32 = 1;

/// The type of the loader's description of itself.
pub const XR_LOADER_INTERFACE_STRUCT_LOADER_INFO: i32 = 1;

/// The type of the request that a layer fills in.
pub const XR_LOADER_INTERFACE_STRUCT_API_LAYER_REQUEST: i32 = 2;

/// The density that goes with a heartbeat: 42.5 pixels per degree.
pub const HEARTBEAT_PPD: u32 = 0x422a_0000;

/// What a loader says of itself.
#[derive(Clone, Copy, Debug, PartialEq, Eq, Structural)]
pub struct LoaderInfo {
    pub struct_type: i32,
    pub min_interface_version: u32,
    pub max_interface_version: u32,
}

/// Whether the layer can work with a loader.
pub open spec fn acceptable(loader: Option<LoaderInfo>, request_type: Option<i32>) -> bool {
    match (loader, request_type) {
        (Some(l), Some(t)) => {
            &&& l.struct_type == XR_LOADER_INTERFACE_STRUCT_LOADER_INFO
            &&& l.min_interface_version <= XR_CURRENT_LOADER_API_LAYER_VERSION
            &&& XR_CURRENT_LOADER_API_LAYER_VERSION <= l.max_interface_version
            &&& t == XR_LOADER_INTERFACE_STRUCT_API_LAYER_REQUEST
        },
        _ => false,
    }
}

/// The interface version to agree on with a loader, or the error.
pub open spec fn agreed(loader: Option<LoaderInfo>, request_type: Option<i32>) -> Result<
    u32,
    i32,
> {
    if acceptable(loader, request_type) {
        Ok(XR_CURRENT_LOADER_API_LAYER_VERSION)
    } else {
        Err(XR_ERROR_INITIALIZATION_FAILED)
    }
}

/// The interface version to agree on with a loader, or the error. Both
/// structures have to be there and of the right type, and the loader has to
/// speak the layer's version.
pub fn negotiate(loader: Option<LoaderInfo>, request_type: Option<i32>) -> (r: Result<u32, i32>)
    ensures
        r == agreed(loader, request_type),
{
    match (loader, request_type) {
        (Some(l), Some(t)) => {
            if l.struct_type != XR_LOADER_INTERFACE_STRUCT_LOADER_INFO
                || XR_CURRENT_LOADER_API_LAYER_VERSION < l.min_interface_version
                || XR_CURRENT_LOADER_API_LAYER_VERSION > l.max_interface_version {
                return Err(XR_ERROR_INITIALIZATION_FAILED);
            }
            if t != XR_LOADER_INTERFACE_STRUCT_API_LAYER_REQUEST {
                return Err(XR_ERROR_INITIALIZATION_FAILED);
            }
            Ok(XR_CURRENT_LOADER_API_LAYER_VERSION)
        },
        _ => Err(XR_ERROR_INITIALIZATION_FAILED),
    }
}

/// The entry points of the next layer that creation needs.
#[derive(Clone, Copy, Debug, PartialEq, Eq, Structural)]
pub struct NextInfo {
    pub get_instance_proc_addr: Option<u64>,
    pub create_api_layer_instance: Option<u64>,
}

/// The two entry points of the next layer, if both are there.
pub open spec fn next_entries(next: Option<NextInfo>) -> Result<(u64, u64), i32> {
    match next {
        Some(n) => match (n.get_instance_proc_addr, n.create_api_layer_instance) {
            (Some(g), Some(c)) => Ok((g, c)),
            _ => Err(XR_ERROR_INITIALIZATION_FAILED),
        },
        None => Err(XR_ERROR_INITIALIZATION_FAILED),
    }
}

/// How to create an instance in the next layer: through its two entry points,
/// the one that finds others and the one that creates, if both are there.
pub fn next_layer(next: Option<NextInfo>) -> (r: Result<(u64, u64), i32>)
    ensures
        r == next_entries(next),
{
    match next {
        Some(n) => match (n.get_instance_proc_addr, n.create_api_layer_instance) {
            (Some(g), Some(c)) => Ok((g, c)),
            _ => Err(XR_ERROR_INITIALIZATION_FAILED),
        },
        None => Err(XR_ERROR_INITIALIZATION_FAILED),
    }
}

/// An entry point that the next layer was asked for.
pub open spec fn answered(code: i32, function: Option<u64>) -> Option<u64> {
    if code == XR_SUCCESS {
        function
    } else {
        None
    }
}

/// The name of a runtime, for the log.
pub open spec fn runtime_text(code: i32, name: Option<Seq<char>>) -> Seq<char> {
    if code == XR_SUCCESS && name is Some {
        name->0
    } else {
        "<unknown>"@
    }
}

/// The number of the heartbeat that follows an instance's creation.
pub open spec fn next_beat(code: i32, heartbeat: u64) -> Option<int> {
    if code == XR_SUCCESS {
        Some(heartbeat + 1)
    } else {
        None
    }
}

/// An entry point that the next layer was asked for; it has none where it
/// reports an error or leaves it empty.
pub fn resolve(code: i32, function: Option<u64>) -> (r: Option<u64>)
    ensures
        r == answered(code, function),
{
    if code == XR_SUCCESS {
        function
    } else {
        None
    }
}

/// The name of a runtime, for the log.
pub fn runtime_name(code: i32, name: Option<String>) -> (r: String)
    ensures
        r@ == runtime_text(
            code,
            match name {
                Some(n) => Some(n@),
                None => None,
            },
        ),
{
    if code == XR_SUCCESS {
        match name {
            Some(n) => n,
            None => "<unknown>".to_owned(),
        }
    } else {
        "<unknown>".to_owned()
    }
}

/// The calls that the layer takes.
#[derive(Clone, Copy, Debug, PartialEq, Eq, Structural)]
pub enum XrHook {
    DestroyInstance,
    CreateSession,
    DestroySession,
    CreateSwapchain,
    DestroySwapchain,
    EnumerateSwapchainImages,
    EndFrame,
}

impl XrHook {
    /// The name of the call.
    pub open spec fn name(self) -> Seq<char> {
        match self {
            XrHook::DestroyInstance => "xrDestroyInstance"@,
            XrHook::CreateSession => "xrCreateSession"@,
            XrHook::DestroySession => "xrDestroySession"@,
            XrHook::CreateSwapchain => "xrCreateSwapchain"@,
            XrHook::DestroySwapchain => "xrDestroySwapchain"@,
            XrHook::EnumerateSwapchainImages => "xrEnumerateSwapchainImages"@,
            XrHook::EndFrame => "xrEndFrame"@,
        }
    }

    /// The call of a name.
    pub open spec fn of_name(s: Seq<char>) -> Option<XrHook> {
        if s == XrHook::DestroyInstance.name() {
            Some(XrHook::DestroyInstance)
        } else if s == XrHook::CreateSession.name() {
            Some(XrHook::CreateSession)
        } else if s == XrHook::DestroySession.name() {
            Some(XrHook::DestroySession)
        } else if s == XrHook::CreateSwapchain.name() {
            Some(XrHook::CreateSwapchain)
        } else if s == XrHook::DestroySwapchain.name() {
            Some(XrHook::DestroySwapchain)
        } else if s == XrHook::EnumerateSwapchainImages.name() {
            Some(XrHook::EnumerateSwapchainImages)
        } else if s == XrHook::EndFrame.name() {
            Some(XrHook::EndFrame)
        } else {
            None
        }
    }

    /// The call of a name, if the layer takes it.
    pub fn find(name: &str) -> (r: Option<XrHook>)
        ensures
            r == XrHook::of_name(name@),
    {
        if same_text(name, "xrDestroyInstance") {
            Some(XrHook::DestroyInstance)
        } else if same_text(name, "xrCreateSession") {
            Some(XrHook::CreateSession)
        } else if same_text(name, "xrDestroySession") {
            Some(XrHook::DestroySession)
        } else if same_text(name, "xrCreateSwapchain") {
            Some(XrHook::CreateSwapchain)
        } else if same_text(name, "xrDestroySwapchain") {
            Some(XrHook::DestroySwapchain)
        } else if same_text(name, "xrEnumerateSwapchainImages") {
            Some(XrHook::EnumerateSwapchainImages)
        } else if same_text(name, "xrEndFrame") {
            Some(XrHook::EndFrame)
        } else {
            None
        }
    }
}

/// Where a request for an entry point goes.
#[derive(Clone, Copy, Debug, PartialEq, Eq, Structural)]
pub enum XrRoute {
    /// To the layer itself.
    Hook(XrHook),
    /// To the next layer, through this entry point.
    Next(u64),
    /// Nowhere; the request fails with this code.
    Fail(i32),
}

/// An instance: the entry points of the next layer.
#[derive(Clone, Copy, Debug, PartialEq, Eq, Structural)]
pub struct XrInstanceData {
    pub next_gipa: u64,
    pub destroy_instance: Option<u64>,
    pub create_session: Option<u64>,
    pub destroy_session: Option<u64>,
    pub create_swapchain: Option<u64>,
    pub destroy_swapchain: Option<u64>,
    pub enumerate_swapchain_images: Option<u64>,
    pub end_frame: Option<u64>,
}

/// A session: its instance, and the Vulkan device it renders on.
#[derive(Clone, Copy, Debug, PartialEq, Eq, Structural)]
pub struct SessionData {
    pub instance: u64,
    pub vk_device: u64,
}

/// A swapchain: its instance, its Vulkan device, the format of its images, and
/// the images once they are known.
#[derive(Debug)]
pub struct SwapchainData {
    pub instance: u64,
    pub vk_device: u64,
    pub vk_format: i32,
    pub images: Vec<u64>,
}

impl Owned for SessionData {
    open spec fn parent(&self) -> u64 {
        self.instance
    }

    fn parent_handle(&self) -> (r: u64) {
        self.instance
    }
}

impl Owned for SwapchainData {
    open spec fn parent(&self) -> u64 {
        self.instance
    }

    fn parent_handle(&self) -> (r: u64) {
        self.instance
    }
}

/// A structure of a session's creation chain. `device` is that of a Vulkan
/// binding, and 0 for every other type.
#[derive(Clone, Copy, Debug, PartialEq, Eq, Structural)]
pub struct SessionExtension {
    pub ty: i32,
    pub device: u64,
}

/// The device of the first Vulkan binding of a chain; 0 where there is none.
pub open spec fn bound_device(chain: Seq<SessionExtension>, from: int) -> u64
    decreases chain.len() - from,
{
    if from < 0 || from >= chain.len() {
        0
    } else if chain[from].ty == TYPE_GRAPHICS_BINDING_VULKAN {
        chain[from].device
    } else {
        bound_device(chain, from + 1)
    }
}

/// The Vulkan device that a session is bound to; 0 where it is to none.
pub fn find_vk_device(chain: &Vec<SessionExtension>) -> (r: u64)
    ensures
        r == bound_device(chain@, 0),
{
    let mut i: usize = 0;
    while i < chain.len()
        invariant
            i <= chain@.len(),
            bound_device(chain@, 0) == bound_device(chain@, i as int),
        decreases chain@.len() - i,
    {
        if chain[i].ty == TYPE_GRAPHICS_BINDING_VULKAN {
            return chain[i].device;
        }
        i = i + 1;
    }
    0
}

/// The images that an enumeration wrote out, with the type of the first.
#[derive(Debug)]
pub struct ImageList {
    pub ty: i32,
    pub images: Vec<u64>,
}

/// Whether an enumeration says what a swapchain's images are.
pub open spec fn images_known(code: i32, capacity: u32, listed: Option<ImageList>) -> bool {
    &&& code == XR_SUCCESS
    &&& capacity > 0
    &&& listed is Some
    &&& listed->0.images@.len() > 0
    &&& listed->0.ty == TYPE_SWAPCHAIN_IMAGE_VULKAN
}

/// One eye's part of a projection layer: the swapchain and the part of its
/// image, and the optical centre and densities there.
#[derive(Clone, Copy, Debug, PartialEq, Eq, Structural)]
pub struct FrameView {
    pub swapchain: u64,
    pub image_array_index: u32,
    pub rect_x: i32,
    pub rect_y: i32,
    pub rect_w: i32,
    pub rect_h: i32,
    pub center_px_x: u32,
    pub center_px_y: u32,
    pub ppd_center_h: u32,
    pub ppd_center_v: u32,
}

/// A layer of a frame. Only a projection layer has views here.
#[derive(Debug)]
pub struct FrameLayer {
    pub ty: i32,
    pub views: Vec<FrameView>,
}

/// An extent that is at least one pixel.
pub open spec fn at_least_one(extent: i32) -> u32 {
    if extent < 1 {
        1
    } else {
        extent as u32
    }
}

/// The extent that is published for one of a frame: at least one pixel.
pub fn rect_extent(extent: i32) -> (r: u32)
    ensures
        r == at_least_one(extent),
{
    if extent < 1 {
        1
    } else {
        extent as u32
    }
}

/// The views of a frame that are looked at, each with its eye: those of its
/// projection layers, layer by layer. A place of the list may be empty.
pub open spec fn views_of(layers: Seq<Option<FrameLayer>>) -> Seq<(u32, FrameView)>
    decreases layers.len(),
{
    if layers.len() == 0 {
        Seq::empty()
    } else {
        views_of(layers.drop_last()) + layer_views(layers.last())
    }
}

/// The views of one layer, each with its eye, which is its place.
pub open spec fn layer_views(layer: Option<FrameLayer>) -> Seq<(u32, FrameView)> {
    match layer {
        Some(l) => if l.ty == TYPE_COMPOSITION_LAYER_PROJECTION {
            Seq::new(l.views@.len(), |i: int| (i as u32, l.views@[i]))
        } else {
            Seq::empty()
        },
        None => Seq::empty(),
    }
}

/// The views of a frame that are looked at, each with its eye.
pub fn frame_views(layers: &Vec<Option<FrameLayer>>) -> (r: Vec<(u32, FrameView)>)
    ensures
        r@ == views_of(layers@),
{
    let mut out: Vec<(u32, FrameView)> = Vec::new();
    let mut i: usize = 0;
    assert(layers@.take(0) =~= Seq::<Option<FrameLayer>>::empty());
    while i < layers.len()
        invariant
            i <= layers@.len(),
            out@ == views_of(layers@.take(i as int)),
        decreases layers@.len() - i,
    {
        let ghost before = out@;
        match &layers[i] {
            Some(l) => {
                if l.ty == TYPE_COMPOSITION_LAYER_PROJECTION {
                    let mut v: usize = 0;
                    while v < l.views.len()
                        invariant
                            v <= l.views@.len(),
                            out@ == before + Seq::new(
                                v as nat,
                                |k: int| (k as u32, l.views@[k]),
                            ),
                        decreases l.views@.len() - v,
                    {
                        out.push((v as u32, l.views[v]));
                        assert(out@ =~= before + Seq::new(
                            (v + 1) as nat,
                            |k: int| (k as u32, l.views@[k]),
                        ));
                        v = v + 1;
                    }
                }
            },
            None => {},
        }
        proof {
            assert(layers@.take(i + 1).drop_last() =~= layers@.take(i as int));
            assert(out@ =~= before + layer_views(layers@[i as int]));
        }
        i = i + 1;
    }
    assert(layers@.take(layers@.len() as int) =~= layers@);
    out
}

/// Whether a view is published: its swapchain is known, is on a Vulkan device,
/// and has images.
pub open spec fn shown(swapchains: Map<u64, SwapchainData>, view: FrameView) -> bool {
    &&& swapchains.contains_key(view.swapchain)
    &&& swapchains[view.swapchain].vk_device != 0
    &&& swapchains[view.swapchain].images@.len() > 0
}

/// Whether `d` is the record of a view for one image of its swapchain.
pub open spec fn record_of(
    swapchain: SwapchainData,
    image: u64,
    eye: u32,
    view: FrameView,
    generation: u64,
    d: FoveationDesc,
) -> bool {
    &&& d.valid()
    &&& d.vk_device == swapchain.vk_device
    &&& d.vk_image == image
    &&& d.image_array_index == view.image_array_index
    &&& d.eye == eye
    &&& d.vk_format == swapchain.vk_format
    &&& d._pad2 == 0
    &&& d.rect_x == view.rect_x
    &&& d.rect_y == view.rect_y
    &&& d.rect_w == at_least_one(view.rect_w)
    &&& d.rect_h == at_least_one(view.rect_h)
    &&& d.center_px_x == view.center_px_x
    &&& d.center_px_y == view.center_px_y
    &&& d.ppd_center_h == view.ppd_center_h
    &&& d.ppd_center_v == view.ppd_center_v
    &&& d.falloff.standard()
    &&& d.generation == generation
}

/// Whether `ds` are the records of a view: one for each image of its
/// swapchain, in order, and none where the view is not published.
pub open spec fn records_of_view(
    swapchains: Map<u64, SwapchainData>,
    eye: u32,
    view: FrameView,
    generation: u64,
    ds: Seq<FoveationDesc>,
) -> bool {
    if shown(swapchains, view) {
        let s = swapchains[view.swapchain];
        &&& ds.len() == s.images@.len()
        &&& forall|i: int|
            0 <= i < ds.len() ==> record_of(
                s,
                s.images@[i],
                eye,
                view,
                generation,
                #[trigger] ds[i],
            )
    } else {
        ds.len() == 0
    }
}

/// Whether `r` are the records of a frame, view by view, where the first view
/// has the generation `g`.
pub open spec fn records_of_frame(
    swapchains: Map<u64, SwapchainData>,
    views: Seq<(u32, FrameView)>,
    g: u64,
    r: Seq<Vec<FoveationDesc>>,
) -> bool {
    &&& r.len() == views.len()
    &&& forall|i: int|
        0 <= i < r.len() ==> records_of_view(
            swapchains,
            views[i].0,
            views[i].1,
            generation_at(swapchains, views, g, i),
            (#[trigger] r[i])@,
        )
}

/// The next generation.
pub open spec fn next_generation(g: u64) -> u64 {
    if g == u64::MAX {
        0
    } else {
        (g + 1) as u64
    }
}

/// The generation of the view at `i`, where the first has `g`: every view that
/// is published takes one.
pub open spec fn generation_at(
    swapchains: Map<u64, SwapchainData>,
    views: Seq<(u32, FrameView)>,
    g: u64,
    i: int,
) -> u64
    decreases i,
{
    if i <= 0 {
        g
    } else {
        let before = generation_at(swapchains, views, g, i - 1);
        if shown(swapchains, views[i - 1].1) {
            next_generation(before)
        } else {
            before
        }
    }
}

/// The instances, sessions and swapchains that the layer has seen created, and
/// its counters.
pub struct XrLayer {
    pub instances: HashMap<u64, XrInstanceData>,
    pub sessions: HashMap<u64, SessionData>,
    pub swapchains: HashMap<u64, SwapchainData>,
    pub generation: u64,
    pub heartbeat: u64,
}

impl XrInstanceData {
    /// The next layer's entry point for a call that the layer takes.
    pub open spec fn next(self, call: XrHook) -> Option<u64> {
        match call {
            XrHook::DestroyInstance => self.destroy_instance,
            XrHook::CreateSession => self.create_session,
            XrHook::DestroySession => self.destroy_session,
            XrHook::CreateSwapchain => self.create_swapchain,
            XrHook::DestroySwapchain => self.destroy_swapchain,
            XrHook::EnumerateSwapchainImages => self.enumerate_swapchain_images,
            XrHook::EndFrame => self.end_frame,
        }
    }
}

/// The next layer's entry point for a call on an instance, if the instance is
/// known and has it.
pub open spec fn entry_point(
    instances: Map<u64, XrInstanceData>,
    instance: u64,
    call: XrHook,
) -> Option<u64> {
    match crate::dispatch::entry(instances, instance) {
        Some(d) => d.next(call),
        None => None,
    }
}

/// An entry point, or the error of a handle without one.
pub open spec fn or_invalid(f: Option<u64>) -> Result<u64, i32> {
    match f {
        Some(f) => Ok(f),
        None => Err(XR_ERROR_HANDLE_INVALID),
    }
}

/// The instances after one was created, or was not.
pub open spec fn with_instance(
    instances: Map<u64, XrInstanceData>,
    code: i32,
    instance: u64,
    data: XrInstanceData,
) -> Map<u64, XrInstanceData> {
    if code == XR_SUCCESS {
        instances.insert(instance, data)
    } else {
        instances
    }
}

/// The sessions after one was created, or was not.
pub open spec fn with_session(
    sessions: Map<u64, SessionData>,
    code: i32,
    session: u64,
    instance: u64,
    chain: Option<Vec<SessionExtension>>,
) -> Map<u64, SessionData> {
    if code == XR_SUCCESS {
        sessions.insert(
            session,
            SessionData {
                instance,
                vk_device: match chain {
                    Some(c) => bound_device(c@, 0),
                    None => 0,
                },
            },
        )
    } else {
        sessions
    }
}

/// Whether `after` are the swapchains after one was created, or was not.
pub open spec fn swapchain_noted(
    before: Map<u64, SwapchainData>,
    after: Map<u64, SwapchainData>,
    code: i32,
    swapchain: u64,
    owner: SessionData,
    vk_format: i32,
) -> bool {
    if code == XR_SUCCESS {
        let s = after[swapchain];
        &&& after == before.insert(swapchain, s)
        &&& s.instance == owner.instance
        &&& s.vk_device == owner.vk_device
        &&& s.vk_format == vk_format
        &&& s.images@.len() == 0
    } else {
        after == before
    }
}

/// Whether `after` are the swapchains after the images of one were enumerated.
pub open spec fn images_noted(
    before: Map<u64, SwapchainData>,
    after: Map<u64, SwapchainData>,
    swapchain: u64,
    code: i32,
    capacity: u32,
    listed: Option<ImageList>,
) -> bool {
    if images_known(code, capacity, listed) && before.contains_key(swapchain) {
        let s = after[swapchain];
        &&& after == before.insert(swapchain, s)
        &&& s.instance == before[swapchain].instance
        &&& s.vk_device == before[swapchain].vk_device
        &&& s.vk_format == before[swapchain].vk_format
        &&& s.images@ == listed->0.images@
    } else {
        after == before
    }
}

/// The generation after a view was looked at.
pub open spec fn generation_after(
    swapchains: Map<u64, SwapchainData>,
    view: FrameView,
    g: u64,
) -> u64 {
    if shown(swapchains, view) {
        next_generation(g)
    } else {
        g
    }
}

/// The instance and the device of a session; both are 0 where it is unknown.
pub open spec fn owner_of(sessions: Map<u64, SessionData>, session: u64) -> SessionData {
    match crate::dispatch::entry(sessions, session) {
        Some(s) => s,
        None => SessionData { instance: 0, vk_device: 0 },
    }
}

impl XrLayer {
    pub fn new() -> (r: Self)
        ensures
            r.instances@ == Map::<u64, XrInstanceData>::empty(),
            r.sessions@ == Map::<u64, SessionData>::empty(),
            r.swapchains@ == Map::<u64, SwapchainData>::empty(),
            r.generation == 0,
            r.heartbeat == 0,
    {
        XrLayer {
            instances: HashMap::new(),
            sessions: HashMap::new(),
            swapchains: HashMap::new(),
            generation: 0,
            heartbeat: 0,
        }
    }

    /// Note the outcome of an instance's creation. A success is followed by
    /// the next heartbeat, whose number is given.
    pub fn xr_create_api_layer_instance(
        &mut self,
        code: i32,
        instance: u64,
        data: XrInstanceData,
    ) -> (r: Option<u64>)
        requires
            old(self).heartbeat < u64::MAX,
        ensures
            r is Some <==> next_beat(code, old(self).heartbeat) is Some,
            r matches Some(n) ==> Some(n as int) == next_beat(code, old(self).heartbeat),
            final(self).instances@ == with_instance(old(self).instances@, code, instance, data),
            final(self).heartbeat == (match next_beat(code, old(self).heartbeat) {
                Some(n) => n,
                None => old(self).heartbeat as int,
            }),
            final(self).sessions@ == old(self).sessions@,
            final(self).swapchains@ == old(self).swapchains@,
            final(self).generation == old(self).generation,
    {
        if code != XR_SUCCESS {
            return None;
        }
        self.instances.insert(instance, data);
        self.heartbeat = self.heartbeat + 1;
        Some(self.heartbeat)
    }

    /// Where a request for an entry point goes. It is not valid without a name
    /// and a place for the answer.
    pub open spec fn route(
        self,
        instance: u64,
        name: Option<Seq<char>>,
        has_place: bool,
    ) -> XrRoute {
        match name {
            Some(n) => if has_place {
                match XrHook::of_name(n) {
                    Some(h) => XrRoute::Hook(h),
                    None => match crate::dispatch::entry(self.instances@, instance) {
                        Some(d) => XrRoute::Next(d.next_gipa),
                        None => XrRoute::Fail(XR_ERROR_FUNCTION_UNSUPPORTED),
                    },
                }
            } else {
                XrRoute::Fail(XR_ERROR_VALIDATION_FAILURE)
            },
            None => XrRoute::Fail(XR_ERROR_VALIDATION_FAILURE),
        }
    }

    /// Where a request for an entry point goes.
    pub fn xr_get_instance_proc_addr(
        &self,
        instance: u64,
        name: Option<&str>,
        has_place: bool,
    ) -> (r: XrRoute)
        ensures
            r == self.route(
                instance,
                match name {
                    Some(n) => Some(n@),
                    None => None,
                },
                has_place,
            ),
    {
        match name {
            Some(n) => {
                if !has_place {
                    return XrRoute::Fail(XR_ERROR_VALIDATION_FAILURE);
                }
                match XrHook::find(n) {
                    Some(h) => XrRoute::Hook(h),
                    None => match get_copied(&self.instances, instance) {
                        Some(d) => XrRoute::Next(d.next_gipa),
                        None => XrRoute::Fail(XR_ERROR_FUNCTION_UNSUPPORTED),
                    },
                }
            },
            None => XrRoute::Fail(XR_ERROR_VALIDATION_FAILURE),
        }
    }

    /// The entry point that destroys an instance in the next layer.
    pub open spec fn instance_destroyer(self, instance: u64) -> Option<u64> {
        entry_point(self.instances@, instance, XrHook::DestroyInstance)
    }

    /// How to create a session in the next layer.
    pub open spec fn creator_of_sessions(self, instance: u64) -> Result<u64, i32> {
        or_invalid(entry_point(self.instances@, instance, XrHook::CreateSession))
    }

    /// The entry point that destroys a session in the next layer.
    pub open spec fn session_destroyer(self, session: u64) -> Option<u64> {
        match crate::dispatch::entry(self.sessions@, session) {
            Some(s) => entry_point(self.instances@, s.instance, XrHook::DestroySession),
            None => None,
        }
    }

    /// The owner of a session's swapchains, and how to create one in the next
    /// layer.
    pub open spec fn creator_of_swapchains(self, session: u64) -> Result<(SessionData, u64), i32> {
        let owner = owner_of(self.sessions@, session);
        match entry_point(self.instances@, owner.instance, XrHook::CreateSwapchain) {
            Some(f) => Ok((owner, f)),
            None => Err(XR_ERROR_HANDLE_INVALID),
        }
    }

    /// The entry point that destroys a swapchain in the next layer.
    pub open spec fn swapchain_destroyer(self, swapchain: u64) -> Option<u64> {
        match crate::dispatch::entry(self.swapchains@, swapchain) {
            Some(s) => entry_point(self.instances@, s.instance, XrHook::DestroySwapchain),
            None => None,
        }
    }

    /// How to enumerate a swapchain's images in the next layer.
    pub open spec fn enumerator_of_images(self, swapchain: u64) -> Result<u64, i32> {
        or_invalid(
            entry_point(
                self.instances@,
                match crate::dispatch::entry(self.swapchains@, swapchain) {
                    Some(s) => s.instance,
                    None => 0,
                },
                XrHook::EnumerateSwapchainImages,
            ),
        )
    }

    /// How to end a session's frame in the next layer.
    pub open spec fn ender_of_frames(self, session: u64) -> Result<u64, i32> {
        match crate::dispatch::entry(self.sessions@, session) {
            Some(s) => or_invalid(entry_point(self.instances@, s.instance, XrHook::EndFrame)),
            None => Err(XR_ERROR_HANDLE_INVALID),
        }
    }

    /// Forget an instance with its sessions and swapchains. The entry point
    /// destroys it in the next layer; without one there is nothing more to do.
    pub fn xr_destroy_instance(&mut self, instance: u64) -> (r: Option<u64>)
        ensures
            r == old(self).instance_destroyer(instance),
            final(self).instances@ == old(self).instances@.remove(instance),
            final(self).sessions@ == crate::table::without_children(
                old(self).sessions@,
                instance,
            ),
            final(self).swapchains@ == crate::table::without_children(
                old(self).swapchains@,
                instance,
            ),
            final(self).generation == old(self).generation,
            final(self).heartbeat == old(self).heartbeat,
    {
        drop_children(&mut self.swapchains, instance);
        drop_children(&mut self.sessions, instance);
        match self.instances.remove(&instance) {
            Some(d) => d.destroy_instance,
            None => None,
        }
    }

    /// How to create a session in the next layer.
    pub fn session_creator(&self, instance: u64) -> (r: Result<u64, i32>)
        ensures
            r == self.creator_of_sessions(instance),
    {
        match get_copied(&self.instances, instance) {
            Some(d) => match d.create_session {
                Some(f) => Ok(f),
                None => Err(XR_ERROR_HANDLE_INVALID),
            },
            None => Err(XR_ERROR_HANDLE_INVALID),
        }
    }

    /// Note the outcome of a session's creation, and pass the code on. The
    /// chain is missing where the application described no session.
    pub fn xr_create_session(
        &mut self,
        code: i32,
        session: u64,
        instance: u64,
        chain: &Option<Vec<SessionExtension>>,
    ) -> (r: i32)
        ensures
            r == code,
            final(self).sessions@ == with_session(
                old(self).sessions@,
                code,
                session,
                instance,
                *chain,
            ),
            final(self).instances@ == old(self).instances@,
            final(self).swapchains@ == old(self).swapchains@,
            final(self).generation == old(self).generation,
            final(self).heartbeat == old(self).heartbeat,
    {
        if code == XR_SUCCESS {
            let vk_device: u64 = match chain {
                Some(c) => find_vk_device(c),
                None => 0,
            };
            self.sessions.insert(session, SessionData { instance, vk_device });
        }
        code
    }

    /// Forget a session. The entry point destroys it in the next layer;
    /// without one there is nothing more to do.
    pub fn xr_destroy_session(&mut self, session: u64) -> (r: Option<u64>)
        ensures
            r == old(self).session_destroyer(session),
            final(self).sessions@ == old(self).sessions@.remove(session),
            final(self).instances@ == old(self).instances@,
            final(self).swapchains@ == old(self).swapchains@,
            final(self).generation == old(self).generation,
            final(self).heartbeat == old(self).heartbeat,
    {
        match self.sessions.remove(&session) {
            Some(s) => match get_copied(&self.instances, s.instance) {
                Some(d) => d.destroy_session,
                None => None,
            },
            None => None,
        }
    }

    /// The instance and the device of a session, and how to create a swapchain
    /// of it in the next layer.
    pub fn swapchain_creator(&self, session: u64) -> (r: Result<(SessionData, u64), i32>)
        ensures
            r == self.creator_of_swapchains(session),
    {
        let owner: SessionData = match get_copied(&self.sessions, session) {
            Some(s) => s,
            None => SessionData { instance: 0, vk_device: 0 },
        };
        match get_copied(&self.instances, owner.instance) {
            Some(d) => match d.create_swapchain {
                Some(f) => Ok((owner, f)),
                None => Err(XR_ERROR_HANDLE_INVALID),
            },
            None => Err(XR_ERROR_HANDLE_INVALID),
        }
    }

    /// Note the outcome of a swapchain's creation, and pass the code on. Its
    /// images are not known yet.
    pub fn xr_create_swapchain(
        &mut self,
        code: i32,
        swapchain: u64,
        owner: SessionData,
        vk_format: i32,
    ) -> (r: i32)
        ensures
            r == code,
            swapchain_noted(
                old(self).swapchains@,
                final(self).swapchains@,
                code,
                swapchain,
                owner,
                vk_format,
            ),
            final(self).instances@ == old(self).instances@,
            final(self).sessions@ == old(self).sessions@,
            final(self).generation == old(self).generation,
            final(self).heartbeat == old(self).heartbeat,
    {
        if code == XR_SUCCESS {
            let s: SwapchainData = SwapchainData {
                instance: owner.instance,
                vk_device: owner.vk_device,
                vk_format,
                images: Vec::new(),
            };
            self.swapchains.insert(swapchain, s);
        }
        code
    }

    /// Forget a swapchain. Its data says whose records are to be withdrawn; the
    /// entry point destroys it in the next layer, and without one there is
    /// nothing more to do.
    pub fn xr_destroy_swapchain(&mut self, swapchain: u64) -> (r: (
        Option<SwapchainData>,
        Option<u64>,
    ))
        ensures
            r.0 == crate::dispatch::entry(old(self).swapchains@, swapchain),
            r.1 == old(self).swapchain_destroyer(swapchain),
            final(self).swapchains@ == old(self).swapchains@.remove(swapchain),
            final(self).instances@ == old(self).instances@,
            final(self).sessions@ == old(self).sessions@,
            final(self).generation == old(self).generation,
            final(self).heartbeat == old(self).heartbeat,
    {
        match self.swapchains.remove(&swapchain) {
            Some(s) => {
                let down: Option<u64> = match get_copied(&self.instances, s.instance) {
                    Some(d) => d.destroy_swapchain,
                    None => None,
                };
                (Some(s), down)
            },
            None => (None, None),
        }
    }

    /// How to enumerate a swapchain's images in the next layer. An unknown
    /// swapchain is looked for in instance 0.
    pub fn image_enumerator(&self, swapchain: u64) -> (r: Result<u64, i32>)
        ensures
            r == self.enumerator_of_images(swapchain),
    {
        let instance: u64 = match self.swapchains.get(&swapchain) {
            Some(s) => s.instance,
            None => 0,
        };
        match get_copied(&self.instances, instance) {
            Some(d) => match d.enumerate_swapchain_images {
                Some(f) => Ok(f),
                None => Err(XR_ERROR_HANDLE_INVALID),
            },
            None => Err(XR_ERROR_HANDLE_INVALID),
        }
    }

    /// Note a swapchain's images, if the enumeration wrote them out. The list
    /// is missing where the application gave no place for it.
    pub fn xr_enumerate_swapchain_images(
        &mut self,
        swapchain: u64,
        code: i32,
        capacity: u32,
        listed: Option<ImageList>,
    )
        ensures
            images_noted(
                old(self).swapchains@,
                final(self).swapchains@,
                swapchain,
                code,
                capacity,
                listed,
            ),
            final(self).instances@ == old(self).instances@,
            final(self).sessions@ == old(self).sessions@,
            final(self).generation == old(self).generation,
            final(self).heartbeat == old(self).heartbeat,
    {
        match listed {
            Some(list) => {
                if code == XR_SUCCESS && capacity > 0 && list.images.len() > 0 && list.ty
                    == TYPE_SWAPCHAIN_IMAGE_VULKAN {
                    let ghost before = self.swapchains@;
                    match self.swapchains.remove(&swapchain) {
                        Some(s) => {
                            let next: SwapchainData = SwapchainData {
                                instance: s.instance,
                                vk_device: s.vk_device,
                                vk_format: s.vk_format,
                                images: list.images,
                            };
                            self.swapchains.insert(swapchain, next);
                            assert(self.swapchains@ =~= before.insert(swapchain, next));
                        },
                        None => {
                            assert(self.swapchains@ =~= before);
                        },
                    }
                }
            },
            None => {},
        }
    }

    /// How to end a session's frame in the next layer.
    pub fn frame_ender(&self, session: u64) -> (r: Result<u64, i32>)
        ensures
            r == self.ender_of_frames(session),
    {
        match get_copied(&self.sessions, session) {
            Some(s) => match get_copied(&self.instances, s.instance) {
                Some(d) => match d.end_frame {
                    Some(f) => Ok(f),
                    None => Err(XR_ERROR_HANDLE_INVALID),
                },
                None => Err(XR_ERROR_HANDLE_INVALID),
            },
            None => Err(XR_ERROR_HANDLE_INVALID),
        }
    }

    /// The records of one view, one for each image of its swapchain, all of
    /// the same generation. A view that is published takes a generation.
    pub fn publish_view(&mut self, eye: u32, view: &FrameView) -> (r: Vec<FoveationDesc>)
        ensures
            records_of_view(old(self).swapchains@, eye, *view, old(self).generation, r@),
            final(self).generation == generation_after(
                old(self).swapchains@,
                *view,
                old(self).generation,
            ),
            final(self).instances@ == old(self).instances@,
            final(self).sessions@ == old(self).sessions@,
            final(self).swapchains@ == old(self).swapchains@,
            final(self).heartbeat == old(self).heartbeat,
    {
        let mut out: Vec<FoveationDesc> = Vec::new();
        match self.swapchains.get(&view.swapchain) {
            Some(s) => {
                if s.vk_device == 0 || s.images.len() == 0 {
                    return out;
                }
                let generation: u64 = self.generation;
                let mut i: usize = 0;
                while i < s.images.len()
                    invariant
                        i <= s.images@.len(),
                        out@.len() == i,
                        forall|k: int|
                            0 <= k < i ==> record_of(
                                *s,
                                s.images@[k],
                                eye,
                                *view,
                                generation,
                                #[trigger] out@[k],
                            ),
                    decreases s.images@.len() - i,
                {
                    let d: FoveationDesc = FoveationDesc {
                        magic: FFR_SHARED_MAGIC,
                        version: FFR_SHARED_VERSION,
                        vk_device: s.vk_device,
                        vk_image: s.images[i],
                        image_array_index: view.image_array_index,
                        eye,
                        vk_format: s.vk_format,
                        _pad2: 0,
                        rect_x: view.rect_x,
                        rect_y: view.rect_y,
                        rect_w: rect_extent(view.rect_w),
                        rect_h: rect_extent(view.rect_h),
                        center_px_x: view.center_px_x,
                        center_px_y: view.center_px_y,
                        ppd_center_h: view.ppd_center_h,
                        ppd_center_v: view.ppd_center_v,
                        falloff: FalloffParams::default(),
                        generation,
                    };
                    out.push(d);
                    i = i + 1;
                }
                self.generation = self.generation.wrapping_add(1);
                out
            },
            None => out,
        }
    }

    /// The records of a frame, view by view, in the order in which they are
    /// published.
    pub fn publish_from_frame(&mut self, layers: &Vec<Option<FrameLayer>>) -> (r: Vec<
        Vec<FoveationDesc>,
    >)
        ensures
            records_of_frame(
                old(self).swapchains@,
                views_of(layers@),
                old(self).generation,
                r@,
            ),
            final(self).generation == generation_at(
                old(self).swapchains@,
                views_of(layers@),
                old(self).generation,
                views_of(layers@).len() as int,
            ),
            final(self).instances@ == old(self).instances@,
            final(self).sessions@ == old(self).sessions@,
            final(self).swapchains@ == old(self).swapchains@,
            final(self).heartbeat == old(self).heartbeat,
    {
        let views: Vec<(u32, FrameView)> = frame_views(layers);
        let ghost start = *self;
        let mut out: Vec<Vec<FoveationDesc>> = Vec::new();
        let mut i: usize = 0;
        while i < views.len()
            invariant
                i <= views@.len(),
                out@.len() == i,
                self.instances@ == start.instances@,
                self.sessions@ == start.sessions@,
                self.swapchains@ == start.swapchains@,
                self.heartbeat == start.heartbeat,
                self.generation == generation_at(
                    start.swapchains@,
                    views@,
                    start.generation,
                    i as int,
                ),
                forall|k: int|
                    0 <= k < i ==> records_of_view(
                        start.swapchains@,
                        views@[k].0,
                        views@[k].1,
                        generation_at(start.swapchains@, views@, start.generation, k),
                        (#[trigger] out@[k])@,
                    ),
            decreases views@.len() - i,
        {
            let (eye, view) = views[i];
            let batch: Vec<FoveationDesc> = self.publish_view(eye, &view);
            out.push(batch);
            i = i + 1;
        }
        out
    }
}

/// Every call that the layer takes is found under its name, and under no
/// other.
pub proof fn xr_hooks_are_named(h: XrHook, s: Seq<char>)
    ensures
        XrHook::of_name(h.name()) == Some(h),
        XrHook::of_name(s) == Some(h) ==> s == h.name(),
{
    reveal_strlit("xrDestroyInstance");
    reveal_strlit("xrCreateSession");
    reveal_strlit("xrDestroySession");
    reveal_strlit("xrCreateSwapchain");
    reveal_strlit("xrDestroySwapchain");
    reveal_strlit("xrEnumerateSwapchainImages");
    reveal_strlit("xrEndFrame");
    assert(XrHook::DestroyInstance.name().len() == 17);
    assert(XrHook::DestroyInstance.name()[2] == 'D');
    assert(XrHook::CreateSession.name().len() == 15);
    assert(XrHook::DestroySession.name().len() == 16);
    assert(XrHook::CreateSwapchain.name().len() == 17);
    assert(XrHook::CreateSwapchain.name()[2] == 'C');
    assert(XrHook::DestroySwapchain.name().len() == 18);
    assert(XrHook::EnumerateSwapchainImages.name().len() == 26);
    assert(XrHook::EndFrame.name().len() == 10);
}

/// After an instance is destroyed, none of the sessions and swapchains that
/// are left belongs to it.
pub proof fn destroyed_instance_leaves_nothing(
    sessions: Map<u64, SessionData>,
    swapchains: Map<u64, SwapchainData>,
    instance: u64,
    session: u64,
    swapchain: u64,
)
    ensures
        crate::table::without_children(sessions, instance).contains_key(session)
            <==> sessions.contains_key(session) && sessions[session].instance != instance,
        crate::table::without_children(swapchains, instance).contains_key(swapchain)
            <==> swapchains.contains_key(swapchain) && swapchains[swapchain].instance != instance,
{
}

/// Every record that a frame publishes for an image is found again by a lookup
/// of that image, whatever the registry held before, if the lookup reaches the
/// place of the record's eye.
pub proof fn published_view_is_found(
    swapchains: Map<u64, SwapchainData>,
    eye: u32,
    view: FrameView,
    generation: u64,
    ds: Seq<FoveationDesc>,
    i: int,
    m: crate::shared::Records,
    max: u32,
)
    requires
        records_of_view(swapchains, eye, view, generation, ds),
        0 <= i < ds.len(),
        crate::shared::eye_slot(
            crate::shared::records_of(m, crate::shared::key_of(ds[i])),
            eye,
            0,
        ) < max,
    ensures
        crate::shared::found(
            crate::shared::published(m, ds[i]),
            swapchains[view.swapchain].vk_device,
            swapchains[view.swapchain].images@[i],
            max,
        ).contains(ds[i]),
{
    let s = swapchains[view.swapchain];
    assert(record_of(s, s.images@[i], eye, view, generation, ds[i]));
    crate::shared::published_is_found(m, ds[i], max);
}

/// The generations of a frame's views grow: each view that is published has a
/// later one than every published view before it, unless the counter runs
/// over.
pub proof fn generations_grow(
    swapchains: Map<u64, SwapchainData>,
    views: Seq<(u32, FrameView)>,
    g: u64,
    i: int,
    j: int,
)
    requires
        0 <= i < j <= views.len(),
        g + views.len() <= u64::MAX,
        shown(swapchains, views[i].1),
    ensures
        generation_at(swapchains, views, g, i) < generation_at(swapchains, views, g, j),
{
    generation_bounds(swapchains, views, g, i);
    if i + 1 < j {
        generations_keep(swapchains, views, g, i + 1, j);
    }
}

proof fn generation_bounds(
    swapchains: Map<u64, SwapchainData>,
    views: Seq<(u32, FrameView)>,
    g: u64,
    i: int,
)
    requires
        0 <= i <= views.len(),
        g + views.len() <= u64::MAX,
    ensures
        g <= generation_at(swapchains, views, g, i) <= g + i,
    decreases i,
{
    if i > 0 {
        generation_bounds(swapchains, views, g, i - 1);
    }
}

proof fn generations_keep(
    swapchains: Map<u64, SwapchainData>,
    views: Seq<(u32, FrameView)>,
    g: u64,
    i: int,
    j: int,
)
    requires
        0 <= i <= j <= views.len(),
        g + views.len() <= u64::MAX,
    ensures
        generation_at(swapchains, views, g, i) <= generation_at(swapchains, views, g, j),
    decreases j - i,
{
    if i < j {
        generations_keep(swapchains, views, g, i, j - 1);
        generation_bounds(swapchains, views, g, j - 1);
    }
}

/// A loader and the layer agree on version 1 exactly where both structures are
/// there and of their types, 1 and 2, and 1 lies in the loader's range.
pub proof fn agreement_takes_version_one(l: LoaderInfo, t: i32)
    ensures
        agreed(None, Some(t)) == Err::<u32, i32>((-6int) as i32),
        agreed(Some(l), None) == Err::<u32, i32>((-6int) as i32),
        agreed(None, None) == Err::<u32, i32>((-6int) as i32),
        l.struct_type == 1 && t == 2 && l.min_interface_version <= 1 && l.max_interface_version
            >= 1 ==> agreed(Some(l), Some(t)) == Ok::<u32, i32>(1),
        l.struct_type != 1 || t != 2 || l.min_interface_version > 1 || l.max_interface_version == 0
            ==> agreed(Some(l), Some(t)) == Err::<u32, i32>((-6int) as i32),
{
}

/// Creation goes through the next layer's two entry points, each in its place,
/// and fails where either is missing.
pub proof fn creation_takes_both_entries(n: NextInfo, g: u64, c: u64)
    ensures
        n.get_instance_proc_addr == Some(g) && n.create_api_layer_instance == Some(c)
            ==> next_entries(Some(n)) == Ok::<(u64, u64), i32>((g, c)),
        n.get_instance_proc_addr is None || n.create_api_layer_instance is None ==> next_entries(
            Some(n),
        ) == Err::<(u64, u64), i32>((-6int) as i32),
        next_entries(None) == Err::<(u64, u64), i32>((-6int) as i32),
{
}

/// Each call that the layer takes goes on to the next layer's entry point of
/// the same call, that of the instance it concerns. An unknown instance has
/// none.
pub proof fn calls_go_on_to_their_own_entry(
    instances: Map<u64, XrInstanceData>,
    instance: u64,
    call: XrHook,
)
    ensures
        !instances.contains_key(instance) ==> entry_point(instances, instance, call) is None,
        instances.contains_key(instance) ==> {
            let d = instances[instance];
            &&& entry_point(instances, instance, XrHook::DestroyInstance) == d.destroy_instance
            &&& entry_point(instances, instance, XrHook::CreateSession) == d.create_session
            &&& entry_point(instances, instance, XrHook::DestroySession) == d.destroy_session
            &&& entry_point(instances, instance, XrHook::CreateSwapchain) == d.create_swapchain
            &&& entry_point(instances, instance, XrHook::DestroySwapchain) == d.destroy_swapchain
            &&& entry_point(instances, instance, XrHook::EnumerateSwapchainImages)
                == d.enumerate_swapchain_images
            &&& entry_point(instances, instance, XrHook::EndFrame) == d.end_frame
        },
        or_invalid(None) == Err::<u64, i32>((-12int) as i32),
{
}

/// A request for an entry point without a name or a place is not valid. One for
/// a call that the layer takes stays here, whatever the instance; any other goes
/// to the instance's next layer, and an unknown instance has no such function.
pub proof fn requests_are_routed(layer: XrLayer, instance: u64, name: Seq<char>)
    ensures
        layer.route(instance, None, true) == XrRoute::Fail((-1int) as i32),
        layer.route(instance, None, false) == XrRoute::Fail((-1int) as i32),
        layer.route(instance, Some(name), false) == XrRoute::Fail((-1int) as i32),
        forall|h: XrHook|
            name == (#[trigger] h.name()) ==> layer.route(instance, Some(name), true)
                == XrRoute::Hook(h),
        (forall|h: XrHook| name != (#[trigger] h.name())) && layer.instances@.contains_key(instance)
            ==> layer.route(instance, Some(name), true) == XrRoute::Next(
            layer.instances@[instance].next_gipa,
        ),
        (forall|h: XrHook| name != (#[trigger] h.name())) && !layer.instances@.contains_key(
            instance,
        ) ==> layer.route(instance, Some(name), true) == XrRoute::Fail((-7int) as i32),
{
    assert forall|h: XrHook| name == (#[trigger] h.name()) implies layer.route(
        instance,
        Some(name),
        true,
    ) == XrRoute::Hook(h) by {
        xr_hooks_are_named(h, name);
    }
    match XrHook::of_name(name) {
        Some(h) => {
            xr_hooks_are_named(h, name);
        },
        None => {},
    }
}

/// A created instance is known with its entry points, a failed creation leaves
/// everything as it was, and the other instances stay in either case.
pub proof fn created_instance_is_known(
    instances: Map<u64, XrInstanceData>,
    code: i32,
    instance: u64,
    data: XrInstanceData,
    other: u64,
)
    ensures
        code == 0 ==> with_instance(instances, code, instance, data).contains_key(instance),
        code == 0 ==> with_instance(instances, code, instance, data)[instance] == data,
        code != 0 || other != instance ==> {
            &&& with_instance(instances, code, instance, data).contains_key(other)
                == instances.contains_key(other)
            &&& instances.contains_key(other) ==> with_instance(
                instances,
                code,
                instance,
                data,
            )[other] == instances[other]
        },
{
}

/// A created session is known with its instance and the device of the first
/// Vulkan binding in its chain, and with the device 0 where there is none. The
/// other sessions stay, and all do where the creation failed.
pub proof fn created_session_is_known(
    sessions: Map<u64, SessionData>,
    code: i32,
    session: u64,
    instance: u64,
    chain: Option<Vec<SessionExtension>>,
    k: int,
    other: u64,
)
    ensures
        ({
            let after = with_session(sessions, code, session, instance, chain);
            &&& code == 0 ==> after.contains_key(session) && after[session].instance == instance
            &&& code == 0 && chain is None ==> after[session].vk_device == 0
            &&& code == 0 && chain is Some && 0 <= k < chain->0@.len() && chain->0@[k].ty
                == TYPE_GRAPHICS_BINDING_VULKAN && (forall|i: int|
                0 <= i < k ==> (#[trigger] chain->0@[i]).ty != TYPE_GRAPHICS_BINDING_VULKAN)
                ==> after[session].vk_device == chain->0@[k].device
            &&& code == 0 && chain is Some && (forall|i: int|
                0 <= i < chain->0@.len() ==> (#[trigger] chain->0@[i]).ty
                    != TYPE_GRAPHICS_BINDING_VULKAN) ==> after[session].vk_device == 0
            &&& code != 0 || other != session ==> after.contains_key(other)
                == sessions.contains_key(other) && (sessions.contains_key(other) ==> after[other]
                == sessions[other])
        }),
{
    if chain is Some {
        let c = chain->0@;
        if 0 <= k < c.len() && c[k].ty == TYPE_GRAPHICS_BINDING_VULKAN && (forall|i: int|
            0 <= i < k ==> (#[trigger] c[i]).ty != TYPE_GRAPHICS_BINDING_VULKAN) {
            binding_reached(c, 0, k);
        }
        if forall|i: int|
            0 <= i < c.len() ==> (#[trigger] c[i]).ty != TYPE_GRAPHICS_BINDING_VULKAN {
            no_binding(c, 0);
        }
    }
}

proof fn binding_reached(chain: Seq<SessionExtension>, from: int, k: int)
    requires
        0 <= from <= k < chain.len(),
        chain[k].ty == TYPE_GRAPHICS_BINDING_VULKAN,
        forall|i: int| 0 <= i < k ==> (#[trigger] chain[i]).ty != TYPE_GRAPHICS_BINDING_VULKAN,
    ensures
        bound_device(chain, from) == chain[k].device,
    decreases k - from,
{
    if from < k {
        binding_reached(chain, from + 1, k);
    }
}

proof fn no_binding(chain: Seq<SessionExtension>, from: int)
    requires
        0 <= from,
        forall|i: int|
            0 <= i < chain.len() ==> (#[trigger] chain[i]).ty != TYPE_GRAPHICS_BINDING_VULKAN,
    ensures
        bound_device(chain, from) == 0,
    decreases chain.len() - from,
{
    if from < chain.len() {
        no_binding(chain, from + 1);
    }
}

/// The session of a call is taken as it was noted; an unknown one belongs to
/// instance 0 and to no device.
pub proof fn owner_is_the_session(sessions: Map<u64, SessionData>, session: u64)
    ensures
        sessions.contains_key(session) ==> owner_of(sessions, session).instance
            == sessions[session].instance && owner_of(sessions, session).vk_device
            == sessions[session].vk_device,
        !sessions.contains_key(session) ==> owner_of(sessions, session).instance == 0 && owner_of(
            sessions,
            session,
        ).vk_device == 0,
{
}

/// Images are taken from an enumeration that succeeded, had room, wrote some
/// out, and wrote Vulkan images; from no other.
pub proof fn images_come_from_full_enumerations(code: i32, capacity: u32, list: ImageList)
    ensures
        !images_known(code, capacity, None),
        code != 0 ==> !images_known(code, capacity, Some(list)),
        capacity == 0 ==> !images_known(code, capacity, Some(list)),
        list.images@.len() == 0 ==> !images_known(code, capacity, Some(list)),
        list.ty != 1_000_025_001 ==> !images_known(code, capacity, Some(list)),
        code == 0 && capacity > 0 && list.images@.len() > 0 && list.ty == 1_000_025_001
            ==> images_known(code, capacity, Some(list)),
{
}

/// Creating a swapchain or enumerating its images touches no other swapchain,
/// and a failure touches none at all.
pub proof fn other_swapchains_stay(
    before: Map<u64, SwapchainData>,
    after: Map<u64, SwapchainData>,
    code: i32,
    swapchain: u64,
    owner: SessionData,
    vk_format: i32,
    capacity: u32,
    listed: Option<ImageList>,
    other: u64,
)
    requires
        swapchain_noted(before, after, code, swapchain, owner, vk_format) || images_noted(
            before,
            after,
            swapchain,
            code,
            capacity,
            listed,
        ),
    ensures
        code != 0 ==> after == before,
        other != swapchain ==> after.contains_key(other) == before.contains_key(other),
        other != swapchain && before.contains_key(other) ==> after[other] == before[other],
{
}

/// A view is published exactly where its swapchain is known, is on a device,
/// and has images.
pub proof fn views_are_published_with_cause(swapchains: Map<u64, SwapchainData>, view: FrameView)
    ensures
        !swapchains.contains_key(view.swapchain) ==> !shown(swapchains, view),
        swapchains.contains_key(view.swapchain) && swapchains[view.swapchain].vk_device == 0
            ==> !shown(swapchains, view),
        swapchains.contains_key(view.swapchain) && swapchains[view.swapchain].images@.len() == 0
            ==> !shown(swapchains, view),
        swapchains.contains_key(view.swapchain) && swapchains[view.swapchain].vk_device > 0
            && swapchains[view.swapchain].images@.len() > 0 ==> shown(swapchains, view),
{
}

/// Every record that is published for a view is that of one image of the
/// view's swapchain, in order, and carries the view's own rectangle, optical
/// centre, densities and array index, its eye, and the swapchain's device and
/// format. All records of a view have the same generation. A view that is not
/// published has no record.
pub proof fn records_carry_their_view(
    swapchains: Map<u64, SwapchainData>,
    eye: u32,
    view: FrameView,
    generation: u64,
    ds: Seq<FoveationDesc>,
    i: int,
)
    requires
        records_of_view(swapchains, eye, view, generation, ds),
    ensures
        !shown(swapchains, view) ==> ds.len() == 0,
        shown(swapchains, view) ==> ds.len() == swapchains[view.swapchain].images@.len(),
        0 <= i < ds.len() ==> {
            let s = swapchains[view.swapchain];
            &&& ds[i].magic == 0x3152_4646
            &&& ds[i].version == 2
            &&& ds[i].vk_device == s.vk_device
            &&& ds[i].vk_image == s.images@[i]
            &&& ds[i].vk_format == s.vk_format
            &&& ds[i].image_array_index == view.image_array_index
            &&& ds[i].eye == eye
            &&& ds[i]._pad2 == 0
            &&& ds[i].rect_x == view.rect_x
            &&& ds[i].rect_y == view.rect_y
            &&& view.rect_w >= 1 ==> ds[i].rect_w == view.rect_w
            &&& view.rect_h >= 1 ==> ds[i].rect_h == view.rect_h
            &&& view.rect_w < 1 ==> ds[i].rect_w == 1
            &&& view.rect_h < 1 ==> ds[i].rect_h == 1
            &&& ds[i].center_px_x == view.center_px_x
            &&& ds[i].center_px_y == view.center_px_y
            &&& ds[i].ppd_center_h == view.ppd_center_h
            &&& ds[i].ppd_center_v == view.ppd_center_v
            &&& ds[i].falloff.standard()
            &&& ds[i].generation == generation
        },
{
    if 0 <= i < ds.len() {
        let s = swapchains[view.swapchain];
        assert(record_of(s, s.images@[i], eye, view, generation, ds[i]));
    }
}

/// What a session and its swapchain were created with comes back in the records
/// of every frame: the device that the session is bound to, the swapchain's
/// format, and the images that were enumerated.
pub proof fn records_come_from_creation(
    before: Map<u64, SwapchainData>,
    created: Map<u64, SwapchainData>,
    after: Map<u64, SwapchainData>,
    swapchain: u64,
    owner: SessionData,
    vk_format: i32,
    capacity: u32,
    list: ImageList,
    eye: u32,
    view: FrameView,
    generation: u64,
    ds: Seq<FoveationDesc>,
    i: int,
)
    requires
        swapchain_noted(before, created, XR_SUCCESS, swapchain, owner, vk_format),
        images_noted(created, after, swapchain, XR_SUCCESS, capacity, Some(list)),
        capacity > 0,
        list.images@.len() > 0,
        list.ty == TYPE_SWAPCHAIN_IMAGE_VULKAN,
        owner.vk_device != 0,
        view.swapchain == swapchain,
        records_of_view(after, eye, view, generation, ds),
    ensures
        ds.len() == list.images@.len(),
        0 <= i < ds.len() ==> {
            &&& ds[i].vk_device == owner.vk_device
            &&& ds[i].vk_format == vk_format
            &&& ds[i].vk_image == list.images@[i]
        },
        after[swapchain].instance == owner.instance,
{
    records_carry_their_view(after, eye, view, generation, ds, i);
}

/// A swapchain whose images were never enumerated publishes nothing.
pub proof fn unknown_images_publish_nothing(
    before: Map<u64, SwapchainData>,
    created: Map<u64, SwapchainData>,
    swapchain: u64,
    owner: SessionData,
    vk_format: i32,
    view: FrameView,
)
    requires
        swapchain_noted(before, created, XR_SUCCESS, swapchain, owner, vk_format),
        view.swapchain == swapchain,
    ensures
        !shown(created, view),
{
}

/// The views of two runs of layers are those of the first and then those of the
/// second; so a frame is read layer by layer.
pub proof fn frames_are_read_in_order(
    first: Seq<Option<FrameLayer>>,
    second: Seq<Option<FrameLayer>>,
)
    ensures
        views_of(first + second) == views_of(first) + views_of(second),
    decreases second.len(),
{
    if second.len() == 0 {
        assert(first + second =~= first);
        assert(views_of(first) + views_of(second) =~= views_of(first));
    } else {
        frames_are_read_in_order(first, second.drop_last());
        assert((first + second).drop_last() =~= first + second.drop_last());
        assert(views_of(first + second) =~= views_of(first) + views_of(second));
    }
}

/// A projection layer has its views, in order, each with its place as its eye;
/// a layer of any other type, and an empty place, has none.
pub proof fn projection_layers_have_their_views(l: FrameLayer, i: int)
    ensures
        views_of(Seq::empty()) == Seq::<(u32, FrameView)>::empty(),
        views_of(seq![None]).len() == 0,
        l.ty != 35 ==> views_of(seq![Some(l)]).len() == 0,
        l.ty == 35 ==> views_of(seq![Some(l)]).len() == l.views@.len(),
        l.ty == 35 && 0 <= i < l.views@.len() ==> views_of(seq![Some(l)])[i] == (
            i as u32,
            l.views@[i],
        ),
{
    let some = seq![Some(l)];
    let none = seq![None::<FrameLayer>];
    reveal_with_fuel(views_of, 2);
    assert(some.drop_last() =~= Seq::<Option<FrameLayer>>::empty());
    assert(none.drop_last() =~= Seq::<Option<FrameLayer>>::empty());
}

/// A view that is published takes the next generation, and one that is not
/// takes none. The counter starts again at 0 after the last one.
pub proof fn published_views_take_a_generation(
    swapchains: Map<u64, SwapchainData>,
    views: Seq<(u32, FrameView)>,
    g: u64,
    i: int,
)
    requires
        0 <= i < views.len(),
    ensures
        ({
            let now = generation_at(swapchains, views, g, i);
            let later = generation_at(swapchains, views, g, i + 1);
            &&& generation_at(swapchains, views, g, 0) == g
            &&& generation_after(swapchains, views[i].1, now) == later
            &&& shown(swapchains, views[i].1) && now < u64::MAX ==> later == now + 1
            &&& shown(swapchains, views[i].1) && now == u64::MAX ==> later == 0
            &&& !shown(swapchains, views[i].1) ==> later == now
        }),
{
}

/// The next layer's answer counts where it reports success and nowhere else,
/// for an entry point as for the runtime's name.
pub proof fn answers_count_on_success(code: i32, function: Option<u64>, name: Seq<char>)
    ensures
        code == 0 ==> answered(code, function) == function,
        code != 0 ==> answered(code, function) is None,
        code == 0 ==> runtime_text(code, Some(name)) == name,
        code != 0 ==> runtime_text(code, Some(name)) == "<unknown>"@,
        runtime_text(code, None) == "<unknown>"@,
{
}

/// Each instance that is created sends a heartbeat, one later than the last;
/// one that fails sends none.
pub proof fn instances_send_heartbeats(code: i32, heartbeat: u64)
    ensures
        code == 0 ==> next_beat(code, heartbeat) == Some(heartbeat + 1),
        code != 0 ==> next_beat(code, heartbeat) is None,
{
}

/// Every view of a frame has its records at its own place: one for each image of
/// its swapchain where it is published and none elsewhere, with its own eye and
/// its own optical centre, and of its own generation.
pub proof fn frames_publish_every_view(
    swapchains: Map<u64, SwapchainData>,
    views: Seq<(u32, FrameView)>,
    g: u64,
    r: Seq<Vec<FoveationDesc>>,
    i: int,
    k: int,
)
    requires
        records_of_frame(swapchains, views, g, r),
        0 <= i < views.len(),
    ensures
        views.len() == r.len(),
        !shown(swapchains, views[i].1) ==> r[i]@.len() == 0,
        shown(swapchains, views[i].1) ==> r[i]@.len()
            == swapchains[views[i].1.swapchain].images@.len(),
        0 <= k < r[i]@.len() ==> {
            let (eye, view) = views[i];
            let d = r[i]@[k];
            &&& eye == d.eye
            &&& view.image_array_index == d.image_array_index
            &&& view.center_px_x == d.center_px_x
            &&& view.center_px_y == d.center_px_y
            &&& view.rect_x == d.rect_x && view.rect_y == d.rect_y
            &&& swapchains[view.swapchain].vk_device == d.vk_device
            &&& swapchains[view.swapchain].images@[k] == d.vk_image
            &&& generation_at(swapchains, views, g, i) == d.generation
        },
{
    let (eye, view) = views[i];
    assert(records_of_view(
        swapchains,
        eye,
        view,
        generation_at(swapchains, views, g, i),
        r[i]@,
    ));
    records_carry_their_view(
        swapchains,
        eye,
        view,
        generation_at(swapchains, views, g, i),
        r[i]@,
        k,
    );
}

/// Calls on a session go on to the entry points of the session's own instance,
/// calls on a swapchain to those of the swapchain's. A handle that is not known
/// is not valid, or has nothing to destroy; creating a swapchain or enumerating
/// images without one goes by instance 0.
pub proof fn calls_go_on_to_the_instance_of_their_handle(l: XrLayer, h: u64)
    ensures
        ({
            let i = l.instances@;
            let session = l.sessions@[h];
            let swapchain = l.swapchains@[h];
            &&& i.contains_key(h) ==> l.instance_destroyer(h) == i[h].destroy_instance
            &&& !i.contains_key(h) ==> l.instance_destroyer(h) is None
            &&& i.contains_key(h) ==> (l.creator_of_sessions(h) is Ok <==> i[h].create_session is Some)
            &&& l.creator_of_sessions(h) matches Ok(f) ==> i.contains_key(h) && i[h].create_session
                == Some(f)
            &&& l.creator_of_sessions(h) matches Err(e) ==> e == -12
            &&& !l.sessions@.contains_key(h) ==> l.session_destroyer(h) is None
            &&& !l.sessions@.contains_key(h) ==> l.ender_of_frames(h) is Err
            &&& l.sessions@.contains_key(h) && i.contains_key(session.instance) ==> {
                let d = i[session.instance];
                &&& l.session_destroyer(h) == d.destroy_session
                &&& d.end_frame matches Some(f) ==> l.ender_of_frames(h) == Ok::<u64, i32>(f)
                &&& d.create_swapchain matches Some(f) ==> l.creator_of_swapchains(h) == Ok::<
                    (SessionData, u64),
                    i32,
                >((session, f))
                &&& d.end_frame is None ==> l.ender_of_frames(h) is Err
                &&& d.create_swapchain is None ==> l.creator_of_swapchains(h) is Err
            }
            &&& l.ender_of_frames(h) matches Err(e) ==> e == -12
            &&& l.creator_of_swapchains(h) matches Err(e) ==> e == -12
            &&& !l.sessions@.contains_key(h) && i.contains_key(0) && i[0].create_swapchain is Some
                ==> l.creator_of_swapchains(h) == Ok::<(SessionData, u64), i32>(
                (SessionData { instance: 0, vk_device: 0 }, i[0].create_swapchain->0),
            )
            &&& !l.swapchains@.contains_key(h) ==> l.swapchain_destroyer(h) is None
            &&& l.swapchains@.contains_key(h) && i.contains_key(swapchain.instance) ==> {
                let d = i[swapchain.instance];
                &&& l.swapchain_destroyer(h) == d.destroy_swapchain
                &&& d.enumerate_swapchain_images matches Some(f) ==> l.enumerator_of_images(h)
                    == Ok::<u64, i32>(f)
                &&& d.enumerate_swapchain_images is None ==> l.enumerator_of_images(h) is Err
            }
            &&& !l.swapchains@.contains_key(h) && i.contains_key(0)
                && i[0].enumerate_swapchain_images is Some ==> l.enumerator_of_images(h) == Ok::<
                u64,
                i32,
            >(i[0].enumerate_swapchain_images->0)
            &&& l.enumerator_of_images(h) matches Err(e) ==> e == -12
        }),
{
}

} // verus!
