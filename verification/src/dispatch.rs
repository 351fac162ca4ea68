//! Routing of the Vulkan layer: which calls it takes, and the tables that say
//! where a handle's calls go from here.
//!
//! Handles and entry points are plain numbers. An entry point of 0 is one that
//! the next layer does not have.

use crate::table::drop_children;
use crate::text::same_text;
use crate::vk::{
    Extent2, ERROR_INITIALIZATION_FAILED, INCOMPLETE, LAYER_LINK_INFO, SUCCESS,
    TYPE_LOADER_DEVICE, TYPE_LOADER_INSTANCE,
};
use std::collections::HashMap;
use vstd::prelude::*;

verus! {

broadcast use vstd::std_specs::hash::group_hash_axioms;

/// The highest version of the loader's interface that the layer speaks.
pub const INTERFACE_VERSION: u32 = 2;

/// The version to agree on with a loader that offers `offered`.
pub open spec fn agreed(offered: u32) -> u32 {
    if offered < INTERFACE_VERSION {
        offered
    } else {
        INTERFACE_VERSION
    }
}

/// The version to agree on with a loader that offers `offered`.
pub fn negotiate(offered: u32) -> (r: u32)
    ensures
        r == agreed(offered),
{
    if offered < INTERFACE_VERSION {
        offered
    } else {
        INTERFACE_VERSION
    }
}

/// The calls that the layer takes at the instance's level.
#[derive(Clone, Copy, Debug, PartialEq, Eq, Structural)]
pub enum InstanceHook {
    GetInstanceProcAddr,
    CreateInstance,
    DestroyInstance,
    EnumeratePhysicalDevices,
    CreateDevice,
    GetDeviceProcAddr,
}

impl InstanceHook {
    /// The name of the call.
    pub open spec fn name(self) -> Seq<char> {
        match self {
            InstanceHook::GetInstanceProcAddr => "vkGetInstanceProcAddr"@,
            InstanceHook::CreateInstance => "vkCreateInstance"@,
            InstanceHook::DestroyInstance => "vkDestroyInstance"@,
            InstanceHook::EnumeratePhysicalDevices => "vkEnumeratePhysicalDevices"@,
            InstanceHook::CreateDevice => "vkCreateDevice"@,
            InstanceHook::GetDeviceProcAddr => "vkGetDeviceProcAddr"@,
        }
    }

    /// The call of a name.
    pub open spec fn of_name(s: Seq<char>) -> Option<InstanceHook> {
        if s == InstanceHook::GetInstanceProcAddr.name() {
            Some(InstanceHook::GetInstanceProcAddr)
        } else if s == InstanceHook::CreateInstance.name() {
            Some(InstanceHook::CreateInstance)
        } else if s == InstanceHook::DestroyInstance.name() {
            Some(InstanceHook::DestroyInstance)
        } else if s == InstanceHook::EnumeratePhysicalDevices.name() {
            Some(InstanceHook::EnumeratePhysicalDevices)
        } else if s == InstanceHook::CreateDevice.name() {
            Some(InstanceHook::CreateDevice)
        } else if s == InstanceHook::GetDeviceProcAddr.name() {
            Some(InstanceHook::GetDeviceProcAddr)
        } else {
            None
        }
    }

    /// The call of a name, if the layer takes it.
    pub fn find(name: &str) -> (r: Option<InstanceHook>)
        ensures
            r == InstanceHook::of_name(name@),
    {
        if same_text(name, "vkGetInstanceProcAddr") {
            Some(InstanceHook::GetInstanceProcAddr)
        } else if same_text(name, "vkCreateInstance") {
            Some(InstanceHook::CreateInstance)
        } else if same_text(name, "vkDestroyInstance") {
            Some(InstanceHook::DestroyInstance)
        } else if same_text(name, "vkEnumeratePhysicalDevices") {
            Some(InstanceHook::EnumeratePhysicalDevices)
        } else if same_text(name, "vkCreateDevice") {
            Some(InstanceHook::CreateDevice)
        } else if same_text(name, "vkGetDeviceProcAddr") {
            Some(InstanceHook::GetDeviceProcAddr)
        } else {
            None
        }
    }
}

/// The calls that the layer takes at the device's level.
#[derive(Clone, Copy, Debug, PartialEq, Eq, Structural)]
pub enum DeviceHook {
    GetDeviceProcAddr,
    DestroyDevice,
    CreateImageView,
    DestroyImageView,
    AllocateCommandBuffers,
    CmdBeginRendering,
    CmdEndRendering,
    CreateGraphicsPipelines,
    CreateRenderPass,
    CreateRenderPass2,
    DestroyRenderPass,
    CreateFramebuffer,
    DestroyFramebuffer,
    CmdBeginRenderPass,
    CmdBeginRenderPass2,
}

impl DeviceHook {
    /// The name of the call.
    pub open spec fn name(self) -> Seq<char> {
        match self {
            DeviceHook::GetDeviceProcAddr => "vkGetDeviceProcAddr"@,
            DeviceHook::DestroyDevice => "vkDestroyDevice"@,
            DeviceHook::CreateImageView => "vkCreateImageView"@,
            DeviceHook::DestroyImageView => "vkDestroyImageView"@,
            DeviceHook::AllocateCommandBuffers => "vkAllocateCommandBuffers"@,
            DeviceHook::CmdBeginRendering => "vkCmdBeginRendering"@,
            DeviceHook::CmdEndRendering => "vkCmdEndRendering"@,
            DeviceHook::CreateGraphicsPipelines => "vkCreateGraphicsPipelines"@,
            DeviceHook::CreateRenderPass => "vkCreateRenderPass"@,
            DeviceHook::CreateRenderPass2 => "vkCreateRenderPass2"@,
            DeviceHook::DestroyRenderPass => "vkDestroyRenderPass"@,
            DeviceHook::CreateFramebuffer => "vkCreateFramebuffer"@,
            DeviceHook::DestroyFramebuffer => "vkDestroyFramebuffer"@,
            DeviceHook::CmdBeginRenderPass => "vkCmdBeginRenderPass"@,
            DeviceHook::CmdBeginRenderPass2 => "vkCmdBeginRenderPass2"@,
        }
    }

    /// The call of a name.
    pub open spec fn of_name(s: Seq<char>) -> Option<DeviceHook> {
        if s == DeviceHook::GetDeviceProcAddr.name() {
            Some(DeviceHook::GetDeviceProcAddr)
        } else if s == DeviceHook::DestroyDevice.name() {
            Some(DeviceHook::DestroyDevice)
        } else if s == DeviceHook::CreateImageView.name() {
            Some(DeviceHook::CreateImageView)
        } else if s == DeviceHook::DestroyImageView.name() {
            Some(DeviceHook::DestroyImageView)
        } else if s == DeviceHook::AllocateCommandBuffers.name() {
            Some(DeviceHook::AllocateCommandBuffers)
        } else if s == DeviceHook::CmdBeginRendering.name() {
            Some(DeviceHook::CmdBeginRendering)
        } else if s == DeviceHook::CmdEndRendering.name() {
            Some(DeviceHook::CmdEndRendering)
        } else if s == DeviceHook::CreateGraphicsPipelines.name() {
            Some(DeviceHook::CreateGraphicsPipelines)
        } else if s == DeviceHook::CreateRenderPass.name() {
            Some(DeviceHook::CreateRenderPass)
        } else if s == DeviceHook::CreateRenderPass2.name() {
            Some(DeviceHook::CreateRenderPass2)
        } else if s == DeviceHook::DestroyRenderPass.name() {
            Some(DeviceHook::DestroyRenderPass)
        } else if s == DeviceHook::CreateFramebuffer.name() {
            Some(DeviceHook::CreateFramebuffer)
        } else if s == DeviceHook::DestroyFramebuffer.name() {
            Some(DeviceHook::DestroyFramebuffer)
        } else if s == DeviceHook::CmdBeginRenderPass.name() {
            Some(DeviceHook::CmdBeginRenderPass)
        } else if s == DeviceHook::CmdBeginRenderPass2.name() {
            Some(DeviceHook::CmdBeginRenderPass2)
        } else {
            None
        }
    }

    /// The call of a name, if the layer takes it.
    pub fn find(name: &str) -> (r: Option<DeviceHook>)
        ensures
            r == DeviceHook::of_name(name@),
    {
        if same_text(name, "vkGetDeviceProcAddr") {
            Some(DeviceHook::GetDeviceProcAddr)
        } else if same_text(name, "vkDestroyDevice") {
            Some(DeviceHook::DestroyDevice)
        } else if same_text(name, "vkCreateImageView") {
            Some(DeviceHook::CreateImageView)
        } else if same_text(name, "vkDestroyImageView") {
            Some(DeviceHook::DestroyImageView)
        } else if same_text(name, "vkAllocateCommandBuffers") {
            Some(DeviceHook::AllocateCommandBuffers)
        } else if same_text(name, "vkCmdBeginRendering") {
            Some(DeviceHook::CmdBeginRendering)
        } else if same_text(name, "vkCmdEndRendering") {
            Some(DeviceHook::CmdEndRendering)
        } else if same_text(name, "vkCreateGraphicsPipelines") {
            Some(DeviceHook::CreateGraphicsPipelines)
        } else if same_text(name, "vkCreateRenderPass") {
            Some(DeviceHook::CreateRenderPass)
        } else if same_text(name, "vkCreateRenderPass2") {
            Some(DeviceHook::CreateRenderPass2)
        } else if same_text(name, "vkDestroyRenderPass") {
            Some(DeviceHook::DestroyRenderPass)
        } else if same_text(name, "vkCreateFramebuffer") {
            Some(DeviceHook::CreateFramebuffer)
        } else if same_text(name, "vkDestroyFramebuffer") {
            Some(DeviceHook::DestroyFramebuffer)
        } else if same_text(name, "vkCmdBeginRenderPass") {
            Some(DeviceHook::CmdBeginRenderPass)
        } else if same_text(name, "vkCmdBeginRenderPass2") {
            Some(DeviceHook::CmdBeginRenderPass2)
        } else {
            None
        }
    }
}

/// Where a request for an instance's entry point goes.
#[derive(Clone, Copy, Debug, PartialEq, Eq, Structural)]
pub enum InstanceRoute {
    /// To the layer itself.
    Hook(InstanceHook),
    /// To the next layer, through this entry point.
    Next(u64),
    /// Nowhere.
    Nothing,
}

/// Where a request for a device's entry point goes.
#[derive(Clone, Copy, Debug, PartialEq, Eq, Structural)]
pub enum DeviceRoute {
    /// To the layer itself.
    Hook(DeviceHook),
    /// To the next layer, through this entry point.
    Next(u64),
    /// Nowhere.
    Nothing,
}

/// An instance: the entry points of the next layer, and the API version that
/// the application asked for.
#[derive(Clone, Copy, Debug, PartialEq, Eq, Structural)]
pub struct InstanceData {
    pub next_gipa: u64,
    pub destroy_instance: u64,
    pub enumerate_physical_devices: u64,
    pub get_physical_device_properties: u64,
    pub app_api: u32,
}

/// A device: the entry points of the next layer, the side of a shading-rate
/// tile where the device has such attachments, and a queue family to submit to.
#[derive(Clone, Copy, Debug, PartialEq, Eq, Structural)]
pub struct DeviceData {
    pub next_gdpa: u64,
    pub create_rp2: Option<u64>,
    pub vrs: Option<Extent2>,
    pub queue_family: u32,
}

/// The value of a key, if the table has it.
pub open spec fn entry<V>(m: Map<u64, V>, k: u64) -> Option<V> {
    if m.contains_key(k) {
        Some(m[k])
    } else {
        None
    }
}

/// A copy of the value of a key, if the table has it.
pub(crate) fn get_copied<V: Copy>(m: &HashMap<u64, V>, k: u64) -> (r: Option<V>)
    ensures
        r == entry(m@, k),
{
    match m.get(&k) {
        Some(v) => Some(*v),
        None => None,
    }
}

/// A structure of a creation chain that the loader may have put there.
#[derive(Clone, Copy, Debug, PartialEq, Eq, Structural)]
pub struct ChainLink {
    pub s_type: i32,
    /// What the link is for; 0 for structures that are not the loader's.
    pub function: i32,
}

/// The place of the first link to the next layer, of the type `s_type`.
pub open spec fn first_link(chain: Seq<ChainLink>, s_type: i32, from: int) -> Option<int>
    decreases chain.len() - from,
{
    if from < 0 || from >= chain.len() {
        None
    } else if chain[from].s_type == s_type && chain[from].function == LAYER_LINK_INFO {
        Some(from)
    } else {
        first_link(chain, s_type, from + 1)
    }
}

/// Whether `r` is the place `at`.
pub open spec fn is_place(r: Option<usize>, at: Option<int>) -> bool {
    match r {
        Some(i) => at == Some(i as int),
        None => at is None,
    }
}

fn find_link(chain: &Vec<ChainLink>, s_type: i32) -> (r: Option<usize>)
    ensures
        is_place(r, first_link(chain@, s_type, 0)),
{
    let mut i: usize = 0;
    while i < chain.len()
        invariant
            i <= chain@.len(),
            first_link(chain@, s_type, 0) == first_link(chain@, s_type, i as int),
        decreases chain@.len() - i,
    {
        if chain[i].s_type == s_type && chain[i].function == LAYER_LINK_INFO {
            return Some(i);
        }
        i = i + 1;
    }
    None
}

/// The place of the loader's link in an instance's creation chain.
pub open spec fn instance_link(chain: Seq<ChainLink>) -> Option<int> {
    first_link(chain, TYPE_LOADER_INSTANCE, 0)
}

/// The place of the loader's link in a device's creation chain.
pub open spec fn device_link(chain: Seq<ChainLink>) -> Option<int> {
    first_link(chain, TYPE_LOADER_DEVICE, 0)
}

/// The place of the loader's link in an instance's creation chain.
pub fn find_instance_chain_info(chain: &Vec<ChainLink>) -> (r: Option<usize>)
    ensures
        is_place(r, instance_link(chain@)),
{
    find_link(chain, TYPE_LOADER_INSTANCE)
}

/// The place of the loader's link in a device's creation chain.
pub fn find_device_chain_info(chain: &Vec<ChainLink>) -> (r: Option<usize>)
    ensures
        is_place(r, device_link(chain@)),
{
    find_link(chain, TYPE_LOADER_DEVICE)
}

/// An entry point that can be called, or the error.
pub open spec fn usable(entry_point: u64) -> Result<u64, i32> {
    if entry_point == 0 {
        Err(ERROR_INITIALIZATION_FAILED)
    } else {
        Ok(entry_point)
    }
}

/// What a call through a bare entry point made, or its error.
pub open spec fn outcome(code: i32, handle: u64) -> Result<u64, i32> {
    if code == SUCCESS {
        Ok(handle)
    } else {
        Err(code)
    }
}

/// The code of an outcome.
pub open spec fn code_of<T>(r: Result<T, i32>) -> i32 {
    match r {
        Ok(_) => SUCCESS,
        Err(e) => e,
    }
}

/// A table after the creation of an object, which failed or did not.
pub open spec fn with_created<V>(m: Map<u64, V>, code: i32, handle: u64, data: V) -> Map<u64, V> {
    if code == SUCCESS {
        m.insert(handle, data)
    } else {
        m
    }
}

/// What a table knows of a handle; an unknown one cannot be used.
pub open spec fn known<V>(m: Map<u64, V>, handle: u64) -> Result<V, i32> {
    match entry(m, handle) {
        Some(d) => Ok(d),
        None => Err(ERROR_INITIALIZATION_FAILED),
    }
}

/// The instances of the physical devices after an enumeration.
pub open spec fn with_enumerated(
    m: Map<u64, u64>,
    instance: u64,
    code: i32,
    listed: Option<Vec<u64>>,
) -> Map<u64, u64> {
    match listed {
        Some(devices) => if code == SUCCESS || code == INCOMPLETE {
            assigned(m, devices@, instance)
        } else {
            m
        },
        None => m,
    }
}

/// The images of the views after the creation of one.
pub open spec fn with_view(m: Map<u64, u64>, view: Result<u64, i32>, image: u64) -> Map<u64, u64> {
    match view {
        Ok(v) => m.insert(v, image),
        Err(_) => m,
    }
}

/// The image of a view, if the view is one and is known.
pub open spec fn image_behind(m: Map<u64, u64>, view: u64) -> Option<u64> {
    if view == 0 {
        None
    } else {
        entry(m, view)
    }
}

/// The image of a view; 0 where it is unknown.
pub open spec fn image_or_zero(m: Map<u64, u64>, view: u64) -> u64 {
    match entry(m, view) {
        Some(i) => i,
        None => 0,
    }
}

/// The devices of the command buffers after an allocation.
pub open spec fn with_buffers(
    m: Map<u64, u64>,
    device: u64,
    buffers: Result<Vec<u64>, i32>,
) -> Map<u64, u64> {
    match buffers {
        Ok(list) => assigned(m, list@, device),
        Err(_) => m,
    }
}

/// An entry point that can be called: without one, creation fails.
pub fn callable(entry_point: u64) -> (r: Result<u64, i32>)
    ensures
        r == usable(entry_point),
{
    if entry_point == 0 {
        Err(ERROR_INITIALIZATION_FAILED)
    } else {
        Ok(entry_point)
    }
}

/// What a call through a bare entry point made.
pub fn made(code: i32, handle: u64) -> (r: Result<u64, i32>)
    ensures
        r == outcome(code, handle),
{
    if code == SUCCESS {
        Ok(handle)
    } else {
        Err(code)
    }
}

/// The instances that the layer has seen created, and whose physical devices
/// are whose.
pub struct Instances {
    pub by_handle: HashMap<u64, InstanceData>,
    pub physical: HashMap<u64, u64>,
}

impl Instances {
    pub fn new() -> (r: Self)
        ensures
            r.by_handle@ == Map::<u64, InstanceData>::empty(),
            r.physical@ == Map::<u64, u64>::empty(),
    {
        Instances { by_handle: HashMap::new(), physical: HashMap::new() }
    }

    /// Where a request for an entry point goes. `name` is missing where the
    /// application gave none.
    pub open spec fn route(self, instance: u64, name: Option<Seq<char>>) -> InstanceRoute {
        match name {
            None => InstanceRoute::Nothing,
            Some(n) => match InstanceHook::of_name(n) {
                Some(h) => InstanceRoute::Hook(h),
                None => match entry(self.by_handle@, instance) {
                    Some(d) => InstanceRoute::Next(d.next_gipa),
                    None => InstanceRoute::Nothing,
                },
            },
        }
    }

    /// Where a request for an entry point goes.
    pub fn get_instance_proc_addr(&self, instance: u64, name: Option<&str>) -> (r: InstanceRoute)
        ensures
            r == self.route(
                instance,
                match name {
                    Some(n) => Some(n@),
                    None => None,
                },
            ),
    {
        match name {
            None => InstanceRoute::Nothing,
            Some(n) => match InstanceHook::find(n) {
                Some(h) => InstanceRoute::Hook(h),
                None => match get_copied(&self.by_handle, instance) {
                    Some(d) => InstanceRoute::Next(d.next_gipa),
                    None => InstanceRoute::Nothing,
                },
            },
        }
    }

    /// The data of an instance; an unknown one cannot be used.
    pub fn instance(&self, instance: u64) -> (r: Result<InstanceData, i32>)
        ensures
            r == known(self.by_handle@, instance),
    {
        match get_copied(&self.by_handle, instance) {
            Some(d) => Ok(d),
            None => Err(ERROR_INITIALIZATION_FAILED),
        }
    }

    /// Note the outcome of an instance's creation, and pass the code on.
    pub fn create_instance(&mut self, code: i32, instance: u64, data: InstanceData) -> (r: i32)
        ensures
            r == code,
            final(self).by_handle@ == with_created(old(self).by_handle@, code, instance, data),
            final(self).physical@ == old(self).physical@,
    {
        if code == SUCCESS {
            self.by_handle.insert(instance, data);
        }
        code
    }

    /// Forget an instance and its physical devices. The data says how to
    /// destroy it; there is none for an unknown instance.
    pub fn destroy_instance(&mut self, instance: u64) -> (r: Option<InstanceData>)
        ensures
            r == entry(old(self).by_handle@, instance),
            final(self).by_handle@ == old(self).by_handle@.remove(instance),
            final(self).physical@ == crate::table::without_children(
                old(self).physical@,
                instance,
            ),
    {
        let data: Option<InstanceData> = self.by_handle.remove(&instance);
        drop_children(&mut self.physical, instance);
        data
    }

    /// Note the physical devices of an instance, where the enumeration wrote
    /// them out. `listed` is missing where the application only asked for their
    /// number.
    pub fn enumerate_physical_devices(
        &mut self,
        instance: u64,
        code: i32,
        listed: &Option<Vec<u64>>,
    )
        ensures
            final(self).by_handle@ == old(self).by_handle@,
            final(self).physical@ == with_enumerated(
                old(self).physical@,
                instance,
                code,
                *listed,
            ),
    {
        match listed {
            Some(devices) => if code == SUCCESS || code == INCOMPLETE {
                assign_all(&mut self.physical, devices, instance);
            },
            None => {},
        }
    }

    /// The instance of a physical device.
    pub fn instance_of(&self, physical: u64) -> (r: Option<u64>)
        ensures
            r == entry(self.physical@, physical),
    {
        get_copied(&self.physical, physical)
    }
}

/// A table in which all of `keys` have the value `value`.
pub open spec fn assigned(m: Map<u64, u64>, keys: Seq<u64>, value: u64) -> Map<u64, u64> {
    m.union_prefer_right(Map::new(|k: u64| keys.contains(k), |k: u64| value))
}

/// Give each of `keys` the value `value`.
fn assign_all(table: &mut HashMap<u64, u64>, keys: &Vec<u64>, value: u64)
    ensures
        final(table)@ == assigned(old(table)@, keys@, value),
{
    let ghost before = table@;
    let mut i: usize = 0;
    assert(before =~= assigned(before, keys@.take(0), value));
    while i < keys.len()
        invariant
            i <= keys@.len(),
            table@ == assigned(before, keys@.take(i as int), value),
        decreases keys@.len() - i,
    {
        let k: u64 = keys[i];
        table.insert(k, value);
        proof {
            let shorter = keys@.take(i as int);
            let longer = keys@.take(i + 1);
            assert(longer =~= shorter.push(k));
            assert forall|x: u64| longer.contains(x) <==> (shorter.contains(x) || x == k) by {
                if shorter.contains(x) {
                    let j = choose|j: int| 0 <= j < shorter.len() && shorter[j] == x;
                    assert(longer[j] == x);
                }
                assert(longer[i as int] == k);
            }
            assert(table@ =~= assigned(before, longer, value));
        }
        i = i + 1;
    }
    assert(keys@.take(keys@.len() as int) =~= keys@);
}

/// The devices that the layer has seen created, and the handles made from them
/// that it follows.
pub struct Devices {
    pub by_handle: HashMap<u64, DeviceData>,
    /// The image of each image view.
    pub images: HashMap<u64, u64>,
    /// The device of each command buffer.
    pub buffers: HashMap<u64, u64>,
}

impl Devices {
    pub fn new() -> (r: Self)
        ensures
            r.by_handle@ == Map::<u64, DeviceData>::empty(),
            r.images@ == Map::<u64, u64>::empty(),
            r.buffers@ == Map::<u64, u64>::empty(),
    {
        Devices { by_handle: HashMap::new(), images: HashMap::new(), buffers: HashMap::new() }
    }

    /// Where a request for an entry point goes. `name` is missing where the
    /// application gave none.
    pub open spec fn route(self, device: u64, name: Option<Seq<char>>) -> DeviceRoute {
        match name {
            None => DeviceRoute::Nothing,
            Some(n) => match DeviceHook::of_name(n) {
                Some(h) => DeviceRoute::Hook(h),
                None => match entry(self.by_handle@, device) {
                    Some(d) => DeviceRoute::Next(d.next_gdpa),
                    None => DeviceRoute::Nothing,
                },
            },
        }
    }

    /// Where a request for an entry point goes.
    pub fn get_device_proc_addr(&self, device: u64, name: Option<&str>) -> (r: DeviceRoute)
        ensures
            r == self.route(
                device,
                match name {
                    Some(n) => Some(n@),
                    None => None,
                },
            ),
    {
        match name {
            None => DeviceRoute::Nothing,
            Some(n) => match DeviceHook::find(n) {
                Some(h) => DeviceRoute::Hook(h),
                None => match get_copied(&self.by_handle, device) {
                    Some(d) => DeviceRoute::Next(d.next_gdpa),
                    None => DeviceRoute::Nothing,
                },
            },
        }
    }

    /// The data of a device; an unknown one cannot be used.
    pub fn device(&self, device: u64) -> (r: Result<DeviceData, i32>)
        ensures
            r == known(self.by_handle@, device),
    {
        match get_copied(&self.by_handle, device) {
            Some(d) => Ok(d),
            None => Err(ERROR_INITIALIZATION_FAILED),
        }
    }

    /// Note the outcome of a device's creation, and pass the code on.
    pub fn create_device(&mut self, code: i32, device: u64, data: DeviceData) -> (r: i32)
        ensures
            r == code,
            final(self).by_handle@ == with_created(old(self).by_handle@, code, device, data),
            final(self).images@ == old(self).images@,
            final(self).buffers@ == old(self).buffers@,
    {
        if code == SUCCESS {
            self.by_handle.insert(device, data);
        }
        code
    }

    /// Forget a device. There is nothing to destroy for an unknown one.
    pub fn destroy_device(&mut self, device: u64) -> (r: Option<DeviceData>)
        ensures
            r == entry(old(self).by_handle@, device),
            final(self).by_handle@ == old(self).by_handle@.remove(device),
            final(self).images@ == old(self).images@,
            final(self).buffers@ == old(self).buffers@,
    {
        self.by_handle.remove(&device)
    }

    /// Note the outcome of an image view's creation, and give its code.
    pub fn create_image_view(&mut self, view: Result<u64, i32>, image: u64) -> (r: i32)
        ensures
            r == code_of(view),
            final(self).images@ == with_view(old(self).images@, view, image),
            final(self).by_handle@ == old(self).by_handle@,
            final(self).buffers@ == old(self).buffers@,
    {
        match view {
            Ok(v) => {
                self.images.insert(v, image);
                SUCCESS
            },
            Err(e) => e,
        }
    }

    /// Forget an image view.
    pub fn destroy_image_view(&mut self, view: u64)
        ensures
            final(self).images@ == old(self).images@.remove(view),
            final(self).by_handle@ == old(self).by_handle@,
            final(self).buffers@ == old(self).buffers@,
    {
        self.images.remove(&view);
    }

    /// The image of a view, if the view is one and is known.
    pub fn image_of(&self, view: u64) -> (r: Option<u64>)
        ensures
            r == image_behind(self.images@, view),
    {
        if view == 0 {
            None
        } else {
            get_copied(&self.images, view)
        }
    }

    /// The image of a view; 0 where it is unknown.
    pub fn image_or_none(&self, view: u64) -> (r: u64)
        ensures
            r == image_or_zero(self.images@, view),
    {
        match get_copied(&self.images, view) {
            Some(i) => i,
            None => 0,
        }
    }

    /// Note the outcome of the allocation of command buffers, and give its
    /// code.
    pub fn allocate_command_buffers(&mut self, device: u64, buffers: &Result<Vec<u64>, i32>) -> (r:
        i32)
        ensures
            r == code_of(*buffers),
            final(self).buffers@ == with_buffers(old(self).buffers@, device, *buffers),
            final(self).by_handle@ == old(self).by_handle@,
            final(self).images@ == old(self).images@,
    {
        match buffers {
            Ok(list) => {
                assign_all(&mut self.buffers, list, device);
                SUCCESS
            },
            Err(e) => *e,
        }
    }

    /// The device of a command buffer, and what is known of it. A command of a
    /// buffer without one is dropped.
    pub open spec fn device_of(self, buffer: u64) -> Option<(u64, DeviceData)> {
        match entry(self.buffers@, buffer) {
            Some(device) => match entry(self.by_handle@, device) {
                Some(d) => Some((device, d)),
                None => None,
            },
            None => None,
        }
    }

    /// The device of a command buffer, and what is known of it.
    pub fn buffer_device(&self, buffer: u64) -> (r: Option<(u64, DeviceData)>)
        ensures
            r == self.device_of(buffer),
    {
        match get_copied(&self.buffers, buffer) {
            Some(device) => match get_copied(&self.by_handle, device) {
                Some(d) => Some((device, d)),
                None => None,
            },
            None => None,
        }
    }
}

/// Every call that the layer takes at the instance's level is found under its
/// name, and under no other.
pub proof fn instance_hooks_are_named(h: InstanceHook, s: Seq<char>)
    ensures
        InstanceHook::of_name(h.name()) == Some(h),
        InstanceHook::of_name(s) == Some(h) ==> s == h.name(),
{
    reveal_strlit("vkGetInstanceProcAddr");
    reveal_strlit("vkCreateInstance");
    reveal_strlit("vkDestroyInstance");
    reveal_strlit("vkEnumeratePhysicalDevices");
    reveal_strlit("vkCreateDevice");
    reveal_strlit("vkGetDeviceProcAddr");
    assert(InstanceHook::GetInstanceProcAddr.name().len() == 21);
    assert(InstanceHook::CreateInstance.name().len() == 16);
    assert(InstanceHook::DestroyInstance.name().len() == 17);
    assert(InstanceHook::EnumeratePhysicalDevices.name().len() == 26);
    assert(InstanceHook::CreateDevice.name().len() == 14);
    assert(InstanceHook::GetDeviceProcAddr.name().len() == 19);
}

/// Every call that the layer takes at the device's level is found under its
/// name, and under no other.
pub proof fn device_hooks_are_named(h: DeviceHook, s: Seq<char>)
    ensures
        DeviceHook::of_name(h.name()) == Some(h),
        DeviceHook::of_name(s) == Some(h) ==> s == h.name(),
{
    reveal_strlit("vkGetDeviceProcAddr");
    reveal_strlit("vkDestroyDevice");
    reveal_strlit("vkCreateImageView");
    reveal_strlit("vkDestroyImageView");
    reveal_strlit("vkAllocateCommandBuffers");
    reveal_strlit("vkCmdBeginRendering");
    reveal_strlit("vkCmdEndRendering");
    reveal_strlit("vkCreateGraphicsPipelines");
    reveal_strlit("vkCreateRenderPass");
    reveal_strlit("vkCreateRenderPass2");
    reveal_strlit("vkDestroyRenderPass");
    reveal_strlit("vkCreateFramebuffer");
    reveal_strlit("vkDestroyFramebuffer");
    reveal_strlit("vkCmdBeginRenderPass");
    reveal_strlit("vkCmdBeginRenderPass2");
    assert(DeviceHook::GetDeviceProcAddr.name().len() == 19);
    assert(DeviceHook::GetDeviceProcAddr.name()[2] == 'G');
    assert(DeviceHook::DestroyDevice.name().len() == 15);
    assert(DeviceHook::CreateImageView.name().len() == 17);
    assert(DeviceHook::CreateImageView.name()[3] == 'r');
    assert(DeviceHook::DestroyImageView.name().len() == 18);
    assert(DeviceHook::DestroyImageView.name()[2] == 'D');
    assert(DeviceHook::AllocateCommandBuffers.name().len() == 24);
    assert(DeviceHook::CmdBeginRendering.name().len() == 19);
    assert(DeviceHook::CmdBeginRendering.name()[2] == 'C');
    assert(DeviceHook::CmdBeginRendering.name()[3] == 'm');
    assert(DeviceHook::CmdEndRendering.name().len() == 17);
    assert(DeviceHook::CmdEndRendering.name()[3] == 'm');
    assert(DeviceHook::CreateGraphicsPipelines.name().len() == 25);
    assert(DeviceHook::CreateRenderPass.name().len() == 18);
    assert(DeviceHook::CreateRenderPass.name()[2] == 'C');
    assert(DeviceHook::CreateRenderPass2.name().len() == 19);
    assert(DeviceHook::CreateRenderPass2.name()[2] == 'C');
    assert(DeviceHook::CreateRenderPass2.name()[3] == 'r');
    assert(DeviceHook::CreateRenderPass2.name()[8] == 'R');
    assert(DeviceHook::DestroyRenderPass.name().len() == 19);
    assert(DeviceHook::DestroyRenderPass.name()[2] == 'D');
    assert(DeviceHook::CreateFramebuffer.name().len() == 19);
    assert(DeviceHook::CreateFramebuffer.name()[2] == 'C');
    assert(DeviceHook::CreateFramebuffer.name()[3] == 'r');
    assert(DeviceHook::CreateFramebuffer.name()[8] == 'F');
    assert(DeviceHook::DestroyFramebuffer.name().len() == 20);
    assert(DeviceHook::DestroyFramebuffer.name()[2] == 'D');
    assert(DeviceHook::CmdBeginRenderPass.name().len() == 20);
    assert(DeviceHook::CmdBeginRenderPass.name()[2] == 'C');
    assert(DeviceHook::CmdBeginRenderPass2.name().len() == 21);
}

/// After an instance is destroyed, no physical device is assigned to it, and
/// those of other instances are as before.
pub proof fn destroyed_instance_has_no_devices(m: Map<u64, u64>, instance: u64, physical: u64)
    ensures
        entry(crate::table::without_children(m, instance), physical) == (if entry(m, physical)
            == Some(instance) {
            None
        } else {
            entry(m, physical)
        }),
{
}

/// Physical devices that were enumerated belong to the instance, and the
/// others belong where they did.
pub proof fn enumerated_devices_are_assigned(
    m: Map<u64, u64>,
    listed: Seq<u64>,
    instance: u64,
    physical: u64,
)
    ensures
        entry(assigned(m, listed, instance), physical) == (if listed.contains(physical) {
            Some(instance)
        } else {
            entry(m, physical)
        }),
{
}

/// The layer agrees on what a loader offers up to version 2, and on 2 beyond.
pub proof fn agreement_is_the_lower_version(offered: u32)
    ensures
        offered <= 2 ==> agreed(offered) == offered,
        offered > 2 ==> agreed(offered) == 2,
{
}

/// The loader's link is the first structure of its type that links to the next
/// layer; a structure of that type for another purpose does not count.
pub proof fn links_are_the_first_of_their_type(chain: Seq<ChainLink>, k: int)
    ensures
        0 <= k < chain.len() && chain[k].s_type == 47 && chain[k].function == 0 && (forall|j: int|
            0 <= j < k ==> (#[trigger] chain[j]).s_type != 47 || chain[j].function != 0)
            ==> instance_link(chain) == Some(k),
        0 <= k < chain.len() && chain[k].s_type == 48 && chain[k].function == 0 && (forall|j: int|
            0 <= j < k ==> (#[trigger] chain[j]).s_type != 48 || chain[j].function != 0)
            ==> device_link(chain) == Some(k),
        (forall|j: int|
            0 <= j < chain.len() ==> (#[trigger] chain[j]).s_type != 47 || chain[j].function != 0)
            ==> instance_link(chain) is None,
        (forall|j: int|
            0 <= j < chain.len() ==> (#[trigger] chain[j]).s_type != 48 || chain[j].function != 0)
            ==> device_link(chain) is None,
{
    link_reached(chain, 47, 0, k);
    link_reached(chain, 48, 0, k);
}

proof fn link_reached(chain: Seq<ChainLink>, s_type: i32, from: int, k: int)
    requires
        0 <= from,
    ensures
        from <= k < chain.len() && chain[k].s_type == s_type && chain[k].function == 0 && (forall|
            j: int,
        |
            from <= j < k ==> (#[trigger] chain[j]).s_type != s_type || chain[j].function != 0)
            ==> first_link(chain, s_type, from) == Some(k),
        (forall|j: int|
            from <= j < chain.len() ==> (#[trigger] chain[j]).s_type != s_type || chain[j].function
                != 0) ==> first_link(chain, s_type, from) is None,
    decreases chain.len() - from,
{
    if from < chain.len() {
        link_reached(chain, s_type, from + 1, k);
    }
}

/// An entry point of 0 fails the creation, any other is called; a call that
/// succeeds gives its handle, one that fails its code.
pub proof fn outcomes_are_passed_on(entry_point: u64, code: i32, handle: u64)
    ensures
        usable(0) matches Err(e) && e == -3,
        entry_point != 0 ==> usable(entry_point) == Ok::<u64, i32>(entry_point),
        outcome(0, handle) == Ok::<u64, i32>(handle),
        code != 0 ==> outcome(code, handle) == Err::<u64, i32>(code),
        code_of(outcome(code, handle)) == code,
{
}

/// An object that was created is known with its data, and the others are known
/// as before. One whose creation failed is not noted. An unknown handle cannot
/// be used.
pub proof fn created_objects_are_known<V>(
    m: Map<u64, V>,
    code: i32,
    handle: u64,
    data: V,
    other: u64,
)
    ensures
        known(with_created(m, 0, handle, data), handle) == Ok::<V, i32>(data),
        code != 0 ==> with_created(m, code, handle, data) == m,
        other != handle ==> known(with_created(m, code, handle, data), other) == known(m, other),
        !m.contains_key(other) ==> (known(m, other) matches Err(e) && e == -3),
        m.contains_key(other) ==> known(m, other) == Ok::<V, i32>(m[other]),
        known(m.remove(handle), handle) is Err,
        other != handle ==> known(m.remove(handle), other) == known(m, other),
{
}

/// Physical devices that an enumeration wrote out belong to its instance,
/// whether the list is complete or not; an enumeration that failed, or that was
/// only asked for the number, changes nothing.
pub proof fn written_devices_are_assigned(
    m: Map<u64, u64>,
    instance: u64,
    code: i32,
    devices: Vec<u64>,
    physical: u64,
)
    ensures
        with_enumerated(m, instance, code, None) == m,
        code != 0 && code != 5 ==> with_enumerated(m, instance, code, Some(devices)) == m,
        (code == 0 || code == 5) && devices@.contains(physical) ==> entry(
            with_enumerated(m, instance, code, Some(devices)),
            physical,
        ) == Some(instance),
        !devices@.contains(physical) ==> entry(
            with_enumerated(m, instance, code, Some(devices)),
            physical,
        ) == entry(m, physical),
{
}

/// The image of a view is the one that it was created for, for as long as the
/// view lives. Views that failed, that were destroyed, or that are none have no
/// image, and other views keep theirs.
pub proof fn views_lead_to_their_images(
    m: Map<u64, u64>,
    view: u64,
    image: u64,
    other: u64,
    e: i32,
)
    ensures
        view != 0 ==> image_behind(with_view(m, Ok(view), image), view) == Some(image),
        image_behind(m, 0) is None,
        with_view(m, Err(e), image) == m,
        other != view ==> image_behind(with_view(m, Ok(view), image), other) == image_behind(
            m,
            other,
        ),
        image_behind(m.remove(view), view) is None,
        other != view ==> image_behind(m.remove(view), other) == image_behind(m, other),
{
}

/// The device of a command buffer is the one that it was allocated from, with
/// what is known of that device. Buffers whose allocation failed are not noted,
/// and other buffers keep their device.
pub proof fn buffers_lead_to_their_devices(
    m: Map<u64, u64>,
    device: u64,
    list: Vec<u64>,
    buffer: u64,
    e: i32,
    devices: Devices,
)
    ensures
        list@.contains(buffer) ==> entry(with_buffers(m, device, Ok(list)), buffer)
            == Some(device),
        !list@.contains(buffer) ==> entry(with_buffers(m, device, Ok(list)), buffer) == entry(
            m,
            buffer,
        ),
        with_buffers(m, device, Err(e)) == m,
        !devices.buffers@.contains_key(buffer) ==> devices.device_of(buffer) is None,
        devices.buffers@.contains_key(buffer) ==> {
            let d = devices.buffers@[buffer];
            &&& !devices.by_handle@.contains_key(d) ==> devices.device_of(buffer) is None
            &&& devices.by_handle@.contains_key(d) ==> devices.device_of(buffer) == Some(
                (d, devices.by_handle@[d]),
            )
        },
{
}

/// A request for a call that the layer takes stays here, whatever the instance;
/// any other goes to the instance's next layer, and nowhere for an unknown
/// instance or without a name.
pub proof fn instance_requests_are_routed(t: Instances, instance: u64, name: Seq<char>)
    ensures
        t.route(instance, None) == InstanceRoute::Nothing,
        forall|h: InstanceHook|
            name == (#[trigger] h.name()) ==> t.route(instance, Some(name)) == InstanceRoute::Hook(
                h,
            ),
        (forall|h: InstanceHook| name != (#[trigger] h.name())) && t.by_handle@.contains_key(
            instance,
        ) ==> t.route(instance, Some(name)) == InstanceRoute::Next(
            t.by_handle@[instance].next_gipa,
        ),
        (forall|h: InstanceHook| name != (#[trigger] h.name())) && !t.by_handle@.contains_key(
            instance,
        ) ==> t.route(instance, Some(name)) == InstanceRoute::Nothing,
{
    assert forall|h: InstanceHook| name == (#[trigger] h.name()) implies t.route(
        instance,
        Some(name),
    ) == InstanceRoute::Hook(h) by {
        instance_hooks_are_named(h, name);
    }
    match InstanceHook::of_name(name) {
        Some(h) => {
            instance_hooks_are_named(h, name);
        },
        None => {},
    }
}

/// A request for a call that the layer takes stays here, whatever the device;
/// any other goes to the device's next layer, and nowhere for an unknown device
/// or without a name.
pub proof fn device_requests_are_routed(t: Devices, device: u64, name: Seq<char>)
    ensures
        t.route(device, None) == DeviceRoute::Nothing,
        forall|h: DeviceHook|
            name == (#[trigger] h.name()) ==> t.route(device, Some(name)) == DeviceRoute::Hook(h),
        (forall|h: DeviceHook| name != (#[trigger] h.name())) && t.by_handle@.contains_key(device)
            ==> t.route(device, Some(name)) == DeviceRoute::Next(t.by_handle@[device].next_gdpa),
        (forall|h: DeviceHook| name != (#[trigger] h.name())) && !t.by_handle@.contains_key(device)
            ==> t.route(device, Some(name)) == DeviceRoute::Nothing,
{
    assert forall|h: DeviceHook| name == (#[trigger] h.name()) implies t.route(device, Some(name))
        == DeviceRoute::Hook(h) by {
        device_hooks_are_named(h, name);
    }
    match DeviceHook::of_name(name) {
        Some(h) => {
            device_hooks_are_named(h, name);
        },
        None => {},
    }
}

/// A view that is known leads to its image, any other to 0.
pub proof fn unknown_views_lead_to_zero(m: Map<u64, u64>, view: u64)
    ensures
        m.contains_key(view) ==> image_or_zero(m, view) == m[view],
        !m.contains_key(view) ==> image_or_zero(m, view) == 0,
{
}

/// What a table holds for a key is found under that key, and nothing under a
/// key that it does not have.
pub proof fn entries_are_found<V>(m: Map<u64, V>, k: u64)
    ensures
        m.contains_key(k) ==> entry(m, k) == Some(m[k]),
        !m.contains_key(k) ==> entry(m, k) is None,
{
}

/// A place that is found is the one of the link, and none is found exactly where
/// there is no link.
pub proof fn found_place_is_that_of_the_link(i: usize, at: int)
    ensures
        is_place(Some(i), Some(at)) <==> i == at,
        !is_place(Some(i), None),
        !is_place(None, Some(at)),
        is_place(None, None),
{
}

} // verus!
