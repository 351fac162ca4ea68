//! Routing, device creation, render passes and framebuffers of the Vulkan
//! layer.

use ash::vk as avk;
use ffr::device::{
    added_extensions, app_api_version, app_api_version_raw, app_name, device_has_extension,
    effective_device_api, first_queue_family, gpu_name, plan_device, query_vrs, rp2_name,
    Extension, VrsAnswer, VrsStep,
};
use ffr::dispatch::{
    callable, find_device_chain_info, find_instance_chain_info, made, negotiate, ChainLink,
    DeviceData, DeviceHook, DeviceRoute, Devices, InstanceData, InstanceHook, InstanceRoute,
    Instances,
};
use ffr::render_pass::{
    aspect_for, augments, create_render_pass, create_render_pass2, find_multiview_v1,
    has_color_subpass, layers_from_masks, references_hold, Attachment, Dependency, Multiview,
    PassExtension, Reference, RenderPass, Subpass, SubpassHead,
};
use ffr::vk::{self, Extent2};

fn extent(width: u32, height: u32) -> Extent2 {
    Extent2 { width, height }
}

#[test]
fn numbers_are_those_of_vulkan() {
    assert_eq!(vk::FORMAT_UNDEFINED, avk::Format::UNDEFINED.as_raw());
    assert_eq!(vk::FORMAT_R8_UINT, avk::Format::R8_UINT.as_raw());
    assert_eq!(vk::FORMAT_R8G8B8A8_UNORM, avk::Format::R8G8B8A8_UNORM.as_raw());
    assert_eq!(vk::FORMAT_R8G8B8A8_SRGB, avk::Format::R8G8B8A8_SRGB.as_raw());
    assert_eq!(vk::FORMAT_B8G8R8A8_SRGB, avk::Format::B8G8R8A8_SRGB.as_raw());
    assert_eq!(vk::FORMAT_D16_UNORM, avk::Format::D16_UNORM.as_raw());
    assert_eq!(vk::FORMAT_X8_D24_UNORM_PACK32, avk::Format::X8_D24_UNORM_PACK32.as_raw());
    assert_eq!(vk::FORMAT_D32_SFLOAT, avk::Format::D32_SFLOAT.as_raw());
    assert_eq!(vk::FORMAT_S8_UINT, avk::Format::S8_UINT.as_raw());
    assert_eq!(vk::FORMAT_D16_UNORM_S8_UINT, avk::Format::D16_UNORM_S8_UINT.as_raw());
    assert_eq!(vk::FORMAT_D24_UNORM_S8_UINT, avk::Format::D24_UNORM_S8_UINT.as_raw());
    assert_eq!(vk::FORMAT_D32_SFLOAT_S8_UINT, avk::Format::D32_SFLOAT_S8_UINT.as_raw());
    assert_eq!(vk::ASPECT_COLOR, avk::ImageAspectFlags::COLOR.as_raw());
    assert_eq!(vk::ASPECT_DEPTH, avk::ImageAspectFlags::DEPTH.as_raw());
    assert_eq!(vk::ASPECT_STENCIL, avk::ImageAspectFlags::STENCIL.as_raw());
    assert_eq!(
        vk::ASPECT_DEPTH_STENCIL,
        (avk::ImageAspectFlags::DEPTH | avk::ImageAspectFlags::STENCIL).as_raw()
    );
    assert_eq!(vk::SAMPLES_1, avk::SampleCountFlags::TYPE_1.as_raw());
    assert_eq!(vk::LOAD_OP_LOAD, avk::AttachmentLoadOp::LOAD.as_raw());
    assert_eq!(vk::LOAD_OP_CLEAR, avk::AttachmentLoadOp::CLEAR.as_raw());
    assert_eq!(vk::LOAD_OP_DONT_CARE, avk::AttachmentLoadOp::DONT_CARE.as_raw());
    assert_eq!(vk::STORE_OP_STORE, avk::AttachmentStoreOp::STORE.as_raw());
    assert_eq!(vk::STORE_OP_DONT_CARE, avk::AttachmentStoreOp::DONT_CARE.as_raw());
    assert_eq!(vk::LAYOUT_UNDEFINED, avk::ImageLayout::UNDEFINED.as_raw());
    assert_eq!(vk::LAYOUT_COLOR_ATTACHMENT, avk::ImageLayout::COLOR_ATTACHMENT_OPTIMAL.as_raw());
    assert_eq!(vk::LAYOUT_DEPTH_ATTACHMENT, avk::ImageLayout::DEPTH_ATTACHMENT_OPTIMAL.as_raw());
    assert_eq!(vk::LAYOUT_TRANSFER_DST, avk::ImageLayout::TRANSFER_DST_OPTIMAL.as_raw());
    assert_eq!(
        vk::LAYOUT_SHADING_RATE,
        avk::ImageLayout::FRAGMENT_SHADING_RATE_ATTACHMENT_OPTIMAL_KHR.as_raw()
    );
    assert_eq!(vk::VIEW_2D, avk::ImageViewType::TYPE_2D.as_raw());
    assert_eq!(vk::VIEW_2D_ARRAY, avk::ImageViewType::TYPE_2D_ARRAY.as_raw());
    assert_eq!(
        vk::USAGE_SHADING_RATE_DST,
        (avk::ImageUsageFlags::FRAGMENT_SHADING_RATE_ATTACHMENT_KHR
            | avk::ImageUsageFlags::TRANSFER_DST)
            .as_raw()
    );
    assert_eq!(vk::USAGE_COLOR_ATTACHMENT, avk::ImageUsageFlags::COLOR_ATTACHMENT.as_raw());
    assert_eq!(
        vk::USAGE_DEPTH_ATTACHMENT,
        avk::ImageUsageFlags::DEPTH_STENCIL_ATTACHMENT.as_raw()
    );
    assert_eq!(
        vk::USAGE_SHADING_RATE,
        avk::ImageUsageFlags::FRAGMENT_SHADING_RATE_ATTACHMENT_KHR.as_raw()
    );
    assert_eq!(vk::USAGE_BUFFER_TRANSFER_SRC, avk::BufferUsageFlags::TRANSFER_SRC.as_raw());
    assert_eq!(vk::STAGE_TOP, avk::PipelineStageFlags::TOP_OF_PIPE.as_raw());
    assert_eq!(vk::STAGE_COLOR_OUTPUT, avk::PipelineStageFlags::COLOR_ATTACHMENT_OUTPUT.as_raw());
    assert_eq!(
        vk::STAGE_COLOR_OUTPUT_EARLY_TESTS,
        (avk::PipelineStageFlags::COLOR_ATTACHMENT_OUTPUT
            | avk::PipelineStageFlags::EARLY_FRAGMENT_TESTS)
            .as_raw()
    );
    assert_eq!(vk::STAGE_TRANSFER, avk::PipelineStageFlags::TRANSFER.as_raw());
    assert_eq!(
        vk::STAGE_SHADING_RATE,
        avk::PipelineStageFlags::FRAGMENT_SHADING_RATE_ATTACHMENT_KHR.as_raw()
    );
    assert_eq!(vk::ACCESS_NONE, avk::AccessFlags::empty().as_raw());
    assert_eq!(vk::ACCESS_COLOR_WRITE, avk::AccessFlags::COLOR_ATTACHMENT_WRITE.as_raw());
    assert_eq!(
        vk::ACCESS_COLOR_READ_WRITE,
        (avk::AccessFlags::COLOR_ATTACHMENT_WRITE | avk::AccessFlags::COLOR_ATTACHMENT_READ)
            .as_raw()
    );
    assert_eq!(vk::ACCESS_DEPTH_WRITE, avk::AccessFlags::DEPTH_STENCIL_ATTACHMENT_WRITE.as_raw());
    assert_eq!(vk::ACCESS_TRANSFER_WRITE, avk::AccessFlags::TRANSFER_WRITE.as_raw());
    assert_eq!(
        vk::ACCESS_SHADING_RATE_READ,
        avk::AccessFlags::FRAGMENT_SHADING_RATE_ATTACHMENT_READ_KHR.as_raw()
    );
    assert_eq!(vk::ATTACHMENT_UNUSED, avk::ATTACHMENT_UNUSED);
    assert_eq!(
        vk::TYPE_RENDER_PASS_MULTIVIEW,
        avk::StructureType::RENDER_PASS_MULTIVIEW_CREATE_INFO.as_raw()
    );
    assert_eq!(vk::BIND_POINT_GRAPHICS, avk::PipelineBindPoint::GRAPHICS.as_raw());
    assert_eq!(vk::MEMORY_DEVICE_LOCAL, avk::MemoryPropertyFlags::DEVICE_LOCAL.as_raw());
    assert_eq!(
        vk::MEMORY_HOST_VISIBLE_COHERENT,
        (avk::MemoryPropertyFlags::HOST_VISIBLE | avk::MemoryPropertyFlags::HOST_COHERENT).as_raw()
    );
    assert_eq!(vk::QUEUE_GRAPHICS, avk::QueueFlags::GRAPHICS.as_raw());
    assert_eq!(
        vk::SEVERITY_WARNING,
        avk::DebugUtilsMessageSeverityFlagsEXT::WARNING.as_raw()
    );
    assert_eq!(vk::SEVERITY_ERROR, avk::DebugUtilsMessageSeverityFlagsEXT::ERROR.as_raw());
    assert_eq!(vk::FRAMEBUFFER_IMAGELESS, avk::FramebufferCreateFlags::IMAGELESS.as_raw());
    assert_eq!(vk::SUCCESS, avk::Result::SUCCESS.as_raw());
    assert_eq!(vk::INCOMPLETE, avk::Result::INCOMPLETE.as_raw());
    assert_eq!(
        vk::ERROR_INITIALIZATION_FAILED,
        avk::Result::ERROR_INITIALIZATION_FAILED.as_raw()
    );
    assert_eq!(vk::TRUE, avk::TRUE);
    assert_eq!(vk::TYPE_LOADER_INSTANCE, 47);
    assert_eq!(vk::TYPE_LOADER_DEVICE, 48);
    assert_eq!(vk::LAYER_LINK_INFO, 0);
}

#[test]
fn shader_bytes_become_words_in_either_order() {
    let low: Vec<u8> = vec![0x03, 0x02, 0x23, 0x07, 0x01, 0x00, 0x02, 0x00];
    assert_eq!(vk::shader_code(&low), Some(vec![0x0723_0203, 0x0002_0001]));
    let high: Vec<u8> = vec![0x07, 0x23, 0x02, 0x03, 0x00, 0x02, 0x00, 0x01];
    assert_eq!(vk::shader_code(&high), Some(vec![0x0723_0203, 0x0002_0001]));
}

#[test]
fn bytes_that_are_no_shader_are_refused() {
    assert_eq!(vk::shader_code(&vec![]), None);
    assert_eq!(vk::shader_code(&vec![0x03, 0x02, 0x23]), None);
    assert_eq!(vk::shader_code(&vec![0x03, 0x02, 0x23, 0x07, 0x01]), None);
    assert_eq!(vk::shader_code(&vec![1, 2, 3, 4]), None);
}

#[test]
fn interface_version_is_clamped() {
    assert_eq!(negotiate(0), 0);
    assert_eq!(negotiate(1), 1);
    assert_eq!(negotiate(2), 2);
    assert_eq!(negotiate(7), 2);
}

fn instance_data(next_gipa: u64) -> InstanceData {
    InstanceData {
        next_gipa,
        destroy_instance: 11,
        enumerate_physical_devices: 12,
        get_physical_device_properties: 13,
        app_api: avk::make_api_version(0, 1, 1, 0),
    }
}

fn device_data(next_gdpa: u64) -> DeviceData {
    DeviceData { next_gdpa, create_rp2: None, vrs: Some(extent(16, 16)), queue_family: 0 }
}

#[test]
fn instance_calls_are_routed() {
    let mut t = Instances::new();
    assert_eq!(t.get_instance_proc_addr(1, Some("vkCreateDevice")), InstanceRoute::Hook(InstanceHook::CreateDevice));
    assert_eq!(t.get_instance_proc_addr(1, Some("vkGetInstanceProcAddr")), InstanceRoute::Hook(InstanceHook::GetInstanceProcAddr));
    assert_eq!(t.get_instance_proc_addr(1, Some("vkCreateInstance")), InstanceRoute::Hook(InstanceHook::CreateInstance));
    assert_eq!(t.get_instance_proc_addr(1, Some("vkDestroyInstance")), InstanceRoute::Hook(InstanceHook::DestroyInstance));
    assert_eq!(t.get_instance_proc_addr(1, Some("vkEnumeratePhysicalDevices")), InstanceRoute::Hook(InstanceHook::EnumeratePhysicalDevices));
    assert_eq!(t.get_instance_proc_addr(1, Some("vkGetDeviceProcAddr")), InstanceRoute::Hook(InstanceHook::GetDeviceProcAddr));
    assert_eq!(t.get_instance_proc_addr(1, None), InstanceRoute::Nothing);
    assert_eq!(t.get_instance_proc_addr(1, Some("vkQueueSubmit")), InstanceRoute::Nothing);
    assert_eq!(t.create_instance(0, 1, instance_data(77)), 0);
    assert_eq!(t.get_instance_proc_addr(1, Some("vkQueueSubmit")), InstanceRoute::Next(77));
    assert_eq!(t.get_instance_proc_addr(2, Some("vkQueueSubmit")), InstanceRoute::Nothing);
}

#[test]
fn device_calls_are_routed() {
    let mut t = Devices::new();
    for (name, hook) in [
        ("vkGetDeviceProcAddr", DeviceHook::GetDeviceProcAddr),
        ("vkDestroyDevice", DeviceHook::DestroyDevice),
        ("vkCreateImageView", DeviceHook::CreateImageView),
        ("vkDestroyImageView", DeviceHook::DestroyImageView),
        ("vkAllocateCommandBuffers", DeviceHook::AllocateCommandBuffers),
        ("vkCmdBeginRendering", DeviceHook::CmdBeginRendering),
        ("vkCmdEndRendering", DeviceHook::CmdEndRendering),
        ("vkCreateGraphicsPipelines", DeviceHook::CreateGraphicsPipelines),
        ("vkCreateRenderPass", DeviceHook::CreateRenderPass),
        ("vkCreateRenderPass2", DeviceHook::CreateRenderPass2),
        ("vkDestroyRenderPass", DeviceHook::DestroyRenderPass),
        ("vkCreateFramebuffer", DeviceHook::CreateFramebuffer),
        ("vkDestroyFramebuffer", DeviceHook::DestroyFramebuffer),
        ("vkCmdBeginRenderPass", DeviceHook::CmdBeginRenderPass),
        ("vkCmdBeginRenderPass2", DeviceHook::CmdBeginRenderPass2),
    ] {
        assert_eq!(t.get_device_proc_addr(5, Some(name)), DeviceRoute::Hook(hook));
    }
    assert_eq!(t.get_device_proc_addr(5, None), DeviceRoute::Nothing);
    assert_eq!(t.get_device_proc_addr(5, Some("vkCreateRenderPass2KHR")), DeviceRoute::Nothing);
    assert_eq!(t.create_device(0, 5, device_data(88)), 0);
    assert_eq!(t.get_device_proc_addr(5, Some("vkCreateRenderPass2KHR")), DeviceRoute::Next(88));
}

#[test]
fn failed_creation_is_not_noted() {
    let mut t = Instances::new();
    assert_eq!(t.create_instance(-3, 1, instance_data(77)), -3);
    assert_eq!(t.instance(1), Err(-3));
    let mut d = Devices::new();
    assert_eq!(d.create_device(-4, 5, device_data(88)), -4);
    assert_eq!(d.device(5), Err(-3));
}

#[test]
fn destroyed_instance_takes_its_physical_devices() {
    let mut t = Instances::new();
    t.create_instance(0, 1, instance_data(77));
    t.create_instance(0, 2, instance_data(78));
    t.enumerate_physical_devices(1, 0, &Some(vec![100, 101]));
    t.enumerate_physical_devices(2, 5, &Some(vec![200]));
    t.enumerate_physical_devices(2, -1, &Some(vec![300]));
    t.enumerate_physical_devices(2, 0, &None);
    assert_eq!(t.instance_of(101), Some(1));
    assert_eq!(t.instance_of(200), Some(2));
    assert_eq!(t.instance_of(300), None);
    assert_eq!(t.destroy_instance(1), Some(instance_data(77)));
    assert_eq!(t.destroy_instance(1), None);
    assert_eq!(t.instance_of(100), None);
    assert_eq!(t.instance_of(101), None);
    assert_eq!(t.instance_of(200), Some(2));
    assert_eq!(t.instance(2), Ok(instance_data(78)));
}

#[test]
fn views_and_buffers_are_followed() {
    let mut t = Devices::new();
    t.create_device(0, 5, device_data(88));
    assert_eq!(t.create_image_view(Ok(40), 400), 0);
    assert_eq!(t.create_image_view(Err(-2), 401), -2);
    assert_eq!(t.image_of(40), Some(400));
    assert_eq!(t.image_of(0), None);
    assert_eq!(t.image_of(41), None);
    assert_eq!(t.image_or_none(40), 400);
    assert_eq!(t.image_or_none(41), 0);
    t.destroy_image_view(40);
    assert_eq!(t.image_of(40), None);
    assert_eq!(t.allocate_command_buffers(5, &Ok(vec![60, 61])), 0);
    assert_eq!(t.allocate_command_buffers(5, &Err(-2)), -2);
    assert_eq!(t.buffer_device(61), Some((5, device_data(88))));
    assert_eq!(t.buffer_device(62), None);
    assert_eq!(t.destroy_device(5), Some(device_data(88)));
    assert_eq!(t.buffer_device(61), None);
}

#[test]
fn loader_link_is_found_in_the_chain() {
    let chain = vec![
        ChainLink { s_type: 47, function: 1 },
        ChainLink { s_type: 9, function: 0 },
        ChainLink { s_type: 48, function: 0 },
        ChainLink { s_type: 47, function: 0 },
        ChainLink { s_type: 47, function: 0 },
    ];
    assert_eq!(find_instance_chain_info(&chain), Some(3));
    assert_eq!(find_device_chain_info(&chain), Some(2));
    assert_eq!(find_instance_chain_info(&vec![]), None);
}

#[test]
fn missing_entry_points_fail() {
    assert_eq!(callable(0), Err(-3));
    assert_eq!(callable(9), Ok(9));
    assert_eq!(made(0, 31), Ok(31));
    assert_eq!(made(-2, 31), Err(-2));
}

fn names(list: &[&str]) -> Vec<Option<String>> {
    list.iter().map(|s| Some(s.to_string())).collect()
}

const API_1_0: u32 = avk::make_api_version(0, 1, 0, 0);
const API_1_1: u32 = avk::make_api_version(0, 1, 1, 0);
const API_1_2: u32 = avk::make_api_version(0, 1, 2, 0);

#[test]
fn dependencies_are_added_below_their_core_version() {
    let caps = Some(extent(16, 16));
    assert_eq!(
        added_extensions(caps, false, &names(&[]), API_1_0),
        vec![
            Extension::FragmentShadingRate,
            Extension::CreateRenderpass2,
            Extension::Multiview,
            Extension::Maintenance2
        ]
    );
    assert_eq!(
        added_extensions(caps, false, &names(&[]), API_1_1),
        vec![Extension::FragmentShadingRate, Extension::CreateRenderpass2]
    );
    assert_eq!(
        added_extensions(caps, false, &names(&[]), API_1_2),
        vec![Extension::FragmentShadingRate]
    );
    assert_eq!(
        added_extensions(caps, false, &names(&["VK_KHR_multiview", "VK_KHR_create_renderpass2"]), API_1_0),
        vec![Extension::FragmentShadingRate, Extension::Maintenance2]
    );
}

#[test]
fn nothing_is_added_without_need() {
    assert!(added_extensions(None, false, &names(&[]), API_1_0).is_empty());
    assert!(added_extensions(
        Some(extent(16, 16)),
        false,
        &names(&["VK_KHR_fragment_shading_rate"]),
        API_1_0
    )
    .is_empty());
}

#[test]
fn extension_names_are_those_of_the_registry() {
    assert_eq!(Extension::FragmentShadingRate.text(), "VK_KHR_fragment_shading_rate");
    assert_eq!(Extension::CreateRenderpass2.text(), "VK_KHR_create_renderpass2");
    assert_eq!(Extension::Multiview.text(), "VK_KHR_multiview");
    assert_eq!(Extension::Maintenance2.text(), "VK_KHR_maintenance2");
    assert!(!Extension::FragmentShadingRate.core_in(u32::MAX));
    assert!(!Extension::CreateRenderpass2.core_in(API_1_1));
    assert!(Extension::CreateRenderpass2.core_in(API_1_2));
}

#[test]
fn empty_places_among_extensions_are_skipped() {
    let list = vec![None, Some("VK_KHR_swapchain".to_string())];
    assert!(device_has_extension(&list, "VK_KHR_swapchain"));
    assert!(!device_has_extension(&list, "VK_KHR_swap"));
}

#[test]
fn shading_rate_support_takes_all_three() {
    let with = Some(vec!["VK_KHR_swapchain".to_string(), "VK_KHR_fragment_shading_rate".to_string()]);
    let without = Some(vec!["VK_KHR_swapchain".to_string()]);
    assert_eq!(query_vrs(&VrsAnswer::Instance(false)), VrsStep::Settled(None));
    assert_eq!(query_vrs(&VrsAnswer::Instance(true)), VrsStep::AskExtensions);
    assert_eq!(query_vrs(&VrsAnswer::Extensions(None)), VrsStep::Settled(None));
    assert_eq!(query_vrs(&VrsAnswer::Extensions(without)), VrsStep::Settled(None));
    assert_eq!(query_vrs(&VrsAnswer::Extensions(with)), VrsStep::AskFeature);
    assert_eq!(query_vrs(&VrsAnswer::Feature(0)), VrsStep::Settled(None));
    assert_eq!(query_vrs(&VrsAnswer::Feature(1)), VrsStep::AskTexel);
    assert_eq!(query_vrs(&VrsAnswer::Texel(extent(0, 16))), VrsStep::Settled(None));
    assert_eq!(query_vrs(&VrsAnswer::Texel(extent(16, 0))), VrsStep::Settled(None));
    assert_eq!(query_vrs(&VrsAnswer::Texel(extent(16, 8))), VrsStep::Settled(Some(extent(16, 8))));
}

#[test]
fn versions_are_read_and_written() {
    assert_eq!(app_api_version_raw(None), API_1_0);
    assert_eq!(app_api_version_raw(Some(0)), API_1_0);
    assert_eq!(app_api_version_raw(Some(API_1_2)), API_1_2);
    assert_eq!(app_api_version(None), "0.0.0");
    assert_eq!(app_api_version(Some(avk::make_api_version(0, 1, 3, 281))), "1.3.281");
    assert_eq!(effective_device_api(None, API_1_2), API_1_0);
    assert_eq!(effective_device_api(Some(API_1_1), API_1_2), API_1_1);
    assert_eq!(effective_device_api(Some(API_1_2), API_1_1), API_1_1);
    assert_eq!(rp2_name(API_1_1), "vkCreateRenderPass2KHR");
    assert_eq!(rp2_name(API_1_2), "vkCreateRenderPass2");
}

#[test]
fn device_creation_is_planned() {
    let caps = Some(extent(16, 16));
    let p = plan_device(Some((7, API_1_1)), API_1_2, caps, false, &names(&[]), &vec![2]);
    assert_eq!((p.instance, p.api, p.queue_family), (7, API_1_1, 2));
    assert_eq!(p.added, vec![Extension::FragmentShadingRate, Extension::CreateRenderpass2]);
    let q = plan_device(None, API_1_2, None, false, &names(&[]), &vec![]);
    assert_eq!((q.instance, q.api, q.queue_family), (0, API_1_0, 0));
    assert!(q.added.is_empty());
}

#[test]
fn switched_off_device_is_left_as_it_is() {
    let caps = Some(extent(16, 16));
    for api in [API_1_0, API_1_1, API_1_2] {
        assert!(added_extensions(caps, true, &names(&[]), api).is_empty());
        assert!(!added_extensions(caps, false, &names(&[]), api).is_empty());
    }
    let p = plan_device(Some((7, API_1_1)), API_1_2, caps, true, &names(&[]), &vec![2]);
    assert_eq!((p.instance, p.api, p.queue_family), (7, API_1_1, 2));
    assert!(p.added.is_empty());
}

#[test]
fn missing_names_and_families_have_stand_ins() {
    assert_eq!(app_name(None), "<none>");
    assert_eq!(app_name(Some("xrgears".to_string())), "xrgears");
    assert_eq!(gpu_name(None), "<unknown>");
    assert_eq!(gpu_name(Some("GPU".to_string())), "GPU");
    assert_eq!(first_queue_family(&vec![]), 0);
    assert_eq!(first_queue_family(&vec![3, 1]), 3);
}

fn attachment(format: avk::Format) -> Attachment {
    Attachment {
        flags: 1,
        format: format.as_raw(),
        samples: 4,
        load_op: 1,
        store_op: 0,
        stencil_load_op: 2,
        stencil_store_op: 1,
        initial_layout: 0,
        final_layout: 2,
    }
}

fn reference(attachment: u32, layout: i32) -> Reference {
    Reference { attachment, layout }
}

fn subpass(colors: Vec<Reference>, depth_stencil: Option<Reference>) -> Subpass {
    Subpass {
        flags: 5,
        bind_point: 0,
        inputs: vec![],
        colors,
        resolves: vec![],
        depth_stencil,
        preserves: vec![7],
    }
}

#[test]
fn aspects_follow_the_format() {
    assert_eq!(aspect_for(avk::Format::D16_UNORM.as_raw()), vk::ASPECT_DEPTH);
    assert_eq!(aspect_for(avk::Format::D32_SFLOAT.as_raw()), vk::ASPECT_DEPTH);
    assert_eq!(aspect_for(avk::Format::X8_D24_UNORM_PACK32.as_raw()), vk::ASPECT_DEPTH);
    assert_eq!(aspect_for(avk::Format::D16_UNORM_S8_UINT.as_raw()), vk::ASPECT_DEPTH_STENCIL);
    assert_eq!(aspect_for(avk::Format::D24_UNORM_S8_UINT.as_raw()), vk::ASPECT_DEPTH_STENCIL);
    assert_eq!(aspect_for(avk::Format::D32_SFLOAT_S8_UINT.as_raw()), vk::ASPECT_DEPTH_STENCIL);
    assert_eq!(aspect_for(avk::Format::S8_UINT.as_raw()), vk::ASPECT_STENCIL);
    assert_eq!(aspect_for(avk::Format::B8G8R8A8_SRGB.as_raw()), vk::ASPECT_COLOR);
}

#[test]
fn layers_reach_the_highest_view() {
    assert_eq!(layers_from_masks(&vec![]), 1);
    assert_eq!(layers_from_masks(&vec![0, 0]), 1);
    assert_eq!(layers_from_masks(&vec![1]), 1);
    assert_eq!(layers_from_masks(&vec![0b11]), 2);
    assert_eq!(layers_from_masks(&vec![0b01, 0b100]), 3);
    assert_eq!(layers_from_masks(&vec![0x8000_0000, 1]), 32);
}

fn extension(s_type: i32, masks: Vec<u32>) -> PassExtension {
    PassExtension {
        s_type,
        view_masks: masks,
        view_offsets: vec![-1, 2],
        correlation_masks: vec![3],
    }
}

#[test]
fn views_are_found_in_the_chain() {
    let mv = vk::TYPE_RENDER_PASS_MULTIVIEW;
    let found = find_multiview_v1(&vec![
        extension(1, vec![9]),
        extension(mv, vec![0, 3]),
        extension(mv, vec![1]),
    ])
    .unwrap();
    assert_eq!(found.view_masks, vec![0, 3]);
    assert_eq!(found.view_offsets, vec![-1, 2]);
    assert_eq!(found.correlation_masks, vec![3]);
    assert!(find_multiview_v1(&vec![extension(1, vec![9])]).is_none());
    assert!(find_multiview_v1(&vec![extension(mv, vec![0, 0]), extension(mv, vec![3])]).is_none());
    assert!(find_multiview_v1(&vec![]).is_none());
}

#[test]
fn first_version_pass_is_promoted() {
    let pass = RenderPass {
        flags: 6,
        attachments: vec![
            attachment(avk::Format::B8G8R8A8_SRGB),
            attachment(avk::Format::D24_UNORM_S8_UINT),
        ],
        subpasses: vec![
            Subpass {
                inputs: vec![reference(1, 30)],
                resolves: vec![reference(vk::ATTACHMENT_UNUSED, 0)],
                ..subpass(vec![reference(0, 2)], Some(reference(1, 3)))
            },
            subpass(vec![], None),
        ],
        dependencies: vec![Dependency {
            src_subpass: 0,
            dst_subpass: 1,
            src_stage_mask: 2,
            dst_stage_mask: 3,
            src_access_mask: 4,
            dst_access_mask: 5,
            flags: 6,
        }],
    };
    let mv = Some(Multiview {
        view_masks: vec![3],
        view_offsets: vec![-1],
        correlation_masks: vec![3],
    });
    let texel = extent(16, 8);
    let p = create_render_pass(&pass, &mv, Some(texel), false).unwrap();
    assert_eq!(p.layers, 2);
    assert_eq!(p.texel, texel);
    let q = p.pass;
    assert_eq!(q.flags, 6);
    assert_eq!(q.attachments.len(), 3);
    assert_eq!(q.attachments[0], pass.attachments[0]);
    assert_eq!(q.attachments[1], pass.attachments[1]);
    assert_eq!(q.attachments[2].format, vk::FORMAT_R8_UINT);
    assert_eq!(q.attachments[2].load_op, vk::LOAD_OP_LOAD);
    assert_eq!(q.attachments[2].store_op, vk::STORE_OP_DONT_CARE);
    assert_eq!(q.attachments[2].stencil_load_op, vk::LOAD_OP_DONT_CARE);
    assert_eq!(q.attachments[2].initial_layout, vk::LAYOUT_SHADING_RATE);
    assert_eq!(q.attachments[2].final_layout, vk::LAYOUT_SHADING_RATE);
    let s = &q.subpasses[0];
    assert_eq!((s.flags, s.bind_point, s.view_mask), (5, 0, 3));
    assert_eq!((s.inputs[0].attachment, s.inputs[0].layout, s.inputs[0].aspect_mask), (1, 30, 6));
    assert_eq!((s.colors[0].attachment, s.colors[0].layout, s.colors[0].aspect_mask), (0, 2, 1));
    assert_eq!(s.resolves[0].attachment, vk::ATTACHMENT_UNUSED);
    assert_eq!(s.resolves[0].aspect_mask, vk::ASPECT_COLOR);
    let d = s.depth_stencil.unwrap();
    assert_eq!((d.attachment, d.layout, d.aspect_mask), (1, 3, 6));
    assert_eq!(s.preserves, vec![7]);
    assert_eq!(s.rate.reference.attachment, 2);
    assert_eq!(s.rate.texel, texel);
    assert_eq!(s.rate.next, 0);
    assert_eq!(q.subpasses[1].view_mask, 0);
    assert!(q.subpasses[1].depth_stencil.is_none());
    assert_eq!(q.subpasses[1].rate.reference.attachment, 2);
    assert_eq!(q.dependencies[0].dependency, pass.dependencies[0]);
    assert_eq!(q.dependencies[0].view_offset, -1);
    assert_eq!(q.correlated_view_masks, vec![3]);
}

#[test]
fn pass_without_views_gets_one_layer() {
    let pass = RenderPass {
        flags: 0,
        attachments: vec![attachment(avk::Format::B8G8R8A8_SRGB)],
        subpasses: vec![subpass(vec![reference(0, 2)], None)],
        dependencies: vec![],
    };
    let p = create_render_pass(&pass, &None, Some(extent(16, 16)), false).unwrap();
    assert_eq!(p.layers, 1);
    assert_eq!(p.pass.subpasses[0].view_mask, 0);
    assert!(p.pass.correlated_view_masks.is_empty());
}

#[test]
fn passes_are_left_alone_without_cause() {
    let drawing = || RenderPass {
        flags: 0,
        attachments: vec![attachment(avk::Format::B8G8R8A8_SRGB)],
        subpasses: vec![subpass(vec![reference(0, 2)], None)],
        dependencies: vec![],
    };
    let texel = Some(extent(16, 16));
    assert!(create_render_pass(&drawing(), &None, None, false).is_none());
    assert!(create_render_pass(&drawing(), &None, texel, true).is_none());
    let depth_only = RenderPass {
        subpasses: vec![subpass(vec![], Some(reference(0, 3)))],
        ..drawing()
    };
    assert!(create_render_pass(&depth_only, &None, texel, false).is_none());
    let unused = vk::ATTACHMENT_UNUSED;
    let bare = RenderPass {
        attachments: vec![],
        subpasses: vec![subpass(vec![reference(unused, 0)], None)],
        ..drawing()
    };
    assert!(create_render_pass(&bare, &None, texel, false).is_none());
}

#[test]
fn references_outside_the_attachments_are_noticed() {
    let pass = |r: u32, depth: Option<Reference>| RenderPass {
        flags: 0,
        attachments: vec![attachment(avk::Format::B8G8R8A8_SRGB)],
        subpasses: vec![subpass(vec![reference(r, 2)], depth)],
        dependencies: vec![],
    };
    assert!(references_hold(&pass(0, None)));
    assert!(references_hold(&pass(vk::ATTACHMENT_UNUSED, None)));
    assert!(!references_hold(&pass(1, None)));
    assert!(!references_hold(&pass(0, Some(reference(1, 3)))));
    assert!(augments(&pass(1, None), Some(extent(16, 16)), false));
    assert!(!augments(&pass(0, None), None, false));
}

#[test]
fn second_version_pass_is_augmented() {
    let heads = vec![
        SubpassHead { view_mask: 3, color_count: 1, next: 900 },
        SubpassHead { view_mask: 0, color_count: 0, next: 0 },
    ];
    assert!(has_color_subpass(&heads));
    let a = create_render_pass2(2, &heads, Some(extent(16, 16)), false).unwrap();
    assert_eq!(a.layers, 2);
    assert_eq!(a.attachment.format, vk::FORMAT_R8_UINT);
    assert_eq!(a.rates.len(), 2);
    assert_eq!(a.rates[0].reference.attachment, 2);
    assert_eq!(a.rates[0].reference.layout, vk::LAYOUT_SHADING_RATE);
    assert_eq!(a.rates[0].reference.aspect_mask, vk::ASPECT_COLOR);
    assert_eq!(a.rates[0].next, 900);
    assert_eq!(a.rates[1].next, 0);
    assert!(create_render_pass2(0, &heads, Some(extent(16, 16)), false).is_none());
    assert!(create_render_pass2(2, &heads, None, false).is_none());
    assert!(create_render_pass2(2, &heads, Some(extent(16, 16)), true).is_none());
    let depth = vec![SubpassHead { view_mask: 0, color_count: 0, next: 0 }];
    assert!(!has_color_subpass(&depth));
    assert!(create_render_pass2(2, &depth, Some(extent(16, 16)), false).is_none());
}

#[test]
fn both_versions_of_a_pass_get_the_same() {
    let pass = RenderPass {
        flags: 0,
        attachments: vec![attachment(avk::Format::B8G8R8A8_SRGB)],
        subpasses: vec![subpass(vec![reference(0, 2)], None), subpass(vec![], None)],
        dependencies: vec![],
    };
    let mv = Some(Multiview {
        view_masks: vec![0b101, 0],
        view_offsets: vec![],
        correlation_masks: vec![],
    });
    let heads = vec![
        SubpassHead { view_mask: 0b101, color_count: 1, next: 0 },
        SubpassHead { view_mask: 0, color_count: 0, next: 0 },
    ];
    let texel = Some(extent(16, 16));
    let p = create_render_pass(&pass, &mv, texel, false).unwrap();
    let a = create_render_pass2(1, &heads, texel, false).unwrap();
    assert_eq!(p.layers, 3);
    assert_eq!(a.layers, 3);
    assert_eq!(p.pass.attachments[1], a.attachment);
    assert_eq!(p.pass.subpasses[0].rate, a.rates[0]);
    assert_eq!(p.pass.subpasses[1].rate, a.rates[1]);
}
