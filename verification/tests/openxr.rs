//! The OpenXR layer.

use ffr::registry;
use ffr::shared::{ffr_shared_lookup, ffr_shared_publish, ffr_shared_remove_image, Registry};
use ffr::wire::FalloffParams;
use ffr::xr_layer::{
    self, find_vk_device, frame_views, negotiate, next_layer, rect_extent, resolve, runtime_name,
    FrameLayer, FrameView, ImageList, LoaderInfo, NextInfo, SessionData, SessionExtension,
    XrHook, XrInstanceData, XrLayer, XrRoute,
};
use openxr_sys as xr;

#[test]
fn numbers_are_those_of_openxr() {
    assert_eq!(xr_layer::XR_SUCCESS, xr::Result::SUCCESS.into_raw());
    assert_eq!(
        xr_layer::XR_ERROR_VALIDATION_FAILURE,
        xr::Result::ERROR_VALIDATION_FAILURE.into_raw()
    );
    assert_eq!(
        xr_layer::XR_ERROR_INITIALIZATION_FAILED,
        xr::Result::ERROR_INITIALIZATION_FAILED.into_raw()
    );
    assert_eq!(
        xr_layer::XR_ERROR_FUNCTION_UNSUPPORTED,
        xr::Result::ERROR_FUNCTION_UNSUPPORTED.into_raw()
    );
    assert_eq!(xr_layer::XR_ERROR_HANDLE_INVALID, xr::Result::ERROR_HANDLE_INVALID.into_raw());
    assert_eq!(
        xr_layer::TYPE_COMPOSITION_LAYER_PROJECTION,
        xr::StructureType::COMPOSITION_LAYER_PROJECTION.into_raw()
    );
    assert_eq!(
        xr_layer::TYPE_GRAPHICS_BINDING_VULKAN,
        xr::StructureType::GRAPHICS_BINDING_VULKAN_KHR.into_raw()
    );
    assert_eq!(
        xr_layer::TYPE_SWAPCHAIN_IMAGE_VULKAN,
        xr::StructureType::SWAPCHAIN_IMAGE_VULKAN_KHR.into_raw()
    );
    assert_eq!(xr_layer::HEARTBEAT_PPD, 42.5f32.to_bits());
}

#[test]
fn loader_is_accepted_or_refused() {
    let good = LoaderInfo { struct_type: 1, min_interface_version: 1, max_interface_version: 3 };
    assert_eq!(negotiate(Some(good), Some(2)), Ok(1));
    assert_eq!(negotiate(None, Some(2)), Err(-6));
    assert_eq!(negotiate(Some(good), None), Err(-6));
    assert_eq!(negotiate(Some(good), Some(1)), Err(-6));
    assert_eq!(negotiate(Some(LoaderInfo { struct_type: 2, ..good }), Some(2)), Err(-6));
    assert_eq!(negotiate(Some(LoaderInfo { min_interface_version: 2, ..good }), Some(2)), Err(-6));
    assert_eq!(
        negotiate(
            Some(LoaderInfo { min_interface_version: 0, max_interface_version: 0, ..good }),
            Some(2)
        ),
        Err(-6)
    );
}

#[test]
fn next_layer_needs_both_entry_points() {
    let both = NextInfo { get_instance_proc_addr: Some(1), create_api_layer_instance: Some(2) };
    assert_eq!(next_layer(Some(both)), Ok((1, 2)));
    assert_eq!(next_layer(Some(NextInfo { get_instance_proc_addr: None, ..both })), Err(-6));
    assert_eq!(next_layer(Some(NextInfo { create_api_layer_instance: None, ..both })), Err(-6));
    assert_eq!(next_layer(None), Err(-6));
    assert_eq!(resolve(0, Some(9)), Some(9));
    assert_eq!(resolve(0, None), None);
    assert_eq!(resolve(-7, Some(9)), None);
    assert_eq!(runtime_name(0, Some("Monado".to_string())), "Monado");
    assert_eq!(runtime_name(-1, Some("Monado".to_string())), "<unknown>");
    assert_eq!(runtime_name(0, None), "<unknown>");
}

fn instance_data() -> XrInstanceData {
    XrInstanceData {
        next_gipa: 70,
        destroy_instance: Some(71),
        create_session: Some(72),
        destroy_session: Some(73),
        create_swapchain: Some(74),
        destroy_swapchain: Some(75),
        enumerate_swapchain_images: Some(76),
        end_frame: Some(77),
    }
}

fn bound(device: u64) -> Option<Vec<SessionExtension>> {
    Some(vec![
        SessionExtension { ty: 1, device: 0 },
        SessionExtension { ty: xr_layer::TYPE_GRAPHICS_BINDING_VULKAN, device },
    ])
}

/// An instance 1 with a session 10 on device 5 and a swapchain 100 of images
/// 1000 and 1001.
fn layer() -> XrLayer {
    let mut l = XrLayer::new();
    assert_eq!(l.xr_create_api_layer_instance(0, 1, instance_data()), Some(1));
    assert_eq!(l.session_creator(1), Ok(72));
    assert_eq!(l.xr_create_session(0, 10, 1, &bound(5)), 0);
    let (owner, create) = l.swapchain_creator(10).unwrap();
    assert_eq!(owner, SessionData { instance: 1, vk_device: 5 });
    assert_eq!(create, 74);
    assert_eq!(l.xr_create_swapchain(0, 100, owner, 50), 0);
    assert_eq!(l.image_enumerator(100), Ok(76));
    l.xr_enumerate_swapchain_images(100, 0, 2, images(vec![1000, 1001]));
    l
}

fn images(list: Vec<u64>) -> Option<ImageList> {
    Some(ImageList { ty: xr_layer::TYPE_SWAPCHAIN_IMAGE_VULKAN, images: list })
}

#[test]
fn calls_are_routed() {
    let mut l = XrLayer::new();
    for (name, hook) in [
        ("xrDestroyInstance", XrHook::DestroyInstance),
        ("xrCreateSession", XrHook::CreateSession),
        ("xrDestroySession", XrHook::DestroySession),
        ("xrCreateSwapchain", XrHook::CreateSwapchain),
        ("xrDestroySwapchain", XrHook::DestroySwapchain),
        ("xrEnumerateSwapchainImages", XrHook::EnumerateSwapchainImages),
        ("xrEndFrame", XrHook::EndFrame),
    ] {
        assert_eq!(l.xr_get_instance_proc_addr(1, Some(name), true), XrRoute::Hook(hook));
    }
    assert_eq!(l.xr_get_instance_proc_addr(1, None, true), XrRoute::Fail(-1));
    assert_eq!(l.xr_get_instance_proc_addr(1, Some("xrEndFrame"), false), XrRoute::Fail(-1));
    assert_eq!(l.xr_get_instance_proc_addr(1, Some("xrWaitFrame"), true), XrRoute::Fail(-7));
    l.xr_create_api_layer_instance(0, 1, instance_data());
    assert_eq!(l.xr_get_instance_proc_addr(1, Some("xrWaitFrame"), true), XrRoute::Next(70));
}

#[test]
fn heartbeats_count_successful_instances() {
    let mut l = XrLayer::new();
    assert_eq!(l.xr_create_api_layer_instance(-6, 1, instance_data()), None);
    assert_eq!(l.xr_create_api_layer_instance(0, 1, instance_data()), Some(1));
    assert_eq!(l.xr_create_api_layer_instance(0, 2, instance_data()), Some(2));
}

#[test]
fn unknown_handles_are_refused() {
    let mut l = XrLayer::new();
    assert_eq!(l.session_creator(1), Err(-12));
    assert_eq!(l.swapchain_creator(10), Err(-12));
    assert_eq!(l.image_enumerator(100), Err(-12));
    assert_eq!(l.frame_ender(10), Err(-12));
    assert_eq!(l.xr_destroy_session(10), None);
    assert!(l.xr_destroy_swapchain(100).0.is_none());
    assert_eq!(l.xr_destroy_instance(1), None);
    let none = XrInstanceData { create_session: None, end_frame: None, ..instance_data() };
    l.xr_create_api_layer_instance(0, 1, none);
    assert_eq!(l.session_creator(1), Err(-12));
    l.xr_create_session(0, 10, 1, &None);
    assert_eq!(l.frame_ender(10), Err(-12));
}

#[test]
fn unknown_session_falls_back_to_instance_zero() {
    let mut l = XrLayer::new();
    l.xr_create_api_layer_instance(0, 0, instance_data());
    assert_eq!(l.swapchain_creator(10), Ok((SessionData { instance: 0, vk_device: 0 }, 74)));
    assert_eq!(l.image_enumerator(100), Ok(76));
}

#[test]
fn destroyed_instance_takes_its_sessions_and_swapchains() {
    let mut l = layer();
    l.xr_create_api_layer_instance(0, 2, instance_data());
    l.xr_create_session(0, 20, 2, &bound(6));
    assert_eq!(l.frame_ender(10), Ok(77));
    assert_eq!(l.xr_destroy_instance(1), Some(71));
    assert_eq!(l.frame_ender(10), Err(-12));
    assert!(l.xr_destroy_swapchain(100).0.is_none());
    assert_eq!(l.frame_ender(20), Ok(77));
}

#[test]
fn device_of_a_session_is_its_first_binding() {
    assert_eq!(find_vk_device(&bound(5).unwrap()), 5);
    assert_eq!(find_vk_device(&vec![]), 0);
    assert_eq!(find_vk_device(&vec![SessionExtension { ty: 3, device: 9 }]), 0);
}

fn view(swapchain: u64, x: i32) -> FrameView {
    FrameView {
        swapchain,
        image_array_index: 0,
        rect_x: x,
        rect_y: 0,
        rect_w: 800,
        rect_h: -3,
        center_px_x: 400.0f32.to_bits(),
        center_px_y: 300.0f32.to_bits(),
        ppd_center_h: 20.0f32.to_bits(),
        ppd_center_v: 21.0f32.to_bits(),
    }
}

fn projection(views: Vec<FrameView>) -> Option<FrameLayer> {
    Some(FrameLayer { ty: xr_layer::TYPE_COMPOSITION_LAYER_PROJECTION, views })
}

#[test]
fn only_projection_layers_are_looked_at() {
    let layers = vec![
        None,
        Some(FrameLayer { ty: 36, views: vec![view(1, 0)] }),
        projection(vec![view(2, 0), view(3, 0)]),
        projection(vec![view(4, 0)]),
    ];
    let found: Vec<(u32, u64)> = frame_views(&layers).iter().map(|(e, v)| (*e, v.swapchain)).collect();
    assert_eq!(found, vec![(0, 2), (1, 3), (0, 4)]);
}

#[test]
fn frame_publishes_every_image_of_every_eye() {
    let mut l = layer();
    let batches = l.publish_from_frame(&vec![projection(vec![view(100, 0), view(100, 800)])]);
    assert_eq!(batches.len(), 2);
    assert_eq!(batches[0].len(), 2);
    let d = batches[1][1];
    assert!(d.is_valid());
    assert_eq!((d.vk_device, d.vk_image, d.eye, d.vk_format), (5, 1001, 1, 50));
    assert_eq!((d.rect_x, d.rect_w, d.rect_h), (800, 800, 1));
    assert_eq!(d.center_px_x, 400.0f32.to_bits());
    assert_eq!(d.ppd_center_v, 21.0f32.to_bits());
    assert!(d.falloff == FalloffParams::default());
    assert_eq!(batches[0][0].generation, 0);
    assert_eq!(batches[0][1].generation, 0);
    assert_eq!(d.generation, 1);
    let again = l.publish_view(0, &view(100, 0));
    assert_eq!(again[0].generation, 2);
}

#[test]
fn views_without_images_are_not_published() {
    let mut l = layer();
    let (owner, _) = l.swapchain_creator(10).unwrap();
    l.xr_create_swapchain(0, 101, owner, 50);
    l.xr_create_session(0, 11, 1, &None);
    let (nowhere, _) = l.swapchain_creator(11).unwrap();
    l.xr_create_swapchain(0, 102, nowhere, 50);
    l.xr_enumerate_swapchain_images(102, 0, 1, images(vec![1]));
    assert!(l.publish_view(0, &view(99, 0)).is_empty());
    assert!(l.publish_view(0, &view(101, 0)).is_empty());
    assert!(l.publish_view(0, &view(102, 0)).is_empty());
    assert_eq!(l.publish_view(0, &view(100, 0))[0].generation, 0);
}

#[test]
fn images_are_noted_only_when_they_are_written_out() {
    let mut l = layer();
    l.xr_enumerate_swapchain_images(100, 0, 0, images(vec![5]));
    l.xr_enumerate_swapchain_images(100, -1, 1, images(vec![5]));
    l.xr_enumerate_swapchain_images(100, 0, 1, None);
    l.xr_enumerate_swapchain_images(100, 0, 1, images(vec![]));
    l.xr_enumerate_swapchain_images(100, 0, 1, Some(ImageList { ty: 3, images: vec![5] }));
    l.xr_enumerate_swapchain_images(999, 0, 1, images(vec![5]));
    assert_eq!(l.publish_view(0, &view(100, 0)).len(), 2);
    l.xr_enumerate_swapchain_images(100, 0, 1, images(vec![5]));
    assert_eq!(l.publish_view(0, &view(100, 0))[0].vk_image, 5);
}

#[test]
fn destroyed_swapchain_withdraws_its_records() {
    let mut l = layer();
    let mut reg = Registry::new();
    for batch in l.publish_from_frame(&vec![projection(vec![view(100, 0), view(100, 800)])]) {
        for d in &batch {
            ffr_shared_publish(&mut reg, Some(d));
        }
    }
    assert_eq!(ffr_shared_lookup(&reg, 5, 1000, registry::LOOKUP_MAX).len(), 2);
    let (data, down) = l.xr_destroy_swapchain(100);
    assert_eq!(down, Some(75));
    let data = data.unwrap();
    for image in &data.images {
        ffr_shared_remove_image(&mut reg, data.vk_device, *image);
    }
    assert!(ffr_shared_lookup(&reg, 5, 1000, 2).is_empty());
    assert!(ffr_shared_lookup(&reg, 5, 1001, 2).is_empty());
    assert_eq!(l.xr_destroy_session(10), Some(73));
    assert_eq!(l.xr_destroy_session(10), None);
}

#[test]
fn failed_session_and_swapchain_are_not_noted() {
    let mut l = layer();
    assert_eq!(l.xr_create_session(-2, 30, 1, &bound(5)), -2);
    assert_eq!(l.frame_ender(30), Err(-12));
    let (owner, _) = l.swapchain_creator(10).unwrap();
    assert_eq!(l.xr_create_swapchain(-2, 300, owner, 50), -2);
    assert!(l.xr_destroy_swapchain(300).0.is_none());
}

#[test]
fn extents_are_at_least_one() {
    assert_eq!(rect_extent(i32::MIN), 1);
    assert_eq!(rect_extent(0), 1);
    assert_eq!(rect_extent(1), 1);
    assert_eq!(rect_extent(i32::MAX), 0x7fff_ffff);
}
