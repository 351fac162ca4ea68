//! The test application and the headless harness.

use ash::vk as avk;
use ffr::mv_check::{
    augmented_pass, choose_layer, debug_callback, exit_code, images, minimal_pass, sr_barrier,
    sr_extent, LoadedLayer, Message, TEXEL, VIEWS, VIEW_MASK,
};
use ffr::render_pass::create_render_pass;
use ffr::test_app::{
    create_depth, graphics_queue_family, max_frames, pick_color_format, render_barriers,
    AppAction, AppEvent, AppState, FramePlan,
};
use ffr::vk::{self, Extent2};

#[test]
fn session_runs_from_ready_to_stopping() {
    let mut s = AppState::new();
    assert!(!s.running);
    assert_eq!(s.handle(AppEvent::Other), AppAction::Nothing);
    assert_eq!(s.handle(AppEvent::Ready), AppAction::Begin);
    assert!(s.running);
    assert_eq!(s.handle(AppEvent::Exiting), AppAction::Quit);
    assert_eq!(s.handle(AppEvent::LossPending), AppAction::Quit);
    assert_eq!(s.handle(AppEvent::InstanceLossPending), AppAction::Quit);
    assert!(s.running);
    assert_eq!(s.handle(AppEvent::Stopping), AppAction::End);
    assert!(!s.running);
}

#[test]
fn frames_are_counted_after_the_warm_up() {
    let mut s = AppState::new();
    for _ in 0..33 {
        s.eye_rendered();
        s.eye_rendered();
        s.frame_drawn();
    }
    assert_eq!(s.frame, 33);
    assert_eq!(s.samples, 4);
    assert_eq!(s.plan_frame(false, 10), FramePlan::Empty);
    assert_eq!(s.plan_frame(true, 34), FramePlan::Draw { request_exit: false, timed: true });
    assert_eq!(s.plan_frame(true, 33), FramePlan::Draw { request_exit: true, timed: true });
    assert_eq!(s.plan_frame(true, 0), FramePlan::Draw { request_exit: false, timed: true });
    assert_eq!(
        AppState::new().plan_frame(true, 900),
        FramePlan::Draw { request_exit: false, timed: false }
    );
}

#[test]
fn frame_setting_is_a_number_or_the_default() {
    assert_eq!(max_frames(None), 900);
    assert_eq!(max_frames(Some("0")), 0);
    assert_eq!(max_frames(Some("120")), 120);
    assert_eq!(max_frames(Some("+7")), 7);
    assert_eq!(max_frames(Some("many")), 900);
    assert_eq!(max_frames(Some("-1")), 900);
    assert_eq!(max_frames(Some("4294967296")), 900);
    assert_eq!(max_frames(Some("")), 900);
}

#[test]
fn srgb_formats_are_preferred() {
    let b = avk::Format::B8G8R8A8_SRGB.as_raw();
    let r = avk::Format::R8G8B8A8_SRGB.as_raw();
    assert_eq!(pick_color_format(&vec![97, r as u32, b as u32]), Some(b));
    assert_eq!(pick_color_format(&vec![97, r as u32]), Some(r));
    assert_eq!(pick_color_format(&vec![97, 44]), Some(97));
    assert_eq!(pick_color_format(&vec![]), None);
}

#[test]
fn first_family_that_can_draw_is_used() {
    assert_eq!(graphics_queue_family(&vec![4, 6, 3, 1]), Some(2));
    assert_eq!(graphics_queue_family(&vec![4]), None);
    assert_eq!(graphics_queue_family(&vec![]), None);
}

#[test]
fn eye_images_change_layout_before_drawing() {
    let (color, depth) = render_barriers();
    assert_eq!(color.new_layout, vk::LAYOUT_COLOR_ATTACHMENT);
    assert_eq!(color.dst_access, vk::ACCESS_COLOR_WRITE);
    assert_eq!(depth.new_layout, vk::LAYOUT_DEPTH_ATTACHMENT);
    assert_eq!(depth.aspect, vk::ASPECT_DEPTH);
    assert_eq!(depth.dst_stage, vk::STAGE_COLOR_OUTPUT_EARLY_TESTS);
}

#[test]
fn layer_is_chosen_by_mode() {
    let none: Vec<String> = vec![];
    let both = vec![
        "VK_LAYER_FFR_VRS_foveation".to_string(),
        "VK_LAYER_KHRONOS_validation".to_string(),
    ];
    assert_eq!(choose_layer(true, &both), Some(LoadedLayer::Validation));
    assert_eq!(choose_layer(true, &none), Some(LoadedLayer::Nothing));
    assert_eq!(choose_layer(false, &both), Some(LoadedLayer::Foveation));
    assert_eq!(choose_layer(false, &none), None);
}

#[test]
fn messages_are_sorted_by_severity() {
    assert_eq!(debug_callback(vk::SEVERITY_ERROR), Message::Error);
    assert_eq!(debug_callback(vk::SEVERITY_ERROR | vk::SEVERITY_WARNING), Message::Error);
    assert_eq!(debug_callback(vk::SEVERITY_WARNING), Message::Warning);
    assert_eq!(debug_callback(1), Message::Ignored);
}

#[test]
fn exit_code_tells_the_outcome() {
    assert_eq!(exit_code(true, 0), 0);
    assert_eq!(exit_code(true, 3), 1);
    assert_eq!(exit_code(false, 0), 2);
}

#[test]
fn harness_builds_the_pass_of_the_layer() {
    let (pass, views) = minimal_pass();
    let texel = Extent2 { width: TEXEL, height: TEXEL };
    let made = create_render_pass(&pass, &Some(views), Some(texel), false).unwrap();
    let built = augmented_pass();
    assert_eq!(made.layers, VIEWS);
    assert_eq!(made.pass.attachments, built.attachments);
    assert_eq!(made.pass.subpasses.len(), built.subpasses.len());
    assert_eq!(made.pass.subpasses[0].view_mask, VIEW_MASK);
    assert_eq!(made.pass.subpasses[0].colors, built.subpasses[0].colors);
    assert_eq!(made.pass.subpasses[0].rate, built.subpasses[0].rate);
    assert_eq!(made.pass.correlated_view_masks, built.correlated_view_masks);
    assert_eq!(sr_extent(), Extent2 { width: 64, height: 64 });
    assert_eq!(sr_barrier().layer_count, 2);
}

#[test]
fn images_have_a_layer_for_each_view() {
    let (color, none) = images(false);
    assert_eq!((color.width, color.height, color.layers), (1024, 1024, 2));
    assert_eq!(color.format, avk::Format::R8G8B8A8_UNORM.as_raw());
    assert!(none.is_none());
    let (same, rates) = images(true);
    assert_eq!(same, color);
    let rates = rates.unwrap();
    assert_eq!((rates.width, rates.height, rates.layers), (64, 64, 2));
    assert_eq!(rates.usage, vk::USAGE_SHADING_RATE);
    let depth = create_depth(100, 80);
    assert_eq!((depth.width, depth.height, depth.layers), (100, 80, 1));
    assert_eq!(depth.aspect, vk::ASPECT_DEPTH);
}
