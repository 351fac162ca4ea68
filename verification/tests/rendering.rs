//! Shading-rate images, framebuffers, pipelines and uploads.

use ash::vk as avk;
use ffr::binary32;
use ffr::dispatch::{DeviceData, Devices};
use ffr::foveation::{FoveationMap, TileDistances};
use ffr::legacy::{
    create_framebuffer, ensure_legacy_fill, fill_map, fill_source, freshest, layer_desc,
    with_rate_view, FramebufferPlan, Framebuffers, LegacyPasses, LegacyRp,
};
use ffr::pipeline::{self, build_overlay_pipeline, build_pipeline, create_graphics_pipelines, overlay_built};
use ffr::rendering::{
    draw_overlay, ensure_overlay_pipeline, foveates, matched_desc, overlay_made, rate_info,
    EyeImages, EyeStep, OverlayPipeline, OverlayStep, Renders, VrsImage, Wanted,
};
use ffr::shared::{ffr_shared_lookup, ffr_shared_publish, Registry};
use ffr::upload::{alloc_sr_image, create_vrs_image, memory_type, overlay_barrier, upload_map};
use ffr::vk::{self, Extent2, Rect};
use ffr::wire::{FalloffParams, FoveationDesc, FFR_SHARED_MAGIC, FFR_SHARED_VERSION};

fn extent(width: u32, height: u32) -> Extent2 {
    Extent2 { width, height }
}

fn desc(image: u64, eye: u32, generation: u64) -> FoveationDesc {
    FoveationDesc {
        magic: FFR_SHARED_MAGIC,
        version: FFR_SHARED_VERSION,
        vk_device: 5,
        vk_image: image,
        image_array_index: eye,
        eye,
        vk_format: 50,
        _pad2: 0,
        rect_x: 0,
        rect_y: 0,
        rect_w: 100,
        rect_h: 100,
        center_px_x: (50.0f32 + eye as f32 * 10.0).to_bits(),
        center_px_y: 50.0f32.to_bits(),
        ppd_center_h: 20.0f32.to_bits(),
        ppd_center_v: 20.0f32.to_bits(),
        falloff: FalloffParams::default(),
        generation,
    }
}

fn device(vrs: Option<Extent2>) -> DeviceData {
    DeviceData { next_gdpa: 1, create_rp2: None, vrs, queue_family: 0 }
}

#[test]
fn first_eye_image_of_a_render_is_matched() {
    let d = desc(7, 1, 3);
    let (found, view) = matched_desc(&vec![40, 41, 42], &vec![vec![], vec![d, desc(7, 0, 2)]]).unwrap();
    assert!(found == d);
    assert_eq!(view, 41);
    assert!(matched_desc(&vec![40], &vec![vec![]]).is_none());
    assert!(matched_desc(&vec![], &vec![]).is_none());
}

#[test]
fn renders_foveate_only_with_cause() {
    let m = Some((desc(7, 0, 1), 40));
    assert!(foveates(&device(Some(extent(16, 16))), &m, false));
    assert!(!foveates(&device(Some(extent(16, 16))), &m, true));
    assert!(!foveates(&device(None), &m, false));
    assert!(!foveates(&device(Some(extent(16, 16))), &None, false));
}

fn vrs_image(view: u64) -> VrsImage {
    VrsImage::new(1, 2, view, extent(100, 80), (50.0f32.to_bits(), 40.0f32.to_bits()), &desc(7, 0, 1))
}

fn wanted(dx: f32, dy: f32) -> Wanted {
    Wanted {
        area_w: 100,
        area_h: 80,
        dx: dx.to_bits(),
        dy: dy.to_bits(),
        falloff: FalloffParams::default(),
    }
}

#[test]
fn eye_image_is_recorded_with_what_it_was_made_for() {
    let mut d = desc(7, 1, 3);
    d.falloff.inner_radius = 0.25f32.to_bits();
    let img = VrsImage::new(11, 12, 13, extent(100, 80), (51.5f32.to_bits(), 40.0f32.to_bits()), &d);
    assert_eq!((img.image, img.memory, img.view), (11, 12, 13));
    assert_eq!((img.area_w, img.area_h), (100, 80));
    assert_eq!((img.center_x, img.center_y), (51.5f32.to_bits(), 40.0f32.to_bits()));
    assert!(img.falloff == d.falloff);

    let texel = extent(16, 16);
    let mut eyes = EyeImages::new();
    assert_eq!(eyes.made(d.eye, Some(img), texel), Some((13, texel)));
    let same = Wanted { falloff: d.falloff, ..wanted(0.0, 0.0) };
    assert!(matches!(eyes.ensure_vrs_image(Some(texel), d.eye, &same), EyeStep::Use(13, t) if t == texel));

    d.falloff.inner_radius = f32::NAN.to_bits();
    let odd = VrsImage::new(11, 12, 13, extent(100, 80), (0, 0), &d);
    assert!(!odd.matches(&Wanted { falloff: d.falloff, ..wanted(0.0, 0.0) }));
}

#[test]
fn eye_image_is_made_once_and_replaced_on_change() {
    let texel = extent(16, 16);
    let mut eyes = EyeImages::new();
    assert!(matches!(eyes.ensure_vrs_image(None, 0, &wanted(0.0, 0.0)), EyeStep::Off));
    assert!(matches!(eyes.ensure_vrs_image(Some(texel), 0, &wanted(0.0, 0.0)), EyeStep::Make(None, t) if t == texel));
    assert_eq!(eyes.made(0, None, texel), None);
    assert_eq!(eyes.made(0, Some(vrs_image(9)), texel), Some((9, texel)));
    assert_eq!(eyes.center_of(0), Some((50.0f32.to_bits(), 40.0f32.to_bits())));
    assert_eq!(eyes.center_of(1), None);
    assert!(matches!(eyes.ensure_vrs_image(Some(texel), 0, &wanted(0.9, 0.0)), EyeStep::Use(9, t) if t == texel));
    assert!(matches!(eyes.ensure_vrs_image(Some(texel), 1, &wanted(0.0, 0.0)), EyeStep::Make(None, _)));
    assert!(matches!(eyes.ensure_vrs_image(Some(texel), 0, &wanted(1.0, 0.0)), EyeStep::Make(Some(i), _) if i.view == 9));
    assert!(matches!(eyes.ensure_vrs_image(Some(texel), 0, &wanted(0.0, 0.0)), EyeStep::Make(None, _)));
}

#[test]
fn eye_image_must_match_in_everything() {
    let img = vrs_image(9);
    assert!(img.matches(&wanted(0.0, 0.99)));
    assert!(!img.matches(&wanted(0.0, 1.0)));
    assert!(!img.matches(&wanted(f32::NAN, 0.0)));
    assert!(!img.matches(&Wanted { area_w: 101, ..wanted(0.0, 0.0) }));
    assert!(!img.matches(&Wanted { area_h: 81, ..wanted(0.0, 0.0) }));
    let mut other = wanted(0.0, 0.0);
    other.falloff.inner_radius = 0.5f32.to_bits();
    assert!(!img.matches(&other));
}

#[test]
fn all_eye_images_are_given_up_once() {
    let texel = extent(16, 16);
    let mut eyes = EyeImages::new();
    eyes.made(0, Some(vrs_image(9)), texel);
    eyes.made(1, Some(vrs_image(10)), texel);
    let mut views: Vec<u64> = eyes.take_all().iter().map(|i| i.view).collect();
    views.sort();
    assert_eq!(views, vec![9, 10]);
    assert!(eyes.take_all().is_empty());
}

#[test]
fn overlay_is_drawn_over_a_single_view_only() {
    let area = Rect { x: 1, y: 2, width: 100, height: 80 };
    let rate = rate_info(9, extent(16, 16), 77);
    assert_eq!((rate.view, rate.layout, rate.next), (9, vk::LAYOUT_SHADING_RATE, 77));
    let mut renders = Renders::new();
    renders.cmd_begin_rendering(60, false, &desc(7, 0, 1), 40, area, &rate, 0);
    assert!(renders.cmd_end_rendering(60, true).is_none());
    renders.cmd_begin_rendering(60, true, &desc(7, 0, 1), 40, area, &rate, 0);
    let state = renders.cmd_end_rendering(60, true).unwrap();
    assert!(renders.cmd_end_rendering(60, true).is_none());
    assert_eq!((state.color_image, state.color_view, state.color_format), (7, 40, 50));
    let pass = draw_overlay(&state);
    assert_eq!((pass.image, pass.view, pass.layer_count), (7, 40, 1));
    assert_eq!(pass.load_op, avk::AttachmentLoadOp::LOAD.as_raw());
    assert_eq!(pass.store_op, avk::AttachmentStoreOp::STORE.as_raw());
    assert_eq!(pass.rate, rate_info(9, extent(16, 16), 0));
    assert_eq!((pass.vertex_count, pass.instance_count), (3, 1));
    assert_eq!(pass.render_area, area);
    renders.cmd_begin_rendering(60, true, &desc(7, 0, 1), 40, area, &rate, 3);
    assert!(renders.cmd_end_rendering(60, true).is_none());
}

#[test]
fn overlay_pipeline_is_kept_for_its_format_and_area() {
    let area = Rect { x: 0, y: 0, width: 100, height: 80 };
    let mut slot = None;
    assert_eq!(ensure_overlay_pipeline(&mut slot, 50, &area), OverlayStep::Make(None));
    let o = overlay_built(Some(3), 4, 50, &area);
    assert_eq!(o, Some(OverlayPipeline { pipeline: 3, layout: 4, color_format: 50, area_w: 100, area_h: 80 }));
    assert_eq!(overlay_built(None, 4, 50, &area), None);
    assert_eq!(overlay_made(&mut slot, None), None);
    assert_eq!(overlay_made(&mut slot, o), Some(3));
    assert_eq!(ensure_overlay_pipeline(&mut slot, 50, &area), OverlayStep::Use(3));
    let wider = Rect { width: 101, ..area };
    assert_eq!(ensure_overlay_pipeline(&mut slot, 50, &wider), OverlayStep::Make(o));
    assert_eq!(slot, None);
}

#[test]
fn pipelines_replace_their_rate_by_the_attachments() {
    let rates = create_graphics_pipelines(Some(extent(16, 16)), false, &vec![5, 0]).unwrap();
    assert_eq!(rates.len(), 2);
    assert_eq!(rates[0].fragment, extent(1, 1));
    assert_eq!(rates[0].first, avk::FragmentShadingRateCombinerOpKHR::KEEP.as_raw());
    assert_eq!(rates[0].second, avk::FragmentShadingRateCombinerOpKHR::REPLACE.as_raw());
    assert_eq!((rates[0].next, rates[1].next), (5, 0));
    assert!(create_graphics_pipelines(None, false, &vec![5]).is_none());
    assert!(create_graphics_pipelines(Some(extent(16, 16)), true, &vec![5]).is_none());
}

#[test]
fn pipeline_numbers_are_those_of_vulkan() {
    assert_eq!(pipeline::TOPOLOGY_TRIANGLE_LIST, avk::PrimitiveTopology::TRIANGLE_LIST.as_raw());
    assert_eq!(pipeline::POLYGON_FILL, avk::PolygonMode::FILL.as_raw());
    assert_eq!(pipeline::CULL_NONE, avk::CullModeFlags::NONE.as_raw());
    assert_eq!(pipeline::FRONT_COUNTER_CLOCKWISE, avk::FrontFace::COUNTER_CLOCKWISE.as_raw());
    assert_eq!(pipeline::COMPARE_NEVER, avk::CompareOp::NEVER.as_raw());
    assert_eq!(pipeline::COMPARE_LESS, avk::CompareOp::LESS.as_raw());
    assert_eq!(pipeline::BLEND_ZERO, avk::BlendFactor::ZERO.as_raw());
    assert_eq!(pipeline::BLEND_ONE, avk::BlendFactor::ONE.as_raw());
    assert_eq!(pipeline::BLEND_SRC_ALPHA, avk::BlendFactor::SRC_ALPHA.as_raw());
    assert_eq!(pipeline::BLEND_ONE_MINUS_SRC_ALPHA, avk::BlendFactor::ONE_MINUS_SRC_ALPHA.as_raw());
    assert_eq!(pipeline::BLEND_ADD, avk::BlendOp::ADD.as_raw());
    assert_eq!(pipeline::WRITE_RGBA, avk::ColorComponentFlags::RGBA.as_raw());
}

#[test]
fn pipelines_are_described() {
    let area = Rect { x: 0, y: 0, width: 100, height: 80 };
    let overlay = build_overlay_pipeline(50, area);
    assert_eq!(overlay.area, Some(area));
    assert_eq!(overlay.color_format, 50);
    assert_eq!(overlay.depth_format, vk::FORMAT_UNDEFINED);
    assert!(!overlay.depth_test && !overlay.depth_write);
    assert_eq!(overlay.blend.unwrap().src_color, pipeline::BLEND_SRC_ALPHA);
    assert_eq!(overlay.rate.unwrap().second, pipeline::COMBINE_REPLACE);
    assert_eq!(overlay.line_width, 1.0f32.to_bits());
    let cubes = build_pipeline(43, true, false);
    assert_eq!(cubes.area, None);
    assert!(cubes.depth_test && cubes.depth_write && cubes.blend.is_none());
    assert_eq!(cubes.depth_format, vk::FORMAT_D32_SFLOAT);
    assert_eq!(cubes.rate, None);
    let screen = build_pipeline(43, false, true);
    assert!(!screen.depth_test && screen.blend == overlay.blend);
}

#[test]
fn render_passes_that_were_given_something_are_kept() {
    let given = LegacyRp { texel: extent(16, 8), layers: 2 };
    let mut passes = LegacyPasses::new();
    assert_eq!(passes.create_render_pass(Ok(31), Some(given)), 0);
    assert_eq!(passes.create_render_pass(Ok(32), None), 0);
    assert_eq!(passes.create_render_pass(Err(-2), Some(given)), -2);
    let mut devices = Devices::new();
    devices.create_image_view(Ok(40), 400);
    let plan = create_framebuffer(&passes, &devices, 31, 0, &vec![40, 41], 1001, 999).unwrap();
    assert_eq!(plan.color_image, 400);
    assert_eq!((plan.cols, plan.rows, plan.layers), (63, 125, 2));
    assert_eq!(plan.texel, extent(16, 8));
    assert_eq!(plan.area, extent(1001, 999));
    assert_eq!(create_framebuffer(&passes, &devices, 32, 0, &vec![40], 100, 100), None);
    assert_eq!(create_framebuffer(&passes, &devices, 31, 1, &vec![40], 100, 100), None);
    assert_eq!(create_framebuffer(&passes, &devices, 31, 2, &vec![], 100, 100).unwrap().color_image, 0);
    assert_eq!(with_rate_view(&vec![40, 41], 90), vec![40, 41, 90]);
    passes.destroy_render_pass(31);
    assert_eq!(create_framebuffer(&passes, &devices, 31, 0, &vec![40], 100, 100), None);
}

#[test]
fn framebuffer_tile_side_of_zero_counts_as_one() {
    let mut passes = LegacyPasses::new();
    passes.create_render_pass(Ok(31), Some(LegacyRp { texel: extent(0, 0), layers: 1 }));
    let plan = create_framebuffer(&passes, &Devices::new(), 31, 0, &vec![], 10, 20).unwrap();
    assert_eq!((plan.cols, plan.rows), (10, 20));
}

fn plan(layers: u32) -> FramebufferPlan {
    FramebufferPlan {
        color_image: 7,
        cols: 4,
        rows: 3,
        layers,
        texel: extent(16, 16),
        area: extent(64, 48),
    }
}

#[test]
fn freshest_record_is_the_last_of_the_latest() {
    assert!(freshest(&vec![]).is_none());
    let a = desc(7, 0, 5);
    let b = desc(7, 1, 5);
    let c = desc(7, 2, 4);
    assert!(freshest(&vec![a, b, c]).unwrap() == b);
    assert!(freshest(&vec![c, a]).unwrap() == a);
}

#[test]
fn layers_take_their_own_record_first() {
    let a = desc(7, 0, 5);
    let b = desc(7, 1, 9);
    assert!(layer_desc(&vec![a, b], 0).unwrap() == a);
    assert!(layer_desc(&vec![a, b], 1).unwrap() == b);
    assert!(layer_desc(&vec![a, b], 2).unwrap() == b);
    assert!(layer_desc(&vec![], 0).is_none());
}

#[test]
fn without_records_the_centre_is_out_of_reach() {
    let s = fill_source(&vec![]);
    assert_eq!((s.center_x, s.center_y), ((-1.0f32).to_bits(), (-1.0f32).to_bits()));
    assert!(s.falloff == FalloffParams::default());
    let b = desc(7, 1, 9);
    let s = fill_source(&vec![desc(7, 0, 5), b]);
    assert_eq!((s.center_x, s.center_y), (b.center_px_x, b.center_px_y));
}

#[test]
fn framebuffer_is_filled_once_until_the_foveation_changes() {
    let zero = 0.0f32.to_bits();
    let far = 1.0f32.to_bits();
    let mut fbs = Framebuffers::new();
    fbs.created(80, plan(2), 1, 2, 3);
    let fb = fbs.framebuffer(80).unwrap();
    assert!(!fb.filled);
    assert_eq!((fb.sr_image, fb.sr_memory, fb.sr_view), (1, 2, 3));
    let descs = vec![desc(7, 0, 5), desc(7, 1, 6)];
    let source = fill_source(&descs);
    let layers = ensure_legacy_fill(&fb, &descs, &source, zero, zero).unwrap();
    assert_eq!(layers.len(), 2);
    assert!(layers[0].unwrap() == descs[0]);
    assert!(layers[1].unwrap() == descs[1]);
    fbs.filled(80, source, false);
    assert!(!fbs.framebuffer(80).unwrap().filled);
    fbs.filled(80, source, true);
    let fb = fbs.framebuffer(80).unwrap();
    assert!(fb.filled);
    assert_eq!(fb.fill_center_x, source.center_x);
    assert!(ensure_legacy_fill(&fb, &descs, &source, zero, zero).is_none());
    assert!(ensure_legacy_fill(&fb, &descs, &source, far, zero).is_some());
    assert!(ensure_legacy_fill(&fb, &descs, &source, zero, far).is_some());
    let mut other = source;
    other.falloff.mid_radius = 0.6f32.to_bits();
    assert!(ensure_legacy_fill(&fb, &descs, &other, zero, zero).is_some());
    fbs.filled(81, source, true);
    assert!(fbs.framebuffer(81).is_none());
    assert!(fbs.destroy_framebuffer(80).is_some());
    assert!(fbs.destroy_framebuffer(80).is_none());
}

#[test]
fn layer_without_record_is_full_rate() {
    let mut fbs = Framebuffers::new();
    fbs.created(80, plan(1), 1, 2, 3);
    let fb = fbs.framebuffer(80).unwrap();
    let none = TileDistances { x: vec![], y: vec![], diagonal: vec![] };
    let m = fill_map(&fb, &None, &none);
    assert_eq!((m.cols, m.rows, m.texel_size), (4, 3, 16));
    assert_eq!(m.bytes, vec![0u8; 12]);
    let edge = 2.0f32.to_bits();
    let distances = TileDistances { x: vec![edge; 4], y: vec![edge; 3], diagonal: vec![edge; 12] };
    let m = fill_map(&fb, &Some(desc(7, 0, 1)), &distances);
    assert_eq!(m.bytes, vec![10u8; 12]);
}

#[test]
fn shading_rate_images_are_planned() {
    let one = alloc_sr_image(4, 3, 1);
    assert_eq!((one.width, one.height, one.layers), (4, 3, 1));
    assert_eq!(one.view_type, vk::VIEW_2D);
    assert_eq!(one.memory, vk::MEMORY_DEVICE_LOCAL);
    assert_eq!(alloc_sr_image(4, 3, 2).view_type, vk::VIEW_2D_ARRAY);
}

#[test]
fn eye_image_has_a_texel_for_each_tile_of_its_map() {
    let mut d = desc(7, 0, 1);
    d.falloff.inner_radius = 0.5f32.to_bits();
    d.falloff.mid_radius = 1.0f32.to_bits();
    d.falloff.outer_radius = 2.0f32.to_bits();
    let distances = TileDistances {
        x: vec![0.0f32.to_bits(); 4],
        y: vec![0.0f32.to_bits(); 3],
        diagonal: (0..12).map(|i| (i as f32 * 0.25).to_bits()).collect(),
    };
    let eye = create_vrs_image(&d, extent(50, 40), extent(16, 16), &distances);
    assert_eq!((eye.map.cols, eye.map.rows, eye.map.texel_size), (4, 3, 16));
    let map = FoveationMap::generate(50, 40, 16, &distances, &d.falloff);
    assert_eq!(eye.map.bytes, map.bytes);
    assert!(eye.map.bytes[0] == 0 && eye.map.bytes[11] != 0);
    assert_eq!(eye.image, alloc_sr_image(4, 3, 1));
    let upload = upload_map(&eye.map, 0);
    assert_eq!((upload.copy_width, upload.copy_height), (eye.image.width, eye.image.height));
    assert_eq!(upload.size, 12);

    let flat = TileDistances { x: vec![0; 3], y: vec![0; 2], diagonal: vec![0; 6] };
    assert_eq!(create_vrs_image(&d, extent(3, 2), extent(0, 0), &flat).map.texel_size, 1);
}

#[test]
fn maps_are_copied_between_two_changes_of_layout() {
    let u = upload_map(&FoveationMap::uniform(4, 3, 16), 1);
    assert_eq!(u.size, 12);
    assert_eq!((u.copy_width, u.copy_height, u.copy_layer), (4, 3, 1));
    assert_eq!((u.before.old_layout, u.before.new_layout), (vk::LAYOUT_UNDEFINED, vk::LAYOUT_TRANSFER_DST));
    assert_eq!((u.after.old_layout, u.after.new_layout), (vk::LAYOUT_TRANSFER_DST, vk::LAYOUT_SHADING_RATE));
    assert_eq!((u.before.base_layer, u.after.base_layer), (1, 1));
    assert_eq!((u.after.src_stage, u.after.dst_stage), (vk::STAGE_TRANSFER, vk::STAGE_SHADING_RATE));
    assert_eq!(u.buffer_memory, vk::MEMORY_HOST_VISIBLE_COHERENT);
    let b = overlay_barrier();
    assert_eq!((b.src_access, b.dst_access), (0x100, 0x180));
}

#[test]
fn memory_type_is_the_first_that_suits() {
    let flags = vec![1, 2, 6, 7];
    assert_eq!(memory_type(&flags, 0b1111, 1), 0);
    assert_eq!(memory_type(&flags, 0b1111, 6), 2);
    assert_eq!(memory_type(&flags, 0b1011, 6), 3);
    assert_eq!(memory_type(&flags, 0b0011, 6), 0);
    assert_eq!(memory_type(&vec![], 1, 1), 0);
    let mut many = vec![0; 32];
    many[31] = 1;
    assert_eq!(memory_type(&many, 0x8000_0000, 1), 31);
}

#[test]
fn bit_patterns_order_like_numbers() {
    assert!(binary32::less(0.999f32.to_bits(), binary32::ONE));
    assert!(!binary32::less(f32::INFINITY.to_bits(), binary32::ONE));
}

#[test]
fn latest_published_record_is_the_freshest() {
    let mut reg = Registry::new();
    ffr_shared_publish(&mut reg, Some(&desc(7, 0, 1)));
    ffr_shared_publish(&mut reg, Some(&desc(7, 1, 2)));
    ffr_shared_publish(&mut reg, Some(&desc(8, 0, 9)));
    ffr_shared_publish(&mut reg, Some(&desc(7, 0, 3)));
    let found = ffr_shared_lookup(&reg, 5, 7, 2);
    assert_eq!(found.len(), 2);
    assert_eq!((found[0].generation, found[1].generation), (3, 2));
    assert!(freshest(&found).unwrap() == desc(7, 0, 3));
}

#[test]
fn tiles_of_a_framebuffer_cover_it() {
    let mut passes = LegacyPasses::new();
    passes.create_render_pass(Ok(31), Some(LegacyRp { texel: extent(16, 8), layers: 1 }));
    for (w, h) in [(1, 1), (16, 8), (17, 9), (1000, 1001)] {
        let p = create_framebuffer(&passes, &Devices::new(), 31, 0, &vec![], w, h).unwrap();
        assert!(p.cols * 16 >= w && (p.cols - 1) * 16 < w);
        assert!(p.rows * 8 >= h && (p.rows - 1) * 8 < h);
    }
}
