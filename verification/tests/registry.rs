use ffr::registry::{self, entry_point, is_available, load, Api, Call, Symbols};
use ffr::shared::{
    ffr_shared_get_heartbeat, ffr_shared_lookup, ffr_shared_publish, ffr_shared_remove_device,
    ffr_shared_remove_image, ffr_shared_set_heartbeat, ffr_shared_version, Heartbeat, Registry,
};
use ffr::wire::{FalloffParams, FoveationDesc, FFR_SHARED_MAGIC, FFR_SHARED_VERSION};

fn desc(device: u64, image: u64, eye: u32) -> FoveationDesc {
    FoveationDesc {
        magic: FFR_SHARED_MAGIC,
        version: FFR_SHARED_VERSION,
        vk_device: device,
        vk_image: image,
        image_array_index: eye,
        eye,
        vk_format: 0,
        _pad2: 0,
        rect_x: 0,
        rect_y: 0,
        rect_w: 100,
        rect_h: 100,
        center_px_x: 50.0f32.to_bits(),
        center_px_y: 50.0f32.to_bits(),
        ppd_center_h: 20.0f32.to_bits(),
        ppd_center_v: 20.0f32.to_bits(),
        falloff: FalloffParams::default(),
        generation: 1,
    }
}

#[test]
fn publish_then_lookup_roundtrips() {
    let mut reg = Registry::new();
    let dev = 0xAAAA;
    let img = 0xBBBB;
    ffr_shared_publish(&mut reg, Some(&desc(dev, img, 0)));
    ffr_shared_publish(&mut reg, Some(&desc(dev, img, 1)));
    let out = ffr_shared_lookup(&reg, dev, img, 2);
    assert_eq!(out.len(), 2);
    assert_eq!(out[0], desc(dev, img, 0));
    assert_eq!(out[1], desc(dev, img, 1));
    ffr_shared_remove_image(&mut reg, dev, img);
    let out = ffr_shared_lookup(&reg, dev, img, 2);
    assert_eq!(out.len(), 0);
}

#[test]
fn republish_same_eye_replaces() {
    let mut reg = Registry::new();
    let (dev, img) = (1, 2);
    let mut d = desc(dev, img, 0);
    ffr_shared_publish(&mut reg, Some(&d));
    d.generation = 99;
    ffr_shared_publish(&mut reg, Some(&d));
    let out = ffr_shared_lookup(&reg, dev, img, 2);
    assert_eq!(out.len(), 1);
    assert_eq!(out[0].generation, 99);
    ffr_shared_remove_device(&mut reg, dev);
    assert!(ffr_shared_lookup(&reg, dev, img, 2).is_empty());
}

#[test]
fn other_records_stay() {
    let mut reg = Registry::new();
    for (dev, img, eye) in [(1, 2, 0), (1, 2, 1), (1, 3, 0), (4, 2, 0)] {
        ffr_shared_publish(&mut reg, Some(&desc(dev, img, eye)));
    }
    let mut d = desc(1, 2, 0);
    d.generation = 7;
    ffr_shared_publish(&mut reg, Some(&d));
    let out = ffr_shared_lookup(&reg, 1, 2, 2);
    assert_eq!((out[0].generation, out[1].generation), (7, 1));
    assert_eq!(ffr_shared_lookup(&reg, 1, 2, 1), vec![d]);
    assert!(ffr_shared_lookup(&reg, 1, 2, 0).is_empty());
    ffr_shared_remove_image(&mut reg, 1, 2);
    ffr_shared_remove_image(&mut reg, 9, 9);
    assert_eq!(ffr_shared_lookup(&reg, 1, 3, 2), vec![desc(1, 3, 0)]);
    ffr_shared_remove_device(&mut reg, 1);
    assert!(ffr_shared_lookup(&reg, 1, 3, 2).is_empty());
    assert_eq!(ffr_shared_lookup(&reg, 4, 2, 2), vec![desc(4, 2, 0)]);
}

#[test]
fn records_that_do_not_match_are_ignored() {
    let mut reg = Registry::new();
    ffr_shared_publish(&mut reg, None);
    ffr_shared_publish(&mut reg, Some(&FoveationDesc { magic: 1, ..desc(1, 2, 0) }));
    ffr_shared_publish(&mut reg, Some(&FoveationDesc { version: 3, ..desc(1, 2, 0) }));
    assert!(ffr_shared_lookup(&reg, 1, 2, 2).is_empty());
}

#[test]
fn heartbeat_is_read_back() {
    assert_eq!(ffr_shared_version(), 2);
    let mut hb = Heartbeat::new();
    assert_eq!(ffr_shared_get_heartbeat(&hb), None);
    ffr_shared_set_heartbeat(&mut hb, 3, 42.5f32.to_bits());
    assert_eq!(ffr_shared_get_heartbeat(&hb), Some((3, 42.5f32.to_bits())));
}

fn symbols() -> Symbols {
    Symbols {
        version: Some(1),
        publish: Some(2),
        lookup: Some(3),
        remove_image: Some(4),
        remove_device: Some(5),
        set_heartbeat: Some(6),
        get_heartbeat: Some(7),
    }
}

#[test]
fn library_is_usable_only_when_complete() {
    assert!(!is_available(&load(None)));
    let api: Option<Api> = load(Some(symbols()));
    assert!(is_available(&api));
    let calls = [
        Call::Version,
        Call::Publish,
        Call::Lookup,
        Call::RemoveImage,
        Call::RemoveDevice,
        Call::SetHeartbeat,
        Call::GetHeartbeat,
    ];
    for (i, c) in calls.iter().enumerate() {
        assert_eq!(entry_point(&api, *c), Some(i as u64 + 1));
        assert_eq!(entry_point(&None, *c), None);
    }
    assert!(!is_available(&load(Some(Symbols { get_heartbeat: None, ..symbols() }))));
    assert!(!is_available(&load(Some(Symbols { version: None, ..symbols() }))));
    assert!(!is_available(&load(Some(Symbols { remove_device: None, ..symbols() }))));
}

#[test]
fn replies_of_the_library() {
    assert_eq!(registry::get_heartbeat(0, 5, 6), None);
    assert_eq!(registry::get_heartbeat(1, 5, 6), Some((5, 6)));
    let places = [desc(1, 2, 0), desc(1, 2, 1)];
    assert!(registry::lookup(places, 0).is_empty());
    assert_eq!(registry::lookup(places, 1), vec![desc(1, 2, 0)]);
    assert_eq!(registry::lookup(places, 2).len(), 2);
    assert_eq!(registry::lookup(places, 3).len(), 2);
}
