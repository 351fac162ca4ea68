use ffr::binary32;
use ffr::config::{Config, HmdOverride, Profile};
use ffr::foveation::{
    foveation_ppm, foveation_ppm_path, normalization, tile_count, tile_rate, FoveationMap,
    TileDistances,
};
use ffr::logging::{log_dir, log_file, Layer};
use ffr::rate::{log2_u8, ShadingRate};
use ffr::text::{contains_text, decimal_bytes, decimal_string, parse_u32};
use ffr::wire::{FalloffParams, FoveationDesc, RadiusBasis, RateCode};
use ffr::{FFR_SHARED_MAGIC, FFR_SHARED_VERSION};

fn bits(v: f32) -> u32 {
    v.to_bits()
}

/// The distances of every tile from the centre, in binary32 arithmetic.
fn distances(
    rect_w: u32,
    rect_h: u32,
    center_px: (f32, f32),
    texel_size: u32,
    norm_px: (f32, f32),
    falloff: &FalloffParams,
) -> TileDistances {
    let (cols, rows, texel) = FoveationMap::grid(rect_w, rect_h, texel_size);
    let n = normalization(bits(norm_px.0), bits(norm_px.1), falloff);
    let nx = f32::from_bits(n.x);
    let ny = f32::from_bits(n.y.0) * f32::from_bits(n.y.1);
    let dx: Vec<f32> =
        (0..cols).map(|tx| ((tx as f32 + 0.5) * texel as f32 - center_px.0) / nx).collect();
    let dy: Vec<f32> =
        (0..rows).map(|ty| ((ty as f32 + 0.5) * texel as f32 - center_px.1) / ny).collect();
    let mut diagonal = Vec::new();
    for y in &dy {
        for x in &dx {
            diagonal.push(bits((x * x + y * y).sqrt()));
        }
    }
    TileDistances {
        x: dx.into_iter().map(bits).collect(),
        y: dy.into_iter().map(bits).collect(),
        diagonal,
    }
}

fn generate(
    rect_w: u32,
    rect_h: u32,
    center_px: (f32, f32),
    texel_size: u32,
    norm_px: (f32, f32),
    falloff: &FalloffParams,
) -> FoveationMap {
    let d = distances(rect_w, rect_h, center_px, texel_size, norm_px, falloff);
    FoveationMap::generate(rect_w, rect_h, texel_size, &d, falloff)
}

#[test]
fn encode_known_values() {
    assert_eq!(ShadingRate::RATE_1X1().encode(), 0x00);
    assert_eq!(ShadingRate::RATE_1X2().encode(), 0x01);
    assert_eq!(ShadingRate::RATE_2X1().encode(), 0x04);
    assert_eq!(ShadingRate::RATE_2X2().encode(), 0x05);
    assert_eq!(ShadingRate::RATE_2X4().encode(), 0x06);
    assert_eq!(ShadingRate::RATE_4X2().encode(), 0x09);
    assert_eq!(ShadingRate::RATE_4X4().encode(), 0x0A);
}

#[test]
fn encode_decode_roundtrip() {
    for r in [
        ShadingRate::RATE_1X1(),
        ShadingRate::RATE_1X2(),
        ShadingRate::RATE_2X1(),
        ShadingRate::RATE_2X2(),
        ShadingRate::RATE_2X4(),
        ShadingRate::RATE_4X2(),
        ShadingRate::RATE_4X4(),
    ] {
        assert_eq!(ShadingRate::decode(r.encode()), r);
    }
}

#[test]
fn coverage_factors() {
    assert_eq!(ShadingRate::RATE_1X1().coverage(), 1);
    assert_eq!(ShadingRate::RATE_2X2().coverage(), 4);
    assert_eq!(ShadingRate::RATE_4X4().coverage(), 16);
}

#[test]
fn every_byte_decodes_to_its_lower_bits() {
    for byte in 0..=255u8 {
        assert_eq!(ShadingRate::decode(byte).encode(), byte & 0x0f);
    }
    assert_eq!(ShadingRate::new(3, 8).encode(), 0x03);
    assert_eq!(ShadingRate::new(255, 255).coverage(), 65025);
    assert_eq!(log2_u8(8), 3);
    assert_eq!(log2_u8(6), 0);
}

#[test]
fn falloff_is_pod_sized() {
    // No surprises in size; the layout is stable across the boundary.
    assert_eq!(std::mem::align_of::<FalloffParams>(), 4);
    assert_eq!(std::mem::size_of::<FalloffParams>(), 24);
}

#[test]
fn rate_code_string_roundtrip() {
    assert_eq!(RateCode::parse("4x4"), Some(RateCode::R4x4));
    assert_eq!(RateCode::parse("2x2").unwrap().to_rate(), ShadingRate::RATE_2X2());
    assert_eq!(RateCode::parse("nope"), None);
}

#[test]
fn rate_code_numbers_and_names() {
    let names = ["1x1", "1x2", "2x1", "2x2", "2x4", "4x2", "4x4"];
    for v in 0..7u8 {
        let c = RateCode::from_u8(v).unwrap();
        assert_eq!(c.code(), v);
        assert_eq!(c as u8, v);
        assert_eq!(RateCode::parse(names[v as usize]), Some(c));
        assert_eq!(ShadingRate::decode(c.to_rate().encode()), c.to_rate());
    }
    assert_eq!(RateCode::from_u8(7), None);
    assert_eq!(RateCode::from_u8(255), None);
    assert_eq!(RateCode::parse("2X2"), None);
    assert_eq!(RateCode::parse(""), None);
    assert_eq!(RadiusBasis::parse("horizontal"), RadiusBasis::Horizontal);
    assert_eq!(RadiusBasis::parse("vertical"), RadiusBasis::Vertical);
    assert_eq!(RadiusBasis::parse("else"), RadiusBasis::Diagonal);
    assert_eq!(RadiusBasis::from_u8(1).code(), 1);
    assert_eq!(RadiusBasis::from_u8(9), RadiusBasis::Diagonal);
}

#[test]
fn magic_validates() {
    let d = FoveationDesc {
        magic: FFR_SHARED_MAGIC,
        version: FFR_SHARED_VERSION,
        vk_device: 1,
        vk_image: 2,
        image_array_index: 0,
        eye: 0,
        vk_format: 0,
        _pad2: 0,
        rect_x: 0,
        rect_y: 0,
        rect_w: 100,
        rect_h: 100,
        center_px_x: bits(50.0),
        center_px_y: bits(50.0),
        ppd_center_h: bits(20.0),
        ppd_center_v: bits(20.0),
        falloff: FalloffParams::default(),
        generation: 1,
    };
    assert!(d.is_valid());
    assert!(!FoveationDesc { magic: 0, ..d }.is_valid());
    assert!(!FoveationDesc { version: 1, ..d }.is_valid());
    assert!(d == d);
    assert!(d != FoveationDesc { generation: 2, ..d });
    // A number that is not a number equals nothing, itself not either.
    let n = FoveationDesc { center_px_x: bits(f32::NAN), ..d };
    assert!(n != n);
}

#[test]
fn patterns_of_the_named_numbers() {
    assert_eq!(binary32::ZERO, bits(0.0));
    assert_eq!(binary32::ONE, bits(1.0));
    assert_eq!(binary32::MINUS_ONE, bits(-1.0));
    let f = FalloffParams::default();
    assert_eq!(f.inner_radius, bits(0.30));
    assert_eq!(f.mid_radius, bits(0.55));
    assert_eq!(f.outer_radius, bits(0.80));
    assert_eq!(f.vertical_scale, bits(1.0));
}

#[test]
fn pattern_order_is_the_order_of_the_numbers() {
    let samples: [f32; 16] = [
        0.0,
        -0.0,
        1.0,
        -1.0,
        0.3,
        0.55,
        f32::MIN_POSITIVE,
        -f32::MIN_POSITIVE,
        f32::from_bits(1),
        f32::from_bits(0x8000_0001),
        f32::MAX,
        f32::MIN,
        f32::INFINITY,
        f32::NEG_INFINITY,
        f32::NAN,
        f32::from_bits(0xffc0_0000),
    ];
    for a in samples {
        for b in samples {
            assert_eq!(binary32::less(bits(a), bits(b)), a < b);
            assert_eq!(binary32::equal(bits(a), bits(b)), a == b);
        }
        assert_eq!(binary32::abs(bits(a)), bits(a.abs()));
    }
}

#[test]
fn falloff_equality_is_that_of_the_numbers() {
    let f = FalloffParams::default();
    assert!(f == FalloffParams::default());
    let zero = FalloffParams { inner_radius: bits(0.0), ..f };
    let minus_zero = FalloffParams { inner_radius: bits(-0.0), ..f };
    assert!(zero == minus_zero);
    let nan = FalloffParams { inner_radius: bits(f32::NAN), ..f };
    assert!(nan != nan);
    assert!(f != FalloffParams { rate_edge: 0, ..f });
    assert!(f != FalloffParams { _pad: [0, 1, 0], ..f });
}

#[test]
fn default_config_parses_and_resolves() {
    let cfg = Config::default();
    let p = cfg.resolve_for("Anything XR");
    assert_eq!(p, FalloffParams::default());
}

fn number(t: &toml::Table, key: &str) -> Option<u32> {
    t.get(key).map(|v| bits(v.as_float().unwrap() as f32))
}

fn text(t: &toml::Table, key: &str) -> Option<String> {
    t.get(key).map(|v| v.as_str().unwrap().to_string())
}

fn config_from(toml: &str) -> Config {
    let table: toml::Table = toml.parse().unwrap();
    let d = table["default"].as_table().unwrap();
    let default = Profile {
        inner_radius: number(d, "inner_radius").unwrap(),
        mid_radius: number(d, "mid_radius").unwrap(),
        outer_radius: number(d, "outer_radius").unwrap(),
        rate_inner: text(d, "rate_inner").unwrap(),
        rate_mid: text(d, "rate_mid").unwrap(),
        rate_outer: text(d, "rate_outer").unwrap(),
        rate_edge: text(d, "rate_edge").unwrap(),
        radius_basis: text(d, "radius_basis").unwrap(),
        vertical_scale: number(d, "vertical_scale").unwrap(),
    };
    let hmd = table["hmd"]
        .as_array()
        .unwrap()
        .iter()
        .map(|v| {
            let t = v.as_table().unwrap();
            HmdOverride {
                match_system_name: text(t, "match_system_name").unwrap(),
                inner_radius: number(t, "inner_radius"),
                mid_radius: number(t, "mid_radius"),
                outer_radius: number(t, "outer_radius"),
                rate_inner: text(t, "rate_inner"),
                rate_mid: text(t, "rate_mid"),
                rate_outer: text(t, "rate_outer"),
                rate_edge: text(t, "rate_edge"),
                radius_basis: text(t, "radius_basis"),
                vertical_scale: number(t, "vertical_scale"),
            }
        })
        .collect();
    Config { default, hmd }
}

#[test]
fn override_applies_by_substring() {
    let toml = r#"
            [default]
            inner_radius = 0.30
            mid_radius = 0.55
            outer_radius = 0.80
            rate_inner = "1x1"
            rate_mid = "2x2"
            rate_outer = "4x4"
            rate_edge = "4x4"
            radius_basis = "diagonal"
            vertical_scale = 1.0

            [[hmd]]
            match_system_name = "Pimax"
            outer_radius = 0.85
            rate_mid = "2x4"
        "#;
    let cfg = config_from(toml);
    let generic = cfg.resolve_for("Valve Index");
    assert_eq!(f32::from_bits(generic.outer_radius), 0.80);
    let pimax = cfg.resolve_for("Pimax 5K XR");
    assert_eq!(f32::from_bits(pimax.outer_radius), 0.85);
    assert_eq!(pimax.rate_mid, RateCode::R2x4 as u8);
    // Unset override fields keep the default.
    assert_eq!(f32::from_bits(pimax.inner_radius), 0.30);
}

fn silent_override(name: &str) -> HmdOverride {
    HmdOverride {
        match_system_name: name.to_string(),
        inner_radius: None,
        mid_radius: None,
        outer_radius: None,
        rate_inner: None,
        rate_mid: None,
        rate_outer: None,
        rate_edge: None,
        radius_basis: None,
        vertical_scale: None,
    }
}

#[test]
fn only_the_first_matching_override_counts() {
    let first = HmdOverride { rate_inner: Some("2x1".to_string()), ..silent_override("XR") };
    let second = HmdOverride {
        rate_inner: Some("4x2".to_string()),
        vertical_scale: Some(bits(2.0)),
        ..silent_override("")
    };
    let cfg = Config { default: Profile::default(), hmd: vec![first, second] };
    let both = cfg.resolve_for("Some XR");
    assert_eq!(both.rate_inner, RateCode::R2x1.code());
    assert_eq!(both.vertical_scale, bits(1.0));
    // The empty name is part of every name.
    let other = cfg.resolve_for("Other");
    assert_eq!(other.rate_inner, RateCode::R4x2.code());
    assert_eq!(other.vertical_scale, bits(2.0));
}

#[test]
fn every_override_field_applies() {
    let o = HmdOverride {
        match_system_name: "X".to_string(),
        inner_radius: Some(1),
        mid_radius: Some(2),
        outer_radius: Some(3),
        rate_inner: Some("1x2".to_string()),
        rate_mid: Some("2x1".to_string()),
        rate_outer: Some("2x4".to_string()),
        rate_edge: Some("bad".to_string()),
        radius_basis: Some("vertical".to_string()),
        vertical_scale: Some(4),
    };
    let mut p = Profile::default();
    o.apply_to(&mut p);
    let f = p.to_params();
    assert_eq!((f.inner_radius, f.mid_radius, f.outer_radius), (1, 2, 3));
    assert_eq!((f.rate_inner, f.rate_mid, f.rate_outer), (1, 2, 4));
    // A name that is no rate falls back to the rate of its band.
    assert_eq!(f.rate_edge, RateCode::R4x4.code());
    assert_eq!(f.radius_basis, RadiusBasis::Vertical.code());
    assert_eq!(f.vertical_scale, 4);
}

#[test]
fn center_is_full_rate_periphery_is_coarse() {
    // Default bands: <0.30 is 1x1, [0.30,0.55) is 2x2, [0.55,0.80) is 4x4, from 0.80 on 4x4.
    let f = FalloffParams::default();
    assert_eq!(tile_rate(bits(0.0), &f), ShadingRate::RATE_1X1());
    assert_eq!(tile_rate(bits(0.45), &f), ShadingRate::RATE_2X2());
    assert_eq!(tile_rate(bits(0.65), &f), ShadingRate::RATE_4X4());
    assert_eq!(tile_rate(bits(0.95), &f), ShadingRate::RATE_4X4());
}

#[test]
fn bands_are_half_open_and_codes_fall_back() {
    let f = FalloffParams { rate_outer: 5, rate_edge: 200, ..FalloffParams::default() };
    assert_eq!(tile_rate(bits(0.30), &f), ShadingRate::RATE_2X2());
    assert_eq!(tile_rate(bits(0.55), &f), ShadingRate::RATE_4X2());
    // A number without a code means full rate, and so does no radius at all.
    assert_eq!(tile_rate(bits(0.80), &f), ShadingRate::RATE_1X1());
    assert_eq!(tile_rate(bits(f32::NAN), &FalloffParams::default()), ShadingRate::RATE_4X4());
}

#[test]
fn map_dimensions_and_center_tile() {
    let f = FalloffParams::default();
    let (w, h) = (2000u32, 2000u32);
    let center = (1000.0, 1000.0);
    // norm = half-extent so the edge sits at r about 1.
    let map = generate(w, h, center, 16, (1000.0, 1000.0), &f);
    assert_eq!(map.cols, 125);
    assert_eq!(map.rows, 125);
    assert_eq!(map.bytes.len(), 125 * 125);
    // Tile at the center must be full rate.
    let cx = (center.0 / 16.0) as u32;
    let cy = (center.1 / 16.0) as u32;
    let center_byte = map.bytes[(cy * map.cols + cx) as usize];
    assert_eq!(ShadingRate::decode(center_byte), ShadingRate::RATE_1X1());
    // A corner must be coarser than the center.
    let corner = map.bytes[0];
    assert!(ShadingRate::decode(corner).coverage() >= ShadingRate::RATE_2X2().coverage());
    assert_eq!(map.len(), 125 * 125);
    assert!(!map.is_empty());
}

#[test]
fn offset_center_shifts_full_rate_region() {
    let f = FalloffParams::default();
    // Center pushed toward the right edge: the dense region follows it.
    let map = generate(1600, 1600, (1200.0, 800.0), 16, (800.0, 800.0), &f);
    let cx = (1200.0f32 / 16.0) as u32;
    let cy = (800.0f32 / 16.0) as u32;
    let at_center = map.bytes[(cy * map.cols + cx) as usize];
    assert_eq!(ShadingRate::decode(at_center), ShadingRate::RATE_1X1());
    // The geometric middle is now off-axis, so it should not be full-rate.
    let mid = map.bytes[((map.rows / 2) * map.cols + map.cols / 2) as usize];
    assert!(ShadingRate::decode(mid).coverage() >= ShadingRate::RATE_1X1().coverage());
}

#[test]
fn map_is_coarser_outwards() {
    let f = FalloffParams::default();
    let d = distances(640, 480, (300.0, 200.0), 16, (320.0, 240.0), &f);
    let map = FoveationMap::generate(640, 480, 16, &d, &f);
    for i in 0..map.bytes.len() {
        for j in 0..map.bytes.len() {
            if f32::from_bits(d.diagonal[i]) <= f32::from_bits(d.diagonal[j]) {
                assert!(
                    ShadingRate::decode(map.bytes[i]).coverage()
                        <= ShadingRate::decode(map.bytes[j]).coverage()
                );
            }
        }
    }
}

#[test]
fn pattern_does_not_depend_on_the_resolution() {
    let f = FalloffParams::default();
    for k in [1u32, 2, 4, 8] {
        let base = generate(650, 483, (300.0, 200.0), 8, (325.0, 241.5), &f);
        let s = k as f32;
        let map = generate(
            k * 650,
            k * 483,
            (s * 300.0, s * 200.0),
            k * 8,
            (s * 325.0, s * 241.5),
            &f,
        );
        assert_eq!((base.cols, base.rows, base.texel_size), (82, 61, 8));
        assert_eq!((map.cols, map.rows, map.texel_size), (82, 61, k * 8));
        assert_eq!(map.bytes, base.bytes);
    }
}

#[test]
fn axis_of_the_radii() {
    let d = TileDistances {
        x: vec![bits(-0.9), bits(0.1)],
        y: vec![bits(0.4), bits(-0.7), bits(0.0)],
        diagonal: vec![bits(0.0); 6],
    };
    let f = FalloffParams { rate_outer: RateCode::R2x4.code(), ..FalloffParams::default() };
    let h = FalloffParams { radius_basis: 0, ..f };
    let v = FalloffParams { radius_basis: 1, ..f };
    assert_eq!(FoveationMap::generate(20, 40, 16, &d, &h).bytes, vec![10, 0, 10, 0, 10, 0]);
    assert_eq!(FoveationMap::generate(20, 40, 16, &d, &v).bytes, vec![5, 5, 6, 6, 0, 0]);
    assert_eq!(FoveationMap::generate(20, 40, 16, &d, &f).bytes, vec![0; 6]);
}

#[test]
fn tile_side_of_zero_counts_as_one() {
    assert_eq!(FoveationMap::grid(3, 2, 0), (3, 2, 1));
    assert_eq!(FoveationMap::grid(0, 17, 16), (0, 2, 16));
    assert_eq!(tile_count(u32::MAX, 2), 0x8000_0000);
    assert_eq!(tile_count(32, 16), 2);
}

#[test]
fn divisors_that_are_not_positive_count_as_one() {
    let f = FalloffParams { vertical_scale: bits(-2.0), ..FalloffParams::default() };
    let n = normalization(bits(0.0), bits(5.0), &f);
    assert_eq!((n.x, n.y), (bits(1.0), (bits(5.0), bits(1.0))));
    let g = FalloffParams { vertical_scale: bits(2.0), ..f };
    let n = normalization(bits(3.0), bits(f32::NAN), &g);
    assert_eq!((n.x, n.y), (bits(3.0), (bits(1.0), bits(1.0))));
    let n = normalization(bits(3.0), bits(4.0), &g);
    assert_eq!(n.y, (bits(4.0), bits(2.0)));
}

#[test]
fn uniform_map_is_full_rate() {
    let m = FoveationMap::uniform(3, 2, 16);
    assert_eq!((m.cols, m.rows, m.texel_size), (3, 2, 16));
    assert_eq!(m.bytes, vec![0; 6]);
    assert!(FoveationMap::uniform(0, 2, 16).is_empty());
}

#[test]
fn map_as_an_image() {
    let m = FoveationMap { cols: 5, rows: 1, texel_size: 16, bytes: vec![0, 1, 5, 6, 10] };
    let mut want = b"P6\n5 1\n255\n".to_vec();
    want.extend_from_slice(&[0, 255, 0, 160, 255, 0, 255, 255, 0, 255, 140, 0, 255, 0, 0]);
    assert_eq!(foveation_ppm(&m), want);
    assert_eq!(foveation_ppm_path("/tmp/x", 1), "/tmp/x/foveation-eye1.ppm");
}

#[test]
fn decimal_numbers() {
    for n in [0u32, 7, 10, 99, 100, 4294967295] {
        assert_eq!(decimal_string(n as u64), n.to_string());
        assert_eq!(decimal_bytes(n), n.to_string().into_bytes());
        assert_eq!(parse_u32(&n.to_string()), Some(n));
    }
    for s in ["", "+", "-1", " 1", "1 ", "4294967296", "99999999999999999999", "1x", "+7", "007"] {
        assert_eq!(parse_u32(s), s.parse::<u32>().ok());
    }
}

#[test]
fn substrings() {
    for (hay, needle) in
        [("abc", ""), ("", ""), ("", "a"), ("abc", "c"), ("abc", "abcd"), ("aab", "ab"), ("Lüx", "ü")]
    {
        assert_eq!(contains_text(hay, needle), hay.contains(needle));
    }
}

#[test]
fn log_locations() {
    let some = |s: &str| Some(s.to_string());
    assert_eq!(log_dir(some("/state"), some("/home/u")), "/state/ffr-vrs");
    assert_eq!(log_dir(some(""), some("/home/u")), "/home/u/.local/state/ffr-vrs");
    assert_eq!(log_dir(None, some("")), "/tmp/ffr-vrs");
    assert_eq!(log_dir(None, None), "/tmp/ffr-vrs");
    assert_eq!(log_file(Layer::Headset, 42), "ffr-oxr-42.log");
    assert_eq!(log_file(Layer::Graphics, 7), "ffr-vk-7.log");
}
