//! The per-tile shading-rate map of an attachment image.
//!
//! A map is rebuilt from a few parameters (extent, tile size, the distance of
//! each tile from the optical centre, the falloff bands), so that a small
//! record is all that the layers need to exchange.

use crate::binary32;
use crate::rate::ShadingRate;
use crate::text::{decimal_bytes, decimal_string};
use crate::wire::{FalloffParams, RadiusBasis, RateCode};
use vstd::prelude::*;
use vstd::string::*;

verus! {

/// A shading-rate map: one encoded byte for each square tile.
#[derive(Clone, Debug, PartialEq)]
pub struct FoveationMap {
    /// Tiles across.
    pub cols: u32,
    /// Tiles down.
    pub rows: u32,
    /// Framebuffer pixels along one side of a tile.
    pub texel_size: u32,
    /// The encoded rates, row by row.
    pub bytes: Vec<u8>,
}

/// How far the tiles of a grid lie from the optical centre, as binary32 bit
/// patterns: the signed horizontal offset of each column, the signed vertical
/// offset of each row, and the length of the two for each tile, row by row.
/// All are fractions of the half field of view.
pub struct TileDistances {
    pub x: Vec<u32>,
    pub y: Vec<u32>,
    pub diagonal: Vec<u32>,
}

/// The smallest number of tiles of side `texel` that cover `extent` pixels.
pub open spec fn tiles(extent: int, texel: int) -> int {
    (extent + texel - 1) / texel
}

/// The tile side that is used for a requested one.
pub open spec fn tile_side(texel_size: u32) -> u32 {
    if texel_size == 0 {
        1
    } else {
        texel_size
    }
}

/// The number of the rate code at the normalized radius `r`.
pub open spec fn band_code(r: u32, falloff: FalloffParams) -> u8 {
    if binary32::lt(r, falloff.inner_radius) {
        falloff.rate_inner
    } else if binary32::lt(r, falloff.mid_radius) {
        falloff.rate_mid
    } else if binary32::lt(r, falloff.outer_radius) {
        falloff.rate_outer
    } else {
        falloff.rate_edge
    }
}

/// The rate of a stored code number; a number without a code means 1x1.
pub open spec fn stored_rate(number: u8) -> ShadingRate {
    match RateCode::of_number(number) {
        Some(c) => c.rate(),
        None => RateCode::R1x1.rate(),
    }
}

/// The rate at the normalized radius `r`.
pub open spec fn rate_at(r: u32, falloff: FalloffParams) -> ShadingRate {
    stored_rate(band_code(r, falloff))
}

impl TileDistances {
    /// The distances are those of a grid of `cols` x `rows` tiles.
    pub open spec fn cover(self, cols: int, rows: int) -> bool {
        &&& self.x@.len() == cols
        &&& self.y@.len() == rows
        &&& self.diagonal@.len() == cols * rows
    }

    /// The normalized radius of the tile in column `tx` and row `ty`.
    pub open spec fn radius(self, basis: RadiusBasis, cols: int, tx: int, ty: int) -> u32 {
        match basis {
            RadiusBasis::Horizontal => binary32::magnitude(self.x@[tx]) as u32,
            RadiusBasis::Vertical => binary32::magnitude(self.y@[ty]) as u32,
            RadiusBasis::Diagonal => self.diagonal@[ty * cols + tx],
        }
    }
}

/// The number of tiles that cover an extent.
pub fn tile_count(extent: u32, texel: u32) -> (r: u32)
    requires
        texel > 0,
    ensures
        r == tiles(extent as int, texel as int),
{
    let whole: u32 = extent / texel;
    let rest: u32 = extent % texel;
    proof {
        let e = extent as int;
        let t = texel as int;
        vstd::arithmetic::div_mod::lemma_fundamental_div_mod(e, t);
        vstd::arithmetic::div_mod::lemma_mod_bound(e, t);
        if e % t == 0 {
            vstd::arithmetic::div_mod::lemma_fundamental_div_mod_converse(
                e + t - 1,
                t,
                e / t,
                t - 1,
            );
        } else {
            assert(e + t - 1 == t * (e / t + 1) + (e % t - 1)) by (nonlinear_arith)
                requires
                    e == t * (e / t) + e % t,
            ;
            vstd::arithmetic::div_mod::lemma_fundamental_div_mod_converse(
                e + t - 1,
                t,
                e / t + 1,
                e % t - 1,
            );
            assert(whole < 0xffff_ffff) by (nonlinear_arith)
                requires
                    e == t * (e / t) + e % t,
                    e % t > 0,
                    e % t < t,
                    e <= 0xffff_ffff,
                    whole == e / t,
                    t >= 1,
            ;
        }
    }
    if rest == 0 {
        whole
    } else {
        whole + 1
    }
}

/// The shading rate at a normalized radius, given by its bit pattern (0 at
/// the optical centre).
pub fn tile_rate(r: u32, falloff: &FalloffParams) -> (rate: ShadingRate)
    ensures
        rate == rate_at(r, *falloff),
{
    let code: u8 = if binary32::less(r, falloff.inner_radius) {
        falloff.rate_inner
    } else if binary32::less(r, falloff.mid_radius) {
        falloff.rate_mid
    } else if binary32::less(r, falloff.outer_radius) {
        falloff.rate_outer
    } else {
        falloff.rate_edge
    };
    match RateCode::from_u8(code) {
        Some(c) => c.to_rate(),
        None => RateCode::R1x1.to_rate(),
    }
}

/// A number that scales or divides: itself where it is positive, else 1.0.
pub open spec fn positive_or_one(bits: u32) -> u32 {
    if binary32::lt(binary32::ZERO, bits) {
        bits
    } else {
        binary32::ONE
    }
}

/// What the offsets of tiles are divided by. The horizontal divisor is `x`;
/// the vertical one is the product of the two numbers of `y`.
#[derive(Clone, Copy, Debug)]
pub struct Normalization {
    pub x: u32,
    pub y: (u32, u32),
}

/// The divisors for a half field of view of `norm_x` by `norm_y` pixels.
pub open spec fn normalized(norm_x: u32, norm_y: u32, falloff: FalloffParams) -> Normalization {
    Normalization {
        x: positive_or_one(norm_x),
        y: if binary32::lt(binary32::ZERO, norm_y) {
            (norm_y, positive_or_one(falloff.vertical_scale))
        } else {
            (binary32::ONE, binary32::ONE)
        },
    }
}

/// The divisors for a half field of view of `norm_x` by `norm_y` pixels. A
/// half field of view that is not positive counts as one pixel, and a vertical
/// scale that is not positive counts as 1.0.
pub fn normalization(norm_x: u32, norm_y: u32, falloff: &FalloffParams) -> (r: Normalization)
    ensures
        r == normalized(norm_x, norm_y, *falloff),
{
    let x: u32 = if binary32::less(binary32::ZERO, norm_x) {
        norm_x
    } else {
        binary32::ONE
    };
    let scale: u32 = if binary32::less(binary32::ZERO, falloff.vertical_scale) {
        falloff.vertical_scale
    } else {
        binary32::ONE
    };
    if binary32::less(binary32::ZERO, norm_y) {
        Normalization { x, y: (norm_y, scale) }
    } else {
        Normalization { x, y: (binary32::ONE, binary32::ONE) }
    }
}

/// Whether a map is that of an extent: its tiles cover the extent, and each
/// holds the rate at its distance from the optical centre.
pub open spec fn map_of(
    map: FoveationMap,
    rect_w: u32,
    rect_h: u32,
    texel_size: u32,
    distances: TileDistances,
    falloff: FalloffParams,
) -> bool {
    &&& map.texel_size == tile_side(texel_size)
    &&& map.cols == tiles(rect_w as int, map.texel_size as int)
    &&& map.rows == tiles(rect_h as int, map.texel_size as int)
    &&& forall|tx: int, ty: int|
        0 <= tx < map.cols && 0 <= ty < map.rows ==> #[trigger] map.at(tx, ty) == rate_at(
            distances.radius(
                RadiusBasis::of_number(falloff.radius_basis),
                map.cols as int,
                tx,
                ty,
            ),
            falloff,
        ).byte()
}

/// The tiles of an extent cover it, and one tile fewer would not.
pub proof fn tiles_cover(extent: u32, texel: u32)
    requires
        texel > 0,
    ensures
        0 <= tiles(extent as int, texel as int) <= extent,
        tiles(extent as int, texel as int) * texel >= extent,
        extent > 0 ==> (tiles(extent as int, texel as int) - 1) * texel < extent,
{
    let e = extent as int;
    let t = texel as int;
    let q = tiles(e, t);
    vstd::arithmetic::div_mod::lemma_fundamental_div_mod(e + t - 1, t);
    vstd::arithmetic::div_mod::lemma_mod_bound(e + t - 1, t);
    let rest = (e + t - 1) % t;
    assert(q * t >= e && q >= 0 && q <= e && (e > 0 ==> (q - 1) * t < e)) by (nonlinear_arith)
        requires
            e + t - 1 == t * q + rest,
            0 <= rest < t,
            t > 0,
            e >= 0,
    ;
}

impl FoveationMap {
    /// The map holds one byte for each of its tiles.
    pub open spec fn wf(self) -> bool {
        self.bytes@.len() == self.cols * self.rows
    }

    /// The byte of the tile in column `tx` and row `ty`.
    pub open spec fn at(self, tx: int, ty: int) -> u8 {
        self.bytes@[ty * self.cols + tx]
    }

    /// The columns, rows and tile side of the map of an extent.
    pub fn grid(rect_w: u32, rect_h: u32, texel_size: u32) -> (r: (u32, u32, u32))
        ensures
            r.2 == tile_side(texel_size),
            r.0 == tiles(rect_w as int, r.2 as int),
            r.1 == tiles(rect_h as int, r.2 as int),
    {
        let texel: u32 = if texel_size == 0 {
            1
        } else {
            texel_size
        };
        (tile_count(rect_w, texel), tile_count(rect_h, texel), texel)
    }

    /// The map of an eye rectangle.
    ///
    /// * `rect_w`, `rect_h`: the extent that the eye renders, in pixels.
    /// * `texel_size`: the side of a tile in pixels; 0 counts as 1.
    /// * `distances`: how far each tile lies from the optical centre.
    /// * `falloff`: the bands, their rates and the axis of the radii.
    pub fn generate(
        rect_w: u32,
        rect_h: u32,
        texel_size: u32,
        distances: &TileDistances,
        falloff: &FalloffParams,
    ) -> (r: Self)
        requires
            distances.cover(
                tiles(rect_w as int, tile_side(texel_size) as int),
                tiles(rect_h as int, tile_side(texel_size) as int),
            ),
        ensures
            r.wf(),
            map_of(r, rect_w, rect_h, texel_size, *distances, *falloff),
    {
        let (cols, rows, texel) = Self::grid(rect_w, rect_h, texel_size);
        let basis: RadiusBasis = RadiusBasis::from_u8(falloff.radius_basis);
        let mut bytes: Vec<u8> = Vec::new();
        let mut ty: u32 = 0;
        while ty < rows
            invariant
                ty <= rows,
                basis == RadiusBasis::of_number(falloff.radius_basis),
                distances.cover(cols as int, rows as int),
                bytes@.len() == ty * cols,
                forall|x: int, y: int|
                    0 <= x < cols && 0 <= y < ty ==> #[trigger] bytes@[y * cols + x] == rate_at(
                        distances.radius(basis, cols as int, x, y),
                        *falloff,
                    ).byte(),
            decreases rows - ty,
        {
            let mut tx: u32 = 0;
            while tx < cols
                invariant
                    tx <= cols,
                    ty < rows,
                    basis == RadiusBasis::of_number(falloff.radius_basis),
                    distances.cover(cols as int, rows as int),
                    bytes@.len() == ty * cols + tx,
                    forall|x: int, y: int|
                        0 <= x < cols && 0 <= y && (y < ty || y == ty && x < tx)
                            ==> #[trigger] bytes@[y * cols + x] == rate_at(
                            distances.radius(basis, cols as int, x, y),
                            *falloff,
                        ).byte(),
                decreases cols - tx,
            {
                let at: usize = bytes.len();
                proof {
                    row_major(cols as int, rows as int, tx as int, ty as int);
                }
                let r: u32 = match basis {
                    RadiusBasis::Horizontal => binary32::abs(distances.x[tx as usize]),
                    RadiusBasis::Vertical => binary32::abs(distances.y[ty as usize]),
                    RadiusBasis::Diagonal => distances.diagonal[at],
                };
                let ghost before = bytes@;
                bytes.push(tile_rate(r, falloff).encode());
                proof {
                    assert forall|x: int, y: int|
                        0 <= x < cols && 0 <= y && (y < ty || y == ty && x < tx + 1) implies #[trigger] bytes@[y
                        * cols + x] == rate_at(
                        distances.radius(basis, cols as int, x, y),
                        *falloff,
                    ).byte() by {
                        if y < ty {
                            row_before(cols as int, x, y, ty as int);
                            assert(bytes@[y * cols + x] == before[y * cols + x]);
                        } else if x < tx {
                            assert(bytes@[y * cols + x] == before[y * cols + x]);
                        }
                    }
                }
                tx = tx + 1;
            }
            assert((ty + 1) * cols == ty * cols + cols) by (nonlinear_arith);
            ty = ty + 1;
        }
        assert(rows * cols == cols * rows) by (nonlinear_arith);
        FoveationMap { cols, rows, texel_size: texel, bytes }
    }

    /// The map that shades every tile at full rate.
    pub fn uniform(cols: u32, rows: u32, texel_size: u32) -> (r: Self)
        requires
            cols * rows <= u32::MAX,
        ensures
            r.wf(),
            r.cols == cols,
            r.rows == rows,
            r.texel_size == texel_size,
            forall|i: int| 0 <= i < r.bytes@.len() ==> #[trigger] r.bytes@[i] == 0,
            forall|i: int|
                0 <= i < r.bytes@.len() ==> ShadingRate::of_byte(#[trigger] r.bytes@[i]) == (
                ShadingRate { width: 1, height: 1 }),
    {
        let n: u32 = cols * rows;
        let mut bytes: Vec<u8> = Vec::new();
        let mut i: u32 = 0;
        while i < n
            invariant
                i <= n,
                bytes@.len() == i,
                forall|k: int| 0 <= k < i ==> #[trigger] bytes@[k] == 0,
            decreases n - i,
        {
            bytes.push(0);
            i = i + 1;
        }
        FoveationMap { cols, rows, texel_size, bytes }
    }

    /// The number of tiles.
    pub fn len(&self) -> (r: usize)
        ensures
            r == self.bytes@.len(),
    {
        self.bytes.len()
    }

    pub fn is_empty(&self) -> (r: bool)
        ensures
            r == (self.bytes@.len() == 0),
    {
        self.bytes.len() == 0
    }
}

/// The false colour (red, green, blue) of a rate by the pixels it covers:
/// green for 1, over yellow for 4, to red for 16 and more.
pub open spec fn false_color(coverage: int) -> (u8, u8, u8) {
    if coverage == 1 {
        (0, 255, 0)
    } else if coverage == 2 {
        (160, 255, 0)
    } else if coverage == 4 {
        (255, 255, 0)
    } else if coverage == 8 {
        (255, 140, 0)
    } else {
        (255, 0, 0)
    }
}

/// The false colour of an attachment byte.
pub open spec fn byte_color(byte: u8) -> (u8, u8, u8) {
    false_color(pixels(ShadingRate::of_byte(byte)))
}

/// The three channels of each tile in turn.
pub open spec fn false_color_image(bytes: Seq<u8>) -> Seq<u8> {
    Seq::new(
        3 * bytes.len(),
        |i: int|
            {
                let c = byte_color(bytes[i / 3]);
                if i % 3 == 0 {
                    c.0
                } else if i % 3 == 1 {
                    c.1
                } else {
                    c.2
                }
            },
    )
}

/// A map as a PPM image: "P6", the extent, the depth 255, then the tiles.
pub open spec fn ppm(map: FoveationMap) -> Seq<u8> {
    seq![80u8, 54u8, 10u8] + crate::text::decimal_ascii(map.cols as nat) + seq![32u8]
        + crate::text::decimal_ascii(map.rows as nat) + seq![10u8, 50u8, 53u8, 53u8, 10u8]
        + false_color_image(map.bytes@)
}

/// The map as a PPM image, false-coloured by rate, so that the pattern can be
/// looked at and held against the optical centre.
pub fn foveation_ppm(map: &FoveationMap) -> (r: Vec<u8>)
    ensures
        r@ == ppm(*map),
{
    let mut data: Vec<u8> = vec![80u8, 54u8, 10u8];
    let mut cols: Vec<u8> = decimal_bytes(map.cols);
    data.append(&mut cols);
    data.push(32);
    let mut rows: Vec<u8> = decimal_bytes(map.rows);
    data.append(&mut rows);
    let mut depth: Vec<u8> = vec![10u8, 50u8, 53u8, 53u8, 10u8];
    data.append(&mut depth);
    let ghost header = data@;
    let mut i: usize = 0;
    while i < map.bytes.len()
        invariant
            i <= map.bytes@.len(),
            data@ == header + false_color_image(map.bytes@.take(i as int)),
        decreases map.bytes@.len() - i,
    {
        let byte: u8 = map.bytes[i];
        let (r, g, b): (u8, u8, u8) = match ShadingRate::decode(byte).coverage() {
            1 => (0u8, 255u8, 0u8),
            2 => (160u8, 255u8, 0u8),
            4 => (255u8, 255u8, 0u8),
            8 => (255u8, 140u8, 0u8),
            _ => (255u8, 0u8, 0u8),
        };
        let ghost before = false_color_image(map.bytes@.take(i as int));
        data.push(r);
        data.push(g);
        data.push(b);
        proof {
            let after = false_color_image(map.bytes@.take(i + 1));
            assert((r, g, b) == byte_color(byte));
            assert(after =~= before + seq![r, g, b]);
            assert(data@ =~= header + after);
        }
        i = i + 1;
    }
    proof {
        assert(map.bytes@.take(map.bytes@.len() as int) =~= map.bytes@);
        assert(header =~= seq![80u8, 54u8, 10u8] + crate::text::decimal_ascii(map.cols as nat)
            + seq![32u8] + crate::text::decimal_ascii(map.rows as nat)
            + seq![10u8, 50u8, 53u8, 53u8, 10u8]);
    }
    data
}

/// The file that the image of an eye is written to.
pub open spec fn ppm_path(dir: Seq<char>, eye: u32) -> Seq<char> {
    dir + "/foveation-eye"@ + crate::text::decimal(eye as nat) + ".ppm"@
}

/// The file that the image of an eye is written to.
pub fn foveation_ppm_path(dir: &str, eye: u32) -> (r: String)
    ensures
        r@ == ppm_path(dir@, eye),
{
    let number: String = decimal_string(eye as u64);
    let mut path: String = dir.to_owned();
    path.append("/foveation-eye");
    path.append(number.as_str());
    path.append(".ppm");
    path
}

/// A tile of the grid has a place among its bytes.
proof fn row_major(cols: int, rows: int, tx: int, ty: int)
    requires
        0 <= tx < cols,
        0 <= ty < rows,
    ensures
        0 <= ty * cols + tx < cols * rows,
{
    assert(0 <= ty * cols + tx < cols * rows) by (nonlinear_arith)
        requires
            0 <= tx < cols,
            0 <= ty < rows,
    ;
}

/// A tile of an earlier row lies before the row.
proof fn row_before(cols: int, x: int, y: int, ty: int)
    requires
        0 <= x < cols,
        0 <= y < ty,
    ensures
        0 <= y * cols + x < ty * cols,
{
    assert(0 <= y * cols + x < ty * cols) by (nonlinear_arith)
        requires
            0 <= x < cols,
            0 <= y < ty,
    ;
}

/// The map is full rate at the optical centre and coarser towards the edge:
/// where no band is finer than the band inside it, a tile that is at least as
/// far out as another is shaded at least as coarsely.
pub proof fn coarser_outwards(r: u32, s: u32, falloff: FalloffParams)
    requires
        !binary32::is_nan(r),
        !binary32::is_nan(s),
        !binary32::lt(s, r),
        pixels(stored_rate(falloff.rate_inner)) <= pixels(stored_rate(falloff.rate_mid)),
        pixels(stored_rate(falloff.rate_mid)) <= pixels(stored_rate(falloff.rate_outer)),
        pixels(stored_rate(falloff.rate_outer)) <= pixels(stored_rate(falloff.rate_edge)),
    ensures
        pixels(rate_at(r, falloff)) <= pixels(rate_at(s, falloff)),
{
}

/// The pixels that a fragment of a rate covers.
pub open spec fn pixels(rate: ShadingRate) -> int {
    rate.width * rate.height
}

/// Every byte of a map decodes to the rate that was chosen for its tile.
pub proof fn bytes_decode_to_rates(r: u32, falloff: FalloffParams)
    ensures
        0 <= rate_at(r, falloff).byte() < 16,
        ShadingRate::of_byte(rate_at(r, falloff).byte() as u8) == rate_at(r, falloff),
{
    crate::wire::codes_are_encodable(RateCode::R1x1);
    match RateCode::of_number(band_code(r, falloff)) {
        Some(c) => crate::wire::codes_are_encodable(c),
        None => {},
    }
}

/// An extent and a tile that grow by the same factor keep their tile count.
proof fn tiles_scale(extent: int, texel: int, k: int)
    requires
        extent >= 0,
        texel > 0,
        k > 0,
    ensures
        tiles(k * extent, k * texel) == tiles(extent, texel),
{
    let q = tiles(extent, texel);
    let rest = (extent + texel - 1) % texel;
    vstd::arithmetic::div_mod::lemma_fundamental_div_mod(extent + texel - 1, texel);
    vstd::arithmetic::div_mod::lemma_mod_bound(extent + texel - 1, texel);
    assert(k * extent + k * texel - 1 == q * (k * texel) + (k * rest + k - 1)) by (nonlinear_arith)
        requires
            extent + texel - 1 == texel * q + rest,
    ;
    assert(0 <= k * rest + k - 1 < k * texel) by (nonlinear_arith)
        requires
            0 <= rest < texel,
            k > 0,
    ;
    vstd::arithmetic::div_mod::lemma_fundamental_div_mod_converse(
        k * extent + k * texel - 1,
        k * texel,
        q,
        k * rest + k - 1,
    );
}

/// The pattern does not depend on the resolution: an extent and a tile that are
/// `k` times as large give the same map, where the tiles lie as far from the
/// optical centre in fractions of the field of view. Only the side of its tiles
/// is `k` times as large.
pub proof fn pattern_keeps_at_any_resolution(
    map: FoveationMap,
    scaled: FoveationMap,
    rect: (u32, u32),
    texel_size: u32,
    scaled_rect: (u32, u32),
    scaled_texel_size: u32,
    k: int,
    distances: TileDistances,
    falloff: FalloffParams,
)
    requires
        k > 0,
        texel_size >= 1,
        scaled_rect.0 == k * rect.0,
        scaled_rect.1 == k * rect.1,
        scaled_texel_size == k * texel_size,
        map.wf(),
        scaled.wf(),
        map_of(map, rect.0, rect.1, texel_size, distances, falloff),
        map_of(scaled, scaled_rect.0, scaled_rect.1, scaled_texel_size, distances, falloff),
    ensures
        scaled.cols == map.cols,
        scaled.rows == map.rows,
        scaled.bytes@ == map.bytes@,
        scaled.texel_size == k * map.texel_size,
{
    assert(k * texel_size >= 1) by (nonlinear_arith)
        requires
            k > 0,
            texel_size >= 1,
    ;
    tiles_scale(rect.0 as int, texel_size as int, k);
    tiles_scale(rect.1 as int, texel_size as int, k);
    let cols = map.cols as int;
    let rows = map.rows as int;
    assert forall|i: int| 0 <= i < map.bytes@.len() implies scaled.bytes@[i] == map.bytes@[i] by {
        assert(cols > 0) by (nonlinear_arith)
            requires
                0 <= i < cols * rows,
                cols >= 0,
                rows >= 0,
        ;
        let x = i % cols;
        let y = i / cols;
        vstd::arithmetic::div_mod::lemma_fundamental_div_mod(i, cols);
        vstd::arithmetic::div_mod::lemma_mod_bound(i, cols);
        assert(0 <= y < rows && y * cols + x == i) by (nonlinear_arith)
            requires
                i == cols * y + x,
                0 <= x < cols,
                0 <= i < cols * rows,
        ;
        assert(map.at(x, y) == scaled.at(x, y));
    }
    assert(scaled.bytes@ =~= map.bytes@);
}

/// In the map of an extent, a tile that lies no nearer to the optical centre
/// than another is shaded no finer, provided that the rates of the bands are
/// coarser outwards; and a tile within the inner radius has the inner rate.
pub proof fn map_coarsens_outwards(
    map: FoveationMap,
    rect_w: u32,
    rect_h: u32,
    texel_size: u32,
    distances: TileDistances,
    falloff: FalloffParams,
    near: (int, int),
    far: (int, int),
)
    requires
        map_of(map, rect_w, rect_h, texel_size, distances, falloff),
        0 <= near.0 < map.cols && 0 <= near.1 < map.rows,
        0 <= far.0 < map.cols && 0 <= far.1 < map.rows,
        pixels(stored_rate(falloff.rate_inner)) <= pixels(stored_rate(falloff.rate_mid)),
        pixels(stored_rate(falloff.rate_mid)) <= pixels(stored_rate(falloff.rate_outer)),
        pixels(stored_rate(falloff.rate_outer)) <= pixels(stored_rate(falloff.rate_edge)),
    ensures
        ({
            let basis = RadiusBasis::of_number(falloff.radius_basis);
            let r = distances.radius(basis, map.cols as int, near.0, near.1);
            let s = distances.radius(basis, map.cols as int, far.0, far.1);
            &&& !binary32::is_nan(r) && !binary32::is_nan(s) && !binary32::lt(s, r) ==> pixels(
                ShadingRate::of_byte(map.at(near.0, near.1)),
            ) <= pixels(ShadingRate::of_byte(map.at(far.0, far.1)))
            &&& binary32::lt(r, falloff.inner_radius) ==> ShadingRate::of_byte(
                map.at(near.0, near.1),
            ) == stored_rate(falloff.rate_inner)
        }),
{
    let basis = RadiusBasis::of_number(falloff.radius_basis);
    let r = distances.radius(basis, map.cols as int, near.0, near.1);
    let s = distances.radius(basis, map.cols as int, far.0, far.1);
    bytes_decode_to_rates(r, falloff);
    bytes_decode_to_rates(s, falloff);
    assert(map.at(near.0, near.1) == rate_at(r, falloff).byte());
    assert(map.at(far.0, far.1) == rate_at(s, falloff).byte());
    if !binary32::is_nan(r) && !binary32::is_nan(s) && !binary32::lt(s, r) {
        coarser_outwards(r, s, falloff);
    }
}

/// Each band is the one between its configured radii: within the inner radius
/// the inner rate, from there up to the middle radius the middle rate, from
/// there up to the outer radius the outer rate, and the edge rate beyond all
/// three.
pub proof fn bands_lie_between_their_radii(r: u32, f: FalloffParams)
    ensures
        binary32::lt(r, f.inner_radius) ==> rate_at(r, f) == stored_rate(f.rate_inner),
        !binary32::lt(r, f.inner_radius) && binary32::lt(r, f.mid_radius) ==> rate_at(r, f)
            == stored_rate(f.rate_mid),
        !binary32::lt(r, f.inner_radius) && !binary32::lt(r, f.mid_radius) && binary32::lt(
            r,
            f.outer_radius,
        ) ==> rate_at(r, f) == stored_rate(f.rate_outer),
        !binary32::lt(r, f.inner_radius) && !binary32::lt(r, f.mid_radius) && !binary32::lt(
            r,
            f.outer_radius,
        ) ==> rate_at(r, f) == stored_rate(f.rate_edge),
{
}

/// The rate of a stored number: 1x1, 1x2, 2x1, 2x2, 2x4, 4x2 and 4x4 in turn,
/// and 1x1 for every number beyond.
pub proof fn stored_numbers_stand_for_rates(n: u8)
    ensures
        n == 0 || n > 6 ==> stored_rate(n) == (ShadingRate { width: 1, height: 1 }),
        n == 1 ==> stored_rate(n) == (ShadingRate { width: 1, height: 2 }),
        n == 2 ==> stored_rate(n) == (ShadingRate { width: 2, height: 1 }),
        n == 3 ==> stored_rate(n) == (ShadingRate { width: 2, height: 2 }),
        n == 4 ==> stored_rate(n) == (ShadingRate { width: 2, height: 4 }),
        n == 5 ==> stored_rate(n) == (ShadingRate { width: 4, height: 2 }),
        n == 6 ==> stored_rate(n) == (ShadingRate { width: 4, height: 4 }),
{
}

/// Falloffs that are equal shade alike at every radius, so a map that was made
/// for one serves the other.
pub proof fn equal_falloffs_shade_alike(a: FalloffParams, b: FalloffParams, r: u32)
    requires
        a.same(b),
    ensures
        rate_at(r, a) == rate_at(r, b),
{
    bands_lie_between_their_radii(r, a);
    bands_lie_between_their_radii(r, b);
    crate::wire::equal_falloffs_agree_in_each_field(a, b);
}

/// The byte of each tile stands for the rate of the band in which the tile's
/// radius lies. The radius is the absolute horizontal offset of the tile's
/// column, the absolute vertical offset of its row, or its own distance, as the
/// falloff's axis says.
pub proof fn tiles_hold_the_rates_of_their_bands(
    map: FoveationMap,
    rect_w: u32,
    rect_h: u32,
    texel_size: u32,
    d: TileDistances,
    f: FalloffParams,
    tx: int,
    ty: int,
    r: u32,
)
    requires
        map_of(map, rect_w, rect_h, texel_size, d, f),
        0 <= tx < map.cols,
        0 <= ty < map.rows,
        f.radius_basis == 0 ==> r == binary32::magnitude(d.x@[tx]),
        f.radius_basis == 1 ==> r == binary32::magnitude(d.y@[ty]),
        f.radius_basis >= 2 ==> r == d.diagonal@[ty * map.cols + tx],
    ensures
        ({
            let rate = ShadingRate::of_byte(map.bytes@[ty * map.cols + tx]);
            &&& binary32::lt(r, f.inner_radius) ==> rate == stored_rate(f.rate_inner)
            &&& !binary32::lt(r, f.inner_radius) && binary32::lt(r, f.mid_radius) ==> rate
                == stored_rate(f.rate_mid)
            &&& !binary32::lt(r, f.inner_radius) && !binary32::lt(r, f.mid_radius) && binary32::lt(
                r,
                f.outer_radius,
            ) ==> rate == stored_rate(f.rate_outer)
            &&& !binary32::lt(r, f.inner_radius) && !binary32::lt(r, f.mid_radius) && !binary32::lt(
                r,
                f.outer_radius,
            ) ==> rate == stored_rate(f.rate_edge)
        }),
        map.bytes@[ty * map.cols + tx] < 16,
{
    bytes_decode_to_rates(r, f);
    bands_lie_between_their_radii(r, f);
    assert(map.at(tx, ty) == rate_at(r, f).byte());
}

/// The tiles of a map are as large as asked for, at least one pixel, and there
/// are as many as it takes to cover the extent and no more.
pub proof fn map_covers_its_extent(
    map: FoveationMap,
    rect_w: u32,
    rect_h: u32,
    texel_size: u32,
    d: TileDistances,
    f: FalloffParams,
)
    requires
        map_of(map, rect_w, rect_h, texel_size, d, f),
    ensures
        texel_size > 0 ==> map.texel_size == texel_size,
        texel_size == 0 ==> map.texel_size == 1,
        map.cols * map.texel_size >= rect_w,
        map.rows * map.texel_size >= rect_h,
        rect_w > 0 ==> (map.cols - 1) * map.texel_size < rect_w,
        rect_h > 0 ==> (map.rows - 1) * map.texel_size < rect_h,
        rect_w == 0 ==> map.cols == 0,
        rect_h == 0 ==> map.rows == 0,
{
    tiles_cover(rect_w, map.texel_size);
    tiles_cover(rect_h, map.texel_size);
}

/// Along the horizontal axis all tiles of a column are shaded alike, along the
/// vertical axis all tiles of a row.
pub proof fn rings_are_stripes_along_one_axis(
    map: FoveationMap,
    rect_w: u32,
    rect_h: u32,
    texel_size: u32,
    d: TileDistances,
    f: FalloffParams,
    a: (int, int),
    b: (int, int),
)
    requires
        map_of(map, rect_w, rect_h, texel_size, d, f),
        0 <= a.0 < map.cols && 0 <= a.1 < map.rows,
        0 <= b.0 < map.cols && 0 <= b.1 < map.rows,
        f.radius_basis == 0 && a.0 == b.0 || f.radius_basis == 1 && a.1 == b.1,
    ensures
        map.bytes@[a.1 * map.cols + a.0] == map.bytes@[b.1 * map.cols + b.0],
{
    assert(map.at(a.0, a.1) == map.at(b.0, b.1));
}

/// A divisor that is positive is taken as it is; any other counts as 1.0. The
/// vertical scale belongs to the vertical divisor alone, and only where the half
/// field of view is positive.
pub proof fn divisors_are_positive_or_one(norm_x: u32, norm_y: u32, f: FalloffParams)
    ensures
        binary32::lt(binary32::ZERO, norm_x) ==> normalized(norm_x, norm_y, f).x == norm_x,
        !binary32::lt(binary32::ZERO, norm_x) ==> normalized(norm_x, norm_y, f).x
            == binary32::ONE,
        binary32::lt(binary32::ZERO, norm_y) ==> normalized(norm_x, norm_y, f).y.0 == norm_y,
        binary32::lt(binary32::ZERO, norm_y) && binary32::lt(binary32::ZERO, f.vertical_scale)
            ==> normalized(norm_x, norm_y, f).y.1 == f.vertical_scale,
        !binary32::lt(binary32::ZERO, f.vertical_scale) ==> normalized(norm_x, norm_y, f).y.1
            == binary32::ONE,
        !binary32::lt(binary32::ZERO, norm_y) ==> normalized(norm_x, norm_y, f).y == (
            binary32::ONE,
            binary32::ONE,
        ),
        binary32::lt(binary32::ZERO, normalized(norm_x, norm_y, f).x),
        binary32::lt(binary32::ZERO, normalized(norm_x, norm_y, f).y.0),
        binary32::lt(binary32::ZERO, normalized(norm_x, norm_y, f).y.1),
{
    binary32::zero_is_below_one();
}

/// A coarser rate is redder and a finer one greener: green falls and red grows
/// with the pixels that a fragment covers, and blue is never used.
pub proof fn coarser_is_redder(a: u8, b: u8)
    requires
        pixels(ShadingRate::of_byte(a)) <= 16,
        pixels(ShadingRate::of_byte(b)) <= 16,
    ensures
        byte_color(a).2 == 0,
        pixels(ShadingRate::of_byte(a)) == 1 ==> byte_color(a) == (0u8, 255u8, 0u8),
        pixels(ShadingRate::of_byte(a)) == 16 ==> byte_color(a) == (255u8, 0u8, 0u8),
        pixels(ShadingRate::of_byte(a)) < pixels(ShadingRate::of_byte(b)) ==> byte_color(a).0
            <= byte_color(b).0 && byte_color(a).1 >= byte_color(b).1 && byte_color(a)
            != byte_color(b),
        pixels(ShadingRate::of_byte(a)) == pixels(ShadingRate::of_byte(b)) ==> byte_color(a)
            == byte_color(b),
{
    pixels_are_a_power_of_two(ShadingRate::of_byte(a));
    pixels_are_a_power_of_two(ShadingRate::of_byte(b));
}

/// A fragment of up to 16 pixels has 1, 2, 4, 8 or 16.
proof fn pixels_are_a_power_of_two(r: ShadingRate)
    requires
        r.encodable(),
        pixels(r) <= 16,
    ensures
        pixels(r) == 1 || pixels(r) == 2 || pixels(r) == 4 || pixels(r) == 8 || pixels(r) == 16,
{
    let w = r.width as int;
    let h = r.height as int;
    assert(w * h == if w == 1 {
        h
    } else if w == 2 {
        2 * h
    } else if w == 4 {
        4 * h
    } else {
        8 * h
    }) by (nonlinear_arith)
        requires
            w == 1 || w == 2 || w == 4 || w == 8,
    ;
}

/// The image of a map starts as a binary PPM does, and ends in the three
/// channels of each tile, red, green and blue, tile by tile.
pub proof fn image_shows_each_tile(map: FoveationMap, i: int)
    requires
        0 <= i < map.bytes@.len(),
    ensures
        ({
            let image = ppm(map);
            let start = image.len() - 3 * map.bytes@.len();
            let pixel = start + 3 * i;
            &&& image[0] == 0x50 && image[1] == 0x36 && image[2] == 0x0a
            &&& start >= 9
            &&& image[start - 1] == 0x0a
            &&& image[start - 2] == 0x35 && image[start - 3] == 0x35 && image[start - 4] == 0x32
            &&& image[pixel] == byte_color(map.bytes@[i]).0
            &&& image[pixel + 1] == byte_color(map.bytes@[i]).1
            &&& image[pixel + 2] == byte_color(map.bytes@[i]).2
        }),
{
    let head = seq![80u8, 54u8, 10u8] + crate::text::decimal_ascii(map.cols as nat) + seq![32u8]
        + crate::text::decimal_ascii(map.rows as nat);
    let depth = seq![10u8, 50u8, 53u8, 53u8, 10u8];
    let body = false_color_image(map.bytes@);
    assert(ppm(map) == head + depth + body);
    assert(ppm(map).len() == head.len() + 5 + body.len());
    assert((3 * i) / 3 == i && (3 * i) % 3 == 0);
    assert((3 * i + 1) / 3 == i && (3 * i + 1) % 3 == 1);
    assert((3 * i + 2) / 3 == i && (3 * i + 2) % 3 == 2);
}

/// Each eye's image is written to a file of its own, in the directory given.
pub proof fn eyes_have_files_of_their_own(dir: Seq<char>, a: u32, b: u32)
    ensures
        ppm_path(dir, a) == dir + "/foveation-eye"@ + crate::text::decimal(a as nat) + ".ppm"@,
        ppm_path(dir, a) == ppm_path(dir, b) ==> a == b,
{
    reveal_strlit("/foveation-eye");
    reveal_strlit(".ppm");
    let x = ppm_path(dir, a);
    let y = ppm_path(dir, b);
    let n = dir.len() + 14;
    assert(x.subrange(n as int, x.len() - 4) =~= crate::text::decimal(a as nat));
    assert(y.subrange(n as int, y.len() - 4) =~= crate::text::decimal(b as nat));
    crate::text::decimal_reads_back(a as nat);
    crate::text::decimal_reads_back(b as nat);
}

} // verus!
