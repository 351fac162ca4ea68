//! The plain records that the two layers exchange.
//!
//! Every record carries a magic number and a layout version, so that a
//! consumer can turn down a producer that does not match. Real numbers are
//! held as their binary32 bit patterns.

use crate::binary32;
use crate::rate::ShadingRate;
use crate::text::same_text;
use vstd::prelude::*;

verus! {

/// Marks a `FoveationDesc` ("FFR1" in little-endian order).
pub const FFR_SHARED_MAGIC: u32 = 0x3152_4646;

/// The layout version; it grows whenever the layout changes.
pub const FFR_SHARED_VERSION: u32 = 2;

/// The pattern of 0.30.
pub const DEFAULT_INNER_RADIUS: u32 = 0x3e99_999a;

/// The pattern of 0.55.
pub const DEFAULT_MID_RADIUS: u32 = 0x3f0c_cccd;

/// The pattern of 0.80.
pub const DEFAULT_OUTER_RADIUS: u32 = 0x3f4c_cccd;

/// The compact identifier of a rate, as records store it.
#[derive(Clone, Copy, Debug, PartialEq, Eq, Structural)]
pub enum RateCode {
    R1x1,
    R1x2,
    R2x1,
    R2x2,
    R2x4,
    R4x2,
    R4x4,
}

impl RateCode {
    /// The number that records store for this rate.
    pub open spec fn number(self) -> u8 {
        match self {
            RateCode::R1x1 => 0,
            RateCode::R1x2 => 1,
            RateCode::R2x1 => 2,
            RateCode::R2x2 => 3,
            RateCode::R2x4 => 4,
            RateCode::R4x2 => 5,
            RateCode::R4x4 => 6,
        }
    }

    /// The name that a configuration file writes for this rate.
    pub open spec fn name(self) -> Seq<char> {
        match self {
            RateCode::R1x1 => "1x1"@,
            RateCode::R1x2 => "1x2"@,
            RateCode::R2x1 => "2x1"@,
            RateCode::R2x2 => "2x2"@,
            RateCode::R2x4 => "2x4"@,
            RateCode::R4x2 => "4x2"@,
            RateCode::R4x4 => "4x4"@,
        }
    }

    /// The rate that this code stands for.
    pub open spec fn rate(self) -> ShadingRate {
        match self {
            RateCode::R1x1 => ShadingRate { width: 1, height: 1 },
            RateCode::R1x2 => ShadingRate { width: 1, height: 2 },
            RateCode::R2x1 => ShadingRate { width: 2, height: 1 },
            RateCode::R2x2 => ShadingRate { width: 2, height: 2 },
            RateCode::R2x4 => ShadingRate { width: 2, height: 4 },
            RateCode::R4x2 => ShadingRate { width: 4, height: 2 },
            RateCode::R4x4 => ShadingRate { width: 4, height: 4 },
        }
    }

    /// The code of a number, if there is one.
    pub open spec fn of_number(v: u8) -> Option<RateCode> {
        if v == 0 {
            Some(RateCode::R1x1)
        } else if v == 1 {
            Some(RateCode::R1x2)
        } else if v == 2 {
            Some(RateCode::R2x1)
        } else if v == 3 {
            Some(RateCode::R2x2)
        } else if v == 4 {
            Some(RateCode::R2x4)
        } else if v == 5 {
            Some(RateCode::R4x2)
        } else if v == 6 {
            Some(RateCode::R4x4)
        } else {
            None
        }
    }

    /// The code of a name, if there is one.
    pub open spec fn of_name(s: Seq<char>) -> Option<RateCode> {
        if s == "1x1"@ {
            Some(RateCode::R1x1)
        } else if s == "1x2"@ {
            Some(RateCode::R1x2)
        } else if s == "2x1"@ {
            Some(RateCode::R2x1)
        } else if s == "2x2"@ {
            Some(RateCode::R2x2)
        } else if s == "2x4"@ {
            Some(RateCode::R2x4)
        } else if s == "4x2"@ {
            Some(RateCode::R4x2)
        } else if s == "4x4"@ {
            Some(RateCode::R4x4)
        } else {
            None
        }
    }

    /// The number that records store for this rate.
    pub fn code(self) -> (r: u8)
        ensures
            r == self.number(),
    {
        match self {
            RateCode::R1x1 => 0,
            RateCode::R1x2 => 1,
            RateCode::R2x1 => 2,
            RateCode::R2x2 => 3,
            RateCode::R2x4 => 4,
            RateCode::R4x2 => 5,
            RateCode::R4x4 => 6,
        }
    }

    pub fn to_rate(self) -> (r: ShadingRate)
        ensures
            r == self.rate(),
    {
        match self {
            RateCode::R1x1 => ShadingRate::RATE_1X1(),
            RateCode::R1x2 => ShadingRate::RATE_1X2(),
            RateCode::R2x1 => ShadingRate::RATE_2X1(),
            RateCode::R2x2 => ShadingRate::RATE_2X2(),
            RateCode::R2x4 => ShadingRate::RATE_2X4(),
            RateCode::R4x2 => ShadingRate::RATE_4X2(),
            RateCode::R4x4 => ShadingRate::RATE_4X4(),
        }
    }

    pub fn from_u8(v: u8) -> (r: Option<Self>)
        ensures
            r == Self::of_number(v),
    {
        match v {
            0 => Some(RateCode::R1x1),
            1 => Some(RateCode::R1x2),
            2 => Some(RateCode::R2x1),
            3 => Some(RateCode::R2x2),
            4 => Some(RateCode::R2x4),
            5 => Some(RateCode::R4x2),
            6 => Some(RateCode::R4x4),
            _ => None,
        }
    }

    /// Parse a configuration name such as `"2x2"`.
    pub fn parse(s: &str) -> (r: Option<Self>)
        ensures
            r == Self::of_name(s@),
    {
        if same_text(s, "1x1") {
            Some(RateCode::R1x1)
        } else if same_text(s, "1x2") {
            Some(RateCode::R1x2)
        } else if same_text(s, "2x1") {
            Some(RateCode::R2x1)
        } else if same_text(s, "2x2") {
            Some(RateCode::R2x2)
        } else if same_text(s, "2x4") {
            Some(RateCode::R2x4)
        } else if same_text(s, "4x2") {
            Some(RateCode::R4x2)
        } else if same_text(s, "4x4") {
            Some(RateCode::R4x4)
        } else {
            None
        }
    }
}

/// The number of a code leads back to the code, and only the numbers 0 to 6
/// lead to one.
pub proof fn number_roundtrip(c: RateCode, v: u8)
    ensures
        RateCode::of_number(c.number()) == Some(c),
        RateCode::of_number(v) is Some <==> v <= 6,
        RateCode::of_number(v) matches Some(d) ==> d.number() == v,
{
}

/// The name of a code leads back to the code, and a text that leads to a code
/// is the name of that code.
pub proof fn name_roundtrip(c: RateCode, s: Seq<char>)
    ensures
        RateCode::of_name(c.name()) == Some(c),
        RateCode::of_name(s) matches Some(d) ==> s == d.name(),
{
    reveal_strlit("1x1");
    reveal_strlit("1x2");
    reveal_strlit("2x1");
    reveal_strlit("2x2");
    reveal_strlit("2x4");
    reveal_strlit("4x2");
    reveal_strlit("4x4");
    assert("1x1"@[0] == '1' && "1x1"@[2] == '1');
    assert("1x2"@[0] == '1' && "1x2"@[2] == '2');
    assert("2x1"@[0] == '2' && "2x1"@[2] == '1');
    assert("2x2"@[0] == '2' && "2x2"@[2] == '2');
    assert("2x4"@[0] == '2' && "2x4"@[2] == '4');
    assert("4x2"@[0] == '4' && "4x2"@[2] == '2');
    assert("4x4"@[0] == '4' && "4x4"@[2] == '4');
}

/// Every code stands for a rate that survives the attachment byte.
pub proof fn codes_are_encodable(c: RateCode)
    ensures
        c.rate().encodable(),
        ShadingRate::of_byte(c.rate().byte() as u8) == c.rate(),
{
}

/// The axis that the ring radii are measured along.
#[derive(Clone, Copy, Debug, PartialEq, Eq, Structural)]
pub enum RadiusBasis {
    Horizontal,
    Vertical,
    Diagonal,
}

impl RadiusBasis {
    /// The number that records store for this axis.
    pub open spec fn number(self) -> u8 {
        match self {
            RadiusBasis::Horizontal => 0,
            RadiusBasis::Vertical => 1,
            RadiusBasis::Diagonal => 2,
        }
    }

    /// The axis of a number; a number without one means the diagonal.
    pub open spec fn of_number(v: u8) -> RadiusBasis {
        if v == 0 {
            RadiusBasis::Horizontal
        } else if v == 1 {
            RadiusBasis::Vertical
        } else {
            RadiusBasis::Diagonal
        }
    }

    /// The axis of a configuration name; any other name means the diagonal.
    pub open spec fn of_name(s: Seq<char>) -> RadiusBasis {
        if s == "horizontal"@ {
            RadiusBasis::Horizontal
        } else if s == "vertical"@ {
            RadiusBasis::Vertical
        } else {
            RadiusBasis::Diagonal
        }
    }

    /// The number that records store for this axis.
    pub fn code(self) -> (r: u8)
        ensures
            r == self.number(),
    {
        match self {
            RadiusBasis::Horizontal => 0,
            RadiusBasis::Vertical => 1,
            RadiusBasis::Diagonal => 2,
        }
    }

    /// The axis of a stored number.
    pub fn from_u8(v: u8) -> (r: Self)
        ensures
            r == Self::of_number(v),
    {
        match v {
            0 => RadiusBasis::Horizontal,
            1 => RadiusBasis::Vertical,
            _ => RadiusBasis::Diagonal,
        }
    }

    /// The axis of a configuration name.
    pub fn parse(s: &str) -> (r: Self)
        ensures
            r == Self::of_name(s@),
    {
        if same_text(s, "horizontal") {
            RadiusBasis::Horizontal
        } else if same_text(s, "vertical") {
            RadiusBasis::Vertical
        } else {
            RadiusBasis::Diagonal
        }
    }
}

/// Radial falloff. Radii are fractions of the half field of view along the
/// chosen axis, measured from the optical centre, so one set of values suits
/// any field of view and resolution and eyes that are not symmetric.
#[derive(Clone, Copy, Debug)]
pub struct FalloffParams {
    pub inner_radius: u32,
    pub mid_radius: u32,
    pub outer_radius: u32,
    /// The rate code number of each band.
    pub rate_inner: u8,
    pub rate_mid: u8,
    pub rate_outer: u8,
    pub rate_edge: u8,
    /// The number of a `RadiusBasis`.
    pub radius_basis: u8,
    pub _pad: [u8; 3],
    /// Scale of the vertical radius (panels are wider than tall).
    pub vertical_scale: u32,
}

impl FalloffParams {
    /// Whether two falloffs are equal as numbers, field by field.
    pub open spec fn same(self, other: FalloffParams) -> bool {
        &&& binary32::eq(self.inner_radius, other.inner_radius)
        &&& binary32::eq(self.mid_radius, other.mid_radius)
        &&& binary32::eq(self.outer_radius, other.outer_radius)
        &&& self.rate_inner == other.rate_inner
        &&& self.rate_mid == other.rate_mid
        &&& self.rate_outer == other.rate_outer
        &&& self.rate_edge == other.rate_edge
        &&& self.radius_basis == other.radius_basis
        &&& self._pad@ == other._pad@
        &&& binary32::eq(self.vertical_scale, other.vertical_scale)
    }

    /// The radii and the scale are numbers.
    pub open spec fn in_numbers(self) -> bool {
        &&& !binary32::is_nan(self.inner_radius)
        &&& !binary32::is_nan(self.mid_radius)
        &&& !binary32::is_nan(self.outer_radius)
        &&& !binary32::is_nan(self.vertical_scale)
    }

    /// The falloff that suits any headset: full rate within 0.30 of the half
    /// field of view, 2x2 up to 0.55, and 4x4 beyond.
    pub open spec fn standard(self) -> bool {
        &&& self.inner_radius == DEFAULT_INNER_RADIUS
        &&& self.mid_radius == DEFAULT_MID_RADIUS
        &&& self.outer_radius == DEFAULT_OUTER_RADIUS
        &&& self.rate_inner == RateCode::R1x1.number()
        &&& self.rate_mid == RateCode::R2x2.number()
        &&& self.rate_outer == RateCode::R4x4.number()
        &&& self.rate_edge == RateCode::R4x4.number()
        &&& self.radius_basis == RadiusBasis::Diagonal.number()
        &&& self._pad@ == seq![0u8, 0u8, 0u8]
        &&& self.vertical_scale == binary32::ONE
    }
}

impl PartialEq for FalloffParams {
    fn eq(&self, other: &Self) -> (r: bool) {
        let pad: bool = self._pad[0] == other._pad[0] && self._pad[1] == other._pad[1]
            && self._pad[2] == other._pad[2];
        assert(pad <==> self._pad@ == other._pad@) by {
            if pad {
                assert(self._pad@ =~= other._pad@);
            }
        }
        binary32::equal(self.inner_radius, other.inner_radius) && binary32::equal(
            self.mid_radius,
            other.mid_radius,
        ) && binary32::equal(self.outer_radius, other.outer_radius) && self.rate_inner
            == other.rate_inner && self.rate_mid == other.rate_mid && self.rate_outer
            == other.rate_outer && self.rate_edge == other.rate_edge && self.radius_basis
            == other.radius_basis && pad && binary32::equal(
            self.vertical_scale,
            other.vertical_scale,
        )
    }
}

impl vstd::std_specs::cmp::PartialEqSpecImpl for FalloffParams {
    open spec fn obeys_eq_spec() -> bool {
        true
    }

    open spec fn eq_spec(&self, other: &Self) -> bool {
        self.same(*other)
    }
}

impl Default for FalloffParams {
    fn default() -> (r: Self)
        ensures
            r.standard(),
    {
        Self {
            inner_radius: DEFAULT_INNER_RADIUS,
            mid_radius: DEFAULT_MID_RADIUS,
            outer_radius: DEFAULT_OUTER_RADIUS,
            rate_inner: RateCode::R1x1.code(),
            rate_mid: RateCode::R2x2.code(),
            rate_outer: RateCode::R4x4.code(),
            rate_edge: RateCode::R4x4.code(),
            radius_basis: RadiusBasis::Diagonal.code(),
            _pad: [0, 0, 0],
            vertical_scale: binary32::ONE,
        }
    }
}

/// One published record: how one eye view of one image is foveated. An image
/// that holds both eyes side by side has two records.
#[derive(Clone, Copy, Debug)]
pub struct FoveationDesc {
    pub magic: u32,
    pub version: u32,
    pub vk_device: u64,
    pub vk_image: u64,
    pub image_array_index: u32,
    pub eye: u32,
    /// The raw format of the eye image, for building an overlay pipeline.
    pub vk_format: i32,
    pub _pad2: u32,
    /// The part of the image that this eye renders into.
    pub rect_x: i32,
    pub rect_y: i32,
    pub rect_w: u32,
    pub rect_h: u32,
    /// The optical centre in pixels, relative to the full image.
    pub center_px_x: u32,
    pub center_px_y: u32,
    pub ppd_center_h: u32,
    pub ppd_center_v: u32,
    pub falloff: FalloffParams,
    /// Grows with every update, so that a consumer can notice one cheaply.
    pub generation: u64,
}

impl FoveationDesc {
    /// Whether the record has this crate's magic number and layout version.
    pub open spec fn valid(self) -> bool {
        self.magic == FFR_SHARED_MAGIC && self.version == FFR_SHARED_VERSION
    }

    pub fn is_valid(&self) -> (r: bool)
        ensures
            r == self.valid(),
    {
        self.magic == FFR_SHARED_MAGIC && self.version == FFR_SHARED_VERSION
    }

    /// Whether two records are equal as numbers, field by field.
    pub open spec fn same(self, other: FoveationDesc) -> bool {
        &&& self.magic == other.magic
        &&& self.version == other.version
        &&& self.vk_device == other.vk_device
        &&& self.vk_image == other.vk_image
        &&& self.image_array_index == other.image_array_index
        &&& self.eye == other.eye
        &&& self.vk_format == other.vk_format
        &&& self._pad2 == other._pad2
        &&& self.rect_x == other.rect_x
        &&& self.rect_y == other.rect_y
        &&& self.rect_w == other.rect_w
        &&& self.rect_h == other.rect_h
        &&& binary32::eq(self.center_px_x, other.center_px_x)
        &&& binary32::eq(self.center_px_y, other.center_px_y)
        &&& binary32::eq(self.ppd_center_h, other.ppd_center_h)
        &&& binary32::eq(self.ppd_center_v, other.ppd_center_v)
        &&& self.falloff.same(other.falloff)
        &&& self.generation == other.generation
    }
}

impl PartialEq for FoveationDesc {
    fn eq(&self, other: &Self) -> (r: bool) {
        self.magic == other.magic && self.version == other.version && self.vk_device
            == other.vk_device && self.vk_image == other.vk_image && self.image_array_index
            == other.image_array_index && self.eye == other.eye && self.vk_format
            == other.vk_format && self._pad2 == other._pad2 && self.rect_x == other.rect_x
            && self.rect_y == other.rect_y && self.rect_w == other.rect_w && self.rect_h
            == other.rect_h && binary32::equal(self.center_px_x, other.center_px_x)
            && binary32::equal(self.center_px_y, other.center_px_y) && binary32::equal(
            self.ppd_center_h,
            other.ppd_center_h,
        ) && binary32::equal(self.ppd_center_v, other.ppd_center_v) && self.falloff
            == other.falloff && self.generation == other.generation
    }
}

impl vstd::std_specs::cmp::PartialEqSpecImpl for FoveationDesc {
    open spec fn obeys_eq_spec() -> bool {
        true
    }

    open spec fn eq_spec(&self, other: &Self) -> bool {
        self.same(*other)
    }
}

/// The name of a rate is its width, an `x` and its height.
pub proof fn names_spell_rates(c: RateCode)
    ensures
        c.name().len() == 3,
        c.name()[0] as int == '0' as int + c.rate().width,
        c.name()[1] == 'x',
        c.name()[2] as int == '0' as int + c.rate().height,
{
    reveal_strlit("1x1");
    reveal_strlit("1x2");
    reveal_strlit("2x1");
    reveal_strlit("2x2");
    reveal_strlit("2x4");
    reveal_strlit("4x2");
    reveal_strlit("4x4");
}

/// The numbers of the codes run from the finest rate to the coarsest; of two
/// that cover as many pixels the narrower comes first. Two codes never share a
/// number, and the numbers are 0 to 6.
pub proof fn numbers_run_from_fine_to_coarse(c: RateCode, d: RateCode)
    ensures
        c.number() <= 6,
        c.number() == d.number() <==> c == d,
        c.number() < d.number() <==> {
            let p = c.rate().width * c.rate().height;
            let q = d.rate().width * d.rate().height;
            p < q || p == q && c.rate().width < d.rate().width
        },
{
    pixels_of_code(c);
    pixels_of_code(d);
}

/// How many pixels a fragment of a code covers.
proof fn pixels_of_code(c: RateCode)
    ensures
        c.rate().width * c.rate().height == (match c {
            RateCode::R1x1 => 1int,
            RateCode::R1x2 => 2int,
            RateCode::R2x1 => 2int,
            RateCode::R2x2 => 4int,
            RateCode::R2x4 => 8int,
            RateCode::R4x2 => 8int,
            RateCode::R4x4 => 16int,
        }),
{
    let w = c.rate().width as int;
    let h = c.rate().height as int;
    assert(w * h == if w == 1 {
        h
    } else if w == 2 {
        2 * h
    } else {
        4 * h
    }) by (nonlinear_arith)
        requires
            w == 1 || w == 2 || w == 4,
    ;
}

/// An axis comes back from its number and from its name, and everything else
/// means the diagonal.
pub proof fn axis_roundtrip(b: RadiusBasis, v: u8, s: Seq<char>)
    ensures
        RadiusBasis::of_number(b.number()) == b,
        b.number() <= 2,
        RadiusBasis::of_number(v) != RadiusBasis::Diagonal ==> RadiusBasis::of_number(v).number()
            == v,
        v >= 2 ==> RadiusBasis::of_number(v) == RadiusBasis::Diagonal,
        RadiusBasis::Horizontal.number() == 0,
        RadiusBasis::Vertical.number() == 1,
        RadiusBasis::of_name(s) == RadiusBasis::Horizontal <==> s == "horizontal"@,
        RadiusBasis::of_name(s) == RadiusBasis::Vertical <==> s == "vertical"@,
{
    reveal_strlit("horizontal");
    reveal_strlit("vertical");
    assert("vertical"@[0] == 'v');
    assert("horizontal"@[0] == 'h');
}

/// Two falloffs are equal only where each radius, the scale, each band's rate
/// and the axis are, and always there.
pub proof fn equal_falloffs_agree_in_each_field(a: FalloffParams, b: FalloffParams)
    ensures
        !binary32::eq(a.inner_radius, b.inner_radius) ==> !a.same(b),
        !binary32::eq(a.mid_radius, b.mid_radius) ==> !a.same(b),
        !binary32::eq(a.outer_radius, b.outer_radius) ==> !a.same(b),
        !binary32::eq(a.vertical_scale, b.vertical_scale) ==> !a.same(b),
        a.rate_inner != b.rate_inner ==> !a.same(b),
        a.rate_mid != b.rate_mid ==> !a.same(b),
        a.rate_outer != b.rate_outer ==> !a.same(b),
        a.rate_edge != b.rate_edge ==> !a.same(b),
        a.radius_basis != b.radius_basis ==> !a.same(b),
        a._pad@ != b._pad@ ==> !a.same(b),
        a.same(b) ==> b.same(a),
        a.in_numbers() && a == b ==> a.same(b),
        !a.in_numbers() ==> !a.same(b),
        !a.same(b) && a.in_numbers() ==> a != b,
{
}

/// Whether a falloff is in numbers is decided by its radii and its scale.
pub proof fn numbers_in_each_field(a: FalloffParams)
    ensures
        a.in_numbers() <==> !binary32::is_nan(a.inner_radius) && !binary32::is_nan(a.mid_radius)
            && !binary32::is_nan(a.outer_radius) && !binary32::is_nan(a.vertical_scale),
{
}

/// The standard falloff is full rate up to 0.30, 2x2 up to 0.55 and 4x4 from
/// there on, along the diagonal and without a vertical scale.
pub proof fn standard_falloff_in_numbers(f: FalloffParams)
    requires
        f.standard(),
    ensures
        f.inner_radius == 0x3e99_999a,
        f.mid_radius == 0x3f0c_cccd,
        f.outer_radius == 0x3f4c_cccd,
        f.rate_inner == 0,
        f.rate_mid == 3,
        f.rate_outer == 6,
        f.rate_edge == 6,
        f.radius_basis == 2,
        f._pad@ == seq![0u8, 0u8, 0u8],
        f.vertical_scale == 0x3f80_0000,
        f.in_numbers(),
{
}

/// Two records are equal only where each of their fields is.
pub proof fn equal_records_agree_in_each_field(a: FoveationDesc, b: FoveationDesc)
    ensures
        a.same(b) ==> {
            &&& a.magic == b.magic
            &&& a.version == b.version
            &&& a.vk_device == b.vk_device
            &&& a.vk_image == b.vk_image
            &&& a.image_array_index == b.image_array_index
            &&& a.eye == b.eye
            &&& a.vk_format == b.vk_format
            &&& a._pad2 == b._pad2
            &&& a.rect_x == b.rect_x
            &&& a.rect_y == b.rect_y
            &&& a.rect_w == b.rect_w
            &&& a.rect_h == b.rect_h
            &&& binary32::eq(a.center_px_x, b.center_px_x)
            &&& binary32::eq(a.center_px_y, b.center_px_y)
            &&& binary32::eq(a.ppd_center_h, b.ppd_center_h)
            &&& binary32::eq(a.ppd_center_v, b.ppd_center_v)
            &&& a.falloff.same(b.falloff)
            &&& a.generation == b.generation
        },
        a.same(b) ==> b.same(a),
        a.falloff.in_numbers() && !binary32::is_nan(a.center_px_x) && !binary32::is_nan(
            a.center_px_y,
        ) && !binary32::is_nan(a.ppd_center_h) && !binary32::is_nan(a.ppd_center_v) ==> a.same(a),
{
}

/// A record is turned down for a foreign magic number and for another layout
/// version, and for nothing else.
pub proof fn validity_is_magic_and_version(a: FoveationDesc, b: FoveationDesc)
    ensures
        a.magic != 0x3152_4646 ==> !a.valid(),
        a.version != 2 ==> !a.valid(),
        a.magic == 0x3152_4646 && a.version == 2 ==> a.valid(),
        a.magic == b.magic && a.version == b.version ==> a.valid() == b.valid(),
{
}

} // verus!
