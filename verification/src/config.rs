//! Configuration: one default profile that suits any headset, and optional
//! overrides for single headsets. An override is never needed for correct
//! results; it only tunes how aggressive the falloff is.

use crate::binary32;
use crate::text::{self, contains_text};
use crate::wire::{
    FalloffParams, RadiusBasis, RateCode, DEFAULT_INNER_RADIUS, DEFAULT_MID_RADIUS,
    DEFAULT_OUTER_RADIUS,
};
use vstd::prelude::*;

verus! {

/// The whole configuration.
#[derive(Clone, Debug)]
pub struct Config {
    pub default: Profile,
    /// Overrides, matched on a part of the system name.
    pub hmd: Vec<HmdOverride>,
}

/// A complete falloff profile. Rates and axis are names, as people write
/// them; the numbers are binary32 bit patterns.
#[derive(Clone, Debug)]
pub struct Profile {
    pub inner_radius: u32,
    pub mid_radius: u32,
    pub outer_radius: u32,
    pub rate_inner: String,
    pub rate_mid: String,
    pub rate_outer: String,
    pub rate_edge: String,
    pub radius_basis: String,
    pub vertical_scale: u32,
}

/// An override for the headsets whose system name has a given part. A field
/// that is not set keeps the value of the default profile.
#[derive(Clone, Debug)]
pub struct HmdOverride {
    pub match_system_name: String,
    pub inner_radius: Option<u32>,
    pub mid_radius: Option<u32>,
    pub outer_radius: Option<u32>,
    pub rate_inner: Option<String>,
    pub rate_mid: Option<String>,
    pub rate_outer: Option<String>,
    pub rate_edge: Option<String>,
    pub radius_basis: Option<String>,
    pub vertical_scale: Option<u32>,
}

/// What a profile says.
pub struct ProfileView {
    pub inner_radius: u32,
    pub mid_radius: u32,
    pub outer_radius: u32,
    pub rate_inner: Seq<char>,
    pub rate_mid: Seq<char>,
    pub rate_outer: Seq<char>,
    pub rate_edge: Seq<char>,
    pub radius_basis: Seq<char>,
    pub vertical_scale: u32,
}

impl View for Profile {
    type V = ProfileView;

    open spec fn view(&self) -> ProfileView {
        ProfileView {
            inner_radius: self.inner_radius,
            mid_radius: self.mid_radius,
            outer_radius: self.outer_radius,
            rate_inner: self.rate_inner@,
            rate_mid: self.rate_mid@,
            rate_outer: self.rate_outer@,
            rate_edge: self.rate_edge@,
            radius_basis: self.radius_basis@,
            vertical_scale: self.vertical_scale,
        }
    }
}

/// A number that an override may set.
pub open spec fn number_or(set: Option<u32>, kept: u32) -> u32 {
    match set {
        Some(v) => v,
        None => kept,
    }
}

/// A text that an override may set.
pub open spec fn text_or(set: Option<String>, kept: Seq<char>) -> Seq<char> {
    match set {
        Some(v) => v@,
        None => kept,
    }
}

impl ProfileView {
    /// The profile with an override laid over it.
    pub open spec fn overridden(self, o: HmdOverride) -> ProfileView {
        ProfileView {
            inner_radius: number_or(o.inner_radius, self.inner_radius),
            mid_radius: number_or(o.mid_radius, self.mid_radius),
            outer_radius: number_or(o.outer_radius, self.outer_radius),
            rate_inner: text_or(o.rate_inner, self.rate_inner),
            rate_mid: text_or(o.rate_mid, self.rate_mid),
            rate_outer: text_or(o.rate_outer, self.rate_outer),
            rate_edge: text_or(o.rate_edge, self.rate_edge),
            radius_basis: text_or(o.radius_basis, self.radius_basis),
            vertical_scale: number_or(o.vertical_scale, self.vertical_scale),
        }
    }

    /// The profile of a configuration without a file.
    pub open spec fn standard() -> ProfileView {
        ProfileView {
            inner_radius: DEFAULT_INNER_RADIUS,
            mid_radius: DEFAULT_MID_RADIUS,
            outer_radius: DEFAULT_OUTER_RADIUS,
            rate_inner: "1x1"@,
            rate_mid: "2x2"@,
            rate_outer: "4x4"@,
            rate_edge: "4x4"@,
            radius_basis: "diagonal"@,
            vertical_scale: binary32::ONE,
        }
    }

    /// Whether `f` is the falloff that the profile describes. A name that is
    /// no rate stands for the rate of that band in the standard profile.
    pub open spec fn describes(self, f: FalloffParams) -> bool {
        &&& f.inner_radius == self.inner_radius
        &&& f.mid_radius == self.mid_radius
        &&& f.outer_radius == self.outer_radius
        &&& f.rate_inner == named_rate(self.rate_inner, RateCode::R1x1)
        &&& f.rate_mid == named_rate(self.rate_mid, RateCode::R2x2)
        &&& f.rate_outer == named_rate(self.rate_outer, RateCode::R4x4)
        &&& f.rate_edge == named_rate(self.rate_edge, RateCode::R4x4)
        &&& f.radius_basis == RadiusBasis::of_name(self.radius_basis).number()
        &&& f._pad@ == seq![0u8, 0u8, 0u8]
        &&& f.vertical_scale == self.vertical_scale
    }
}

/// The number of the rate of a name, or of `fallback` where it names none.
pub open spec fn named_rate(name: Seq<char>, fallback: RateCode) -> u8 {
    match RateCode::of_name(name) {
        Some(c) => c.number(),
        None => fallback.number(),
    }
}

/// The first override, from the position `from` on, that matches a system
/// name.
pub open spec fn first_match(hmd: Seq<HmdOverride>, system_name: Seq<char>, from: int) -> Option<
    HmdOverride,
>
    decreases hmd.len() - from,
{
    if from < 0 || from >= hmd.len() {
        None
    } else if text::occurs_in(hmd[from].match_system_name@, system_name) {
        Some(hmd[from])
    } else {
        first_match(hmd, system_name, from + 1)
    }
}

/// The profile of a headset: the default, with the first matching override
/// laid over it.
pub open spec fn resolved(
    default: ProfileView,
    hmd: Seq<HmdOverride>,
    system_name: Seq<char>,
) -> ProfileView {
    match first_match(hmd, system_name, 0) {
        Some(o) => default.overridden(o),
        None => default,
    }
}

impl Config {
    /// The falloff of a headset by its system name: the default profile, with
    /// the first matching override applied on top.
    pub fn resolve_for(&self, system_name: &str) -> (r: FalloffParams)
        ensures
            resolved(self.default@, self.hmd@, system_name@).describes(r),
    {
        let mut profile: Profile = self.default.duplicate();
        let mut i: usize = 0;
        while i < self.hmd.len()
            invariant
                i <= self.hmd@.len(),
                profile@ == self.default@,
                first_match(self.hmd@, system_name@, 0) == first_match(
                    self.hmd@,
                    system_name@,
                    i as int,
                ),
            decreases self.hmd@.len() - i,
        {
            if contains_text(system_name, self.hmd[i].match_system_name.as_str()) {
                self.hmd[i].apply_to(&mut profile);
                return profile.to_params();
            }
            i = i + 1;
        }
        profile.to_params()
    }
}

impl Default for Config {
    fn default() -> (r: Self)
        ensures
            r.default@ == ProfileView::standard(),
            r.hmd@.len() == 0,
    {
        Config { default: Profile::default(), hmd: Vec::new() }
    }
}

impl Default for Profile {
    fn default() -> (r: Self)
        ensures
            r@ == ProfileView::standard(),
    {
        Self {
            inner_radius: DEFAULT_INNER_RADIUS,
            mid_radius: DEFAULT_MID_RADIUS,
            outer_radius: DEFAULT_OUTER_RADIUS,
            rate_inner: "1x1".to_owned(),
            rate_mid: "2x2".to_owned(),
            rate_outer: "4x4".to_owned(),
            rate_edge: "4x4".to_owned(),
            radius_basis: "diagonal".to_owned(),
            vertical_scale: binary32::ONE,
        }
    }
}

/// The number of the rate of a name, or of `fallback` where it names none.
fn rate_number(name: &String, fallback: RateCode) -> (r: u8)
    ensures
        r == named_rate(name@, fallback),
{
    match RateCode::parse(name.as_str()) {
        Some(c) => c.code(),
        None => fallback.code(),
    }
}

impl Profile {
    pub fn to_params(&self) -> (r: FalloffParams)
        ensures
            self@.describes(r),
    {
        FalloffParams {
            inner_radius: self.inner_radius,
            mid_radius: self.mid_radius,
            outer_radius: self.outer_radius,
            rate_inner: rate_number(&self.rate_inner, RateCode::R1x1),
            rate_mid: rate_number(&self.rate_mid, RateCode::R2x2),
            rate_outer: rate_number(&self.rate_outer, RateCode::R4x4),
            rate_edge: rate_number(&self.rate_edge, RateCode::R4x4),
            radius_basis: RadiusBasis::parse(self.radius_basis.as_str()).code(),
            _pad: [0, 0, 0],
            vertical_scale: self.vertical_scale,
        }
    }

    /// A profile that says the same.
    fn duplicate(&self) -> (r: Self)
        ensures
            r@ == self@,
    {
        Profile {
            inner_radius: self.inner_radius,
            mid_radius: self.mid_radius,
            outer_radius: self.outer_radius,
            rate_inner: self.rate_inner.clone(),
            rate_mid: self.rate_mid.clone(),
            rate_outer: self.rate_outer.clone(),
            rate_edge: self.rate_edge.clone(),
            radius_basis: self.radius_basis.clone(),
            vertical_scale: self.vertical_scale,
        }
    }
}

impl HmdOverride {
    /// Lay the fields that are set over a profile.
    pub fn apply_to(&self, p: &mut Profile)
        ensures
            final(p)@ == old(p)@.overridden(*self),
    {
        if let Some(v) = self.inner_radius {
            p.inner_radius = v;
        }
        if let Some(v) = self.mid_radius {
            p.mid_radius = v;
        }
        if let Some(v) = self.outer_radius {
            p.outer_radius = v;
        }
        if let Some(v) = &self.rate_inner {
            p.rate_inner = v.clone();
        }
        if let Some(v) = &self.rate_mid {
            p.rate_mid = v.clone();
        }
        if let Some(v) = &self.rate_outer {
            p.rate_outer = v.clone();
        }
        if let Some(v) = &self.rate_edge {
            p.rate_edge = v.clone();
        }
        if let Some(v) = &self.radius_basis {
            p.radius_basis = v.clone();
        }
        if let Some(v) = self.vertical_scale {
            p.vertical_scale = v;
        }
    }
}

/// No override is needed: without one that matches, every headset gets the
/// default profile.
pub proof fn unmatched_headset_gets_default(
    default: ProfileView,
    hmd: Seq<HmdOverride>,
    system_name: Seq<char>,
)
    requires
        forall|i: int|
            0 <= i < hmd.len() ==> !text::occurs_in(
                (#[trigger] hmd[i]).match_system_name@,
                system_name,
            ),
    ensures
        resolved(default, hmd, system_name) == default,
{
    no_match_from(hmd, system_name, 0);
}

proof fn no_match_from(hmd: Seq<HmdOverride>, system_name: Seq<char>, from: int)
    requires
        0 <= from,
        forall|i: int|
            0 <= i < hmd.len() ==> !text::occurs_in(
                (#[trigger] hmd[i]).match_system_name@,
                system_name,
            ),
    ensures
        first_match(hmd, system_name, from) is None,
    decreases hmd.len() - from,
{
    if from < hmd.len() {
        no_match_from(hmd, system_name, from + 1);
    }
}

/// Only the first override that matches counts.
pub proof fn first_matching_override_wins(
    default: ProfileView,
    hmd: Seq<HmdOverride>,
    system_name: Seq<char>,
    k: int,
)
    requires
        0 <= k < hmd.len(),
        text::occurs_in(hmd[k].match_system_name@, system_name),
        forall|i: int|
            0 <= i < k ==> !text::occurs_in((#[trigger] hmd[i]).match_system_name@, system_name),
    ensures
        resolved(default, hmd, system_name) == default.overridden(hmd[k]),
{
    match_reached_from(hmd, system_name, 0, k);
}

proof fn match_reached_from(hmd: Seq<HmdOverride>, system_name: Seq<char>, from: int, k: int)
    requires
        0 <= from <= k < hmd.len(),
        text::occurs_in(hmd[k].match_system_name@, system_name),
        forall|i: int|
            0 <= i < k ==> !text::occurs_in((#[trigger] hmd[i]).match_system_name@, system_name),
    ensures
        first_match(hmd, system_name, from) == Some(hmd[k]),
    decreases k - from,
{
    if from < k {
        match_reached_from(hmd, system_name, from + 1, k);
    }
}

/// The standard profile describes the standard falloff, and nothing else.
pub proof fn standard_profile_is_standard_falloff(f: FalloffParams)
    ensures
        ProfileView::standard().describes(f) <==> f.standard(),
{
    crate::wire::name_roundtrip(RateCode::R1x1, Seq::empty());
    crate::wire::name_roundtrip(RateCode::R2x2, Seq::empty());
    crate::wire::name_roundtrip(RateCode::R4x4, Seq::empty());
    reveal_strlit("horizontal");
    reveal_strlit("vertical");
    reveal_strlit("diagonal");
    assert("diagonal"@[0] == 'd');
    assert("vertical"@[0] == 'v');
    assert("horizontal"@[0] == 'h');
}

/// A profile says what its fields hold.
pub proof fn profile_says_its_fields(p: Profile)
    ensures
        p@.inner_radius == p.inner_radius,
        p@.mid_radius == p.mid_radius,
        p@.outer_radius == p.outer_radius,
        p@.rate_inner == p.rate_inner@,
        p@.rate_mid == p.rate_mid@,
        p@.rate_outer == p.rate_outer@,
        p@.rate_edge == p.rate_edge@,
        p@.radius_basis == p.radius_basis@,
        p@.vertical_scale == p.vertical_scale,
{
}

/// An override changes exactly what it sets: a field that it sets gets that
/// value, and a field that it does not set keeps the profile's, whatever the
/// other fields are.
pub proof fn override_changes_what_it_sets(p: ProfileView, o: HmdOverride)
    ensures
        o.inner_radius is None ==> p.overridden(o).inner_radius == p.inner_radius,
        o.inner_radius matches Some(v) ==> p.overridden(o).inner_radius == v,
        o.mid_radius is None ==> p.overridden(o).mid_radius == p.mid_radius,
        o.mid_radius matches Some(v) ==> p.overridden(o).mid_radius == v,
        o.outer_radius is None ==> p.overridden(o).outer_radius == p.outer_radius,
        o.outer_radius matches Some(v) ==> p.overridden(o).outer_radius == v,
        o.rate_inner is None ==> p.overridden(o).rate_inner == p.rate_inner,
        o.rate_inner matches Some(v) ==> p.overridden(o).rate_inner == v@,
        o.rate_mid is None ==> p.overridden(o).rate_mid == p.rate_mid,
        o.rate_mid matches Some(v) ==> p.overridden(o).rate_mid == v@,
        o.rate_outer is None ==> p.overridden(o).rate_outer == p.rate_outer,
        o.rate_outer matches Some(v) ==> p.overridden(o).rate_outer == v@,
        o.rate_edge is None ==> p.overridden(o).rate_edge == p.rate_edge,
        o.rate_edge matches Some(v) ==> p.overridden(o).rate_edge == v@,
        o.radius_basis is None ==> p.overridden(o).radius_basis == p.radius_basis,
        o.radius_basis matches Some(v) ==> p.overridden(o).radius_basis == v@,
        o.vertical_scale is None ==> p.overridden(o).vertical_scale == p.vertical_scale,
        o.vertical_scale matches Some(v) ==> p.overridden(o).vertical_scale == v,
{
}

/// Laying an override over a profile a second time changes nothing more.
pub proof fn override_is_idempotent(p: ProfileView, o: HmdOverride)
    ensures
        p.overridden(o).overridden(o) == p.overridden(o),
{
}

/// The number of a band is that of the code whose name the profile writes; a
/// name that is no code's gives the fallback, and no other name does so by
/// accident.
pub proof fn named_rate_is_that_of_its_name(name: Seq<char>, fallback: RateCode, c: RateCode)
    ensures
        name == c.name() ==> named_rate(name, fallback) == c.number(),
        (forall|d: RateCode| name != (#[trigger] d.name())) ==> named_rate(name, fallback)
            == fallback.number(),
{
    crate::wire::name_roundtrip(c, name);
    match RateCode::of_name(name) {
        Some(d) => {
            assert(name == d.name());
        },
        None => {},
    }
}

/// The falloff of a profile has the profile's radii and scale, the axis that it
/// names, and for each band the rate that it names for that band. A band whose
/// name is no rate's has 1x1, 2x2, 4x4 and 4x4, from the inside out.
pub proof fn falloff_carries_profile(p: ProfileView, f: FalloffParams, c: RateCode)
    requires
        p.describes(f),
    ensures
        f.inner_radius == p.inner_radius,
        f.mid_radius == p.mid_radius,
        f.outer_radius == p.outer_radius,
        f.vertical_scale == p.vertical_scale,
        p.rate_inner == c.name() ==> f.rate_inner == c.number(),
        p.rate_mid == c.name() ==> f.rate_mid == c.number(),
        p.rate_outer == c.name() ==> f.rate_outer == c.number(),
        p.rate_edge == c.name() ==> f.rate_edge == c.number(),
        RateCode::of_name(p.rate_inner) is None ==> f.rate_inner == 0,
        RateCode::of_name(p.rate_mid) is None ==> f.rate_mid == 3,
        RateCode::of_name(p.rate_outer) is None ==> f.rate_outer == 6,
        RateCode::of_name(p.rate_edge) is None ==> f.rate_edge == 6,
        p.radius_basis == "horizontal"@ ==> f.radius_basis == 0,
        p.radius_basis == "vertical"@ ==> f.radius_basis == 1,
        p.radius_basis != "horizontal"@ && p.radius_basis != "vertical"@ ==> f.radius_basis == 2,
{
    named_rate_is_that_of_its_name(p.rate_inner, RateCode::R1x1, c);
    named_rate_is_that_of_its_name(p.rate_mid, RateCode::R2x2, c);
    named_rate_is_that_of_its_name(p.rate_outer, RateCode::R4x4, c);
    named_rate_is_that_of_its_name(p.rate_edge, RateCode::R4x4, c);
    crate::wire::axis_roundtrip(RadiusBasis::Diagonal, 0, p.radius_basis);
}

/// The falloff of a headset takes each number from the first override that
/// matches, where that sets it, and from the default profile elsewhere; so it
/// does each name. Later overrides do not count.
pub proof fn headset_falloff_comes_from_override_or_default(
    default: ProfileView,
    hmd: Seq<HmdOverride>,
    system_name: Seq<char>,
    k: int,
    f: FalloffParams,
    c: RateCode,
)
    requires
        0 <= k < hmd.len(),
        text::occurs_in(hmd[k].match_system_name@, system_name),
        forall|i: int|
            0 <= i < k ==> !text::occurs_in((#[trigger] hmd[i]).match_system_name@, system_name),
        resolved(default, hmd, system_name).describes(f),
    ensures
        f.inner_radius == (match hmd[k].inner_radius {
            Some(v) => v,
            None => default.inner_radius,
        }),
        f.mid_radius == (match hmd[k].mid_radius {
            Some(v) => v,
            None => default.mid_radius,
        }),
        f.outer_radius == (match hmd[k].outer_radius {
            Some(v) => v,
            None => default.outer_radius,
        }),
        f.vertical_scale == (match hmd[k].vertical_scale {
            Some(v) => v,
            None => default.vertical_scale,
        }),
        hmd[k].rate_inner matches Some(v) ==> v@ == c.name() ==> f.rate_inner == c.number(),
        hmd[k].rate_inner is None && default.rate_inner == c.name() ==> f.rate_inner == c.number(),
        hmd[k].rate_mid matches Some(v) ==> v@ == c.name() ==> f.rate_mid == c.number(),
        hmd[k].rate_mid is None && default.rate_mid == c.name() ==> f.rate_mid == c.number(),
        hmd[k].rate_outer matches Some(v) ==> v@ == c.name() ==> f.rate_outer == c.number(),
        hmd[k].rate_outer is None && default.rate_outer == c.name() ==> f.rate_outer == c.number(),
        hmd[k].rate_edge matches Some(v) ==> v@ == c.name() ==> f.rate_edge == c.number(),
        hmd[k].rate_edge is None && default.rate_edge == c.name() ==> f.rate_edge == c.number(),
        hmd[k].radius_basis is None && default.radius_basis == "horizontal"@ ==> f.radius_basis
            == 0,
        hmd[k].radius_basis is None && default.radius_basis == "vertical"@ ==> f.radius_basis == 1,
        hmd[k].radius_basis matches Some(v) ==> v@ == "horizontal"@ ==> f.radius_basis == 0,
        hmd[k].radius_basis matches Some(v) ==> v@ == "vertical"@ ==> f.radius_basis == 1,
{
    first_matching_override_wins(default, hmd, system_name, k);
    override_changes_what_it_sets(default, hmd[k]);
    falloff_carries_profile(default.overridden(hmd[k]), f, c);
}

} // verus!
