//! The client of the shared registry.
//!
//! Both layers reach the registry through a library that is loaded once per
//! process. This module decides whether it is usable, which of its entry
//! points a call goes to, and what its replies mean; entry points are plain
//! addresses.

use crate::wire::FoveationDesc;
use vstd::prelude::*;

verus! {

/// The most records that one lookup asks for.
pub const LOOKUP_MAX: u32 = 2;

/// The entry points of the library, as far as they were found.
#[derive(Clone, Copy, Debug)]
pub struct Symbols {
    pub version: Option<u64>,
    pub publish: Option<u64>,
    pub lookup: Option<u64>,
    pub remove_image: Option<u64>,
    pub remove_device: Option<u64>,
    pub set_heartbeat: Option<u64>,
    pub get_heartbeat: Option<u64>,
}

/// The entry points of a usable library.
#[derive(Clone, Copy, Debug)]
pub struct Api {
    pub version: u64,
    pub publish: u64,
    pub lookup: u64,
    pub remove_image: u64,
    pub remove_device: u64,
    pub set_heartbeat: u64,
    pub get_heartbeat: u64,
}

/// The calls that a layer makes.
#[derive(Clone, Copy, Debug, PartialEq, Eq, Structural)]
pub enum Call {
    Version,
    Publish,
    Lookup,
    RemoveImage,
    RemoveDevice,
    SetHeartbeat,
    GetHeartbeat,
}

impl Symbols {
    /// The entry point of a call, if it was found.
    pub open spec fn of(self, call: Call) -> Option<u64> {
        match call {
            Call::Version => self.version,
            Call::Publish => self.publish,
            Call::Lookup => self.lookup,
            Call::RemoveImage => self.remove_image,
            Call::RemoveDevice => self.remove_device,
            Call::SetHeartbeat => self.set_heartbeat,
            Call::GetHeartbeat => self.get_heartbeat,
        }
    }

    /// Every entry point was found.
    pub open spec fn complete(self) -> bool {
        forall|call: Call| #[trigger] self.of(call) is Some
    }
}

impl Api {
    /// The entry point of a call.
    pub open spec fn of(self, call: Call) -> u64 {
        match call {
            Call::Version => self.version,
            Call::Publish => self.publish,
            Call::Lookup => self.lookup,
            Call::RemoveImage => self.remove_image,
            Call::RemoveDevice => self.remove_device,
            Call::SetHeartbeat => self.set_heartbeat,
            Call::GetHeartbeat => self.get_heartbeat,
        }
    }
}

/// Whether `r` is what comes of a library.
pub open spec fn loaded(library: Option<Symbols>, r: Option<Api>) -> bool {
    &&& r is Some <==> library is Some && library->0.complete()
    &&& r matches Some(api) ==> forall|call: Call|
        Some(#[trigger] api.of(call)) == library->0.of(call)
}

/// The library is usable only if it was found with all of its entry points.
pub fn load(library: Option<Symbols>) -> (r: Option<Api>)
    ensures
        loaded(library, r),
{
    let s: Symbols = match library {
        Some(s) => s,
        None => {
            return None;
        },
    };
    proof {
        if s.complete() {
            assert(s.of(Call::Version) is Some && s.of(Call::Publish) is Some);
            assert(s.of(Call::Lookup) is Some && s.of(Call::RemoveImage) is Some);
            assert(s.of(Call::RemoveDevice) is Some && s.of(Call::SetHeartbeat) is Some);
            assert(s.of(Call::GetHeartbeat) is Some);
        }
    }
    match (s.version, s.publish, s.lookup, s.remove_image, s.remove_device) {
        (
            Some(version),
            Some(publish),
            Some(lookup),
            Some(remove_image),
            Some(remove_device),
        ) => match (s.set_heartbeat, s.get_heartbeat) {
            (Some(set_heartbeat), Some(get_heartbeat)) => Some(
                Api {
                    version,
                    publish,
                    lookup,
                    remove_image,
                    remove_device,
                    set_heartbeat,
                    get_heartbeat,
                },
            ),
            _ => None,
        },
        _ => None,
    }
}

/// Whether the library was found with all of its entry points.
pub fn is_available(api: &Option<Api>) -> (r: bool)
    ensures
        r == (*api is Some),
{
    match api {
        Some(_) => true,
        None => false,
    }
}

/// The entry point that a call goes to.
pub open spec fn called(api: Option<Api>, call: Call) -> Option<u64> {
    match api {
        Some(a) => Some(a.of(call)),
        None => None,
    }
}

/// The heartbeat that a reply carries.
pub open spec fn replied_beat(status: u32, counter: u64, ppd: u32) -> Option<(u64, u32)> {
    if status != 0 {
        Some((counter, ppd))
    } else {
        None
    }
}

/// The records that a lookup reply carries.
pub open spec fn replied(places: Seq<FoveationDesc>, n: u32) -> Seq<FoveationDesc> {
    places.take(
        if n < LOOKUP_MAX {
            n as int
        } else {
            LOOKUP_MAX as int
        },
    )
}

/// The entry point that a call goes to; without a usable library no call is
/// made.
pub fn entry_point(api: &Option<Api>, call: Call) -> (r: Option<u64>)
    ensures
        r == called(*api, call),
{
    match api {
        Some(a) => Some(
            match call {
                Call::Version => a.version,
                Call::Publish => a.publish,
                Call::Lookup => a.lookup,
                Call::RemoveImage => a.remove_image,
                Call::RemoveDevice => a.remove_device,
                Call::SetHeartbeat => a.set_heartbeat,
                Call::GetHeartbeat => a.get_heartbeat,
            },
        ),
        None => None,
    }
}

/// The heartbeat that a reply carries: `status` is 0 where there was none.
pub fn get_heartbeat(status: u32, counter: u64, ppd: u32) -> (r: Option<(u64, u32)>)
    ensures
        r == replied_beat(status, counter, ppd),
{
    if status != 0 {
        Some((counter, ppd))
    } else {
        None
    }
}

/// The records that a lookup reply carries: the first `n` of the two places
/// that were offered, and never more than those two.
pub fn lookup(places: [FoveationDesc; 2], n: u32) -> (r: Vec<FoveationDesc>)
    ensures
        r@ == replied(places@, n),
{
    let mut out: Vec<FoveationDesc> = Vec::new();
    if n >= 1 {
        out.push(places[0]);
    }
    if n >= 2 {
        out.push(places[1]);
    }
    assert(out@ =~= replied(places@, n));
    out
}

/// A library is usable exactly where it was found with all of its seven entry
/// points, and each of them is then the one that was found under that name.
pub proof fn usable_library_has_all_entries(s: Symbols, r: Option<Api>)
    requires
        loaded(Some(s), r),
    ensures
        r is Some <==> s.version is Some && s.publish is Some && s.lookup is Some
            && s.remove_image is Some && s.remove_device is Some && s.set_heartbeat is Some
            && s.get_heartbeat is Some,
        r matches Some(a) ==> {
            &&& s.version == Some(a.version)
            &&& s.publish == Some(a.publish)
            &&& s.lookup == Some(a.lookup)
            &&& s.remove_image == Some(a.remove_image)
            &&& s.remove_device == Some(a.remove_device)
            &&& s.set_heartbeat == Some(a.set_heartbeat)
            &&& s.get_heartbeat == Some(a.get_heartbeat)
        },
{
    if r is Some {
        let a = r->0;
        assert(Some(a.of(Call::Version)) == s.of(Call::Version));
        assert(Some(a.of(Call::Publish)) == s.of(Call::Publish));
        assert(Some(a.of(Call::Lookup)) == s.of(Call::Lookup));
        assert(Some(a.of(Call::RemoveImage)) == s.of(Call::RemoveImage));
        assert(Some(a.of(Call::RemoveDevice)) == s.of(Call::RemoveDevice));
        assert(Some(a.of(Call::SetHeartbeat)) == s.of(Call::SetHeartbeat));
        assert(Some(a.of(Call::GetHeartbeat)) == s.of(Call::GetHeartbeat));
    } else {
        assert(!s.complete());
        let call = choose|call: Call| !((#[trigger] s.of(call)) is Some);
        assert(s.of(call) is None);
    }
}

/// Without a library there is none to use, and no call is made.
pub proof fn no_library_no_calls(r: Option<Api>, call: Call)
    requires
        loaded(None, r),
    ensures
        r is None,
        called(r, call) is None,
{
}

/// Each call goes to its own entry point.
pub proof fn calls_go_to_their_entries(a: Api)
    ensures
        called(Some(a), Call::Version) == Some(a.version),
        called(Some(a), Call::Publish) == Some(a.publish),
        called(Some(a), Call::Lookup) == Some(a.lookup),
        called(Some(a), Call::RemoveImage) == Some(a.remove_image),
        called(Some(a), Call::RemoveDevice) == Some(a.remove_device),
        called(Some(a), Call::SetHeartbeat) == Some(a.set_heartbeat),
        called(Some(a), Call::GetHeartbeat) == Some(a.get_heartbeat),
{
}

/// A reply without a status carries no heartbeat; any other carries its own
/// counter and density.
pub proof fn replies_carry_heartbeats(status: u32, counter: u64, ppd: u32)
    ensures
        status == 0 ==> replied_beat(status, counter, ppd) is None,
        status > 0 ==> replied_beat(status, counter, ppd) == Some((counter, ppd)),
{
}

/// A reply carries the records that it counts, in order, and at most the two
/// for which there is a place.
pub proof fn replies_carry_records(places: Seq<FoveationDesc>, n: u32, i: int)
    requires
        places.len() == 2,
    ensures
        n <= 2 ==> replied(places, n).len() == n,
        n > 2 ==> replied(places, n).len() == 2,
        0 <= i < replied(places, n).len() ==> replied(places, n)[i] == places[i],
{
}

} // verus!
