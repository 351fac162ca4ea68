//! The registry that the two layers share within a process.
//!
//! The headset layer publishes records, keyed by device and image; the
//! graphics layer looks them up. A heartbeat beside them shows that both
//! layers reach the same registry.

use crate::wire::{FoveationDesc, FFR_SHARED_VERSION};
use std::collections::HashMap;
use vstd::prelude::*;

verus! {

broadcast use vstd::std_specs::hash::group_hash_axioms;

/// What a registry holds: for a device and an image, the records of its eyes.
pub type Records = Map<(u64, u64), Seq<FoveationDesc>>;

/// The registry. An image that holds both eyes has two records.
pub struct Registry {
    devices: HashMap<u64, HashMap<u64, Vec<FoveationDesc>>>,
}

impl View for Registry {
    type V = Records;

    closed spec fn view(&self) -> Records {
        Map::new(
            |k: (u64, u64)|
                self.devices@.contains_key(k.0) && self.devices@[k.0]@.contains_key(k.1),
            |k: (u64, u64)| self.devices@[k.0]@[k.1]@,
        )
    }
}

/// Where the first record of an eye stands, from the position `from` on; the
/// length of the sequence where there is none.
pub open spec fn eye_slot(s: Seq<FoveationDesc>, eye: u32, from: int) -> int
    decreases s.len() - from,
{
    if from < 0 || from >= s.len() {
        s.len() as int
    } else if s[from].eye == eye {
        from
    } else {
        eye_slot(s, eye, from + 1)
    }
}

/// The records of an image with one more: in place of the record of the same
/// eye where there is one, else at the end.
pub open spec fn placed(s: Seq<FoveationDesc>, d: FoveationDesc) -> Seq<FoveationDesc> {
    let i = eye_slot(s, d.eye, 0);
    if i < s.len() {
        s.update(i, d)
    } else {
        s.push(d)
    }
}

/// The key that a record is filed under.
pub open spec fn key_of(d: FoveationDesc) -> (u64, u64) {
    (d.vk_device, d.vk_image)
}

/// The records of an image; none where nothing was published for it.
pub open spec fn records_of(m: Records, key: (u64, u64)) -> Seq<FoveationDesc> {
    if m.contains_key(key) {
        m[key]
    } else {
        Seq::empty()
    }
}

/// The registry after a record was published. One that is not valid is
/// ignored.
pub open spec fn published(m: Records, d: FoveationDesc) -> Records {
    if d.valid() {
        m.insert(key_of(d), placed(records_of(m, key_of(d)), d))
    } else {
        m
    }
}

/// What a lookup of at most `max` records finds.
pub open spec fn found(m: Records, vk_device: u64, vk_image: u64, max: u32) -> Seq<
    FoveationDesc,
> {
    let s = records_of(m, (vk_device, vk_image));
    if s.len() <= max {
        s
    } else {
        s.take(max as int)
    }
}

/// The registry without the images of a device.
pub open spec fn without_device(m: Records, vk_device: u64) -> Records {
    m.remove_keys(m.dom().filter(|k: (u64, u64)| k.0 == vk_device))
}

/// The registry is in order: every image in it has a record, every record is
/// valid and stands under its own key, and no eye of an image has two.
pub open spec fn in_order(m: Records) -> bool {
    forall|key: (u64, u64)| #[trigger] m.contains_key(key) ==> image_in_order(m[key], key)
}

/// The records of one image are in order.
pub open spec fn image_in_order(s: Seq<FoveationDesc>, key: (u64, u64)) -> bool {
    &&& s.len() > 0
    &&& forall|i: int| 0 <= i < s.len() ==> (#[trigger] s[i]).valid() && key_of(s[i]) == key
    &&& forall|i: int, j: int| 0 <= i < j < s.len() ==> (#[trigger] s[i]).eye != (#[trigger] s[j]).eye
}

impl Registry {
    /// A registry without records.
    pub fn new() -> (r: Self)
        ensures
            r@ == Records::empty(),
            in_order(r@),
    {
        let r: Self = Registry { devices: HashMap::new() };
        assert(r@ =~= Records::empty());
        r
    }
}

/// The layout version; a consumer holds it against its own.
pub fn ffr_shared_version() -> (r: u32)
    ensures
        r == FFR_SHARED_VERSION,
{
    FFR_SHARED_VERSION
}

/// Publish a record for its device and image, in place of the record of the
/// same eye where there is one. Nothing happens without a record, or with one
/// that is not valid.
pub fn ffr_shared_publish(reg: &mut Registry, desc: Option<&FoveationDesc>)
    ensures
        final(reg)@ == (match desc {
            Some(d) => published(old(reg)@, *d),
            None => old(reg)@,
        }),
        in_order(old(reg)@) ==> in_order(final(reg)@),
{
    let d: FoveationDesc = match desc {
        Some(d) => *d,
        None => {
            return ;
        },
    };
    if !d.is_valid() {
        return ;
    }
    let ghost before = reg@;
    let mut images: HashMap<u64, Vec<FoveationDesc>> = match reg.devices.remove(&d.vk_device) {
        Some(t) => t,
        None => HashMap::new(),
    };
    let mut entry: Vec<FoveationDesc> = match images.remove(&d.vk_image) {
        Some(v) => v,
        None => Vec::new(),
    };
    let ghost held = entry@;
    assert(held =~= records_of(before, key_of(d)));
    let mut i: usize = 0;
    while i < entry.len() && entry[i].eye != d.eye
        invariant
            i <= entry@.len(),
            entry@ == held,
            eye_slot(held, d.eye, 0) == eye_slot(held, d.eye, i as int),
        decreases entry@.len() - i,
    {
        i = i + 1;
    }
    if i < entry.len() {
        entry.set(i, d);
    } else {
        entry.push(d);
    }
    assert(entry@ == placed(held, d));
    images.insert(d.vk_image, entry);
    reg.devices.insert(d.vk_device, images);
    proof {
        assert(reg@ =~= published(before, d));
        if in_order(before) {
            publish_keeps_order(before, d);
        }
    }
}

/// Look up the records of a device and an image, at most `max` of them. None
/// means that the image passes through without foveation.
pub fn ffr_shared_lookup(reg: &Registry, vk_device: u64, vk_image: u64, max: u32) -> (r: Vec<
    FoveationDesc,
>)
    ensures
        r@ == found(reg@, vk_device, vk_image, max),
{
    let mut out: Vec<FoveationDesc> = Vec::new();
    let images: &HashMap<u64, Vec<FoveationDesc>> = match reg.devices.get(&vk_device) {
        Some(t) => t,
        None => {
            assert(!reg@.contains_key((vk_device, vk_image)));
            return out;
        },
    };
    let entry: &Vec<FoveationDesc> = match images.get(&vk_image) {
        Some(v) => v,
        None => {
            assert(!reg@.contains_key((vk_device, vk_image)));
            return out;
        },
    };
    assert(reg@.contains_key((vk_device, vk_image)));
    let n: usize = if entry.len() <= max as usize {
        entry.len()
    } else {
        max as usize
    };
    let mut i: usize = 0;
    while i < n
        invariant
            i <= n <= entry@.len(),
            out@ == entry@.take(i as int),
        decreases n - i,
    {
        out.push(entry[i]);
        assert(out@ =~= entry@.take(i + 1));
        i = i + 1;
    }
    assert(entry@.take(entry@.len() as int) =~= entry@);
    out
}

/// Remove the records of a device and an image.
pub fn ffr_shared_remove_image(reg: &mut Registry, vk_device: u64, vk_image: u64)
    ensures
        final(reg)@ == old(reg)@.remove((vk_device, vk_image)),
        in_order(old(reg)@) ==> in_order(final(reg)@),
{
    let ghost before = reg@;
    match reg.devices.remove(&vk_device) {
        Some(t) => {
            let mut images: HashMap<u64, Vec<FoveationDesc>> = t;
            images.remove(&vk_image);
            reg.devices.insert(vk_device, images);
        },
        None => {},
    }
    assert(reg@ =~= before.remove((vk_device, vk_image)));
}

/// Remove the records of a device.
pub fn ffr_shared_remove_device(reg: &mut Registry, vk_device: u64)
    ensures
        final(reg)@ == without_device(old(reg)@, vk_device),
        in_order(old(reg)@) ==> in_order(final(reg)@),
{
    let ghost before = reg@;
    reg.devices.remove(&vk_device);
    assert(reg@ =~= without_device(before, vk_device));
}

/// A counter and a sample density that the headset layer writes and the
/// graphics layer reads back.
#[derive(Clone, Copy, Debug)]
pub struct Heartbeat {
    pub set: bool,
    pub counter: u64,
    /// The density, as a binary32 bit pattern.
    pub ppd: u32,
}

impl Heartbeat {
    /// No heartbeat so far.
    pub fn new() -> (r: Self)
        ensures
            r.beat() is None,
    {
        Heartbeat { set: false, counter: 0, ppd: 0 }
    }

    /// The counter and density of the last heartbeat, if there was one.
    pub open spec fn beat(self) -> Option<(u64, u32)> {
        if self.set {
            Some((self.counter, self.ppd))
        } else {
            None
        }
    }
}

/// Publish a heartbeat.
pub fn ffr_shared_set_heartbeat(hb: &mut Heartbeat, counter: u64, ppd: u32)
    ensures
        final(hb).beat() == Some((counter, ppd)),
{
    hb.counter = counter;
    hb.ppd = ppd;
    hb.set = true;
}

/// Read the last heartbeat, if there was one.
pub fn ffr_shared_get_heartbeat(hb: &Heartbeat) -> (r: Option<(u64, u32)>)
    ensures
        r == hb.beat(),
{
    if hb.set {
        Some((hb.counter, hb.ppd))
    } else {
        None
    }
}

/// The position that `eye_slot` gives is the first one of the eye.
pub proof fn eye_slot_is_first(s: Seq<FoveationDesc>, eye: u32, from: int)
    requires
        0 <= from <= s.len(),
    ensures
        from <= eye_slot(s, eye, from) <= s.len(),
        eye_slot(s, eye, from) < s.len() ==> s[eye_slot(s, eye, from)].eye == eye,
        forall|i: int| from <= i < eye_slot(s, eye, from) ==> (#[trigger] s[i]).eye != eye,
    decreases s.len() - from,
{
    if from < s.len() && s[from].eye != eye {
        eye_slot_is_first(s, eye, from + 1);
    }
}

/// Publishing keeps the registry in order.
pub proof fn publish_keeps_order(m: Records, d: FoveationDesc)
    requires
        in_order(m),
    ensures
        in_order(published(m, d)),
{
    if d.valid() {
        let s = records_of(m, key_of(d));
        let t = placed(s, d);
        eye_slot_is_first(s, d.eye, 0);
        assert(image_in_order(t, key_of(d))) by {
            if m.contains_key(key_of(d)) {
                assert(image_in_order(s, key_of(d)));
            }
        }
    }
}

/// A record that was published is found again under its own key, by every
/// lookup that reaches its place, whatever the registry held before; and no
/// other record of its eye is found.
pub proof fn published_is_found(m: Records, d: FoveationDesc, max: u32)
    requires
        d.valid(),
        eye_slot(records_of(m, key_of(d)), d.eye, 0) < max,
    ensures
        found(published(m, d), d.vk_device, d.vk_image, max).contains(d),
        in_order(m) ==> forall|i: int|
            0 <= i < found(published(m, d), d.vk_device, d.vk_image, max).len() && (
            #[trigger] found(published(m, d), d.vk_device, d.vk_image, max)[i]).eye == d.eye
                ==> found(published(m, d), d.vk_device, d.vk_image, max)[i] == d,
{
    let s = records_of(m, key_of(d));
    let t = placed(s, d);
    let f = found(published(m, d), d.vk_device, d.vk_image, max);
    let at = eye_slot(s, d.eye, 0);
    eye_slot_is_first(s, d.eye, 0);
    assert(published(m, d).contains_key(key_of(d)));
    assert(f[at] == d);
    if in_order(m) {
        publish_keeps_order(m, d);
        assert(image_in_order(t, key_of(d)));
        assert forall|i: int| 0 <= i < f.len() && (#[trigger] f[i]).eye == d.eye implies f[i]
            == d by {
            if i < at {
                assert(t[i].eye != t[at].eye);
            } else if at < i {
                assert(t[at].eye != t[i].eye);
            }
        }
    }
}

/// Publishing again for the same eye replaces the record: the number of
/// records stays, and the registry is what it would be with the second record
/// alone.
pub proof fn republish_replaces(m: Records, d: FoveationDesc, e: FoveationDesc)
    requires
        d.valid(),
        e.valid(),
        key_of(d) == key_of(e),
        d.eye == e.eye,
    ensures
        published(published(m, d), e) == published(m, e),
        records_of(published(published(m, d), e), key_of(d)).len() == records_of(
            published(m, d),
            key_of(d),
        ).len(),
{
    let s = records_of(m, key_of(d));
    let t = placed(s, d);
    let at = eye_slot(s, d.eye, 0);
    eye_slot_is_first(s, d.eye, 0);
    eye_slot_is_first(t, d.eye, 0);
    assert(t[at] == d);
    assert(eye_slot(t, d.eye, 0) == at) by {
        let u = eye_slot(t, d.eye, 0);
        if u < at {
            assert(t[u] == s[u]);
        }
    }
    assert(placed(t, e) =~= placed(s, e));
    assert(published(published(m, d), e) =~= published(m, e));
}

/// Publishing leaves the records of every other image as they were, and the
/// records of the other eyes of the same image.
pub proof fn publish_leaves_others(m: Records, d: FoveationDesc, key: (u64, u64), i: int)
    requires
        0 <= i < records_of(m, key).len(),
        key != key_of(d) || records_of(m, key)[i].eye != d.eye,
    ensures
        i < records_of(published(m, d), key).len(),
        records_of(published(m, d), key)[i] == records_of(m, key)[i],
{
    eye_slot_is_first(records_of(m, key_of(d)), d.eye, 0);
}

/// After an image was removed nothing is found for it, and what is found for
/// any other image is as before.
pub proof fn removed_image_is_gone(m: Records, key: (u64, u64), other: (u64, u64), max: u32)
    ensures
        found(m.remove(key), key.0, key.1, max).len() == 0,
        other != key ==> found(m.remove(key), other.0, other.1, max) == found(
            m,
            other.0,
            other.1,
            max,
        ),
{
}

/// After a device was removed nothing is found for any of its images, and
/// what is found for the images of another device is as before.
pub proof fn removed_device_is_gone(m: Records, vk_device: u64, key: (u64, u64), max: u32)
    ensures
        key.0 == vk_device ==> found(without_device(m, vk_device), key.0, key.1, max).len() == 0,
        key.0 != vk_device ==> found(without_device(m, vk_device), key.0, key.1, max) == found(
            m,
            key.0,
            key.1,
            max,
        ),
{
}

/// Where the eyes of an image are the eyes 0 and 1, it has at most two
/// records, so a lookup of two finds them all.
pub proof fn two_eyes_have_two_records(m: Records, key: (u64, u64))
    requires
        in_order(m),
        forall|i: int|
            0 <= i < records_of(m, key).len() ==> (#[trigger] records_of(m, key)[i]).eye < 2,
    ensures
        records_of(m, key).len() <= 2,
        found(m, key.0, key.1, 2) == records_of(m, key),
{
    let s = records_of(m, key);
    if s.len() > 2 {
        assert(image_in_order(s, key));
        assert(s[0].eye != s[1].eye);
        assert(s[0].eye != s[2].eye);
        assert(s[1].eye != s[2].eye);
    }
}

/// The registry after several records were published, one after the other.
pub open spec fn all_published(m: Records, ds: Seq<FoveationDesc>) -> Records
    decreases ds.len(),
{
    if ds.len() == 0 {
        m
    } else {
        published(all_published(m, ds.drop_last()), ds.last())
    }
}

/// Of several records that were published, each that no later one replaces is
/// still there: those of other images and other eyes leave it alone.
pub proof fn unreplaced_record_stays(m: Records, ds: Seq<FoveationDesc>, i: int)
    requires
        0 <= i < ds.len(),
        ds[i].valid(),
        forall|j: int|
            i < j < ds.len() ==> key_of(#[trigger] ds[j]) != key_of(ds[i]) || ds[j].eye
                != ds[i].eye,
    ensures
        records_of(all_published(m, ds), key_of(ds[i])).contains(ds[i]),
    decreases ds.len(),
{
    let d = ds[i];
    let last = ds.last();
    let before = all_published(m, ds.drop_last());
    let s = records_of(before, key_of(last));
    if last.valid() {
        eye_slot_is_first(s, last.eye, 0);
    }
    if i == ds.len() - 1 {
        let at = eye_slot(s, d.eye, 0);
        assert(placed(s, d)[at] == d);
    } else {
        unreplaced_record_stays(m, ds.drop_last(), i);
        let r = records_of(before, key_of(d));
        let k = choose|k: int| 0 <= k < r.len() && r[k] == d;
        if last.valid() && key_of(last) == key_of(d) {
            assert(placed(s, last)[k] == d);
        }
    }
}

/// A record that is not valid changes nothing, and no record does.
pub proof fn invalid_record_changes_nothing(m: Records, d: FoveationDesc)
    ensures
        d.magic != 0x3152_4646 || d.version != 2 ==> published(m, d) == m,
{
}

/// A lookup gives the records of its device and image in order, as many as it
/// asks for where there are so many, and all of them elsewhere.
pub proof fn lookup_gives_the_first_records(
    m: Records,
    vk_device: u64,
    vk_image: u64,
    max: u32,
    i: int,
)
    ensures
        !m.contains_key((vk_device, vk_image)) ==> found(m, vk_device, vk_image, max).len() == 0,
        m.contains_key((vk_device, vk_image)) ==> {
            let s = m[(vk_device, vk_image)];
            let f = found(m, vk_device, vk_image, max);
            &&& s.len() <= max ==> f.len() == s.len()
            &&& s.len() > max ==> f.len() == max
            &&& 0 <= i < f.len() ==> f[i] == s[i]
        },
{
}

/// The first record of an eye stands behind those of the other eyes, and each
/// record that follows for that eye stands in the same place.
pub proof fn eyes_keep_their_places(m: Records, d: FoveationDesc, i: int)
    requires
        d.valid(),
    ensures
        ({
            let s = records_of(m, (d.vk_device, d.vk_image));
            let t = records_of(published(m, d), (d.vk_device, d.vk_image));
            &&& (forall|k: int| 0 <= k < s.len() ==> (#[trigger] s[k]).eye != d.eye) ==> t
                == s.push(d)
            &&& 0 <= i < s.len() && s[i].eye == d.eye && (forall|k: int|
                0 <= k < i ==> (#[trigger] s[k]).eye != d.eye) ==> t == s.update(i, d)
        }),
{
    let s = records_of(m, (d.vk_device, d.vk_image));
    eye_slot_is_first(s, d.eye, 0);
    let at = eye_slot(s, d.eye, 0);
    if at < s.len() {
        assert(s[at].eye == d.eye);
    }
    if 0 <= i < s.len() && s[i].eye == d.eye && (forall|k: int|
        0 <= k < i ==> (#[trigger] s[k]).eye != d.eye) {
        if at < i {
            assert(s[at].eye != d.eye);
        }
        if i < at {
            assert(s[i].eye != d.eye);
        }
    }
}

/// A heartbeat is read back with its own counter and density; before the first
/// there is none.
pub proof fn heartbeat_is_read_back(hb: Heartbeat)
    ensures
        !hb.set ==> hb.beat() is None,
        hb.set ==> hb.beat() is Some,
        hb.beat() matches Some(b) ==> b.0 == hb.counter && b.1 == hb.ppd,
{
}

/// In a registry that is in order every record of an image is valid, belongs to
/// that image of that device, and is the only one of its eye; and an image
/// without records is not there.
pub proof fn ordered_records_belong_to_their_image(
    m: Records,
    vk_device: u64,
    vk_image: u64,
    i: int,
    j: int,
)
    requires
        in_order(m),
        m.contains_key((vk_device, vk_image)),
    ensures
        ({
            let s = m[(vk_device, vk_image)];
            &&& s.len() >= 1
            &&& 0 <= i < s.len() ==> s[i].magic == 0x3152_4646 && s[i].version == 2
            &&& 0 <= i < s.len() ==> s[i].vk_device == vk_device && s[i].vk_image == vk_image
            &&& 0 <= i < s.len() && 0 <= j < s.len() && s[i].eye == s[j].eye ==> i == j
        }),
{
    let key = (vk_device, vk_image);
    let s = m[key];
    assert(image_in_order(s, key));
    if 0 <= i < s.len() {
        assert(s[i].valid() && key_of(s[i]) == key);
    }
    if 0 <= i < j < s.len() {
        assert(s[i].eye != s[j].eye);
    }
    if 0 <= j < i < s.len() {
        assert(s[j].eye != s[i].eye);
    }
}

} // verus!
