//! Audio devices as the host reports them, and the catalogue of those that
//! can capture.

use vstd::prelude::*;

verus! {

/// One audio device, as it was when the host was asked. Nothing ties two
/// snapshots of a device together but its identifier.
#[derive(Debug, PartialEq, Eq)]
pub struct Device {
    pub id: String,
    pub name: String,
    pub supports_capture: bool,
}

/// A device with its texts as character sequences.
pub ghost struct DeviceView {
    pub id: Seq<char>,
    pub name: Seq<char>,
    pub supports_capture: bool,
}

impl DeepView for Device {
    type V = DeviceView;

    open spec fn deep_view(&self) -> DeviceView {
        DeviceView { id: self.id@, name: self.name@, supports_capture: self.supports_capture }
    }
}

impl View for Device {
    type V = DeviceView;

    open spec fn view(&self) -> DeviceView {
        self.deep_view()
    }
}

impl Clone for Device {
    fn clone(&self) -> (copy: Device)
        ensures
            copy@ == self@,
    {
        Device {
            id: self.id.clone(),
            name: self.name.clone(),
            supports_capture: self.supports_capture,
        }
    }
}

/// The host audio subsystem could not be asked for its devices.
#[derive(Clone, Copy, Debug, PartialEq, Eq, Structural)]
pub struct DeviceEnumerationError;

/// Whether a device can capture.
pub open spec fn can_capture(device: DeviceView) -> bool {
    device.supports_capture
}

/// The devices among `all` that can capture, in the order of `all`.
pub open spec fn capture_capable(all: Seq<DeviceView>) -> Seq<DeviceView> {
    all.filter(|d: DeviceView| can_capture(d))
}

/// The first device of `devices` with the identifier `id`.
pub open spec fn lookup(devices: Seq<DeviceView>, id: Seq<char>) -> Option<DeviceView>
    decreases devices.len(),
{
    if devices.len() == 0 {
        None
    } else if devices.first().id == id {
        Some(devices.first())
    } else {
        lookup(devices.drop_first(), id)
    }
}

/// A lookup fails exactly when no device has the identifier; one that
/// succeeds gives a device of the sequence with that identifier.
pub proof fn lookup_finds_what_is_listed(devices: Seq<DeviceView>, id: Seq<char>)
    ensures
        lookup(devices, id) is None <==> forall|i: int|
            0 <= i < devices.len() ==> (#[trigger] devices[i]).id != id,
        lookup(devices, id) matches Some(d) ==> d.id == id && devices.contains(d),
    decreases devices.len(),
{
    if devices.len() > 0 {
        let rest = devices.drop_first();
        lookup_finds_what_is_listed(rest, id);
        if devices.first().id == id {
            assert(devices[0].id == id);
            assert(devices.contains(devices[0]));
        } else {
            assert forall|i: int| 0 <= i < rest.len() implies rest[i] == devices[i + 1] by {}
            if lookup(rest, id) is None {
                assert forall|i: int| 0 <= i < devices.len() implies (#[trigger] devices[i]).id
                    != id by {
                    if i > 0 {
                        assert(rest[i - 1] == devices[i]);
                    }
                }
            } else {
                let d = lookup(rest, id)->0;
                let k = choose|k: int| 0 <= k < rest.len() && rest[k] == d;
                assert(devices[k + 1] == d);
            }
        }
    }
}

/// Nothing but capture-capable devices is listed, and every one of them is.
pub proof fn listing_holds_the_capture_devices(all: Seq<DeviceView>)
    ensures
        forall|i: int|
            0 <= i < capture_capable(all).len() ==> (#[trigger] capture_capable(
                all,
            )[i]).supports_capture,
        forall|i: int|
            0 <= i < all.len() && all[i].supports_capture ==> capture_capable(all).contains(
                #[trigger] all[i],
            ),
        (forall|i: int| 0 <= i < all.len() ==> !(#[trigger] all[i]).supports_capture)
            ==> capture_capable(all).len() == 0,
{
    let pred = |d: DeviceView| can_capture(d);
    assert forall|i: int| 0 <= i < all.filter(pred).len() implies (#[trigger] all.filter(
        pred,
    )[i]).supports_capture by {
        all.lemma_filter_pred(pred, i);
    }
    assert forall|i: int| 0 <= i < all.len() && all[i].supports_capture implies all.filter(
        pred,
    ).contains(#[trigger] all[i]) by {
        all.lemma_filter_contains(pred, i);
    }
    if forall|i: int| 0 <= i < all.len() ==> !(#[trigger] all[i]).supports_capture {
        if all.filter(pred).len() > 0 {
            all.lemma_filter_pred(pred, 0);
            let d = all.filter(pred)[0];
            assert(all.filter(pred).contains(d));
            all.lemma_filter_contains_rev(pred, d);
            let k = choose|k: int| 0 <= k < all.len() && all[k] == d;
            assert(!all[k].supports_capture);
        }
    }
}

/// The catalogue of capture devices. It keeps nothing: every listing is made
/// from what the host answered for that call.
pub struct DeviceCatalog;

impl DeviceCatalog {
    /// Lists the devices that can capture, in the host's order, from the
    /// host's answer to an enumeration: `None` where the host could not be
    /// asked. A host without capture devices gives an empty list, not an error.
    pub fn list_capture_devices(host_answer: Option<Vec<Device>>) -> (listing: Result<
        Vec<Device>,
        DeviceEnumerationError,
    >)
        ensures
            host_answer is None ==> listing is Err,
            host_answer matches Some(all) ==> (listing matches Ok(listed) && listed.deep_view()
                == capture_capable(all.deep_view())),
    {
        match host_answer {
            None => Err(DeviceEnumerationError),
            Some(all) => Ok(Self::capture_devices(&all)),
        }
    }

    /// The devices of `all` that can capture, in the order of `all`.
    pub fn capture_devices(all: &Vec<Device>) -> (listed: Vec<Device>)
        ensures
            listed.deep_view() == capture_capable(all.deep_view()),
    {
        let ghost pred = |d: DeviceView| can_capture(d);
        let mut listed: Vec<Device> = Vec::new();
        let mut i: usize = 0;
        proof {
            reveal(Seq::filter);
            assert(all.deep_view().take(0) =~= Seq::<DeviceView>::empty());
            assert(listed.deep_view() =~= Seq::<DeviceView>::empty());
        }
        while i < all.len()
            invariant
                i <= all.len(),
                pred == |d: DeviceView| can_capture(d),
                listed.deep_view() == all.deep_view().take(i as int).filter(pred),
            decreases all.len() - i,
        {
            let ghost before = listed.deep_view();
            proof {
                reveal(Seq::filter);
                let next = all.deep_view().take(i + 1);
                assert(next.drop_last() =~= all.deep_view().take(i as int));
                assert(next.last() == all[i as int]@);
            }
            if all[i].supports_capture {
                listed.push(all[i].clone());
                proof {
                    assert(listed.deep_view() =~= before.push(all[i as int]@));
                }
            } else {
                proof {
                    assert(listed.deep_view() =~= before);
                }
            }
            i += 1;
        }
        proof {
            assert(all.deep_view().take(i as int) =~= all.deep_view());
        }
        listed
    }

    /// Position of the first device of `devices` with the identifier `id`.
    pub fn find(devices: &Vec<Device>, id: &String) -> (found: Option<usize>)
        ensures
            match found {
                Some(at) => {
                    &&& at < devices.len()
                    &&& devices[at as int]@.id == id@
                    &&& forall|j: int| 0 <= j < at ==> (#[trigger] devices[j])@.id != id@
                    &&& lookup(devices.deep_view(), id@) == Some(devices[at as int]@)
                },
                None => lookup(devices.deep_view(), id@) is None,
            },
    {
        let ghost all = devices.deep_view();
        let mut i: usize = 0;
        proof {
            assert(all.skip(0) =~= all);
        }
        while i < devices.len()
            invariant
                i <= devices.len(),
                all == devices.deep_view(),
                lookup(all, id@) == lookup(all.skip(i as int), id@),
                forall|j: int| 0 <= j < i ==> (#[trigger] devices[j])@.id != id@,
            decreases devices.len() - i,
        {
            proof {
                assert(all.skip(i as int).first() == devices[i as int]@);
                assert(all.skip(i as int).drop_first() =~= all.skip(i + 1));
            }
            if devices[i].id == *id {
                return Some(i);
            }
            i += 1;
        }
        None
    }
}

} // verus!
