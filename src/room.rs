//! A room of the house: a named, ordered collection of devices whose names
//! are unique within the room.

use vstd::prelude::*;
use crate::device::{
    device_after, device_report, device_result, handles, Device, DeviceModel, DeviceState, Event,
};
use crate::error::DeviceError;
use crate::ident::new_id;

verus! {

/// The abstract value of a room.
pub ghost struct RoomModel {
    pub id: u128,
    pub name: Seq<char>,
    pub devices: Seq<DeviceModel>,
}

/// The abstract values of a sequence of devices.
pub open spec fn device_models(ds: Seq<Device>) -> Seq<DeviceModel> {
    Seq::new(ds.len(), |i: int| ds[i]@)
}

/// `i` is the first position of a device with identifier `id`.
pub open spec fn first_device_with_id(ds: Seq<DeviceModel>, id: u128, i: int) -> bool {
    0 <= i < ds.len() && ds[i].id() == id && forall|j: int| 0 <= j < i ==> ds[j].id() != id
}

/// `i` is the first position of a device named `name`.
pub open spec fn first_device_named(ds: Seq<DeviceModel>, name: Seq<char>, i: int) -> bool {
    0 <= i < ds.len() && ds[i].name() == name && forall|j: int| 0 <= j < i ==> ds[j].name() != name
}

/// Some device has identifier `id`.
pub open spec fn has_device_id(ds: Seq<DeviceModel>, id: u128) -> bool {
    exists|j: int| 0 <= j < ds.len() && ds[j].id() == id
}

/// Some device is named `name`.
pub open spec fn has_device_named(ds: Seq<DeviceModel>, name: Seq<char>) -> bool {
    exists|j: int| 0 <= j < ds.len() && ds[j].name() == name
}

/// The first position of a device with identifier `id`, when there is one.
pub open spec fn device_index(ds: Seq<DeviceModel>, id: u128) -> int {
    choose|i: int| first_device_with_id(ds, id, i)
}

/// The first position of a device named `name`, when there is one.
pub open spec fn device_index_by_name(ds: Seq<DeviceModel>, name: Seq<char>) -> int {
    choose|i: int| first_device_named(ds, name, i)
}

/// There is one first position of a device with a given identifier.
pub proof fn lemma_first_device_unique(ds: Seq<DeviceModel>, id: u128, i: int)
    requires
        first_device_with_id(ds, id, i),
    ensures
        has_device_id(ds, id),
        device_index(ds, id) == i,
{
    let k = device_index(ds, id);
    assert(first_device_with_id(ds, id, k));
    if k < i {
        assert(ds[k].id() != id);
    }
    if i < k {
        assert(ds[i].id() != id);
    }
}

/// Below any device with identifier `id` there is a first one.
pub proof fn lemma_first_device_below(ds: Seq<DeviceModel>, id: u128, j: int)
    requires
        0 <= j < ds.len(),
        ds[j].id() == id,
    ensures
        first_device_with_id(ds, id, device_index(ds, id)),
    decreases j,
{
    if forall|k: int| 0 <= k < j ==> ds[k].id() != id {
        assert(first_device_with_id(ds, id, j));
    } else {
        let k = choose|k: int| 0 <= k < j && ds[k].id() == id;
        lemma_first_device_below(ds, id, k);
    }
}

/// When some device has identifier `id`, `device_index` is the first one.
pub proof fn lemma_device_index(ds: Seq<DeviceModel>, id: u128)
    requires
        has_device_id(ds, id),
    ensures
        first_device_with_id(ds, id, device_index(ds, id)),
{
    let j = choose|j: int| 0 <= j < ds.len() && ds[j].id() == id;
    lemma_first_device_below(ds, id, j);
}

/// Below any device named `name` there is a first one.
pub proof fn lemma_first_named_below(ds: Seq<DeviceModel>, name: Seq<char>, j: int)
    requires
        0 <= j < ds.len(),
        ds[j].name() == name,
    ensures
        first_device_named(ds, name, device_index_by_name(ds, name)),
    decreases j,
{
    if forall|k: int| 0 <= k < j ==> ds[k].name() != name {
        assert(first_device_named(ds, name, j));
    } else {
        let k = choose|k: int| 0 <= k < j && ds[k].name() == name;
        lemma_first_named_below(ds, name, k);
    }
}

/// There is one first position of a device with a given name.
pub proof fn lemma_first_named_unique(ds: Seq<DeviceModel>, name: Seq<char>, i: int)
    requires
        first_device_named(ds, name, i),
    ensures
        has_device_named(ds, name),
        device_index_by_name(ds, name) == i,
{
    let k = device_index_by_name(ds, name);
    assert(first_device_named(ds, name, k));
    if k < i {
        assert(ds[k].name() != name);
    }
    if i < k {
        assert(ds[i].name() != name);
    }
}

/// The room after notifying the device at position `i` of an event.
pub open spec fn room_with_device_notified(r: RoomModel, i: int, event: u128) -> RoomModel {
    RoomModel { devices: r.devices.update(i, device_after(r.devices[i], event)), ..r }
}

/// The room after notifying its device with identifier `device_id` of an
/// event, and the outcome; `IllegalDeviceId` when no device has it.
pub open spec fn room_notify(r: RoomModel, device_id: u128, event: u128) -> (RoomModel, Result<
    DeviceState,
    DeviceError,
>) {
    if has_device_id(r.devices, device_id) {
        let i = device_index(r.devices, device_id);
        (room_with_device_notified(r, i, event), device_result(r.devices[i], event))
    } else {
        (r, Err(DeviceError::IllegalDeviceId(device_id)))
    }
}

/// The devices after each has handled an event.
pub open spec fn devices_after(ds: Seq<DeviceModel>, event: u128) -> Seq<DeviceModel> {
    Seq::new(ds.len(), |i: int| device_after(ds[i], event))
}

/// The states that the devices which handle an event report, in order.
pub open spec fn device_reports(ds: Seq<DeviceModel>, event: u128) -> Seq<DeviceState>
    decreases ds.len(),
{
    if ds.len() == 0 {
        Seq::empty()
    } else if handles(ds.last(), event) {
        device_reports(ds.drop_last(), event).push(device_report(ds.last(), event))
    } else {
        device_reports(ds.drop_last(), event)
    }
}

/// The devices whose identifier differs from `id`.
pub open spec fn without_device_id(ds: Seq<DeviceModel>, id: u128) -> Seq<DeviceModel> {
    ds.filter(|d: DeviceModel| d.id() != id)
}

/// The devices whose name differs from `name`.
pub open spec fn without_device_named(ds: Seq<DeviceModel>, name: Seq<char>) -> Seq<DeviceModel> {
    ds.filter(|d: DeviceModel| d.name() != name)
}

/// The identifiers and names of devices, in order.
pub open spec fn device_listing(ds: Seq<DeviceModel>) -> Seq<(u128, Seq<char>)> {
    Seq::new(ds.len(), |i: int| (ds[i].id(), ds[i].name()))
}

/// Views of identifier-name pairs.
pub open spec fn listing_view(v: Seq<(u128, String)>) -> Seq<(u128, Seq<char>)> {
    Seq::new(v.len(), |i: int| (v[i].0, v[i].1@))
}

/// A room of the house.
pub struct SmartRoom {
    id: u128,
    name: String,
    devices: Vec<Device>,
}

impl View for SmartRoom {
    type V = RoomModel;

    closed spec fn view(&self) -> RoomModel {
        RoomModel { id: self.id, name: self.name@, devices: device_models(self.devices@) }
    }
}

impl SmartRoom {
    /// An empty room with a fresh identifier.
    pub fn new(name: &str) -> (r: SmartRoom)
        ensures
            r@.name == name@,
            r@.devices == Seq::<DeviceModel>::empty(),
    {
        let r = SmartRoom { id: new_id(), name: name.to_owned(), devices: Vec::new() };
        assert(device_models(r.devices@) =~= Seq::<DeviceModel>::empty());
        r
    }

    /// The room's identifier.
    pub fn id(&self) -> (r: u128)
        ensures
            r == self@.id,
    {
        self.id
    }

    /// The room's name.
    pub fn name(&self) -> (r: &str)
        ensures
            r@ == self@.name,
    {
        self.name.as_str()
    }

    /// Whether the room has the given name.
    pub fn name_is(&self, name: &String) -> (r: bool)
        ensures
            r == (self@.name == name@),
    {
        self.name == *name
    }

    /// The identifiers and names of the room's devices, in order.
    pub fn devices(&self) -> (r: Vec<(u128, String)>)
        ensures
            listing_view(r@) == device_listing(self@.devices),
    {
        let mut out: Vec<(u128, String)> = Vec::new();
        let mut i: usize = 0;
        while i < self.devices.len()
            invariant
                i <= self.devices@.len(),
                out@.len() == i,
                listing_view(out@) == device_listing(device_models(self.devices@)).take(i as int),
            decreases self.devices@.len() - i,
        {
            let d = &self.devices[i];
            assert(device_models(self.devices@)[i as int] == self.devices@[i as int]@);
            let ghost before = out@;
            out.push((d.id(), d.name_string()));
            assert(out@ == before.push(out@[i as int]));
            i = i + 1;
            assert(listing_view(out@) =~= device_listing(device_models(self.devices@)).take(
                i as int,
            ));
        }
        assert(listing_view(out@) =~= device_listing(device_models(self.devices@)));
        out
    }

    /// The first position of a device with the given identifier.
    pub fn position(&self, device_id: u128) -> (r: Option<usize>)
        ensures
            r matches Some(i) ==> first_device_with_id(self@.devices, device_id, i as int),
            r is None ==> !has_device_id(self@.devices, device_id),
    {
        let mut i: usize = 0;
        while i < self.devices.len()
            invariant
                i <= self.devices@.len(),
                forall|j: int| 0 <= j < i ==> device_models(self.devices@)[j].id() != device_id,
            decreases self.devices@.len() - i,
        {
            if self.devices[i].id() == device_id {
                return Some(i);
            }
            i = i + 1;
        }
        None
    }

    /// The first position of a device with the given name.
    pub fn position_by_name(&self, name: &String) -> (r: Option<usize>)
        ensures
            r matches Some(i) ==> first_device_named(self@.devices, name@, i as int),
            r is None ==> !has_device_named(self@.devices, name@),
    {
        let mut i: usize = 0;
        while i < self.devices.len()
            invariant
                i <= self.devices@.len(),
                forall|j: int| 0 <= j < i ==> device_models(self.devices@)[j].name() != name@,
            decreases self.devices@.len() - i,
        {
            if self.devices[i].name_is(name) {
                return Some(i);
            }
            i = i + 1;
        }
        None
    }

    /// The device at a position.
    pub fn device_at(&self, i: usize) -> (r: &Device)
        requires
            i < self@.devices.len(),
        ensures
            r@ == self@.devices[i as int],
    {
        &self.devices[i]
    }

    /// Adds a device unless the room already has a device of that name.
    pub fn add_device(&mut self, device: Device)
        ensures
            has_device_named(old(self)@.devices, device@.name()) ==> final(self)@ == old(self)@,
            !has_device_named(old(self)@.devices, device@.name()) ==> final(self)@ == (RoomModel {
                devices: old(self)@.devices.push(device@),
                ..old(self)@
            }),
    {
        let name = device.name_string();
        match self.position_by_name(&name) {
            Some(_) => {},
            None => {
                self.devices.push(device);
                assert(device_models(self.devices@) =~= device_models(old(self).devices@).push(
                    device@,
                ));
            },
        }
    }

    /// Removes every device with the given identifier.
    pub fn remove_device(&mut self, device_id: u128)
        ensures
            final(self)@ == (RoomModel {
                devices: without_device_id(old(self)@.devices, device_id),
                ..old(self)@
            }),
    {
        let ghost pred = |d: DeviceModel| d.id() != device_id;
        let ghost all = device_models(self.devices@);
        let mut kept: Vec<Device> = Vec::new();
        let mut rest: Vec<Device> = Vec::new();
        std::mem::swap(&mut rest, &mut self.devices);
        let ghost k: int = 0;
        assert(device_models(rest@) =~= all.skip(0));
        while rest.len() > 0
            invariant
                0 <= k <= all.len(),
                device_models(rest@) == all.skip(k),
                device_models(kept@) == all.take(k).filter(pred),
                pred == (|d: DeviceModel| d.id() != device_id),
            decreases rest@.len(),
        {
            proof {
                assert(device_models(rest@).len() == rest@.len());
                assert(device_models(rest@)[0] == rest@[0]@);
                assert(all.skip(k)[0] == all[k]);
            }
            let ghost before = rest@;
            let d = rest.remove(0);
            proof {
                assert(d@ == all[k]);
                assert(device_models(rest@) =~= device_models(before).skip(1));
                assert(all.take(k + 1).drop_last() =~= all.take(k));
                assert(all.take(k + 1).last() == all[k]);
                reveal(Seq::filter);
            }
            if d.id() != device_id {
                kept.push(d);
                assert(device_models(kept@) =~= all.take(k + 1).filter(pred));
            } else {
                assert(device_models(kept@) =~= all.take(k + 1).filter(pred));
            }
            proof {
                k = k + 1;
            }
            assert(device_models(rest@) =~= all.skip(k));
        }
        assert(device_models(rest@).len() == rest@.len());
        assert(all.take(k) =~= all);
        self.devices = kept;
    }

    /// Removes every device with the given name.
    pub fn remove_device_by_name(&mut self, name: &str)
        ensures
            final(self)@ == (RoomModel {
                devices: without_device_named(old(self)@.devices, name@),
                ..old(self)@
            }),
    {
        let key = name.to_owned();
        let ghost pred = |d: DeviceModel| d.name() != name@;
        let ghost all = device_models(self.devices@);
        let mut kept: Vec<Device> = Vec::new();
        let mut rest: Vec<Device> = Vec::new();
        std::mem::swap(&mut rest, &mut self.devices);
        let ghost k: int = 0;
        assert(device_models(rest@) =~= all.skip(0));
        while rest.len() > 0
            invariant
                0 <= k <= all.len(),
                key@ == name@,
                device_models(rest@) == all.skip(k),
                device_models(kept@) == all.take(k).filter(pred),
                pred == (|d: DeviceModel| d.name() != name@),
            decreases rest@.len(),
        {
            proof {
                assert(device_models(rest@).len() == rest@.len());
                assert(device_models(rest@)[0] == rest@[0]@);
                assert(all.skip(k)[0] == all[k]);
            }
            let ghost before = rest@;
            let d = rest.remove(0);
            proof {
                assert(d@ == all[k]);
                assert(device_models(rest@) =~= device_models(before).skip(1));
                assert(all.take(k + 1).drop_last() =~= all.take(k));
                assert(all.take(k + 1).last() == all[k]);
                reveal(Seq::filter);
            }
            if !d.name_is(&key) {
                kept.push(d);
                assert(device_models(kept@) =~= all.take(k + 1).filter(pred));
            } else {
                assert(device_models(kept@) =~= all.take(k + 1).filter(pred));
            }
            proof {
                k = k + 1;
            }
            assert(device_models(rest@) =~= all.skip(k));
        }
        assert(device_models(rest@).len() == rest@.len());
        assert(all.take(k) =~= all);
        self.devices = kept;
    }

    /// Notifies the device at a position of an event.
    pub fn notify_at<E: Event>(&mut self, i: usize, e: &E) -> (r: Result<DeviceState, DeviceError>)
        requires
            i < old(self)@.devices.len(),
        ensures
            final(self)@ == room_with_device_notified(old(self)@, i as int, e.spec_id()),
            r == device_result(old(self)@.devices[i as int], e.spec_id()),
    {
        let r = self.devices[i].notify(e);
        assert(device_models(self.devices@) =~= old(self)@.devices.update(
            i as int,
            device_after(old(self)@.devices[i as int], e.spec_id()),
        ));
        r
    }

    /// Notifies every device of the room of an event, in order, and appends
    /// the states reported by those that handle it to `out`.
    pub fn notify_all<E: Event>(&mut self, e: &E, out: &mut Vec<DeviceState>)
        ensures
            final(self)@ == (RoomModel {
                devices: devices_after(old(self)@.devices, e.spec_id()),
                ..old(self)@
            }),
            final(out)@ == old(out)@ + device_reports(old(self)@.devices, e.spec_id()),
    {
        let ghost all = self@.devices;
        let ghost ev = e.spec_id();
        let ghost start = out@;
        let mut i: usize = 0;
        assert(all.take(0) =~= Seq::<DeviceModel>::empty());
        while i < self.devices.len()
            invariant
                i <= all.len(),
                ev == e.spec_id(),
                all == old(self)@.devices,
                self.devices@.len() == all.len(),
                self.id == old(self).id,
                self.name@ == old(self).name@,
                forall|j: int| 0 <= j < i ==> #[trigger] device_models(self.devices@)[j] == device_after(all[j], ev),
                forall|j: int| i <= j < all.len() ==> #[trigger] device_models(self.devices@)[j] == all[j],
                out@ == start + device_reports(all.take(i as int), ev),
            decreases all.len() - i,
        {
            let ghost before = self.devices@;
            assert(device_models(before)[i as int] == before[i as int]@);
            assert(before[i as int]@ == all[i as int]);
            let r = self.devices[i].notify(e);
            proof {
                assert(self.devices@[i as int]@ == device_after(all[i as int], ev));
                assert(device_models(self.devices@)[i as int] == self.devices@[i as int]@);
                assert(r == device_result(all[i as int], ev));
                assert(all.take(i + 1).drop_last() =~= all.take(i as int));
                assert(all.take(i + 1).last() == all[i as int]);
                assert forall|j: int| 0 <= j < all.len() implies #[trigger] device_models(
                    self.devices@,
                )[j] == (if j <= i {
                    device_after(all[j], ev)
                } else {
                    all[j]
                }) by {
                    if j != i {
                        assert(self.devices@[j] == before[j]);
                        assert(device_models(before)[j] == before[j]@);
                    }
                }
            }
            let ghost prev_out = out@;
            match r {
                Ok(s) => {
                    out.push(s);
                },
                Err(_) => {},
            }
            proof {
                let t = all.take(i + 1);
                assert(device_reports(t, ev) == if handles(t.last(), ev) {
                    device_reports(t.drop_last(), ev).push(device_report(t.last(), ev))
                } else {
                    device_reports(t.drop_last(), ev)
                });
                assert(out@ =~= start + device_reports(t, ev));
            }
            i = i + 1;
        }
        assert(all.take(i as int) =~= all);
        assert(device_models(self.devices@) =~= devices_after(all, ev));
    }

    /// Notifies the room's device with the given name of an event;
    /// `IllegalDeviceName` when no device has that name.
    pub fn notify_by_name<E: Event>(&mut self, name: &str, e: &E) -> (r: Result<DeviceState, DeviceError>)
        ensures
            has_device_named(old(self)@.devices, name@) ==> final(self)@ == room_with_device_notified(
                old(self)@,
                device_index_by_name(old(self)@.devices, name@),
                e.spec_id(),
            ) && r == device_result(
                old(self)@.devices[device_index_by_name(old(self)@.devices, name@)],
                e.spec_id(),
            ),
            !has_device_named(old(self)@.devices, name@) ==> final(self)@ == old(self)@ && (r matches Err(
                DeviceError::IllegalDeviceName(n),
            ) && n@ == name@),
    {
        let key = name.to_owned();
        match self.position_by_name(&key) {
            Some(i) => {
                proof {
                    lemma_first_named_unique(self@.devices, name@, i as int);
                }
                self.notify_at(i, e)
            },
            None => Err(DeviceError::IllegalDeviceName(key)),
        }
    }

    /// Notifies the room's device with the given identifier of an event.
    pub fn notify<E: Event>(&mut self, device_id: u128, e: &E) -> (r: Result<DeviceState, DeviceError>)
        ensures
            (final(self)@, r) == room_notify(old(self)@, device_id, e.spec_id()),
    {
        match self.position(device_id) {
            Some(i) => {
                proof {
                    lemma_first_device_unique(self@.devices, device_id, i as int);
                }
                self.notify_at(i, e)
            },
            None => Err(DeviceError::IllegalDeviceId(device_id)),
        }
    }
}

impl std::ops::AddAssign<Device> for SmartRoom {
    /// Adds a device unless the room already has a device of that name.
    fn add_assign(&mut self, device: Device) {
        self.add_device(device);
    }
}

impl std::ops::SubAssign<u128> for SmartRoom {
    /// Removes every device with the given identifier.
    fn sub_assign(&mut self, device_id: u128) {
        self.remove_device(device_id);
    }
}

impl<'a> std::ops::SubAssign<&'a str> for SmartRoom {
    /// Removes every device with the given name.
    fn sub_assign(&mut self, device_name: &'a str) {
        self.remove_device_by_name(device_name);
    }
}

} // verus!
