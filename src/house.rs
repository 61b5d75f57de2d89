//! The house: the aggregate of rooms that the dispatcher works on. Room
//! names are unique within the house.

use vstd::prelude::*;
use crate::device::{device_result, DeviceState, Event};
use crate::error::DeviceError;
use crate::ident::new_id;
use crate::room::{
    device_reports, devices_after, device_index_by_name, has_device_named, room_notify, room_with_device_notified, RoomModel,
    SmartRoom,
};

verus! {

/// The abstract value of a house.
pub ghost struct HouseModel {
    pub id: u128,
    pub name: Seq<char>,
    pub rooms: Seq<RoomModel>,
}

/// The abstract values of a sequence of rooms.
pub open spec fn room_models(rs: Seq<SmartRoom>) -> Seq<RoomModel> {
    Seq::new(rs.len(), |i: int| rs[i]@)
}

/// `i` is the first position of a room with identifier `id`.
pub open spec fn first_room_with_id(rs: Seq<RoomModel>, id: u128, i: int) -> bool {
    0 <= i < rs.len() && rs[i].id == id && forall|j: int| 0 <= j < i ==> rs[j].id != id
}

/// `i` is the first position of a room named `name`.
pub open spec fn first_room_named(rs: Seq<RoomModel>, name: Seq<char>, i: int) -> bool {
    0 <= i < rs.len() && rs[i].name == name && forall|j: int| 0 <= j < i ==> rs[j].name != name
}

/// Some room has identifier `id`.
pub open spec fn has_room_id(rs: Seq<RoomModel>, id: u128) -> bool {
    exists|j: int| 0 <= j < rs.len() && rs[j].id == id
}

/// Some room is named `name`.
pub open spec fn has_room_named(rs: Seq<RoomModel>, name: Seq<char>) -> bool {
    exists|j: int| 0 <= j < rs.len() && rs[j].name == name
}

/// The first position of a room with identifier `id`, when there is one.
pub open spec fn room_index(rs: Seq<RoomModel>, id: u128) -> int {
    choose|i: int| first_room_with_id(rs, id, i)
}

/// There is one first position of a room with a given identifier.
pub proof fn lemma_first_room_unique(rs: Seq<RoomModel>, id: u128, i: int)
    requires
        first_room_with_id(rs, id, i),
    ensures
        has_room_id(rs, id),
        room_index(rs, id) == i,
{
    let k = room_index(rs, id);
    assert(first_room_with_id(rs, id, k));
    if k < i {
        assert(rs[k].id != id);
    }
    if i < k {
        assert(rs[i].id != id);
    }
}

/// Below any room with identifier `id` there is a first one.
pub proof fn lemma_first_room_below(rs: Seq<RoomModel>, id: u128, j: int)
    requires
        0 <= j < rs.len(),
        rs[j].id == id,
    ensures
        first_room_with_id(rs, id, room_index(rs, id)),
    decreases j,
{
    if forall|k: int| 0 <= k < j ==> rs[k].id != id {
        assert(first_room_with_id(rs, id, j));
    } else {
        let k = choose|k: int| 0 <= k < j && rs[k].id == id;
        lemma_first_room_below(rs, id, k);
    }
}

/// When some room has identifier `id`, `room_index` is the first one.
pub proof fn lemma_room_index(rs: Seq<RoomModel>, id: u128)
    requires
        has_room_id(rs, id),
    ensures
        first_room_with_id(rs, id, room_index(rs, id)),
{
    let j = choose|j: int| 0 <= j < rs.len() && rs[j].id == id;
    lemma_first_room_below(rs, id, j);
}

/// The first position of a room named `name`, when there is one.
pub open spec fn room_index_by_name(rs: Seq<RoomModel>, name: Seq<char>) -> int {
    choose|i: int| first_room_named(rs, name, i)
}

/// There is one first position of a room with a given name.
pub proof fn lemma_first_room_named_unique(rs: Seq<RoomModel>, name: Seq<char>, i: int)
    requires
        first_room_named(rs, name, i),
    ensures
        has_room_named(rs, name),
        room_index_by_name(rs, name) == i,
{
    let k = room_index_by_name(rs, name);
    assert(first_room_named(rs, name, k));
    if k < i {
        assert(rs[k].name != name);
    }
    if i < k {
        assert(rs[i].name != name);
    }
}

/// The room a key designates: the first one with that identifier.
pub open spec fn room_by_id(rs: Seq<RoomModel>, id: u128) -> Option<RoomModel> {
    if has_room_id(rs, id) {
        Some(rs[room_index(rs, id)])
    } else {
        None
    }
}

/// The room a key designates: the first one with that name.
pub open spec fn room_by_name(rs: Seq<RoomModel>, name: Seq<char>) -> Option<RoomModel> {
    if has_room_named(rs, name) {
        Some(rs[room_index_by_name(rs, name)])
    } else {
        None
    }
}

/// The rooms after every device has handled an event.
pub open spec fn rooms_after(rs: Seq<RoomModel>, event: u128) -> Seq<RoomModel> {
    Seq::new(rs.len(), |i: int| RoomModel { devices: devices_after(rs[i].devices, event), ..rs[i] })
}

/// The states reported by every device that handles an event, room by
/// room, in order.
pub open spec fn house_reports(rs: Seq<RoomModel>, event: u128) -> Seq<DeviceState>
    decreases rs.len(),
{
    if rs.len() == 0 {
        Seq::empty()
    } else {
        house_reports(rs.drop_last(), event) + device_reports(rs.last().devices, event)
    }
}

/// Looks up a room of a house by a key: an identifier or a name.
pub trait RoomGetter<T> {
    /// The room that the key designates, if any.
    spec fn spec_room(&self, idx: T) -> Option<RoomModel>;

    /// The room that the key designates, if any.
    fn get(&self, idx: T) -> (r: Option<&SmartRoom>)
        ensures
            r is None <==> self.spec_room(idx) is None,
            r matches Some(room) ==> self.spec_room(idx) == Some(room@),
    ;
}

/// The house after notifying a device, addressed by room and device
/// identifiers, of an event, and the outcome: the device's own outcome,
/// `IllegalRoomId` when no room has the identifier, `IllegalDeviceId` when
/// the room has no device with it.
pub open spec fn house_notify(h: HouseModel, room_id: u128, device_id: u128, event: u128) -> (
    HouseModel,
    Result<DeviceState, DeviceError>,
) {
    if has_room_id(h.rooms, room_id) {
        let i = room_index(h.rooms, room_id);
        let (room, r) = room_notify(h.rooms[i], device_id, event);
        (HouseModel { rooms: h.rooms.update(i, room), ..h }, r)
    } else {
        (h, Err(DeviceError::IllegalRoomId(room_id)))
    }
}

/// The rooms whose identifier differs from `id`.
pub open spec fn without_room_id(rs: Seq<RoomModel>, id: u128) -> Seq<RoomModel> {
    rs.filter(|r: RoomModel| r.id != id)
}

/// The rooms whose name differs from `name`.
pub open spec fn without_room_named(rs: Seq<RoomModel>, name: Seq<char>) -> Seq<RoomModel> {
    rs.filter(|r: RoomModel| r.name != name)
}

/// The identifiers and names of rooms, in order.
pub open spec fn room_listing(rs: Seq<RoomModel>) -> Seq<(u128, Seq<char>)> {
    Seq::new(rs.len(), |i: int| (rs[i].id, rs[i].name))
}

/// A smart house.
pub struct SmartHouse {
    id: u128,
    name: String,
    rooms: Vec<SmartRoom>,
}

impl View for SmartHouse {
    type V = HouseModel;

    closed spec fn view(&self) -> HouseModel {
        HouseModel { id: self.id, name: self.name@, rooms: room_models(self.rooms@) }
    }
}

impl SmartHouse {
    /// An empty house with a fresh identifier.
    pub fn new(name: &str) -> (r: SmartHouse)
        ensures
            r@.name == name@,
            r@.rooms == Seq::<RoomModel>::empty(),
    {
        let r = SmartHouse { id: new_id(), name: name.to_owned(), rooms: Vec::new() };
        assert(room_models(r.rooms@) =~= Seq::<RoomModel>::empty());
        r
    }

    /// The house's identifier.
    pub fn id(&self) -> (r: u128)
        ensures
            r == self@.id,
    {
        self.id
    }

    /// The house's name.
    pub fn name(&self) -> (r: &str)
        ensures
            r@ == self@.name,
    {
        self.name.as_str()
    }

    /// The number of rooms.
    pub fn room_count(&self) -> (r: usize)
        ensures
            r == self@.rooms.len(),
    {
        self.rooms.len()
    }

    /// The identifiers and names of all rooms, in order.
    pub fn rooms(&self) -> (r: Vec<(u128, String)>)
        ensures
            crate::room::listing_view(r@) == room_listing(self@.rooms),
    {
        let mut out: Vec<(u128, String)> = Vec::new();
        let mut i: usize = 0;
        while i < self.rooms.len()
            invariant
                i <= self.rooms@.len(),
                out@.len() == i,
                crate::room::listing_view(out@) == room_listing(room_models(self.rooms@)).take(
                    i as int,
                ),
            decreases self.rooms@.len() - i,
        {
            let r = &self.rooms[i];
            assert(room_models(self.rooms@)[i as int] == self.rooms@[i as int]@);
            let ghost before = out@;
            out.push((r.id(), r.name().to_owned()));
            assert(out@ == before.push(out@[i as int]));
            i = i + 1;
            assert(crate::room::listing_view(out@) =~= room_listing(room_models(self.rooms@)).take(
                i as int,
            ));
        }
        assert(crate::room::listing_view(out@) =~= room_listing(room_models(self.rooms@)));
        out
    }

    /// The first position of a room with the given identifier.
    pub fn position(&self, room_id: u128) -> (r: Option<usize>)
        ensures
            r matches Some(i) ==> first_room_with_id(self@.rooms, room_id, i as int),
            r is None ==> !has_room_id(self@.rooms, room_id),
    {
        let mut i: usize = 0;
        while i < self.rooms.len()
            invariant
                i <= self.rooms@.len(),
                forall|j: int| 0 <= j < i ==> room_models(self.rooms@)[j].id != room_id,
            decreases self.rooms@.len() - i,
        {
            if self.rooms[i].id() == room_id {
                return Some(i);
            }
            i = i + 1;
        }
        None
    }

    /// The first position of a room with the given name.
    pub fn position_by_name(&self, name: &String) -> (r: Option<usize>)
        ensures
            r matches Some(i) ==> first_room_named(self@.rooms, name@, i as int),
            r is None ==> !has_room_named(self@.rooms, name@),
    {
        let mut i: usize = 0;
        while i < self.rooms.len()
            invariant
                i <= self.rooms@.len(),
                forall|j: int| 0 <= j < i ==> room_models(self.rooms@)[j].name != name@,
            decreases self.rooms@.len() - i,
        {
            if self.rooms[i].name_is(name) {
                return Some(i);
            }
            i = i + 1;
        }
        None
    }

    /// Adds a room unless the house already has a room of that name.
    pub fn add_room(&mut self, room: SmartRoom)
        ensures
            has_room_named(old(self)@.rooms, room@.name) ==> final(self)@ == old(self)@,
            !has_room_named(old(self)@.rooms, room@.name) ==> final(self)@ == (HouseModel {
                rooms: old(self)@.rooms.push(room@),
                ..old(self)@
            }),
    {
        let name = room.name().to_owned();
        match self.position_by_name(&name) {
            Some(_) => {},
            None => {
                self.rooms.push(room);
                assert(room_models(self.rooms@) =~= room_models(old(self).rooms@).push(room@));
            },
        }
    }

    /// Removes every room with the given identifier.
    pub fn remove_room(&mut self, room_id: u128)
        ensures
            final(self)@ == (HouseModel {
                rooms: without_room_id(old(self)@.rooms, room_id),
                ..old(self)@
            }),
    {
        let ghost pred = |r: RoomModel| r.id != room_id;
        let ghost all = room_models(self.rooms@);
        let mut kept: Vec<SmartRoom> = Vec::new();
        let mut rest: Vec<SmartRoom> = Vec::new();
        std::mem::swap(&mut rest, &mut self.rooms);
        let ghost k: int = 0;
        assert(room_models(rest@) =~= all.skip(0));
        while rest.len() > 0
            invariant
                0 <= k <= all.len(),
                room_models(rest@) == all.skip(k),
                room_models(kept@) == all.take(k).filter(pred),
                pred == (|r: RoomModel| r.id != room_id),
            decreases rest@.len(),
        {
            proof {
                assert(room_models(rest@).len() == rest@.len());
                assert(room_models(rest@)[0] == rest@[0]@);
                assert(all.skip(k)[0] == all[k]);
            }
            let ghost before = rest@;
            let r = rest.remove(0);
            proof {
                assert(r@ == all[k]);
                assert(room_models(rest@) =~= room_models(before).skip(1));
                assert(all.take(k + 1).drop_last() =~= all.take(k));
                assert(all.take(k + 1).last() == all[k]);
                reveal(Seq::filter);
            }
            if r.id() != room_id {
                kept.push(r);
                assert(room_models(kept@) =~= all.take(k + 1).filter(pred));
            } else {
                assert(room_models(kept@) =~= all.take(k + 1).filter(pred));
            }
            proof {
                k = k + 1;
            }
            assert(room_models(rest@) =~= all.skip(k));
        }
        assert(room_models(rest@).len() == rest@.len());
        assert(all.take(k) =~= all);
        self.rooms = kept;
    }

    /// Removes every room with the given name.
    pub fn remove_room_by_name(&mut self, name: &str)
        ensures
            final(self)@ == (HouseModel {
                rooms: without_room_named(old(self)@.rooms, name@),
                ..old(self)@
            }),
    {
        let key = name.to_owned();
        let ghost pred = |r: RoomModel| r.name != name@;
        let ghost all = room_models(self.rooms@);
        let mut kept: Vec<SmartRoom> = Vec::new();
        let mut rest: Vec<SmartRoom> = Vec::new();
        std::mem::swap(&mut rest, &mut self.rooms);
        let ghost k: int = 0;
        assert(room_models(rest@) =~= all.skip(0));
        while rest.len() > 0
            invariant
                0 <= k <= all.len(),
                key@ == name@,
                room_models(rest@) == all.skip(k),
                room_models(kept@) == all.take(k).filter(pred),
                pred == (|r: RoomModel| r.name != name@),
            decreases rest@.len(),
        {
            proof {
                assert(room_models(rest@).len() == rest@.len());
                assert(room_models(rest@)[0] == rest@[0]@);
                assert(all.skip(k)[0] == all[k]);
            }
            let ghost before = rest@;
            let r = rest.remove(0);
            proof {
                assert(r@ == all[k]);
                assert(room_models(rest@) =~= room_models(before).skip(1));
                assert(all.take(k + 1).drop_last() =~= all.take(k));
                assert(all.take(k + 1).last() == all[k]);
                reveal(Seq::filter);
            }
            if !r.name_is(&key) {
                kept.push(r);
                assert(room_models(kept@) =~= all.take(k + 1).filter(pred));
            } else {
                assert(room_models(kept@) =~= all.take(k + 1).filter(pred));
            }
            proof {
                k = k + 1;
            }
            assert(room_models(rest@) =~= all.skip(k));
        }
        assert(room_models(rest@).len() == rest@.len());
        assert(all.take(k) =~= all);
        self.rooms = kept;
    }

    /// Adds a device to the room with the given identifier; `IllegalRoomId`
    /// when no room has it.
    pub fn add_device(&mut self, room_id: u128, device: crate::device::Device) -> (r: Result<(), DeviceError>)
        ensures
            r is Ok <==> has_room_id(old(self)@.rooms, room_id),
            r matches Err(e) ==> e == DeviceError::IllegalRoomId(room_id) && final(self)@ == old(self)@,
            r is Ok ==> final(self)@.rooms.len() == old(self)@.rooms.len(),
    {
        match self.position(room_id) {
            Some(i) => {
                self.rooms[i].add_device(device);
                assert(room_models(self.rooms@).len() == old(self)@.rooms.len());
                Ok(())
            },
            None => Err(DeviceError::IllegalRoomId(room_id)),
        }
    }

    /// Notifies a device, addressed by room and device identifiers, of an
    /// event.
    pub fn notify<E: Event>(&mut self, room_id: u128, device_id: u128, e: &E) -> (r: Result<
        DeviceState,
        DeviceError,
    >)
        ensures
            (final(self)@, r) == house_notify(old(self)@, room_id, device_id, e.spec_id()),
    {
        match self.position(room_id) {
            Some(i) => {
                proof {
                    lemma_first_room_unique(self@.rooms, room_id, i as int);
                }
                let r = self.rooms[i].notify(device_id, e);
                assert(room_models(self.rooms@) =~= old(self)@.rooms.update(
                    i as int,
                    room_notify(old(self)@.rooms[i as int], device_id, e.spec_id()).0,
                ));
                r
            },
            None => Err(DeviceError::IllegalRoomId(room_id)),
        }
    }
}

impl std::ops::AddAssign<SmartRoom> for SmartHouse {
    /// Adds a room unless the house already has a room of that name.
    fn add_assign(&mut self, room: SmartRoom) {
        self.add_room(room);
    }
}

impl std::ops::SubAssign<u128> for SmartHouse {
    /// Removes every room with the given identifier.
    fn sub_assign(&mut self, room_id: u128) {
        self.remove_room(room_id);
    }
}

impl<'a> std::ops::SubAssign<&'a str> for SmartHouse {
    /// Removes every room with the given name.
    fn sub_assign(&mut self, room_name: &'a str) {
        self.remove_room_by_name(room_name);
    }
}

impl RoomGetter<u128> for SmartHouse {
    open spec fn spec_room(&self, idx: u128) -> Option<RoomModel> {
        room_by_id(self@.rooms, idx)
    }

    fn get(&self, idx: u128) -> (r: Option<&SmartRoom>) {
        match self.position(idx) {
            Some(i) => {
                proof {
                    lemma_first_room_unique(self@.rooms, idx, i as int);
                }
                Some(&self.rooms[i])
            },
            None => None,
        }
    }
}

impl<'a> RoomGetter<&'a str> for SmartHouse {
    open spec fn spec_room(&self, idx: &'a str) -> Option<RoomModel> {
        room_by_name(self@.rooms, idx@)
    }

    fn get(&self, idx: &'a str) -> (r: Option<&SmartRoom>) {
        let key = idx.to_owned();
        match self.position_by_name(&key) {
            Some(i) => {
                proof {
                    lemma_first_room_named_unique(self@.rooms, idx@, i as int);
                }
                Some(&self.rooms[i])
            },
            None => None,
        }
    }
}

impl SmartHouse {
    /// Notifies every device of the house of an event and returns the
    /// states reported by those that handle it.
    pub fn notify_all<E: Event>(&mut self, e: &E) -> (r: Vec<DeviceState>)
        ensures
            final(self)@ == (HouseModel { rooms: rooms_after(old(self)@.rooms, e.spec_id()), ..old(self)@ }),
            r@ == house_reports(old(self)@.rooms, e.spec_id()),
    {
        let ghost all = self@.rooms;
        let ghost ev = e.spec_id();
        let mut out: Vec<DeviceState> = Vec::new();
        let mut i: usize = 0;
        assert(all.take(0) =~= Seq::<RoomModel>::empty());
        while i < self.rooms.len()
            invariant
                i <= all.len(),
                ev == e.spec_id(),
                all == old(self)@.rooms,
                self.rooms@.len() == all.len(),
                self.id == old(self).id,
                self.name@ == old(self).name@,
                forall|j: int| 0 <= j < i ==> #[trigger] room_models(self.rooms@)[j] == rooms_after(all, ev)[j],
                forall|j: int| i <= j < all.len() ==> #[trigger] room_models(self.rooms@)[j] == all[j],
                out@ == house_reports(all.take(i as int), ev),
            decreases all.len() - i,
        {
            let ghost before = self.rooms@;
            assert(room_models(before)[i as int] == before[i as int]@);
            let ghost prev_out = out@;
            self.rooms[i].notify_all(e, &mut out);
            proof {
                assert(room_models(self.rooms@)[i as int] == self.rooms@[i as int]@);
                assert forall|j: int| 0 <= j < all.len() implies #[trigger] room_models(
                    self.rooms@,
                )[j] == (if j <= i {
                    rooms_after(all, ev)[j]
                } else {
                    all[j]
                }) by {
                    if j != i {
                        assert(self.rooms@[j] == before[j]);
                        assert(room_models(before)[j] == before[j]@);
                    }
                }
                let t = all.take(i + 1);
                assert(t.drop_last() =~= all.take(i as int));
                assert(t.last() == all[i as int]);
            }
            i = i + 1;
        }
        assert(all.take(i as int) =~= all);
        assert(room_models(self.rooms@) =~= rooms_after(all, ev));
        out
    }

    /// Notifies a device, addressed by room and device names, of an event;
    /// `IllegalRoomName` when no room has the name, `IllegalDeviceName` when
    /// the room has no device of that name.
    pub fn notify_by_names<E: Event>(&mut self, room_name: &str, device_name: &str, e: &E) -> (r:
        Result<DeviceState, DeviceError>)
        ensures
            !has_room_named(old(self)@.rooms, room_name@) ==> final(self)@ == old(self)@ && (r matches Err(
                DeviceError::IllegalRoomName(n),
            ) && n@ == room_name@),
            has_room_named(old(self)@.rooms, room_name@) ==> ({
                let i = room_index_by_name(old(self)@.rooms, room_name@);
                let room = old(self)@.rooms[i];
                if has_device_named(room.devices, device_name@) {
                    let k = device_index_by_name(room.devices, device_name@);
                    &&& final(self)@ == (HouseModel {
                        rooms: old(self)@.rooms.update(
                            i,
                            room_with_device_notified(room, k, e.spec_id()),
                        ),
                        ..old(self)@
                    })
                    &&& r == device_result(room.devices[k], e.spec_id())
                } else {
                    &&& final(self)@ == old(self)@
                    &&& r matches Err(DeviceError::IllegalDeviceName(n)) && n@ == device_name@
                }
            }),
    {
        let key = room_name.to_owned();
        match self.position_by_name(&key) {
            Some(i) => {
                proof {
                    lemma_first_room_named_unique(self@.rooms, room_name@, i as int);
                }
                let r = self.rooms[i].notify_by_name(device_name, e);
                proof {
                    let room = old(self)@.rooms[i as int];
                    if has_device_named(room.devices, device_name@) {
                        assert(room_models(self.rooms@) =~= old(self)@.rooms.update(
                            i as int,
                            room_with_device_notified(
                                room,
                                device_index_by_name(room.devices, device_name@),
                                e.spec_id(),
                            ),
                        ));
                    } else {
                        assert(room_models(self.rooms@) =~= old(self)@.rooms);
                    }
                }
                r
            },
            None => Err(DeviceError::IllegalRoomName(key)),
        }
    }
}

} // verus!
