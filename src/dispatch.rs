//! The dispatcher: maps each decoded request to one operation on the shared
//! state and to exactly one response. Failures of the operation become error
//! responses; nothing here ends a connection.
//!
//! The caller holds the lock of the shared aggregate for the duration of one
//! call, so requests from all connections are applied one at a time, each to
//! the state the previous one left.

use vstd::prelude::*;
use crate::device::{
    device_result, socket_after, DeviceModel, DeviceState, SmartSocket, SocketModel,
    StateEvent, SwitchOffEvent, SwitchOnEvent, STATE_EVENT_ID, SWITCH_OFF_EVENT_ID,
    SWITCH_ON_EVENT_ID,
};
use crate::error::{device_error_text, DeviceError};
use crate::house::{
    first_room_with_id, has_room_id, house_notify, lemma_first_room_unique, lemma_room_index,
    room_index,
    room_listing, HouseModel, RoomGetter, SmartHouse,
};
use crate::message::{
    ControlRequest, ControlRequestData, ControlResponse, ResponseModel,
};
use crate::room::{
    device_index, device_listing, first_device_with_id, has_device_id, lemma_device_index,
    lemma_first_device_unique,
    room_notify, room_with_device_notified, RoomModel,
};

verus! {

/// What the dispatcher hands back: a response to send, or the state and
/// name of a device whose description the caller renders and sends as an
/// `Info` response.
pub enum Reply {
    Respond(ControlResponse),
    Describe(String, DeviceState),
}

/// The abstract value of a reply.
pub ghost enum ReplyModel {
    Respond(ResponseModel),
    Describe(Seq<char>, DeviceState),
}

impl View for Reply {
    type V = ReplyModel;

    open spec fn view(&self) -> ReplyModel {
        match self {
            Reply::Respond(r) => ReplyModel::Respond(r@),
            Reply::Describe(name, state) => ReplyModel::Describe(name@, *state),
        }
    }
}

/// The response that reports the outcome of a device operation.
pub open spec fn outcome_response(r: Result<DeviceState, DeviceError>) -> ResponseModel {
    match r {
        Ok(s) => ResponseModel::State(s),
        Err(e) => ResponseModel::Error(device_error_text(e)),
    }
}

/// The device addressed by room and device identifiers, in a house where it
/// exists.
pub open spec fn addressed_device(h: HouseModel, room_id: u128, device_id: u128) -> DeviceModel {
    let room = h.rooms[room_index(h.rooms, room_id)];
    room.devices[device_index(room.devices, device_id)]
}

/// The house after a request and the reply to it.
pub open spec fn dispatch_spec(h: HouseModel, req: ControlRequestData) -> (HouseModel, ReplyModel) {
    match req {
        ControlRequestData::AcquireRooms => (
            h,
            ReplyModel::Respond(ResponseModel::List(room_listing(h.rooms))),
        ),
        ControlRequestData::AcquireDevices(room_id) => if has_room_id(h.rooms, room_id) {
            (
                h,
                ReplyModel::Respond(
                    ResponseModel::List(device_listing(h.rooms[room_index(h.rooms, room_id)].devices)),
                ),
            )
        } else {
            (
                h,
                ReplyModel::Respond(
                    ResponseModel::Error(device_error_text(DeviceError::IllegalRoomId(room_id))),
                ),
            )
        },
        ControlRequestData::AcquireDeviceState(room_id, device_id) => {
            let (h2, r) = house_notify(h, room_id, device_id, STATE_EVENT_ID);
            (h2, ReplyModel::Respond(outcome_response(r)))
        },
        ControlRequestData::AcquireDeviceInfo(room_id, device_id) => {
            let (h2, r) = house_notify(h, room_id, device_id, STATE_EVENT_ID);
            match r {
                Ok(s) => (
                    h2,
                    ReplyModel::Describe(addressed_device(h, room_id, device_id).name(), s),
                ),
                Err(e) => (h2, ReplyModel::Respond(ResponseModel::Error(device_error_text(e)))),
            }
        },
        ControlRequestData::SwitchOnDevice(room_id, device_id) => {
            let (h2, r) = house_notify(h, room_id, device_id, SWITCH_ON_EVENT_ID);
            (h2, ReplyModel::Respond(outcome_response(r)))
        },
        ControlRequestData::SwitchOffDevice(room_id, device_id) => {
            let (h2, r) = house_notify(h, room_id, device_id, SWITCH_OFF_EVENT_ID);
            (h2, ReplyModel::Respond(outcome_response(r)))
        },
        _ => (
            h,
            ReplyModel::Respond(
                ResponseModel::Error(device_error_text(DeviceError::UnexpectedMessage)),
            ),
        ),
    }
}

/// Notifying a device of a state query leaves the room as it was.
pub proof fn lemma_room_state_query_keeps(r: RoomModel, device_id: u128)
    ensures
        room_notify(r, device_id, STATE_EVENT_ID).0 == r,
{
    if has_device_id(r.devices, device_id) {
        let i = device_index(r.devices, device_id);
        lemma_device_index(r.devices, device_id);
        assert(room_with_device_notified(r, i, STATE_EVENT_ID).devices =~= r.devices);
    }
}

/// Notifying a device of a state query leaves the house as it was.
pub proof fn lemma_state_query_keeps(h: HouseModel, room_id: u128, device_id: u128)
    ensures
        house_notify(h, room_id, device_id, STATE_EVENT_ID).0 == h,
{
    if has_room_id(h.rooms, room_id) {
        let i = room_index(h.rooms, room_id);
        lemma_room_index(h.rooms, room_id);
        lemma_room_state_query_keeps(h.rooms[i], device_id);
        assert(h.rooms.update(i, h.rooms[i]) =~= h.rooms);
    }
}

/// Applies one request to the house and returns the reply. The lock of the
/// house is the caller's: it is held for exactly this call.
pub fn dispatch(house: &mut SmartHouse, req: &ControlRequest) -> (r: Reply)
    ensures
        (final(house)@, r@) == dispatch_spec(old(house)@, req.data),
{
    match req.data {
        ControlRequestData::AcquireRooms => Reply::Respond(ControlResponse::with_list(house.rooms())),
        ControlRequestData::AcquireDevices(room_id) => match house.get(room_id) {
            Some(room) => Reply::Respond(ControlResponse::with_list(room.devices())),
            None => Reply::Respond(ControlResponse::with_error(&DeviceError::IllegalRoomId(room_id))),
        },
        ControlRequestData::AcquireDeviceState(room_id, device_id) => {
            let r = house.notify(room_id, device_id, &StateEvent::new());
            respond_outcome(r)
        },
        ControlRequestData::AcquireDeviceInfo(room_id, device_id) => {
            proof {
                lemma_state_query_keeps(house@, room_id, device_id);
            }
            let r = house.notify(room_id, device_id, &StateEvent::new());
            match r {
                Ok(s) => {
                    let name = describe_name(house, room_id, device_id);
                    Reply::Describe(name, s)
                },
                Err(e) => Reply::Respond(ControlResponse::with_error(&e)),
            }
        },
        ControlRequestData::SwitchOnDevice(room_id, device_id) => {
            let r = house.notify(room_id, device_id, &SwitchOnEvent::new());
            respond_outcome(r)
        },
        ControlRequestData::SwitchOffDevice(room_id, device_id) => {
            let r = house.notify(room_id, device_id, &SwitchOffEvent::new());
            respond_outcome(r)
        },
        _ => Reply::Respond(ControlResponse::with_error(&DeviceError::UnexpectedMessage)),
    }
}

/// The response reporting the outcome of a device operation.
fn respond_outcome(r: Result<DeviceState, DeviceError>) -> (out: Reply)
    ensures
        out@ == ReplyModel::Respond(outcome_response(r)),
{
    match r {
        Ok(s) => Reply::Respond(ControlResponse::with_state(s)),
        Err(e) => Reply::Respond(ControlResponse::with_error(&e)),
    }
}

/// The name of the device addressed by room and device identifiers, in a
/// house where it exists.
fn describe_name(house: &SmartHouse, room_id: u128, device_id: u128) -> (r: String)
    requires
        house_notify(house@, room_id, device_id, STATE_EVENT_ID).1 is Ok,
    ensures
        r@ == addressed_device(house@, room_id, device_id).name(),
{
    let room = house.get(room_id).unwrap();
    let i = room.position(device_id).unwrap();
    proof {
        lemma_first_device_unique(room@.devices, device_id, i as int);
    }
    room.device_at(i).name_string()
}

/// The single device served by a remote-device server after a request, and
/// the response to it.
pub open spec fn socket_dispatch_spec(s: SocketModel, req: ControlRequestData) -> (
    SocketModel,
    ResponseModel,
) {
    match req {
        ControlRequestData::AcquireRemoteDeviceState => (
            s,
            outcome_response(device_result(DeviceModel::Socket(s), STATE_EVENT_ID)),
        ),
        ControlRequestData::AcquireRemoteDeviceName => (s, ResponseModel::Name(s.id, s.name)),
        ControlRequestData::SwitchOnRemoteDevice => (
            socket_after(s, SWITCH_ON_EVENT_ID),
            outcome_response(device_result(DeviceModel::Socket(s), SWITCH_ON_EVENT_ID)),
        ),
        ControlRequestData::SwitchOffRemoteDevice => (
            socket_after(s, SWITCH_OFF_EVENT_ID),
            outcome_response(device_result(DeviceModel::Socket(s), SWITCH_OFF_EVENT_ID)),
        ),
        _ => (s, ResponseModel::Error(device_error_text(DeviceError::UnexpectedMessage))),
    }
}

/// Applies one request to the socket owned by a remote-device server and
/// returns the response.
pub fn dispatch_socket(socket: &mut SmartSocket, req: &ControlRequest) -> (r: ControlResponse)
    ensures
        (final(socket)@, r@) == socket_dispatch_spec(old(socket)@, req.data),
{
    match req.data {
        ControlRequestData::AcquireRemoteDeviceState => {
            let r = socket.notify(&StateEvent::new());
            response_of(r)
        },
        ControlRequestData::AcquireRemoteDeviceName => ControlResponse::with_name(
            socket.id(),
            socket.name(),
        ),
        ControlRequestData::SwitchOnRemoteDevice => {
            let r = socket.notify(&SwitchOnEvent::new());
            response_of(r)
        },
        ControlRequestData::SwitchOffRemoteDevice => {
            let r = socket.notify(&SwitchOffEvent::new());
            response_of(r)
        },
        _ => ControlResponse::with_error(&DeviceError::UnexpectedMessage),
    }
}

/// The response reporting the outcome of a device operation.
fn response_of(r: Result<DeviceState, DeviceError>) -> (out: ControlResponse)
    ensures
        out@ == outcome_response(r),
{
    match r {
        Ok(s) => ControlResponse::with_state(s),
        Err(e) => ControlResponse::with_error(&e),
    }
}

/// The device state in a response from a remote device, which must be the
/// device with the given identifier; `UnexpectedMessage` otherwise.
pub fn expect_state(resp: &ControlResponse, device_id: u128) -> (r: Result<DeviceState, DeviceError>)
    ensures
        (resp@ is State && resp@->State_0.device_id == device_id) ==> r == Ok::<
            DeviceState,
            DeviceError,
        >(resp@->State_0),
        !(resp@ is State && resp@->State_0.device_id == device_id) ==> r == Err::<
            DeviceState,
            DeviceError,
        >(DeviceError::UnexpectedMessage),
{
    match resp.state() {
        Some(s) => if s.device_id() == device_id {
            Ok(s)
        } else {
            Err(DeviceError::UnexpectedMessage)
        },
        None => Err(DeviceError::UnexpectedMessage),
    }
}

/// The identifier and name in a response from a remote device;
/// `UnexpectedMessage` when the response carries none.
pub fn expect_name(resp: &ControlResponse) -> (r: Result<(u128, String), DeviceError>)
    ensures
        resp@ matches ResponseModel::Name(id, name) ==> (r matches Ok(p) && p.0 == id && p.1@
            == name),
        !(resp@ is Name) ==> r == Err::<(u128, String), DeviceError>(DeviceError::UnexpectedMessage),
{
    match resp.name() {
        Some(p) => Ok((p.0, p.1.to_owned())),
        None => Err(DeviceError::UnexpectedMessage),
    }
}

/// The request that carries an event to a remote device: a state query, a
/// switch-on or a switch-off; `NotImplementedEvent` for any other event.
pub fn remote_request<E: crate::device::Event>(e: &E) -> (r: Result<ControlRequest, DeviceError>)
    ensures
        e.spec_id() == STATE_EVENT_ID ==> r == Ok::<ControlRequest, DeviceError>(
            ControlRequest::of(ControlRequestData::AcquireRemoteDeviceState),
        ),
        e.spec_id() == SWITCH_ON_EVENT_ID ==> r == Ok::<ControlRequest, DeviceError>(
            ControlRequest::of(ControlRequestData::SwitchOnRemoteDevice),
        ),
        e.spec_id() == SWITCH_OFF_EVENT_ID ==> r == Ok::<ControlRequest, DeviceError>(
            ControlRequest::of(ControlRequestData::SwitchOffRemoteDevice),
        ),
        !(e.spec_id() == STATE_EVENT_ID || e.spec_id() == SWITCH_ON_EVENT_ID || e.spec_id()
            == SWITCH_OFF_EVENT_ID) ==> r == Err::<ControlRequest, DeviceError>(
            DeviceError::NotImplementedEvent(e.spec_id()),
        ),
{
    let id = e.id();
    if id == STATE_EVENT_ID {
        Ok(ControlRequest::acquire_remote_device_state())
    } else if id == SWITCH_ON_EVENT_ID {
        Ok(ControlRequest::switch_on_remote_device())
    } else if id == SWITCH_OFF_EVENT_ID {
        Ok(ControlRequest::switch_off_remote_device())
    } else {
        Err(DeviceError::NotImplementedEvent(id))
    }
}

/// Repeated state queries against a device that nothing else changes leave
/// the house as it was and get the same reply each time.
pub proof fn lemma_query_state_idempotent(h: HouseModel, room_id: u128, device_id: u128)
    ensures
        dispatch_spec(h, ControlRequestData::AcquireDeviceState(room_id, device_id)).0 == h,
        dispatch_spec(
            dispatch_spec(h, ControlRequestData::AcquireDeviceState(room_id, device_id)).0,
            ControlRequestData::AcquireDeviceState(room_id, device_id),
        ).1 == dispatch_spec(h, ControlRequestData::AcquireDeviceState(room_id, device_id)).1,
{
    lemma_state_query_keeps(h, room_id, device_id);
}

/// The device addressed by room and device identifiers exists.
pub open spec fn addresses_device(h: HouseModel, room_id: u128, device_id: u128) -> bool {
    has_room_id(h.rooms, room_id) && has_device_id(
        h.rooms[room_index(h.rooms, room_id)].devices,
        device_id,
    )
}

/// Notifying an existing device changes that device alone, as its kind
/// handles the event, and leaves it reachable by the same identifiers.
pub proof fn lemma_notify_addressed(h: HouseModel, room_id: u128, device_id: u128, event: u128)
    requires
        addresses_device(h, room_id, device_id),
    ensures
        addresses_device(house_notify(h, room_id, device_id, event).0, room_id, device_id),
        addressed_device(house_notify(h, room_id, device_id, event).0, room_id, device_id)
            == crate::device::device_after(addressed_device(h, room_id, device_id), event),
        house_notify(h, room_id, device_id, event).1 == device_result(
            addressed_device(h, room_id, device_id),
            event,
        ),
{
    let i = room_index(h.rooms, room_id);
    lemma_room_index(h.rooms, room_id);
    let room = h.rooms[i];
    let k = device_index(room.devices, device_id);
    lemma_device_index(room.devices, device_id);
    let h1 = house_notify(h, room_id, device_id, event).0;
    let room1 = room_with_device_notified(room, k, event);
    assert(h1.rooms == h.rooms.update(i, room1));
    assert(first_room_with_id(h1.rooms, room_id, i));
    lemma_first_room_unique(h1.rooms, room_id, i);
    let d1 = crate::device::device_after(room.devices[k], event);
    assert(d1.id() == room.devices[k].id());
    assert(first_device_with_id(room1.devices, device_id, k));
    lemma_first_device_unique(room1.devices, device_id, k);
}

/// Switch requests from different connections are applied one after the
/// other, each to the state the previous one left: switching a socket on
/// and then off leaves it off, and switching it off and then on leaves it
/// on, as any later state query reports.
pub proof fn lemma_switches_serialized(h: HouseModel, room_id: u128, device_id: u128)
    requires
        addresses_device(h, room_id, device_id),
        addressed_device(h, room_id, device_id) is Socket,
    ensures
        ({
            let on = ControlRequestData::SwitchOnDevice(room_id, device_id);
            let off = ControlRequestData::SwitchOffDevice(room_id, device_id);
            let query = ControlRequestData::AcquireDeviceState(room_id, device_id);
            let h_on_off = dispatch_spec(dispatch_spec(h, on).0, off).0;
            let h_off_on = dispatch_spec(dispatch_spec(h, off).0, on).0;
            &&& dispatch_spec(h_on_off, query).1 matches ReplyModel::Respond(
                ResponseModel::State(s),
            ) && s.device_id == device_id && s.enabled == Some(false) && s.power is None
            &&& dispatch_spec(h_off_on, query).1 matches ReplyModel::Respond(
                ResponseModel::State(s),
            ) && s.device_id == device_id && s.enabled == Some(true)
        }),
{
    let d = addressed_device(h, room_id, device_id);
    lemma_notify_addressed(h, room_id, device_id, SWITCH_ON_EVENT_ID);
    let h1 = house_notify(h, room_id, device_id, SWITCH_ON_EVENT_ID).0;
    lemma_notify_addressed(h1, room_id, device_id, SWITCH_OFF_EVENT_ID);
    let h2 = house_notify(h1, room_id, device_id, SWITCH_OFF_EVENT_ID).0;
    lemma_notify_addressed(h2, room_id, device_id, STATE_EVENT_ID);
    lemma_notify_addressed(h, room_id, device_id, SWITCH_OFF_EVENT_ID);
    let g1 = house_notify(h, room_id, device_id, SWITCH_OFF_EVENT_ID).0;
    lemma_notify_addressed(g1, room_id, device_id, SWITCH_ON_EVENT_ID);
    let g2 = house_notify(g1, room_id, device_id, SWITCH_ON_EVENT_ID).0;
    lemma_notify_addressed(g2, room_id, device_id, STATE_EVENT_ID);
    assert(d.id() == device_id) by {
        lemma_room_index(h.rooms, room_id);
        lemma_device_index(h.rooms[room_index(h.rooms, room_id)].devices, device_id);
    }
}

} // verus!
