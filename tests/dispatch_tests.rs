use smarthome::codec::{decode_frame, encode_frame, CONTROL_RESPONSE_ID};
use smarthome::device::{
    Device, DeviceState, SmartSocket, SmartThermometer, StateEvent, SwitchOffEvent, SwitchOnEvent,
    STATE_EVENT_ID, SWITCH_OFF_EVENT_ID,
};
use smarthome::dispatch::{
    dispatch, dispatch_socket, expect_name, expect_state, remote_request, Reply,
};
use smarthome::error::{DeviceError, RequestError};
use smarthome::house::SmartHouse;
use smarthome::ident::{id_text, new_id};
use smarthome::message::{ControlRequest, ControlRequestData, ControlResponse, ControlResponseData};
use smarthome::room::SmartRoom;

struct Fixture {
    house: SmartHouse,
    room_id: u128,
    socket_id: u128,
    thermometer_id: u128,
}

fn fixture() -> Fixture {
    let mut socket = SmartSocket::new("Socket1");
    socket.plug(1500.0f64.to_bits());
    let socket_id = socket.id();
    let thermometer = SmartThermometer::new("Thermometer1", 19.5f64.to_bits());
    let thermometer_id = thermometer.id();
    let mut room = SmartRoom::new("Room1");
    let room_id = room.id();
    room.add_device(Device::Socket(socket));
    room.add_device(Device::Thermometer(thermometer));
    let mut house = SmartHouse::new("House1");
    house.add_room(room);
    Fixture { house, room_id, socket_id, thermometer_id }
}

fn respond(r: Reply) -> ControlResponse {
    match r {
        Reply::Respond(resp) => resp,
        Reply::Describe(..) => panic!("unexpected description"),
    }
}

#[test]
fn uuid_text_is_hyphenated_lowercase() {
    assert_eq!(
        id_text(0x67e5504410b1426f9247bb680e5fe0c8),
        "67e55044-10b1-426f-9247-bb680e5fe0c8"
    );
    assert_eq!(id_text(0), "00000000-0000-0000-0000-000000000000");
}

#[test]
fn unknown_device_then_valid_request() {
    let mut f = fixture();
    let missing = 0x0123456789abcdef0123456789abcdefu128;
    let resp = respond(dispatch(
        &mut f.house,
        &ControlRequest::acquire_device_state(f.room_id, missing),
    ));
    let expected = "illegal device identifier 01234567-89ab-cdef-0123-456789abcdef";
    assert_eq!(resp.error(), Some(expected));
    let frame = encode_frame(CONTROL_RESPONSE_ID, &[0]).unwrap();
    assert_eq!(&frame[..2], &[0, 2]);
    assert!(decode_frame(CONTROL_RESPONSE_ID, &frame).is_ok());

    let resp = respond(dispatch(
        &mut f.house,
        &ControlRequest::acquire_device_state(f.room_id, f.socket_id),
    ));
    let state = resp.state().unwrap();
    assert_eq!(state.device_id(), f.socket_id);
    assert_eq!(state.event_id(), STATE_EVENT_ID);
}

#[test]
fn unknown_room_is_reported() {
    let mut f = fixture();
    let missing = new_id();
    let resp = respond(dispatch(&mut f.house, &ControlRequest::acquire_devices(missing)));
    let text = resp.error().unwrap().to_string();
    assert_eq!(text, format!("illegal room identifier {}", id_text(missing)));
}

#[test]
fn repeated_state_queries_agree() {
    let mut f = fixture();
    let req = ControlRequest::acquire_device_state(f.room_id, f.socket_id);
    let a = respond(dispatch(&mut f.house, &req)).state().unwrap();
    let b = respond(dispatch(&mut f.house, &req)).state().unwrap();
    assert_eq!(a, b);
    assert_eq!(a, DeviceState::for_socket(f.socket_id, STATE_EVENT_ID, false, None));
}

#[test]
fn switches_apply_in_order() {
    let mut f = fixture();
    respond(dispatch(&mut f.house, &ControlRequest::switch_on_device(f.room_id, f.socket_id)));
    let off = respond(dispatch(
        &mut f.house,
        &ControlRequest::switch_off_device(f.room_id, f.socket_id),
    ))
    .state()
    .unwrap();
    assert_eq!(off.event_id(), SWITCH_OFF_EVENT_ID);
    let seen = respond(dispatch(
        &mut f.house,
        &ControlRequest::acquire_device_state(f.room_id, f.socket_id),
    ))
    .state()
    .unwrap();
    assert_eq!(seen.enabled(), Some(false));
    assert_eq!(seen.power(), None);

    respond(dispatch(&mut f.house, &ControlRequest::switch_off_device(f.room_id, f.socket_id)));
    respond(dispatch(&mut f.house, &ControlRequest::switch_on_device(f.room_id, f.socket_id)));
    let seen = respond(dispatch(
        &mut f.house,
        &ControlRequest::acquire_device_state(f.room_id, f.socket_id),
    ))
    .state()
    .unwrap();
    assert_eq!(seen.enabled(), Some(true));
    assert_eq!(seen.power(), Some(1500.0f64.to_bits()));
}

#[test]
fn thermometer_cannot_be_switched() {
    let mut f = fixture();
    let resp = respond(dispatch(
        &mut f.house,
        &ControlRequest::switch_on_device(f.room_id, f.thermometer_id),
    ));
    assert_eq!(
        resp.error().unwrap(),
        "the event 56848c21-6600-48d9-a50a-9a0f83486408 is not implemented"
    );
}

#[test]
fn listings() {
    let mut f = fixture();
    let rooms = respond(dispatch(&mut f.house, &ControlRequest::acquire_rooms()));
    match rooms.data {
        ControlResponseData::List(v) => assert_eq!(v, vec![(f.room_id, "Room1".to_string())]),
        _ => panic!("expected a list"),
    }
    let devices = respond(dispatch(&mut f.house, &ControlRequest::acquire_devices(f.room_id)));
    match devices.data {
        ControlResponseData::List(v) => assert_eq!(
            v,
            vec![
                (f.socket_id, "Socket1".to_string()),
                (f.thermometer_id, "Thermometer1".to_string())
            ]
        ),
        _ => panic!("expected a list"),
    }
}

#[test]
fn info_request_describes_device() {
    let mut f = fixture();
    match dispatch(&mut f.house, &ControlRequest::acquire_device_info(f.room_id, f.thermometer_id)) {
        Reply::Describe(name, state) => {
            assert_eq!(name, "Thermometer1");
            assert_eq!(state.themperature(), Some(19.5f64.to_bits()));
        }
        Reply::Respond(_) => panic!("expected a description"),
    }
}

#[test]
fn remote_requests_are_unexpected_for_a_house() {
    let mut f = fixture();
    let resp = respond(dispatch(&mut f.house, &ControlRequest::switch_on_remote_device()));
    assert_eq!(resp.error(), Some("unexpected message"));
}

#[test]
fn socket_server_dispatch() {
    let mut socket = SmartSocket::new("Remote");
    let id = socket.id();
    let name = dispatch_socket(&mut socket, &ControlRequest::acquire_remote_device_name());
    assert_eq!(name.name(), Some((id, "Remote")));
    let on = dispatch_socket(&mut socket, &ControlRequest::switch_on_remote_device());
    assert_eq!(on.state().unwrap().enabled(), Some(true));
    assert!(socket.enabled());
    let off = dispatch_socket(&mut socket, &ControlRequest::switch_off_remote_device());
    assert_eq!(off.state().unwrap().enabled(), Some(false));
    let state = dispatch_socket(&mut socket, &ControlRequest::acquire_remote_device_state());
    assert_eq!(state.state().unwrap().event_id(), STATE_EVENT_ID);
    let other = dispatch_socket(&mut socket, &ControlRequest::acquire_rooms());
    assert_eq!(other.error(), Some("unexpected message"));
}

#[test]
fn client_side_checks() {
    let state = DeviceState::for_socket(5, STATE_EVENT_ID, true, None);
    let resp = ControlResponse::with_state(state);
    assert_eq!(expect_state(&resp, 5).unwrap(), state);
    assert!(matches!(expect_state(&resp, 6), Err(DeviceError::UnexpectedMessage)));
    assert!(matches!(expect_name(&resp), Err(DeviceError::UnexpectedMessage)));
    let (id, name) = expect_name(&ControlResponse::with_name(9, "Plug")).unwrap();
    assert_eq!((id, name.as_str()), (9, "Plug"));
    assert_eq!(ControlResponse::with_info("text").info(), Some("text"));

    let err = ControlResponse::with_error(&DeviceError::IllegalRoomName("Attic".to_string()));
    match err.into_result() {
        Err(RequestError::Srv(text)) => assert_eq!(text, "illegal room name \"Attic\""),
        _ => panic!("expected a server error"),
    }
    assert!(ControlResponse::with_state(state).into_result().is_ok());
}

#[test]
fn error_texts() {
    assert_eq!(
        DeviceError::IllegalDeviceName("Mixer".to_string()).text(),
        "illegal device name \"Mixer\""
    );
    assert_eq!(DeviceError::UnexpectedMessage.text(), "unexpected message");
    assert_eq!(
        DeviceError::IllegalRoomId(1).text(),
        "illegal room identifier 00000000-0000-0000-0000-000000000001"
    );
}

#[test]
fn events_map_to_remote_requests() {
    assert_eq!(
        remote_request(&StateEvent::new()).unwrap().data,
        ControlRequestData::AcquireRemoteDeviceState
    );
    assert_eq!(
        remote_request(&SwitchOnEvent::new()).unwrap().data,
        ControlRequestData::SwitchOnRemoteDevice
    );
    assert_eq!(
        remote_request(&SwitchOffEvent::new()).unwrap().data,
        ControlRequestData::SwitchOffRemoteDevice
    );
}
