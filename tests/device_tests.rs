use smarthome::device::{
    Device, DeviceState, Event, SmartSocket, SmartThermometer, StateEvent, SwitchOffEvent,
    SwitchOnEvent, STATE_EVENT_ID, SWITCH_OFF_EVENT_ID, SWITCH_ON_EVENT_ID,
};
use smarthome::error::DeviceError;
use smarthome::house::{RoomGetter, SmartHouse};
use smarthome::ident::new_id;
use smarthome::room::SmartRoom;

fn bits(x: f64) -> u64 {
    x.to_bits()
}

#[test]
fn socket_smart_socket_test() {
    let mut socket1 = SmartSocket::new("Socket1");
    assert_eq!(socket1.name(), "Socket1");
    assert!(!socket1.enabled());
    assert_eq!(f64::from_bits(socket1.load()), 0.0);

    socket1.switch_on();
    assert!(socket1.enabled());

    socket1.plug(bits(1000.0));
    assert_eq!(f64::from_bits(socket1.load()), 1000.0);

    socket1.switch_off();
    assert!(!socket1.enabled());
}

#[test]
fn thermometer_smart_thermometer_test() {
    let thermometer1 = SmartThermometer::new("Thermometer1", bits(20.0));
    assert_eq!(thermometer1.name(), "Thermometer1");
    assert_eq!(f64::from_bits(thermometer1.temperature()), 20.0);
}

#[test]
fn event_ids() {
    assert_eq!(StateEvent::new().id(), STATE_EVENT_ID);
    assert_eq!(SwitchOnEvent::new().id(), SWITCH_ON_EVENT_ID);
    assert_eq!(SwitchOffEvent::new().id(), SWITCH_OFF_EVENT_ID);
}

#[test]
fn socket_power_only_while_on() {
    let mut s = SmartSocket::new("Kettle");
    s.plug(bits(2000.0));
    assert_eq!(s.power(), None);
    s.switch_on();
    assert_eq!(s.power(), Some(bits(2000.0)));
}

#[test]
fn socket_notify() {
    let mut s = SmartSocket::new("Lamp");
    s.plug(bits(60.0));
    let on = s.notify(&SwitchOnEvent::new()).unwrap();
    assert_eq!(
        on,
        DeviceState::for_socket(s.id(), SWITCH_ON_EVENT_ID, true, Some(bits(60.0)))
    );
    let state = s.notify(&StateEvent::new()).unwrap();
    assert_eq!(state.enabled(), Some(true));
    assert_eq!(state.event_id(), STATE_EVENT_ID);
    let off = s.notify(&SwitchOffEvent::new()).unwrap();
    assert_eq!(off.enabled(), Some(false));
    assert_eq!(off.power(), None);
    assert_eq!(off.themperature(), None);
    assert_eq!(off.device_id(), s.id());
}

#[test]
fn thermometer_refuses_switching() {
    let mut t = SmartThermometer::new("T", bits(21.5));
    match t.notify(&SwitchOnEvent::new()) {
        Err(DeviceError::NotImplementedEvent(id)) => assert_eq!(id, SWITCH_ON_EVENT_ID),
        other => panic!("unexpected {:?}", other),
    }
    let s = t.notify(&StateEvent::new()).unwrap();
    assert_eq!(s, DeviceState::for_thermometer(t.id(), STATE_EVENT_ID, bits(21.5)));
    assert_eq!(s.enabled(), None);
}

#[test]
fn fresh_identifiers_are_version_four() {
    let a = new_id();
    let b = new_id();
    assert_ne!(a, b);
    assert_eq!((a >> 76) & 0xF, 4);
    assert_eq!((a >> 62) & 0x3, 2);
}

#[test]
fn smart_room_test() {
    let mut room1 = SmartRoom::new("Room1");
    assert_eq!(room1.name(), "Room1");

    let socket1 = SmartSocket::new("Socket1");
    let socket1_id = socket1.id();
    room1.add_device(Device::Socket(socket1));

    let thermometer1 = SmartThermometer::new("Thermometer1", bits(20.0));
    let thermometer1_id = thermometer1.id();
    room1.add_device(Device::Thermometer(thermometer1));

    let listed = room1.devices();
    assert_eq!(
        listed,
        vec![
            (socket1_id, "Socket1".to_string()),
            (thermometer1_id, "Thermometer1".to_string())
        ]
    );

    room1.remove_device(thermometer1_id);
    assert_eq!(room1.devices(), vec![(socket1_id, "Socket1".to_string())]);

    room1.remove_device_by_name("Socket1");
    assert_eq!(room1.devices().len(), 0);
}

#[test]
fn room_ignores_duplicate_names() {
    let mut room = SmartRoom::new("Hall");
    room.add_device(Device::Socket(SmartSocket::new("Lamp")));
    room.add_device(Device::Thermometer(SmartThermometer::new("Lamp", bits(1.0))));
    assert_eq!(room.devices().len(), 1);
    assert!(matches!(room.device_at(0), Device::Socket(_)));
}

#[test]
fn room_notify_unknown_device() {
    let mut room = SmartRoom::new("Hall");
    let missing = new_id();
    match room.notify(missing, &StateEvent::new()) {
        Err(DeviceError::IllegalDeviceId(id)) => assert_eq!(id, missing),
        other => panic!("unexpected {:?}", other),
    }
}

#[test]
fn smart_house_test() {
    let mut house1 = SmartHouse::new("House1");
    assert_eq!(house1.name(), "House1");
    assert_eq!(house1.room_count(), 0);

    let room1 = SmartRoom::new("Room1");
    let room1_id = room1.id();
    house1.add_room(room1);
    assert_eq!(house1.room_count(), 1);

    let room2 = SmartRoom::new("Room2");
    let room2_id = room2.id();
    house1.add_room(room2);
    assert_eq!(house1.room_count(), 2);

    let room2_ex = SmartRoom::new("Room2");
    house1.add_room(room2_ex);
    assert_eq!(house1.room_count(), 2);

    assert_eq!(
        house1.rooms(),
        vec![(room1_id, "Room1".to_string()), (room2_id, "Room2".to_string())]
    );

    house1.remove_room(room1_id);
    assert_eq!(house1.room_count(), 1);
    assert_eq!(house1.rooms(), vec![(room2_id, "Room2".to_string())]);

    house1.remove_room_by_name("Room2");
    assert_eq!(house1.room_count(), 0);
}

#[test]
fn smarthome2_tests_smart_home_test() {
    let socket1 = SmartSocket::new("Socket1");
    let socket1_id = socket1.id();
    let thermometer1 = SmartThermometer::new("Thermometer1", bits(20.0));
    let mut room1 = SmartRoom::new("Room1");
    let room1_id = room1.id();
    room1.add_device(Device::Socket(socket1));
    room1.add_device(Device::Thermometer(thermometer1));

    let socket2 = SmartSocket::new("Socket2");
    let thermometer2 = SmartThermometer::new("Thermometer2", bits(25.0));
    let mut room2 = SmartRoom::new("Room2");
    let room2_id = room2.id();
    room2.add_device(Device::Socket(socket2));
    room2.add_device(Device::Thermometer(thermometer2));

    let mut house1 = SmartHouse::new("House1");
    house1.add_room(room1);
    house1.add_room(room2);

    let room_ref = house1.get(room1_id).unwrap();
    assert_eq!(room_ref.id(), room1_id);
    assert_eq!(room_ref.name(), "Room1");

    let room_ref = house1.get("Room2").unwrap();
    assert_eq!(room_ref.id(), room2_id);
    assert_eq!(room_ref.name(), "Room2");

    house1
        .add_device(room2_id, Device::Socket(SmartSocket::new("Socket3")))
        .unwrap();
    let devices = house1.get(room2_id).unwrap().devices();
    assert_eq!(devices.len(), 3);
    assert!(devices.iter().any(|(_, name)| name == "Socket3"));

    house1
        .add_device(
            room1_id,
            Device::Thermometer(SmartThermometer::new("Thermometer3", bits(30.0))),
        )
        .unwrap();
    let devices = house1.get(room1_id).unwrap().devices();
    assert_eq!(devices.len(), 3);
    assert!(devices.iter().any(|(_, name)| name == "Thermometer3"));

    assert!(house1.get(new_id()).is_none());
    assert!(house1.get("Room1814").is_none());
    assert!(house1
        .add_device(new_id(), Device::Socket(SmartSocket::new("Mixer")))
        .is_err());

    let state = house1
        .notify(room1_id, socket1_id, &StateEvent::new())
        .unwrap();
    assert_eq!(state.device_id(), socket1_id);
    assert!(house1.notify(room1_id, new_id(), &StateEvent::new()).is_err());
    assert!(house1.notify(new_id(), new_id(), &StateEvent::new()).is_err());
}

#[test]
fn notify_by_names() {
    let mut room = SmartRoom::new("Kitchen");
    room.add_device(Device::Socket(SmartSocket::new("Kettle")));
    let mut house = SmartHouse::new("Home");
    house.add_room(room);
    let on = house
        .notify_by_names("Kitchen", "Kettle", &SwitchOnEvent::new())
        .unwrap();
    assert_eq!(on.enabled(), Some(true));
    match house.notify_by_names("Attic", "Kettle", &StateEvent::new()) {
        Err(DeviceError::IllegalRoomName(n)) => assert_eq!(n, "Attic"),
        other => panic!("unexpected {:?}", other),
    }
    match house.notify_by_names("Kitchen", "Mixer", &StateEvent::new()) {
        Err(DeviceError::IllegalDeviceName(n)) => assert_eq!(n, "Mixer"),
        other => panic!("unexpected {:?}", other),
    }
    let mut room = SmartRoom::new("Hall");
    room.add_device(Device::Socket(SmartSocket::new("Lamp")));
    assert_eq!(room.notify_by_name("Lamp", &SwitchOnEvent::new()).unwrap().enabled(), Some(true));
    assert!(room.notify_by_name("Fan", &StateEvent::new()).is_err());
}

#[test]
fn notify_all_collects_reports() {
    let mut room1 = SmartRoom::new("Room1");
    let s1 = SmartSocket::new("S1");
    let s1_id = s1.id();
    room1.add_device(Device::Socket(s1));
    room1.add_device(Device::Thermometer(SmartThermometer::new("T1", bits(20.0))));
    let mut room2 = SmartRoom::new("Room2");
    let s2 = SmartSocket::new("S2");
    let s2_id = s2.id();
    room2.add_device(Device::Socket(s2));
    let mut house = SmartHouse::new("Home");
    house.add_room(room1);
    house.add_room(room2);

    let on = house.notify_all(&SwitchOnEvent::new());
    assert_eq!(on.len(), 2);
    assert_eq!(on[0].device_id(), s1_id);
    assert_eq!(on[1].device_id(), s2_id);
    assert!(on.iter().all(|s| s.enabled() == Some(true)));

    let states = house.notify_all(&StateEvent::new());
    assert_eq!(states.len(), 3);
    assert_eq!(states[1].themperature(), Some(bits(20.0)));
}

#[test]
fn operators_add_and_remove() {
    let mut room = SmartRoom::new("Room1");
    let socket = SmartSocket::new("Socket1");
    let socket_id = socket.id();
    room += Device::Socket(socket);
    room += Device::Thermometer(SmartThermometer::new("Thermometer1", bits(20.0)));
    assert_eq!(room.devices().len(), 2);
    room -= socket_id;
    assert_eq!(room.devices().len(), 1);
    room -= "Thermometer1";
    assert_eq!(room.devices().len(), 0);

    let mut house = SmartHouse::new("House1");
    let room1 = SmartRoom::new("Room1");
    let room1_id = room1.id();
    house += room1;
    house += SmartRoom::new("Room2");
    house += SmartRoom::new("Room2");
    assert_eq!(house.room_count(), 2);
    house -= room1_id;
    house -= "Room2";
    assert_eq!(house.room_count(), 0);
}
