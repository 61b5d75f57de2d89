//! Devices: a smart socket and a smart thermometer, the events they react
//! to, and the state snapshot they report.
//!
//! Measured quantities (power in watts, temperature in degrees Celsius) are
//! carried as the bit patterns of IEEE-754 doubles: the logic here only
//! stores and reports them, and converting to and from `f64` is left to the
//! caller.

use vstd::prelude::*;
use crate::error::DeviceError;
use crate::ident::new_id;

verus! {

/// Identifier of the event that asks a device for its current state.
pub const STATE_EVENT_ID: u128 = 0xc346ee2a_4cd1_4e46_8ca7_5b329721187e;

/// Identifier of the event that switches a socket on.
pub const SWITCH_ON_EVENT_ID: u128 = 0x56848c21_6600_48d9_a50a_9a0f83486408;

/// Identifier of the event that switches a socket off.
pub const SWITCH_OFF_EVENT_ID: u128 = 0x4ca18a36_38e0_410a_9c71_ccf4f109ebd4;

/// An event a device can be notified of.
pub trait Event {
    /// The identifier of the event's class.
    spec fn spec_id(&self) -> u128;

    /// The identifier of the event's class.
    fn id(&self) -> (r: u128)
        ensures
            r == self.spec_id(),
    ;
}

/// Asks a device for its current state.
pub struct StateEvent {}

impl StateEvent {
    /// The state query.
    pub fn new() -> StateEvent {
        StateEvent {}
    }
}

impl Event for StateEvent {
    open spec fn spec_id(&self) -> u128 {
        STATE_EVENT_ID
    }

    fn id(&self) -> u128 {
        STATE_EVENT_ID
    }
}

/// Switches a socket on.
pub struct SwitchOnEvent {}

impl SwitchOnEvent {
    /// The switch-on command.
    pub fn new() -> SwitchOnEvent {
        SwitchOnEvent {}
    }
}

impl Event for SwitchOnEvent {
    open spec fn spec_id(&self) -> u128 {
        SWITCH_ON_EVENT_ID
    }

    fn id(&self) -> u128 {
        SWITCH_ON_EVENT_ID
    }
}

/// Switches a socket off.
pub struct SwitchOffEvent {}

impl SwitchOffEvent {
    /// The switch-off command.
    pub fn new() -> SwitchOffEvent {
        SwitchOffEvent {}
    }
}

impl Event for SwitchOffEvent {
    open spec fn spec_id(&self) -> u128 {
        SWITCH_OFF_EVENT_ID
    }

    fn id(&self) -> u128 {
        SWITCH_OFF_EVENT_ID
    }
}

/// What a device reports after handling an event. A socket fills `enabled`
/// and, while switched on, `power`; a thermometer fills `themperature`.
#[derive(Debug, Clone, Copy, PartialEq, Eq, Structural)]
pub struct DeviceState {
    /// The device that reports.
    pub device_id: u128,
    /// The event that was handled.
    pub event_id: u128,
    /// Bit pattern of the measured temperature.
    pub themperature: Option<u64>,
    /// Whether the device is switched on.
    pub enabled: Option<bool>,
    /// Bit pattern of the power drawn.
    pub power: Option<u64>,
}

impl DeviceState {
    /// The state of a socket.
    pub fn for_socket(device_id: u128, event_id: u128, enabled: bool, power: Option<u64>) -> (r:
        DeviceState)
        ensures
            r == (DeviceState {
                device_id,
                event_id,
                themperature: None,
                enabled: Some(enabled),
                power,
            }),
    {
        DeviceState { device_id, event_id, themperature: None, enabled: Some(enabled), power }
    }

    /// The state of a thermometer.
    pub fn for_thermometer(device_id: u128, event_id: u128, themperature: u64) -> (r:
        DeviceState)
        ensures
            r == (DeviceState {
                device_id,
                event_id,
                themperature: Some(themperature),
                enabled: None,
                power: None,
            }),
    {
        DeviceState {
            device_id,
            event_id,
            themperature: Some(themperature),
            enabled: None,
            power: None,
        }
    }

    /// The device that reports.
    pub fn device_id(&self) -> (r: u128)
        ensures
            r == self.device_id,
    {
        self.device_id
    }

    /// The event that was handled.
    pub fn event_id(&self) -> (r: u128)
        ensures
            r == self.event_id,
    {
        self.event_id
    }

    /// Bit pattern of the measured temperature, for a thermometer.
    pub fn themperature(&self) -> (r: Option<u64>)
        ensures
            r == self.themperature,
    {
        self.themperature
    }

    /// Whether the device is switched on, for a socket.
    pub fn enabled(&self) -> (r: Option<bool>)
        ensures
            r == self.enabled,
    {
        self.enabled
    }

    /// Bit pattern of the power drawn, for a socket that is switched on.
    pub fn power(&self) -> (r: Option<u64>)
        ensures
            r == self.power,
    {
        self.power
    }
}

/// The abstract value of a socket.
pub ghost struct SocketModel {
    pub id: u128,
    pub name: Seq<char>,
    pub enabled: bool,
    pub power: u64,
}

/// The abstract value of a thermometer.
pub ghost struct ThermometerModel {
    pub id: u128,
    pub name: Seq<char>,
    pub temperature: u64,
}

/// The abstract value of a device.
pub ghost enum DeviceModel {
    Socket(SocketModel),
    Thermometer(ThermometerModel),
}

impl DeviceModel {
    pub open spec fn id(self) -> u128 {
        match self {
            DeviceModel::Socket(s) => s.id,
            DeviceModel::Thermometer(t) => t.id,
        }
    }

    pub open spec fn name(self) -> Seq<char> {
        match self {
            DeviceModel::Socket(s) => s.name,
            DeviceModel::Thermometer(t) => t.name,
        }
    }
}

/// The power a socket reports: the load it feeds while switched on.
pub open spec fn socket_power(s: SocketModel) -> Option<u64> {
    if s.enabled {
        Some(s.power)
    } else {
        None
    }
}

/// The socket after handling an event.
pub open spec fn socket_after(s: SocketModel, event: u128) -> SocketModel {
    if event == SWITCH_ON_EVENT_ID {
        SocketModel { enabled: true, ..s }
    } else if event == SWITCH_OFF_EVENT_ID {
        SocketModel { enabled: false, ..s }
    } else {
        s
    }
}

/// Whether a device of this kind handles the event.
pub open spec fn handles(d: DeviceModel, event: u128) -> bool {
    match d {
        DeviceModel::Socket(_) => event == STATE_EVENT_ID || event == SWITCH_ON_EVENT_ID || event
            == SWITCH_OFF_EVENT_ID,
        DeviceModel::Thermometer(_) => event == STATE_EVENT_ID,
    }
}

/// The device after handling an event; an event it does not handle leaves
/// it as it was.
pub open spec fn device_after(d: DeviceModel, event: u128) -> DeviceModel {
    match d {
        DeviceModel::Socket(s) => DeviceModel::Socket(socket_after(s, event)),
        DeviceModel::Thermometer(t) => d,
    }
}

/// The state a device reports once it has handled a supported event.
pub open spec fn device_report(d: DeviceModel, event: u128) -> DeviceState {
    match device_after(d, event) {
        DeviceModel::Socket(s) => DeviceState {
            device_id: s.id,
            event_id: event,
            themperature: None,
            enabled: Some(s.enabled),
            power: socket_power(s),
        },
        DeviceModel::Thermometer(t) => DeviceState {
            device_id: t.id,
            event_id: event,
            themperature: Some(t.temperature),
            enabled: None,
            power: None,
        },
    }
}

/// The outcome of notifying a device of an event: the state it reports, or
/// `NotImplementedEvent` for an event its kind does not handle.
pub open spec fn device_result(d: DeviceModel, event: u128) -> Result<DeviceState, DeviceError> {
    if handles(d, event) {
        Ok(device_report(d, event))
    } else {
        Err(DeviceError::NotImplementedEvent(event))
    }
}

/// A smart socket.
pub struct SmartSocket {
    id: u128,
    name: String,
    enabled: bool,
    power: u64,
}

impl View for SmartSocket {
    type V = SocketModel;

    closed spec fn view(&self) -> SocketModel {
        SocketModel { id: self.id, name: self.name@, enabled: self.enabled, power: self.power }
    }
}

impl SmartSocket {
    /// A socket with a fresh identifier, switched off, feeding no load.
    pub fn new(name: &str) -> (r: SmartSocket)
        ensures
            r@.name == name@,
            !r@.enabled,
            r@.power == 0,
    {
        SmartSocket { id: new_id(), name: name.to_owned(), enabled: false, power: 0 }
    }

    /// The socket's identifier.
    pub fn id(&self) -> (r: u128)
        ensures
            r == self@.id,
    {
        self.id
    }

    /// The socket's name.
    pub fn name(&self) -> (r: &str)
        ensures
            r@ == self@.name,
    {
        self.name.as_str()
    }

    /// Whether the socket has the given name.
    pub fn name_is(&self, name: &String) -> (r: bool)
        ensures
            r == (self@.name == name@),
    {
        self.name == *name
    }

    /// Switches the socket on.
    pub fn switch_on(&mut self)
        ensures
            final(self)@ == (SocketModel { enabled: true, ..old(self)@ }),
    {
        self.enabled = true;
    }

    /// Switches the socket off.
    pub fn switch_off(&mut self)
        ensures
            final(self)@ == (SocketModel { enabled: false, ..old(self)@ }),
    {
        self.enabled = false;
    }

    /// Whether the socket is switched on.
    pub fn enabled(&self) -> (r: bool)
        ensures
            r == self@.enabled,
    {
        self.enabled
    }

    /// Bit pattern of the power drawn, while the socket is switched on.
    pub fn power(&self) -> (r: Option<u64>)
        ensures
            r == socket_power(self@),
    {
        if self.enabled {
            Some(self.power)
        } else {
            None
        }
    }

    /// Bit pattern of the power of the plugged load, whether or not the
    /// socket is switched on.
    pub fn load(&self) -> (r: u64)
        ensures
            r == self@.power,
    {
        self.power
    }

    /// Plugs a load of the given power (as a bit pattern) into the socket.
    pub fn plug(&mut self, power: u64)
        ensures
            final(self)@ == (SocketModel { power, ..old(self)@ }),
    {
        self.power = power;
    }

    /// Handles an event: reports the state, switches on or switches off;
    /// any other event is refused and changes nothing.
    pub fn notify<E: Event>(&mut self, e: &E) -> (r: Result<DeviceState, DeviceError>)
        ensures
            DeviceModel::Socket(final(self)@) == device_after(DeviceModel::Socket(old(self)@), e.spec_id()),
            r == device_result(DeviceModel::Socket(old(self)@), e.spec_id()),
    {
        let event = e.id();
        if event == STATE_EVENT_ID {
        } else if event == SWITCH_ON_EVENT_ID {
            self.switch_on();
        } else if event == SWITCH_OFF_EVENT_ID {
            self.switch_off();
        } else {
            return Err(DeviceError::NotImplementedEvent(event));
        }
        Ok(DeviceState::for_socket(self.id, event, self.enabled, self.power()))
    }
}

/// How a thermometer with the given identifier and temperature handles an
/// event: it reports the temperature for a state query and refuses anything
/// else.
pub fn thermometer_notify<E: Event>(id: u128, temperature: u64, e: &E) -> (r: Result<
    DeviceState,
    DeviceError,
>)
    ensures
        e.spec_id() == STATE_EVENT_ID ==> r == Ok::<DeviceState, DeviceError>(
            DeviceState {
                device_id: id,
                event_id: STATE_EVENT_ID,
                themperature: Some(temperature),
                enabled: None,
                power: None,
            },
        ),
        e.spec_id() != STATE_EVENT_ID ==> r == Err::<DeviceState, DeviceError>(
            DeviceError::NotImplementedEvent(e.spec_id()),
        ),
{
    let event = e.id();
    if event == STATE_EVENT_ID {
        Ok(DeviceState::for_thermometer(id, event, temperature))
    } else {
        Err(DeviceError::NotImplementedEvent(event))
    }
}

/// A smart thermometer.
pub struct SmartThermometer {
    id: u128,
    name: String,
    temperature: u64,
}

impl View for SmartThermometer {
    type V = ThermometerModel;

    closed spec fn view(&self) -> ThermometerModel {
        ThermometerModel { id: self.id, name: self.name@, temperature: self.temperature }
    }
}

impl SmartThermometer {
    /// A thermometer with a fresh identifier showing the given temperature
    /// (as a bit pattern).
    pub fn new(name: &str, temperature: u64) -> (r: SmartThermometer)
        ensures
            r@.name == name@,
            r@.temperature == temperature,
    {
        SmartThermometer { id: new_id(), name: name.to_owned(), temperature }
    }

    /// The thermometer's identifier.
    pub fn id(&self) -> (r: u128)
        ensures
            r == self@.id,
    {
        self.id
    }

    /// The thermometer's name.
    pub fn name(&self) -> (r: &str)
        ensures
            r@ == self@.name,
    {
        self.name.as_str()
    }

    /// Whether the thermometer has the given name.
    pub fn name_is(&self, name: &String) -> (r: bool)
        ensures
            r == (self@.name == name@),
    {
        self.name == *name
    }

    /// Bit pattern of the temperature shown.
    pub fn temperature(&self) -> (r: u64)
        ensures
            r == self@.temperature,
    {
        self.temperature
    }

    /// Handles an event: reports the temperature for a state query and
    /// refuses anything else.
    pub fn notify<E: Event>(&mut self, e: &E) -> (r: Result<DeviceState, DeviceError>)
        ensures
            final(self)@ == old(self)@,
            r == device_result(DeviceModel::Thermometer(old(self)@), e.spec_id()),
    {
        thermometer_notify(self.id, self.temperature, e)
    }
}

/// A device of the house: one of the closed set of device kinds.
pub enum Device {
    Socket(SmartSocket),
    Thermometer(SmartThermometer),
}

impl View for Device {
    type V = DeviceModel;

    open spec fn view(&self) -> DeviceModel {
        match self {
            Device::Socket(s) => DeviceModel::Socket(s@),
            Device::Thermometer(t) => DeviceModel::Thermometer(t@),
        }
    }
}

impl Device {
    /// The device's identifier.
    pub fn id(&self) -> (r: u128)
        ensures
            r == self@.id(),
    {
        match self {
            Device::Socket(s) => s.id(),
            Device::Thermometer(t) => t.id(),
        }
    }

    /// The device's name.
    pub fn name(&self) -> (r: &str)
        ensures
            r@ == self@.name(),
    {
        match self {
            Device::Socket(s) => s.name(),
            Device::Thermometer(t) => t.name(),
        }
    }

    /// Whether the device has the given name.
    pub fn name_is(&self, name: &String) -> (r: bool)
        ensures
            r == (self@.name() == name@),
    {
        match self {
            Device::Socket(s) => s.name_is(name),
            Device::Thermometer(t) => t.name_is(name),
        }
    }

    /// The device's name as an owned string.
    pub fn name_string(&self) -> (r: String)
        ensures
            r@ == self@.name(),
    {
        self.name().to_owned()
    }

    /// Handles an event as the device's kind does.
    pub fn notify<E: Event>(&mut self, e: &E) -> (r: Result<DeviceState, DeviceError>)
        ensures
            final(self)@ == device_after(old(self)@, e.spec_id()),
            r == device_result(old(self)@, e.spec_id()),
    {
        match self {
            Device::Socket(s) => s.notify(e),
            Device::Thermometer(t) => t.notify(e),
        }
    }
}

/// Asking a device for its state changes nothing, so asking twice gives
/// the same state twice.
pub proof fn lemma_state_query_idempotent(d: DeviceModel)
    ensures
        device_after(d, STATE_EVENT_ID) == d,
        handles(d, STATE_EVENT_ID),
        device_report(device_after(d, STATE_EVENT_ID), STATE_EVENT_ID) == device_report(
            d,
            STATE_EVENT_ID,
        ),
{
}

} // verus!
