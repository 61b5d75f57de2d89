//! The records exchanged by the control protocol.

use vstd::prelude::*;
use vstd::string::*;
use crate::codec::{
    Message, CONTROL_REQUEST_ID, CONTROL_RESPONSE_ID, TEXT_MESSAGE_ID, THERMOMETER_MESSAGE_ID,
};
use crate::device::DeviceState;
use crate::error::{device_error_text, DeviceError, RequestError};

verus! {

/// Version tag carried by every request and response.
#[derive(Debug, Clone, Copy, PartialEq, Eq, Structural)]
pub enum ProtocolVersion {
    V1_0,
}

/// A free-text message, used to test that the protocol is alive.
#[derive(Debug, Clone)]
pub struct TextMessage {
    text: String,
}

impl TextMessage {
    /// A message with the given text.
    pub fn new(text: &str) -> (r: TextMessage)
        ensures
            r.text_spec() == text@,
    {
        TextMessage { text: text.to_owned() }
    }

    /// The message text.
    pub closed spec fn text_spec(&self) -> Seq<char> {
        self.text@
    }

    /// The message text.
    pub fn text(&self) -> (r: &str)
        ensures
            r@ == self.text_spec(),
    {
        self.text.as_str()
    }
}

impl Message for TextMessage {
    open spec fn spec_message_type() -> u16 {
        TEXT_MESSAGE_ID
    }

    fn message_type() -> (r: u16) {
        TEXT_MESSAGE_ID
    }
}

/// What a control request asks for. The variants with identifiers address a
/// device of a house by room and device; the remote variants address the one
/// device that the far end owns.
#[derive(Debug, Clone, Copy, PartialEq, Eq, Structural)]
pub enum ControlRequestData {
    AcquireRooms,
    AcquireDevices(u128),
    AcquireDeviceState(u128, u128),
    AcquireRemoteDeviceState,
    AcquireDeviceInfo(u128, u128),
    AcquireRemoteDeviceName,
    SwitchOnDevice(u128, u128),
    SwitchOnRemoteDevice,
    SwitchOffDevice(u128, u128),
    SwitchOffRemoteDevice,
}

/// A control request.
#[derive(Debug, Clone, Copy, PartialEq, Eq, Structural)]
pub struct ControlRequest {
    pub version: ProtocolVersion,
    pub data: ControlRequestData,
}

impl Message for ControlRequest {
    open spec fn spec_message_type() -> u16 {
        CONTROL_REQUEST_ID
    }

    fn message_type() -> (r: u16) {
        CONTROL_REQUEST_ID
    }
}

impl ControlRequest {
    /// A request of the current protocol version.
    pub open spec fn of(data: ControlRequestData) -> ControlRequest {
        ControlRequest { version: ProtocolVersion::V1_0, data }
    }

    /// Asks for the identifiers and names of all rooms.
    pub fn acquire_rooms() -> (r: ControlRequest)
        ensures
            r == ControlRequest::of(ControlRequestData::AcquireRooms),
    {
        ControlRequest { version: ProtocolVersion::V1_0, data: ControlRequestData::AcquireRooms }
    }

    /// Asks for the identifiers and names of the devices of a room.
    pub fn acquire_devices(room_id: u128) -> (r: ControlRequest)
        ensures
            r == ControlRequest::of(ControlRequestData::AcquireDevices(room_id)),
    {
        ControlRequest {
            version: ProtocolVersion::V1_0,
            data: ControlRequestData::AcquireDevices(room_id),
        }
    }

    /// Asks for the state of a device of a room.
    pub fn acquire_device_state(room_id: u128, device_id: u128) -> (r: ControlRequest)
        ensures
            r == ControlRequest::of(ControlRequestData::AcquireDeviceState(room_id, device_id)),
    {
        ControlRequest {
            version: ProtocolVersion::V1_0,
            data: ControlRequestData::AcquireDeviceState(room_id, device_id),
        }
    }

    /// Asks the far end for the state of its device.
    pub fn acquire_remote_device_state() -> (r: ControlRequest)
        ensures
            r == ControlRequest::of(ControlRequestData::AcquireRemoteDeviceState),
    {
        ControlRequest {
            version: ProtocolVersion::V1_0,
            data: ControlRequestData::AcquireRemoteDeviceState,
        }
    }

    /// Asks for a description of a device of a room.
    pub fn acquire_device_info(room_id: u128, device_id: u128) -> (r: ControlRequest)
        ensures
            r == ControlRequest::of(ControlRequestData::AcquireDeviceInfo(room_id, device_id)),
    {
        ControlRequest {
            version: ProtocolVersion::V1_0,
            data: ControlRequestData::AcquireDeviceInfo(room_id, device_id),
        }
    }

    /// Asks the far end for the identifier and name of its device.
    pub fn acquire_remote_device_name() -> (r: ControlRequest)
        ensures
            r == ControlRequest::of(ControlRequestData::AcquireRemoteDeviceName),
    {
        ControlRequest {
            version: ProtocolVersion::V1_0,
            data: ControlRequestData::AcquireRemoteDeviceName,
        }
    }

    /// Asks to switch on a device of a room.
    pub fn switch_on_device(room_id: u128, device_id: u128) -> (r: ControlRequest)
        ensures
            r == ControlRequest::of(ControlRequestData::SwitchOnDevice(room_id, device_id)),
    {
        ControlRequest {
            version: ProtocolVersion::V1_0,
            data: ControlRequestData::SwitchOnDevice(room_id, device_id),
        }
    }

    /// Asks the far end to switch its device on.
    pub fn switch_on_remote_device() -> (r: ControlRequest)
        ensures
            r == ControlRequest::of(ControlRequestData::SwitchOnRemoteDevice),
    {
        ControlRequest {
            version: ProtocolVersion::V1_0,
            data: ControlRequestData::SwitchOnRemoteDevice,
        }
    }

    /// Asks to switch off a device of a room.
    pub fn switch_off_device(room_id: u128, device_id: u128) -> (r: ControlRequest)
        ensures
            r == ControlRequest::of(ControlRequestData::SwitchOffDevice(room_id, device_id)),
    {
        ControlRequest {
            version: ProtocolVersion::V1_0,
            data: ControlRequestData::SwitchOffDevice(room_id, device_id),
        }
    }

    /// Asks the far end to switch its device off.
    pub fn switch_off_remote_device() -> (r: ControlRequest)
        ensures
            r == ControlRequest::of(ControlRequestData::SwitchOffRemoteDevice),
    {
        ControlRequest {
            version: ProtocolVersion::V1_0,
            data: ControlRequestData::SwitchOffRemoteDevice,
        }
    }
}

/// What a control response carries: exactly one of these.
#[derive(Debug, Clone)]
pub enum ControlResponseData {
    /// Identifiers and names of rooms or devices.
    List(Vec<(u128, String)>),
    /// The state of a device.
    State(DeviceState),
    /// A description of a device.
    Info(String),
    /// The identifier and name of a device.
    Name(u128, String),
    /// The description of a failure.
    Error(String),
}

/// A control response.
#[derive(Debug, Clone)]
pub struct ControlResponse {
    pub version: ProtocolVersion,
    pub data: ControlResponseData,
}

/// The abstract value of a response's data.
pub ghost enum ResponseModel {
    List(Seq<(u128, Seq<char>)>),
    State(DeviceState),
    Info(Seq<char>),
    Name(u128, Seq<char>),
    Error(Seq<char>),
}

impl View for ControlResponse {
    type V = ResponseModel;

    open spec fn view(&self) -> ResponseModel {
        match self.data {
            ControlResponseData::List(v) => ResponseModel::List(
                Seq::new(v@.len(), |i: int| (v@[i].0, v@[i].1@)),
            ),
            ControlResponseData::State(s) => ResponseModel::State(s),
            ControlResponseData::Info(s) => ResponseModel::Info(s@),
            ControlResponseData::Name(id, s) => ResponseModel::Name(id, s@),
            ControlResponseData::Error(s) => ResponseModel::Error(s@),
        }
    }
}

impl Message for ControlResponse {
    open spec fn spec_message_type() -> u16 {
        CONTROL_RESPONSE_ID
    }

    fn message_type() -> (r: u16) {
        CONTROL_RESPONSE_ID
    }
}

impl ControlResponse {
    /// A response listing identifiers and names.
    pub fn with_list(items: Vec<(u128, String)>) -> (r: ControlResponse)
        ensures
            r.version == ProtocolVersion::V1_0,
            r.data matches ControlResponseData::List(v) && v@ == items@,
    {
        ControlResponse { version: ProtocolVersion::V1_0, data: ControlResponseData::List(items) }
    }

    /// A response carrying the state of a device.
    pub fn with_state(state: DeviceState) -> (r: ControlResponse)
        ensures
            r.version == ProtocolVersion::V1_0,
            r.data matches ControlResponseData::State(s) && s == state,
    {
        ControlResponse { version: ProtocolVersion::V1_0, data: ControlResponseData::State(state) }
    }

    /// A response carrying a description of a device.
    pub fn with_info(info: &str) -> (r: ControlResponse)
        ensures
            r.version == ProtocolVersion::V1_0,
            r.data matches ControlResponseData::Info(s) && s@ == info@,
    {
        ControlResponse {
            version: ProtocolVersion::V1_0,
            data: ControlResponseData::Info(info.to_owned()),
        }
    }

    /// A response carrying the identifier and name of a device.
    pub fn with_name(id: u128, name: &str) -> (r: ControlResponse)
        ensures
            r.version == ProtocolVersion::V1_0,
            r.data matches ControlResponseData::Name(i, s) && i == id && s@ == name@,
    {
        ControlResponse {
            version: ProtocolVersion::V1_0,
            data: ControlResponseData::Name(id, name.to_owned()),
        }
    }

    /// A response reporting a failure by its text.
    pub fn with_error(error: &DeviceError) -> (r: ControlResponse)
        ensures
            r.version == ProtocolVersion::V1_0,
            r.data matches ControlResponseData::Error(s) && s@ == device_error_text(*error),
    {
        ControlResponse {
            version: ProtocolVersion::V1_0,
            data: ControlResponseData::Error(error.text()),
        }
    }

    /// The device state, when the response carries one.
    pub fn state(&self) -> (r: Option<DeviceState>)
        ensures
            self.data matches ControlResponseData::State(s) ==> r == Some(s),
            !(self.data is State) ==> r is None,
    {
        match &self.data {
            ControlResponseData::State(s) => Some(*s),
            _ => None,
        }
    }

    /// The description, when the response carries one.
    pub fn info(&self) -> (r: Option<&str>)
        ensures
            self.data matches ControlResponseData::Info(s) ==> (r matches Some(t) && t@ == s@),
            !(self.data is Info) ==> r is None,
    {
        match &self.data {
            ControlResponseData::Info(s) => Some(s.as_str()),
            _ => None,
        }
    }

    /// The identifier and name, when the response carries them.
    pub fn name(&self) -> (r: Option<(u128, &str)>)
        ensures
            self.data matches ControlResponseData::Name(i, s) ==> (r matches Some(p) && p.0 == i
                && p.1@ == s@),
            !(self.data is Name) ==> r is None,
    {
        match &self.data {
            ControlResponseData::Name(i, s) => Some((*i, s.as_str())),
            _ => None,
        }
    }

    /// The failure text, when the response reports one.
    pub fn error(&self) -> (r: Option<&str>)
        ensures
            self.data matches ControlResponseData::Error(s) ==> (r matches Some(t) && t@ == s@),
            !(self.data is Error) ==> r is None,
    {
        match &self.data {
            ControlResponseData::Error(s) => Some(s.as_str()),
            _ => None,
        }
    }

    /// Turns an error response into the client-side `Srv` error and passes
    /// every other response through.
    pub fn into_result(self) -> (r: Result<ControlResponse, RequestError>)
        ensures
            self.data matches ControlResponseData::Error(s) ==> (r matches Err(RequestError::Srv(
                t,
            )) && t@ == s@),
            !(self.data is Error) ==> r == Ok::<ControlResponse, RequestError>(self),
    {
        match self.data {
            ControlResponseData::Error(s) => Err(RequestError::Srv(s)),
            _ => Ok(self),
        }
    }
}

/// A telemetry message of an autonomous thermometer: its identifier and the
/// bit pattern of the temperature it measured.
#[derive(Debug, Clone, Copy, PartialEq, Eq, Structural)]
pub struct ThermometerMessage {
    temperature: u64,
    id: u128,
}

impl Message for ThermometerMessage {
    open spec fn spec_message_type() -> u16 {
        THERMOMETER_MESSAGE_ID
    }

    fn message_type() -> (r: u16) {
        THERMOMETER_MESSAGE_ID
    }
}

impl ThermometerMessage {
    /// The identifier of the thermometer that sent the message.
    pub closed spec fn id_spec(&self) -> u128 {
        self.id
    }

    /// The bit pattern of the temperature sent.
    pub closed spec fn temperature_spec(&self) -> u64 {
        self.temperature
    }

    /// A message from the given thermometer with the given temperature.
    pub fn new(id: u128, temperature: u64) -> (r: ThermometerMessage)
        ensures
            r.id_spec() == id,
            r.temperature_spec() == temperature,
    {
        ThermometerMessage { temperature, id }
    }

    /// The bit pattern of the temperature sent.
    pub fn temperature(&self) -> (r: u64)
        ensures
            r == self.temperature_spec(),
    {
        self.temperature
    }

    /// The identifier of the thermometer that sent the message.
    pub fn id(&self) -> (r: u128)
        ensures
            r == self.id_spec(),
    {
        self.id
    }
}

} // verus!
