//! Error types of the device model, the transport and the protocol.

use vstd::prelude::*;
use vstd::string::*;
use crate::ident::{hyphenated, id_text};

verus! {

/// The I/O error of the standard library, carried opaquely.
#[verifier::external_type_specification]
#[verifier::external_body]
pub struct ExIoError(std::io::Error);

/// The error kind of the `bincode` payload codec, carried opaquely.
#[verifier::external_type_specification]
#[verifier::external_body]
pub struct ExBincodeErrorKind(bincode::ErrorKind);

/// A failure of an operation on the device model. The dispatcher turns each
/// one into an error response instead of ending the connection.
#[derive(Debug)]
pub enum DeviceError {
    IllegalRoomName(String),
    IllegalDeviceName(String),
    IllegalRoomId(u128),
    IllegalDeviceId(u128),
    NotImplementedEvent(u128),
    UnexpectedMessage,
}

/// The text that describes a device error.
pub open spec fn device_error_text(e: DeviceError) -> Seq<char> {
    match e {
        DeviceError::IllegalRoomName(n) => "illegal room name \""@ + n@ + "\""@,
        DeviceError::IllegalDeviceName(n) => "illegal device name \""@ + n@ + "\""@,
        DeviceError::IllegalRoomId(id) => "illegal room identifier "@ + hyphenated(id),
        DeviceError::IllegalDeviceId(id) => "illegal device identifier "@ + hyphenated(id),
        DeviceError::NotImplementedEvent(id) => "the event "@ + hyphenated(id)
            + " is not implemented"@,
        DeviceError::UnexpectedMessage => "unexpected message"@,
    }
}

impl DeviceError {
    /// The human-readable description of the error.
    pub fn text(&self) -> (r: String)
        ensures
            r@ == device_error_text(*self),
    {
        match self {
            DeviceError::IllegalRoomName(n) => {
                let mut s = "illegal room name \"".to_owned();
                s.append(n.as_str());
                s.append("\"");
                s
            },
            DeviceError::IllegalDeviceName(n) => {
                let mut s = "illegal device name \"".to_owned();
                s.append(n.as_str());
                s.append("\"");
                s
            },
            DeviceError::IllegalRoomId(id) => {
                let mut s = "illegal room identifier ".to_owned();
                s.append(id_text(*id).as_str());
                s
            },
            DeviceError::IllegalDeviceId(id) => {
                let mut s = "illegal device identifier ".to_owned();
                s.append(id_text(*id).as_str());
                s
            },
            DeviceError::NotImplementedEvent(id) => {
                let mut s = "the event ".to_owned();
                s.append(id_text(*id).as_str());
                s.append(" is not implemented");
                s
            },
            DeviceError::UnexpectedMessage => "unexpected message".to_owned(),
        }
    }
}

/// A failure while sending a message.
#[derive(Debug)]
pub enum SendError {
    Io(std::io::Error),
    Bin(Box<bincode::ErrorKind>),
    /// The payload does not fit the 32-bit length field of a frame.
    TooLong(usize),
}

/// A failure while receiving a message.
#[derive(Debug)]
pub enum RecvError {
    Io(std::io::Error),
    Bin(Box<bincode::ErrorKind>),
    /// The frame announced a type other than the expected one.
    BadType(u16),
    /// The stream ended before the frame was complete.
    Incomplete,
}

/// A failure while establishing a connection.
#[derive(Debug)]
pub enum ConnectionError {
    BadHandshake,
    Io(std::io::Error),
}

/// A failure while binding a listening socket.
#[derive(Debug)]
pub enum BindError {
    Io(std::io::Error),
}

/// A failure of a client request.
#[derive(Debug)]
pub enum RequestError {
    Send(SendError),
    Recv(RecvError),
    /// The server answered with an error response carrying this text.
    Srv(String),
}

} // verus!
