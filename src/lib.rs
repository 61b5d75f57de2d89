//! Control protocol of a small home-automation system.
//!
//! - `codec`: length-prefixed, type-tagged frames and an incremental reader.
//! - `handshake`: the masked-nonce exchange performed once per connection.
//! - `transport`: bookkeeping of exact-length reads and writes over a
//!   transport that makes partial progress.
//! - `message`: requests, responses and the other records on the wire.
//! - `device`, `room`, `house`: the device model the requests act on.
//! - `dispatch`: the mapping from a request to an operation and a response.
//! - `xml`: a small XML builder.
//! - `ident`, `error`: identifiers and error types.

pub mod codec;
pub mod device;
pub mod dispatch;
pub mod error;
pub mod handshake;
pub mod house;
pub mod ident;
pub mod message;
pub mod room;
pub mod transport;
pub mod xml;
