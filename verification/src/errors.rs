//! The error vocabulary of the connection layer and of the typed arbitrary
//! view over a context.

use vstd::prelude::*;

use crate::schema::Payload;
use crate::utp::UTPError;

verus! {

/// What can go wrong on a connection: a transport failure, a closed stream
/// or context, a handshake the server declined, data that does not parse,
/// and a payload of the wrong kind for the place it arrived in.
#[derive(Clone, Debug, PartialEq, Eq)]
pub enum ConnectionError {
    UTP(UTPError),
    ClosedStream,
    HandshakeReject(String),
    MalformedData(String),
    MalformedPayload(String, Payload),
}

/// What can go wrong on an arbitrary-data context: an error of the
/// underlying connection, a payload of an unexpected kind — which leaves
/// the context usable — or a transport failure.
#[derive(Clone, Debug, PartialEq, Eq)]
pub enum ArbError {
    Connection(ConnectionError),
    UnexpectedData(String),
    UTP(UTPError),
}

/// The crate-wide error: a transport failure or a connection failure.
#[derive(Clone, Debug, PartialEq, Eq)]
pub enum ProtofishError {
    UTP(UTPError),
    Connection(ConnectionError),
}

} // verus!
