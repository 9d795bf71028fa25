//! The message schema of the protocol: a `Message` tags a `Payload` with the
//! context id it belongs to. These are the typed values the context layer
//! reads and writes; their byte encoding lives in the codec.

use vstd::prelude::*;

verus! {

/// Namespace tag of a logical conversation within a connection.
pub type ContextId = u64;

/// Identifier of a sub-stream within a connection.
pub type StreamId = u64;

/// Protocol version triple.
#[derive(Clone, Copy, Debug, PartialEq, Eq, Structural)]
pub struct Version {
    pub major: u32,
    pub minor: u32,
    pub patch: u32,
}

/// Delivery guarantee of a sub-stream.
#[derive(Clone, Copy, Debug, PartialEq, Eq, Structural)]
pub enum IntegrityType {
    Reliable,
    Unreliable,
}

/// Coarse classification of a peer-reported error.
#[derive(Clone, Copy, Debug, PartialEq, Eq, Structural)]
pub enum ErrorType {
    Unspecified,
    Timeout,
}

/// Metadata carried by a `StreamOpen` payload.
#[derive(Clone, Copy, Debug, PartialEq, Eq, Structural)]
pub struct StreamCreateMeta {
    pub integrity_type: IntegrityType,
}

/// Opening handshake message sent by the client.
#[derive(Clone, Debug, PartialEq, Eq)]
pub struct ClientHello {
    pub version: Version,
    pub resume_connection_token: Option<Vec<u8>>,
}

/// Handshake reply sent by the server.
#[derive(Clone, Debug, PartialEq, Eq)]
pub struct ServerHello {
    pub version: Version,
    pub ok: bool,
    pub connection_token: Option<Vec<u8>>,
    pub message: Option<String>,
}

/// A peer-reported error.
#[derive(Clone, Debug, PartialEq, Eq)]
pub struct Error {
    pub error_type: ErrorType,
    pub message: String,
}

/// Announces a freshly opened sub-stream to the peer.
#[derive(Clone, Copy, Debug, PartialEq, Eq, Structural)]
pub struct StreamOpen {
    pub stream_id: StreamId,
    pub meta: StreamCreateMeta,
}

/// Announces that a sub-stream was closed.
#[derive(Clone, Copy, Debug, PartialEq, Eq, Structural)]
pub struct StreamClose {
    pub stream_id: StreamId,
}

/// Opaque application bytes carried over a context.
#[derive(Clone, Debug, PartialEq, Eq)]
pub struct ArbitaryData {
    pub content: Vec<u8>,
}

/// Announces the start of a throughput measurement.
#[derive(Clone, Copy, Debug, PartialEq, Eq, Structural)]
pub struct BenchmarkStart {
    pub integrity_type: IntegrityType,
    pub byte_count: u64,
}

/// The tagged union carried by every frame.
#[derive(Clone, Debug, PartialEq, Eq)]
pub enum Payload {
    ClientHello(ClientHello),
    ServerHello(ServerHello),
    Okay,
    Error(Error),
    StreamOpen(StreamOpen),
    StreamClose(StreamClose),
    ArbitaryData(ArbitaryData),
    Keepalive,
    Close,
    BenchmarkStart(BenchmarkStart),
    BenchmarkEnd,
}

/// One frame body: a payload addressed to a context.
#[derive(Clone, Debug, PartialEq, Eq)]
pub struct Message {
    pub context_id: ContextId,
    pub payload: Payload,
}

/// Mathematical value of a `ClientHello`: byte buffers become sequences.
#[verifier::ext_equal]
pub struct SpecClientHello {
    pub version: Version,
    pub resume_connection_token: Option<Seq<u8>>,
}

/// Mathematical value of a `ServerHello`.
#[verifier::ext_equal]
pub struct SpecServerHello {
    pub version: Version,
    pub ok: bool,
    pub connection_token: Option<Seq<u8>>,
    pub message: Option<Seq<char>>,
}

/// Mathematical value of an `Error`.
#[verifier::ext_equal]
pub struct SpecError {
    pub error_type: ErrorType,
    pub message: Seq<char>,
}

/// Mathematical value of an `ArbitaryData`.
#[verifier::ext_equal]
pub struct SpecArbitaryData {
    pub content: Seq<u8>,
}

/// Mathematical value of a `Payload`.
#[verifier::ext_equal]
pub enum SpecPayload {
    ClientHello(SpecClientHello),
    ServerHello(SpecServerHello),
    Okay,
    Error(SpecError),
    StreamOpen(StreamOpen),
    StreamClose(StreamClose),
    ArbitaryData(SpecArbitaryData),
    Keepalive,
    Close,
    BenchmarkStart(BenchmarkStart),
    BenchmarkEnd,
}

/// Mathematical value of a `Message`.
#[verifier::ext_equal]
pub struct SpecMessage {
    pub context_id: ContextId,
    pub payload: SpecPayload,
}

pub open spec fn view_opt_bytes(o: Option<Vec<u8>>) -> Option<Seq<u8>> {
    match o {
        Option::Some(v) => Option::Some(v@),
        Option::None => Option::None,
    }
}

pub open spec fn view_opt_string(o: Option<String>) -> Option<Seq<char>> {
    match o {
        Option::Some(s) => Option::Some(s@),
        Option::None => Option::None,
    }
}

impl View for ClientHello {
    type V = SpecClientHello;

    open spec fn view(&self) -> SpecClientHello {
        SpecClientHello {
            version: self.version,
            resume_connection_token: view_opt_bytes(self.resume_connection_token),
        }
    }
}

impl View for ServerHello {
    type V = SpecServerHello;

    open spec fn view(&self) -> SpecServerHello {
        SpecServerHello {
            version: self.version,
            ok: self.ok,
            connection_token: view_opt_bytes(self.connection_token),
            message: view_opt_string(self.message),
        }
    }
}

impl View for Error {
    type V = SpecError;

    open spec fn view(&self) -> SpecError {
        SpecError { error_type: self.error_type, message: self.message@ }
    }
}

impl View for ArbitaryData {
    type V = SpecArbitaryData;

    open spec fn view(&self) -> SpecArbitaryData {
        SpecArbitaryData { content: self.content@ }
    }
}

impl View for Payload {
    type V = SpecPayload;

    open spec fn view(&self) -> SpecPayload {
        match *self {
            Payload::ClientHello(h) => SpecPayload::ClientHello(h@),
            Payload::ServerHello(h) => SpecPayload::ServerHello(h@),
            Payload::Okay => SpecPayload::Okay,
            Payload::Error(e) => SpecPayload::Error(e@),
            Payload::StreamOpen(o) => SpecPayload::StreamOpen(o),
            Payload::StreamClose(c) => SpecPayload::StreamClose(c),
            Payload::ArbitaryData(d) => SpecPayload::ArbitaryData(d@),
            Payload::Keepalive => SpecPayload::Keepalive,
            Payload::Close => SpecPayload::Close,
            Payload::BenchmarkStart(b) => SpecPayload::BenchmarkStart(b),
            Payload::BenchmarkEnd => SpecPayload::BenchmarkEnd,
        }
    }
}

impl View for Message {
    type V = SpecMessage;

    open spec fn view(&self) -> SpecMessage {
        SpecMessage { context_id: self.context_id, payload: self.payload@ }
    }
}

/// The protocol version this library implements.
pub fn current_version() -> (v: Version)
    ensures
        v == spec_current_version(),
{
    Version { major: 1, minor: 0, patch: 0 }
}

/// The version triple `{1, 0, 0}`.
pub open spec fn spec_current_version() -> Version {
    Version { major: 1, minor: 0, patch: 0 }
}

} // verus!
