//! The wire-level shape of the schema: the record family the codec encodes
//! and decodes. Wire records keep every nested record optional and carry
//! enums as `i32` codes, exactly as they travel in the byte encoding;
//! conversions to the schema reject a record that lacks a required field or
//! carries an enum code outside the known range.

use vstd::prelude::*;

verus! {

/// Wire form of `Version`.
#[derive(Clone, Copy, Debug, PartialEq, Eq, Structural)]
pub struct WireVersion {
    pub major: u32,
    pub minor: u32,
    pub patch: u32,
}

/// Wire form of `IntegrityType`, with the extra `Unspecified` code 0 that
/// the byte encoding can carry.
#[derive(Clone, Copy, Debug, PartialEq, Eq, Structural)]
pub enum WireIntegrityType {
    Unspecified,
    Reliable,
    Unreliable,
}

/// Wire form of `ErrorType`.
#[derive(Clone, Copy, Debug, PartialEq, Eq, Structural)]
pub enum WireErrorType {
    Unspecified,
    Timeout,
}

/// Wire form of `StreamCreateMeta`; the integrity class travels as an `i32`
/// code.
#[derive(Clone, Copy, Debug, PartialEq, Eq, Structural)]
pub struct WireStreamCreateMeta {
    pub stream_integrity: i32,
}

/// Wire form of `ClientHello`.
#[derive(Clone, Debug, PartialEq, Eq)]
pub struct WireClientHello {
    pub version: Option<WireVersion>,
    pub resume_connection_token: Option<Vec<u8>>,
}

/// Wire form of `ServerHello`.
#[derive(Clone, Debug, PartialEq, Eq)]
pub struct WireServerHello {
    pub version: Option<WireVersion>,
    pub ok: bool,
    pub connection_token: Option<Vec<u8>>,
    pub message: Option<String>,
}

/// Wire form of `Error`.
#[derive(Clone, Debug, PartialEq, Eq)]
pub struct WireError {
    pub error_type: i32,
    pub message: String,
}

/// Wire form of `StreamOpen`.
#[derive(Clone, Copy, Debug, PartialEq, Eq, Structural)]
pub struct WireStreamOpen {
    pub stream_id: u64,
    pub meta: Option<WireStreamCreateMeta>,
}

/// Wire form of `StreamClose`.
#[derive(Clone, Copy, Debug, PartialEq, Eq, Structural)]
pub struct WireStreamClose {
    pub stream_id: u64,
}

/// Wire form of `ArbitaryData`.
#[derive(Clone, Debug, PartialEq, Eq)]
pub struct WireArbitaryData {
    pub content: Vec<u8>,
}

/// Wire form of `BenchmarkStart`.
#[derive(Clone, Copy, Debug, PartialEq, Eq, Structural)]
pub struct WireBenchmarkStart {
    pub integrity_type: i32,
    pub byte_count: u64,
}

/// Wire form of `Payload`.
#[derive(Clone, Debug, PartialEq, Eq)]
pub enum WirePayload {
    ClientHello(WireClientHello),
    ServerHello(WireServerHello),
    Okay,
    Error(WireError),
    StreamOpen(WireStreamOpen),
    StreamClose(WireStreamClose),
    ArbitaryData(WireArbitaryData),
    Keepalive,
    Close,
    BenchmarkStart(WireBenchmarkStart),
    BenchmarkEnd,
}

/// Wire form of `Message`.
#[derive(Clone, Debug, PartialEq, Eq)]
pub struct WireMessage {
    pub context_id: u64,
    pub payload: Option<WirePayload>,
}

/// Mathematical value of a `WireClientHello`.
#[verifier::ext_equal]
pub struct SpecWireClientHello {
    pub version: Option<WireVersion>,
    pub resume_connection_token: Option<Seq<u8>>,
}

/// Mathematical value of a `WireServerHello`.
#[verifier::ext_equal]
pub struct SpecWireServerHello {
    pub version: Option<WireVersion>,
    pub ok: bool,
    pub connection_token: Option<Seq<u8>>,
    pub message: Option<Seq<char>>,
}

/// Mathematical value of a `WireError`.
#[verifier::ext_equal]
pub struct SpecWireError {
    pub error_type: i32,
    pub message: Seq<char>,
}

/// Mathematical value of a `WireArbitaryData`.
#[verifier::ext_equal]
pub struct SpecWireArbitaryData {
    pub content: Seq<u8>,
}

/// Mathematical value of a `WirePayload`.
#[verifier::ext_equal]
pub enum SpecWirePayload {
    ClientHello(SpecWireClientHello),
    ServerHello(SpecWireServerHello),
    Okay,
    Error(SpecWireError),
    StreamOpen(WireStreamOpen),
    StreamClose(WireStreamClose),
    ArbitaryData(SpecWireArbitaryData),
    Keepalive,
    Close,
    BenchmarkStart(WireBenchmarkStart),
    BenchmarkEnd,
}

/// Mathematical value of a `WireMessage`.
#[verifier::ext_equal]
pub struct SpecWireMessage {
    pub context_id: u64,
    pub payload: Option<SpecWirePayload>,
}

impl View for WireClientHello {
    type V = SpecWireClientHello;

    open spec fn view(&self) -> SpecWireClientHello {
        SpecWireClientHello {
            version: self.version,
            resume_connection_token: crate::schema::view_opt_bytes(self.resume_connection_token),
        }
    }
}

impl View for WireServerHello {
    type V = SpecWireServerHello;

    open spec fn view(&self) -> SpecWireServerHello {
        SpecWireServerHello {
            version: self.version,
            ok: self.ok,
            connection_token: crate::schema::view_opt_bytes(self.connection_token),
            message: crate::schema::view_opt_string(self.message),
        }
    }
}

impl View for WireError {
    type V = SpecWireError;

    open spec fn view(&self) -> SpecWireError {
        SpecWireError { error_type: self.error_type, message: self.message@ }
    }
}

impl View for WireArbitaryData {
    type V = SpecWireArbitaryData;

    open spec fn view(&self) -> SpecWireArbitaryData {
        SpecWireArbitaryData { content: self.content@ }
    }
}

impl View for WirePayload {
    type V = SpecWirePayload;

    open spec fn view(&self) -> SpecWirePayload {
        match *self {
            WirePayload::ClientHello(h) => SpecWirePayload::ClientHello(h@),
            WirePayload::ServerHello(h) => SpecWirePayload::ServerHello(h@),
            WirePayload::Okay => SpecWirePayload::Okay,
            WirePayload::Error(e) => SpecWirePayload::Error(e@),
            WirePayload::StreamOpen(o) => SpecWirePayload::StreamOpen(o),
            WirePayload::StreamClose(c) => SpecWirePayload::StreamClose(c),
            WirePayload::ArbitaryData(d) => SpecWirePayload::ArbitaryData(d@),
            WirePayload::Keepalive => SpecWirePayload::Keepalive,
            WirePayload::Close => SpecWirePayload::Close,
            WirePayload::BenchmarkStart(b) => SpecWirePayload::BenchmarkStart(b),
            WirePayload::BenchmarkEnd => SpecWirePayload::BenchmarkEnd,
        }
    }
}

impl View for WireMessage {
    type V = SpecWireMessage;

    open spec fn view(&self) -> SpecWireMessage {
        SpecWireMessage {
            context_id: self.context_id,
            payload: match self.payload {
                Option::Some(p) => Option::Some(p@),
                Option::None => Option::None,
            },
        }
    }
}

} // verus!
