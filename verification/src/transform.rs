//! Conversions between the schema and its wire form. Towards the wire every
//! conversion is total; towards the schema a conversion fails exactly when a
//! required nested record is missing or an enum code lies outside the known
//! range. An `Unspecified` integrity code converts to `Reliable`.

use vstd::prelude::*;

use crate::schema::{
    ArbitaryData, BenchmarkStart, ClientHello, Error, ErrorType, IntegrityType, Message, Payload,
    ServerHello, SpecArbitaryData, SpecClientHello, SpecError, SpecMessage, SpecPayload,
    SpecServerHello, StreamClose, StreamCreateMeta, StreamOpen, Version,
};
use crate::wire::{
    SpecWireArbitaryData, SpecWireClientHello, SpecWireError, SpecWireMessage, SpecWirePayload,
    SpecWireServerHello, WireArbitaryData, WireBenchmarkStart, WireClientHello, WireError,
    WireErrorType, WireIntegrityType, WireMessage, WirePayload, WireServerHello, WireStreamClose,
    WireStreamCreateMeta, WireStreamOpen, WireVersion,
};

verus! {

// ---------------------------------------------------------------------------
// Enum codes
// ---------------------------------------------------------------------------
/// The `i32` code a wire integrity class travels as.
pub open spec fn spec_integrity_code(t: WireIntegrityType) -> i32 {
    match t {
        WireIntegrityType::Unspecified => 0i32,
        WireIntegrityType::Reliable => 1i32,
        WireIntegrityType::Unreliable => 2i32,
    }
}

/// The wire integrity class a code names, if any.
pub open spec fn spec_integrity_of_code(c: i32) -> Option<WireIntegrityType> {
    if c == 0i32 {
        Option::Some(WireIntegrityType::Unspecified)
    } else if c == 1i32 {
        Option::Some(WireIntegrityType::Reliable)
    } else if c == 2i32 {
        Option::Some(WireIntegrityType::Unreliable)
    } else {
        Option::None
    }
}

/// The `i32` code a wire error class travels as.
pub open spec fn spec_error_type_code(t: WireErrorType) -> i32 {
    match t {
        WireErrorType::Unspecified => 0i32,
        WireErrorType::Timeout => 1i32,
    }
}

/// The wire error class a code names, if any.
pub open spec fn spec_error_type_of_code(c: i32) -> Option<WireErrorType> {
    if c == 0i32 {
        Option::Some(WireErrorType::Unspecified)
    } else if c == 1i32 {
        Option::Some(WireErrorType::Timeout)
    } else {
        Option::None
    }
}

impl WireIntegrityType {
    /// The schema class this wire class stands for; `Unspecified` defaults
    /// to `Reliable`.
    pub open spec fn spec_to_schema(self) -> IntegrityType {
        match self {
            WireIntegrityType::Unspecified => IntegrityType::Reliable,
            WireIntegrityType::Reliable => IntegrityType::Reliable,
            WireIntegrityType::Unreliable => IntegrityType::Unreliable,
        }
    }

    pub fn to_schema(self) -> (t: IntegrityType)
        ensures
            t == self.spec_to_schema(),
    {
        match self {
            WireIntegrityType::Unspecified => IntegrityType::Reliable,
            WireIntegrityType::Reliable => IntegrityType::Reliable,
            WireIntegrityType::Unreliable => IntegrityType::Unreliable,
        }
    }

    pub fn to_i32(self) -> (c: i32)
        ensures
            c == spec_integrity_code(self),
    {
        match self {
            WireIntegrityType::Unspecified => 0,
            WireIntegrityType::Reliable => 1,
            WireIntegrityType::Unreliable => 2,
        }
    }

    pub fn from_i32(c: i32) -> (t: Option<WireIntegrityType>)
        ensures
            t == spec_integrity_of_code(c),
    {
        if c == 0 {
            Option::Some(WireIntegrityType::Unspecified)
        } else if c == 1 {
            Option::Some(WireIntegrityType::Reliable)
        } else if c == 2 {
            Option::Some(WireIntegrityType::Unreliable)
        } else {
            Option::None
        }
    }
}

impl IntegrityType {
    /// The wire class this schema class travels as.
    pub open spec fn spec_to_wire(self) -> WireIntegrityType {
        match self {
            IntegrityType::Reliable => WireIntegrityType::Reliable,
            IntegrityType::Unreliable => WireIntegrityType::Unreliable,
        }
    }

    pub fn to_wire(self) -> (t: WireIntegrityType)
        ensures
            t == self.spec_to_wire(),
    {
        match self {
            IntegrityType::Reliable => WireIntegrityType::Reliable,
            IntegrityType::Unreliable => WireIntegrityType::Unreliable,
        }
    }

    pub fn to_i32(self) -> (c: i32)
        ensures
            c == spec_integrity_code(self.spec_to_wire()),
    {
        self.to_wire().to_i32()
    }
}

impl WireErrorType {
    pub open spec fn spec_to_schema(self) -> ErrorType {
        match self {
            WireErrorType::Unspecified => ErrorType::Unspecified,
            WireErrorType::Timeout => ErrorType::Timeout,
        }
    }

    pub fn to_schema(self) -> (t: ErrorType)
        ensures
            t == self.spec_to_schema(),
    {
        match self {
            WireErrorType::Unspecified => ErrorType::Unspecified,
            WireErrorType::Timeout => ErrorType::Timeout,
        }
    }

    pub fn to_i32(self) -> (c: i32)
        ensures
            c == spec_error_type_code(self),
    {
        match self {
            WireErrorType::Unspecified => 0,
            WireErrorType::Timeout => 1,
        }
    }

    pub fn from_i32(c: i32) -> (t: Option<WireErrorType>)
        ensures
            t == spec_error_type_of_code(c),
    {
        if c == 0 {
            Option::Some(WireErrorType::Unspecified)
        } else if c == 1 {
            Option::Some(WireErrorType::Timeout)
        } else {
            Option::None
        }
    }
}

impl ErrorType {
    pub open spec fn spec_to_wire(self) -> WireErrorType {
        match self {
            ErrorType::Unspecified => WireErrorType::Unspecified,
            ErrorType::Timeout => WireErrorType::Timeout,
        }
    }

    pub fn to_wire(self) -> (t: WireErrorType)
        ensures
            t == self.spec_to_wire(),
    {
        match self {
            ErrorType::Unspecified => WireErrorType::Unspecified,
            ErrorType::Timeout => WireErrorType::Timeout,
        }
    }

    pub fn to_i32(self) -> (c: i32)
        ensures
            c == spec_error_type_code(self.spec_to_wire()),
    {
        self.to_wire().to_i32()
    }
}

// ---------------------------------------------------------------------------
// Schema to wire (total)
// ---------------------------------------------------------------------------
pub open spec fn spec_wire_of_version(v: Version) -> WireVersion {
    WireVersion { major: v.major, minor: v.minor, patch: v.patch }
}

pub open spec fn spec_wire_of_meta(m: StreamCreateMeta) -> WireStreamCreateMeta {
    WireStreamCreateMeta { stream_integrity: spec_integrity_code(m.integrity_type.spec_to_wire()) }
}

pub open spec fn spec_wire_of_client_hello(h: SpecClientHello) -> SpecWireClientHello {
    SpecWireClientHello {
        version: Option::Some(spec_wire_of_version(h.version)),
        resume_connection_token: h.resume_connection_token,
    }
}

pub open spec fn spec_wire_of_server_hello(h: SpecServerHello) -> SpecWireServerHello {
    SpecWireServerHello {
        version: Option::Some(spec_wire_of_version(h.version)),
        ok: h.ok,
        connection_token: h.connection_token,
        message: h.message,
    }
}

pub open spec fn spec_wire_of_error(e: SpecError) -> SpecWireError {
    SpecWireError {
        error_type: spec_error_type_code(e.error_type.spec_to_wire()),
        message: e.message,
    }
}

pub open spec fn spec_wire_of_stream_open(o: StreamOpen) -> WireStreamOpen {
    WireStreamOpen { stream_id: o.stream_id, meta: Option::Some(spec_wire_of_meta(o.meta)) }
}

pub open spec fn spec_wire_of_payload(p: SpecPayload) -> SpecWirePayload {
    match p {
        SpecPayload::ClientHello(h) => SpecWirePayload::ClientHello(spec_wire_of_client_hello(h)),
        SpecPayload::ServerHello(h) => SpecWirePayload::ServerHello(spec_wire_of_server_hello(h)),
        SpecPayload::Okay => SpecWirePayload::Okay,
        SpecPayload::Error(e) => SpecWirePayload::Error(spec_wire_of_error(e)),
        SpecPayload::StreamOpen(o) => SpecWirePayload::StreamOpen(spec_wire_of_stream_open(o)),
        SpecPayload::StreamClose(c) => SpecWirePayload::StreamClose(
            WireStreamClose { stream_id: c.stream_id },
        ),
        SpecPayload::ArbitaryData(d) => SpecWirePayload::ArbitaryData(
            SpecWireArbitaryData { content: d.content },
        ),
        SpecPayload::Keepalive => SpecWirePayload::Keepalive,
        SpecPayload::Close => SpecWirePayload::Close,
        SpecPayload::BenchmarkStart(b) => SpecWirePayload::BenchmarkStart(
            WireBenchmarkStart {
                integrity_type: spec_integrity_code(b.integrity_type.spec_to_wire()),
                byte_count: b.byte_count,
            },
        ),
        SpecPayload::BenchmarkEnd => SpecWirePayload::BenchmarkEnd,
    }
}

pub open spec fn spec_wire_of_message(m: SpecMessage) -> SpecWireMessage {
    SpecWireMessage {
        context_id: m.context_id,
        payload: Option::Some(spec_wire_of_payload(m.payload)),
    }
}

// ---------------------------------------------------------------------------
// Wire to schema (partial)
// ---------------------------------------------------------------------------
pub open spec fn spec_schema_of_wire_version(v: WireVersion) -> Version {
    Version { major: v.major, minor: v.minor, patch: v.patch }
}

pub open spec fn spec_schema_of_wire_meta(m: WireStreamCreateMeta) -> Option<StreamCreateMeta> {
    match spec_integrity_of_code(m.stream_integrity) {
        Option::Some(t) => Option::Some(StreamCreateMeta { integrity_type: t.spec_to_schema() }),
        Option::None => Option::None,
    }
}

pub open spec fn spec_schema_of_wire_client_hello(h: SpecWireClientHello) -> Option<
    SpecClientHello,
> {
    match h.version {
        Option::Some(v) => Option::Some(
            SpecClientHello {
                version: spec_schema_of_wire_version(v),
                resume_connection_token: h.resume_connection_token,
            },
        ),
        Option::None => Option::None,
    }
}

pub open spec fn spec_schema_of_wire_server_hello(h: SpecWireServerHello) -> Option<
    SpecServerHello,
> {
    match h.version {
        Option::Some(v) => Option::Some(
            SpecServerHello {
                version: spec_schema_of_wire_version(v),
                ok: h.ok,
                connection_token: h.connection_token,
                message: h.message,
            },
        ),
        Option::None => Option::None,
    }
}

pub open spec fn spec_schema_of_wire_error(e: SpecWireError) -> Option<SpecError> {
    match spec_error_type_of_code(e.error_type) {
        Option::Some(t) => Option::Some(
            SpecError { error_type: t.spec_to_schema(), message: e.message },
        ),
        Option::None => Option::None,
    }
}

pub open spec fn spec_schema_of_wire_stream_open(o: WireStreamOpen) -> Option<StreamOpen> {
    match o.meta {
        Option::Some(m) => match spec_schema_of_wire_meta(m) {
            Option::Some(meta) => Option::Some(StreamOpen { stream_id: o.stream_id, meta }),
            Option::None => Option::None,
        },
        Option::None => Option::None,
    }
}

pub open spec fn spec_schema_of_wire_payload(p: SpecWirePayload) -> Option<SpecPayload> {
    match p {
        SpecWirePayload::ClientHello(h) => match spec_schema_of_wire_client_hello(h) {
            Option::Some(s) => Option::Some(SpecPayload::ClientHello(s)),
            Option::None => Option::None,
        },
        SpecWirePayload::ServerHello(h) => match spec_schema_of_wire_server_hello(h) {
            Option::Some(s) => Option::Some(SpecPayload::ServerHello(s)),
            Option::None => Option::None,
        },
        SpecWirePayload::Okay => Option::Some(SpecPayload::Okay),
        SpecWirePayload::Error(e) => match spec_schema_of_wire_error(e) {
            Option::Some(s) => Option::Some(SpecPayload::Error(s)),
            Option::None => Option::None,
        },
        SpecWirePayload::StreamOpen(o) => match spec_schema_of_wire_stream_open(o) {
            Option::Some(s) => Option::Some(SpecPayload::StreamOpen(s)),
            Option::None => Option::None,
        },
        SpecWirePayload::StreamClose(c) => Option::Some(
            SpecPayload::StreamClose(StreamClose { stream_id: c.stream_id }),
        ),
        SpecWirePayload::ArbitaryData(d) => Option::Some(
            SpecPayload::ArbitaryData(SpecArbitaryData { content: d.content }),
        ),
        SpecWirePayload::Keepalive => Option::Some(SpecPayload::Keepalive),
        SpecWirePayload::Close => Option::Some(SpecPayload::Close),
        SpecWirePayload::BenchmarkStart(b) => match spec_integrity_of_code(b.integrity_type) {
            Option::Some(t) => Option::Some(
                SpecPayload::BenchmarkStart(
                    BenchmarkStart {
                        integrity_type: t.spec_to_schema(),
                        byte_count: b.byte_count,
                    },
                ),
            ),
            Option::None => Option::None,
        },
        SpecWirePayload::BenchmarkEnd => Option::Some(SpecPayload::BenchmarkEnd),
    }
}

pub open spec fn spec_schema_of_wire_message(m: SpecWireMessage) -> Option<SpecMessage> {
    match m.payload {
        Option::Some(p) => match spec_schema_of_wire_payload(p) {
            Option::Some(s) => Option::Some(
                SpecMessage { context_id: m.context_id, payload: s },
            ),
            Option::None => Option::None,
        },
        Option::None => Option::None,
    }
}

// ---------------------------------------------------------------------------
// Executable conversions
// ---------------------------------------------------------------------------
impl Version {
    pub fn to_wire(self) -> (w: WireVersion)
        ensures
            w == spec_wire_of_version(self),
    {
        WireVersion { major: self.major, minor: self.minor, patch: self.patch }
    }
}

impl WireVersion {
    pub fn to_schema(self) -> (v: Version)
        ensures
            v == spec_schema_of_wire_version(self),
    {
        Version { major: self.major, minor: self.minor, patch: self.patch }
    }
}

impl StreamCreateMeta {
    pub fn to_wire(self) -> (w: WireStreamCreateMeta)
        ensures
            w == spec_wire_of_meta(self),
    {
        WireStreamCreateMeta { stream_integrity: self.integrity_type.to_i32() }
    }
}

impl WireStreamCreateMeta {
    pub fn to_schema(self) -> (m: Option<StreamCreateMeta>)
        ensures
            m == spec_schema_of_wire_meta(self),
    {
        match WireIntegrityType::from_i32(self.stream_integrity) {
            Option::Some(t) => Option::Some(StreamCreateMeta { integrity_type: t.to_schema() }),
            Option::None => Option::None,
        }
    }
}

impl ClientHello {
    pub fn to_wire(self) -> (w: WireClientHello)
        ensures
            w@ == spec_wire_of_client_hello(self@),
    {
        WireClientHello {
            version: Option::Some(self.version.to_wire()),
            resume_connection_token: self.resume_connection_token,
        }
    }
}

impl WireClientHello {
    pub fn to_schema(self) -> (r: Option<ClientHello>)
        ensures
            match r {
                Option::Some(h) => spec_schema_of_wire_client_hello(self@) == Option::Some(h@),
                Option::None => spec_schema_of_wire_client_hello(self@) is None,
            },
    {
        match self.version {
            Option::Some(v) => Option::Some(
                ClientHello {
                    version: v.to_schema(),
                    resume_connection_token: self.resume_connection_token,
                },
            ),
            Option::None => Option::None,
        }
    }
}

impl ServerHello {
    pub fn to_wire(self) -> (w: WireServerHello)
        ensures
            w@ == spec_wire_of_server_hello(self@),
    {
        WireServerHello {
            version: Option::Some(self.version.to_wire()),
            ok: self.ok,
            connection_token: self.connection_token,
            message: self.message,
        }
    }
}

impl WireServerHello {
    pub fn to_schema(self) -> (r: Option<ServerHello>)
        ensures
            match r {
                Option::Some(h) => spec_schema_of_wire_server_hello(self@) == Option::Some(h@),
                Option::None => spec_schema_of_wire_server_hello(self@) is None,
            },
    {
        match self.version {
            Option::Some(v) => Option::Some(
                ServerHello {
                    version: v.to_schema(),
                    ok: self.ok,
                    connection_token: self.connection_token,
                    message: self.message,
                },
            ),
            Option::None => Option::None,
        }
    }
}

impl Error {
    pub fn to_wire(self) -> (w: WireError)
        ensures
            w@ == spec_wire_of_error(self@),
    {
        WireError { error_type: self.error_type.to_i32(), message: self.message }
    }
}

impl WireError {
    pub fn to_schema(self) -> (r: Option<Error>)
        ensures
            match r {
                Option::Some(e) => spec_schema_of_wire_error(self@) == Option::Some(e@),
                Option::None => spec_schema_of_wire_error(self@) is None,
            },
    {
        match WireErrorType::from_i32(self.error_type) {
            Option::Some(t) => Option::Some(
                Error { error_type: t.to_schema(), message: self.message },
            ),
            Option::None => Option::None,
        }
    }
}

impl StreamOpen {
    pub fn to_wire(self) -> (w: WireStreamOpen)
        ensures
            w == spec_wire_of_stream_open(self),
    {
        WireStreamOpen {
            stream_id: self.stream_id,
            meta: Option::Some(self.meta.to_wire()),
        }
    }
}

impl WireStreamOpen {
    pub fn to_schema(self) -> (r: Option<StreamOpen>)
        ensures
            r == spec_schema_of_wire_stream_open(self),
    {
        match self.meta {
            Option::Some(m) => match m.to_schema() {
                Option::Some(meta) => Option::Some(
                    StreamOpen { stream_id: self.stream_id, meta },
                ),
                Option::None => Option::None,
            },
            Option::None => Option::None,
        }
    }
}

impl StreamClose {
    pub fn to_wire(self) -> (w: WireStreamClose)
        ensures
            w == (WireStreamClose { stream_id: self.stream_id }),
    {
        WireStreamClose { stream_id: self.stream_id }
    }
}

impl WireStreamClose {
    pub fn to_schema(self) -> (r: StreamClose)
        ensures
            r == (StreamClose { stream_id: self.stream_id }),
    {
        StreamClose { stream_id: self.stream_id }
    }
}

impl ArbitaryData {
    pub fn to_wire(self) -> (w: WireArbitaryData)
        ensures
            w@ == (SpecWireArbitaryData { content: self@.content }),
    {
        WireArbitaryData { content: self.content }
    }
}

impl WireArbitaryData {
    pub fn to_schema(self) -> (r: ArbitaryData)
        ensures
            r@ == (SpecArbitaryData { content: self@.content }),
    {
        ArbitaryData { content: self.content }
    }
}

impl BenchmarkStart {
    pub fn to_wire(self) -> (w: WireBenchmarkStart)
        ensures
            w == (WireBenchmarkStart {
                integrity_type: spec_integrity_code(self.integrity_type.spec_to_wire()),
                byte_count: self.byte_count,
            }),
    {
        WireBenchmarkStart {
            integrity_type: self.integrity_type.to_i32(),
            byte_count: self.byte_count,
        }
    }
}

impl WireBenchmarkStart {
    pub fn to_schema(self) -> (r: Option<BenchmarkStart>)
        ensures
            match r {
                Option::Some(b) => (spec_integrity_of_code(self.integrity_type) matches Option::Some(
                    t,
                ) && b == (BenchmarkStart {
                    integrity_type: t.spec_to_schema(),
                    byte_count: self.byte_count,
                })),
                Option::None => spec_integrity_of_code(self.integrity_type) is None,
            },
    {
        match WireIntegrityType::from_i32(self.integrity_type) {
            Option::Some(t) => Option::Some(
                BenchmarkStart {
                    integrity_type: t.to_schema(),
                    byte_count: self.byte_count,
                },
            ),
            Option::None => Option::None,
        }
    }
}

impl Payload {
    pub fn to_wire(self) -> (w: WirePayload)
        ensures
            w@ == spec_wire_of_payload(self@),
    {
        match self {
            Payload::ClientHello(h) => WirePayload::ClientHello(h.to_wire()),
            Payload::ServerHello(h) => WirePayload::ServerHello(h.to_wire()),
            Payload::Okay => WirePayload::Okay,
            Payload::Error(e) => WirePayload::Error(e.to_wire()),
            Payload::StreamOpen(o) => WirePayload::StreamOpen(o.to_wire()),
            Payload::StreamClose(c) => WirePayload::StreamClose(c.to_wire()),
            Payload::ArbitaryData(d) => WirePayload::ArbitaryData(d.to_wire()),
            Payload::Keepalive => WirePayload::Keepalive,
            Payload::Close => WirePayload::Close,
            Payload::BenchmarkStart(b) => WirePayload::BenchmarkStart(b.to_wire()),
            Payload::BenchmarkEnd => WirePayload::BenchmarkEnd,
        }
    }
}

impl WirePayload {
    pub fn to_schema(self) -> (r: Option<Payload>)
        ensures
            match r {
                Option::Some(p) => spec_schema_of_wire_payload(self@) == Option::Some(p@),
                Option::None => spec_schema_of_wire_payload(self@) is None,
            },
    {
        match self {
            WirePayload::ClientHello(h) => match h.to_schema() {
                Option::Some(s) => Option::Some(Payload::ClientHello(s)),
                Option::None => Option::None,
            },
            WirePayload::ServerHello(h) => match h.to_schema() {
                Option::Some(s) => Option::Some(Payload::ServerHello(s)),
                Option::None => Option::None,
            },
            WirePayload::Okay => Option::Some(Payload::Okay),
            WirePayload::Error(e) => match e.to_schema() {
                Option::Some(s) => Option::Some(Payload::Error(s)),
                Option::None => Option::None,
            },
            WirePayload::StreamOpen(o) => match o.to_schema() {
                Option::Some(s) => Option::Some(Payload::StreamOpen(s)),
                Option::None => Option::None,
            },
            WirePayload::StreamClose(c) => Option::Some(Payload::StreamClose(c.to_schema())),
            WirePayload::ArbitaryData(d) => Option::Some(Payload::ArbitaryData(d.to_schema())),
            WirePayload::Keepalive => Option::Some(Payload::Keepalive),
            WirePayload::Close => Option::Some(Payload::Close),
            WirePayload::BenchmarkStart(b) => match b.to_schema() {
                Option::Some(s) => Option::Some(Payload::BenchmarkStart(s)),
                Option::None => Option::None,
            },
            WirePayload::BenchmarkEnd => Option::Some(Payload::BenchmarkEnd),
        }
    }
}

impl Message {
    pub fn to_wire(self) -> (w: WireMessage)
        ensures
            w@ == spec_wire_of_message(self@),
    {
        WireMessage {
            context_id: self.context_id,
            payload: Option::Some(self.payload.to_wire()),
        }
    }
}

impl WireMessage {
    pub fn to_schema(self) -> (r: Option<Message>)
        ensures
            match r {
                Option::Some(m) => spec_schema_of_wire_message(self@) == Option::Some(m@),
                Option::None => spec_schema_of_wire_message(self@) is None,
            },
    {
        match self.payload {
            Option::Some(p) => match p.to_schema() {
                Option::Some(s) => Option::Some(
                    Message { context_id: self.context_id, payload: s },
                ),
                Option::None => Option::None,
            },
            Option::None => Option::None,
        }
    }
}

/// Every enum code a schema message converts to fits its wire byte.
pub proof fn lemma_wire_of_codes(m: SpecMessage)
    ensures
        crate::codec::wf_codes_message(spec_wire_of_message(m)),
{
    match m.payload {
        SpecPayload::Error(e) => {
            match e.error_type {
                ErrorType::Unspecified => {},
                ErrorType::Timeout => {},
            }
        },
        SpecPayload::StreamOpen(o) => {
            match o.meta.integrity_type {
                IntegrityType::Reliable => {},
                IntegrityType::Unreliable => {},
            }
        },
        SpecPayload::BenchmarkStart(b) => {
            match b.integrity_type {
                IntegrityType::Reliable => {},
                IntegrityType::Unreliable => {},
            }
        },
        _ => {},
    }
}

/// A wire record converted from the schema always converts back to the value
/// it came from: the two conversions compose to the identity.
pub proof fn lemma_transform_round_trip(m: SpecMessage)
    ensures
        spec_schema_of_wire_message(spec_wire_of_message(m)) == Option::Some(m),
{
    let w = spec_wire_of_message(m);
    match m.payload {
        SpecPayload::ClientHello(h) => {
            assert(spec_schema_of_wire_message(w) =~= Option::Some(m));
        },
        SpecPayload::ServerHello(h) => {
            assert(spec_schema_of_wire_message(w) =~= Option::Some(m));
        },
        SpecPayload::Okay => {},
        SpecPayload::Error(e) => {
            assert(spec_schema_of_wire_message(w) =~= Option::Some(m));
        },
        SpecPayload::StreamOpen(o) => {},
        SpecPayload::StreamClose(c) => {},
        SpecPayload::ArbitaryData(d) => {
            assert(spec_schema_of_wire_message(w) =~= Option::Some(m));
        },
        SpecPayload::Keepalive => {},
        SpecPayload::Close => {},
        SpecPayload::BenchmarkStart(b) => {},
        SpecPayload::BenchmarkEnd => {},
    }
}

} // verus!
