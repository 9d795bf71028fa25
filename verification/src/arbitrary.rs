//! The typed arbitrary-data view over a context: opaque bytes travel as
//! `ArbitaryData` payloads, and a nested sub-stream is announced to the
//! peer with a `StreamOpen` payload. A payload of the wrong kind surfaces
//! an error without closing the context. The context's reads and writes
//! themselves are asynchronous and live outside the verified library.

use vstd::prelude::*;
use vstd::string::StringExecFns;

use crate::errors::ArbError;
use crate::schema::{
    ArbitaryData, IntegrityType, Message, Payload, StreamCreateMeta, StreamOpen,
};

verus! {

/// Wraps a context's payload into the frame body the writer sends: the
/// payload addressed to that context.
pub fn make_message(context_id: u64, payload: Payload) -> (m: Message)
    ensures
        m == (Message { context_id, payload }),
{
    Message { context_id, payload }
}

/// The payload a write of opaque bytes sends.
pub fn arb_write_payload(content: Vec<u8>) -> (p: Payload)
    ensures
        p == Payload::ArbitaryData(ArbitaryData { content }),
{
    Payload::ArbitaryData(ArbitaryData { content })
}

/// The typed read: the bytes out of an `ArbitaryData` payload, and an
/// unexpected-data error — which leaves the context usable — for a payload
/// of any other kind.
pub fn arb_read_payload(payload: Payload) -> (r: Result<Vec<u8>, ArbError>)
    ensures
        match payload {
            Payload::ArbitaryData(d) => r == Result::<Vec<u8>, ArbError>::Ok(d.content),
            _ => (r matches Result::Err(ArbError::UnexpectedData(m)) && m@
                == "expected ArbitaryData"@),
        },
{
    match payload {
        Payload::ArbitaryData(d) => Result::Ok(d.content),
        _ => Result::Err(ArbError::UnexpectedData(String::from_str("expected ArbitaryData"))),
    }
}

/// The payload that announces a freshly opened sub-stream: its id and its
/// integrity class.
pub fn stream_open_payload(stream_id: u64, integrity: IntegrityType) -> (p: Payload)
    ensures
        p == Payload::StreamOpen(
            StreamOpen { stream_id, meta: StreamCreateMeta { integrity_type: integrity } },
        ),
{
    Payload::StreamOpen(
        StreamOpen { stream_id, meta: StreamCreateMeta { integrity_type: integrity } },
    )
}

/// The reading of a payload that should announce a sub-stream: the
/// announced id and integrity class out of a `StreamOpen`, and an
/// unexpected-data error for a payload of any other kind.
pub fn interpret_stream_open(payload: Payload) -> (r: Result<(u64, IntegrityType), ArbError>)
    ensures
        match payload {
            Payload::StreamOpen(o) => r == Result::<(u64, IntegrityType), ArbError>::Ok(
                (o.stream_id, o.meta.integrity_type),
            ),
            _ => (r matches Result::Err(ArbError::UnexpectedData(m)) && m@
                == "expected ArbitaryData"@),
        },
{
    match payload {
        Payload::StreamOpen(o) => Result::Ok((o.stream_id, o.meta.integrity_type)),
        _ => Result::Err(ArbError::UnexpectedData(String::from_str("expected ArbitaryData"))),
    }
}

} // verus!
