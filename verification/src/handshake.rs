//! The handshake decisions of both peers. The client opens its first
//! context with a `ClientHello`; the server answers with a `ServerHello`
//! that declines every resume attempt and otherwise accepts with a fresh
//! 32-byte connection token. The asynchronous reads and writes around these
//! decisions live outside the verified library.

use vstd::prelude::*;
use vstd::string::StringExecFns;

use crate::errors::ConnectionError;
use crate::schema::{
    ClientHello, Payload, ServerHello, spec_current_version,
};
use crate::utp::UTPEvent;

verus! {

/// Bytes in a connection token.
pub const CONNECTION_TOKEN_LEN: usize = 32;

/// Relies on `rand::rng` and `rand::Rng::fill_bytes`: fills the
/// whole 32-byte buffer from the thread-local cryptographically secure
/// generator. Nothing about the bytes' values can be promised.
#[verifier::external_body]
pub fn generate_connection_token() -> (r: Vec<u8>)
    ensures
        r@.len() == CONNECTION_TOKEN_LEN,
{
    let mut buf = vec![0u8; CONNECTION_TOKEN_LEN];
    rand::Rng::fill_bytes(&mut rand::rng(), &mut buf);
    buf
}

/// The payload a client opens its handshake context with: the library's
/// version and the resume token it wants to present, if any.
pub fn client_hello_payload(resume_token: Option<Vec<u8>>) -> (p: Payload)
    ensures
        p == Payload::ClientHello(
            ClientHello {
                version: spec_current_version(),
                resume_connection_token: resume_token,
            },
        ),
{
    Payload::ClientHello(
        ClientHello {
            version: crate::schema::current_version(),
            resume_connection_token: resume_token,
        },
    )
}

/// The client's reading of the payload that answers its `ClientHello`: the
/// connection token out of an accepting `ServerHello`; a handshake
/// rejection, carrying the server's message, out of a declining one; a
/// malformed-data error when an accepting reply carries no token; and a
/// malformed-payload error for any payload that is no `ServerHello`.
pub fn interpret_server_hello(payload: Payload) -> (r: Result<Vec<u8>, ConnectionError>)
    ensures
        match payload {
            Payload::ServerHello(h) => {
                &&& (h.ok && h.connection_token is Some) ==> r == Result::<
                    Vec<u8>,
                    ConnectionError,
                >::Ok(h.connection_token->0)
                &&& (h.ok && h.connection_token is None) ==> (r matches Result::Err(
                    ConnectionError::MalformedData(m),
                ) && m@ == "connection token is not provided"@)
                &&& !h.ok ==> (r matches Result::Err(ConnectionError::HandshakeReject(m)) && m@
                    == (match h.message {
                    Option::Some(s) => s@,
                    Option::None => "unknown error"@,
                }))
            },
            _ => (r matches Result::Err(ConnectionError::MalformedPayload(m, p)) && m@
                == "expected ServerHello"@ && p == payload),
        },
{
    match payload {
        Payload::ServerHello(h) => {
            if h.ok {
                match h.connection_token {
                    Option::Some(token) => Result::Ok(token),
                    Option::None => Result::Err(
                        ConnectionError::MalformedData(
                            String::from_str("connection token is not provided"),
                        ),
                    ),
                }
            } else {
                let msg = match h.message {
                    Option::Some(s) => s,
                    Option::None => String::from_str("unknown error"),
                };
                Result::Err(ConnectionError::HandshakeReject(msg))
            }
        },
        _ => Result::Err(
            ConnectionError::MalformedPayload(String::from_str("expected ServerHello"), payload),
        ),
    }
}

/// The text the server declines every resume attempt with.
pub fn resume_rejection_message() -> (r: String)
    ensures
        r@ == "Resume connection is not supported."@,
{
    String::from_str("Resume connection is not supported.")
}

/// The server's answer to the payload that opened the handshake context. A
/// `ClientHello` presenting a resume token is declined: `ok` is false and
/// the reply says resume is not supported. A `ClientHello` without one is
/// accepted: `ok` is true and the reply carries `connection_token`, the
/// caller's freshly generated token. Any other payload is a protocol
/// violation and yields no reply.
pub fn server_handshake_reply(payload: Payload, connection_token: Vec<u8>) -> (r: Result<
    ServerHello,
    ConnectionError,
>)
    ensures
        match payload {
            Payload::ClientHello(h) => {
                &&& h.resume_connection_token is Some ==> (r matches Result::Ok(sh)
                    && sh.version == spec_current_version() && !sh.ok && sh.connection_token
                    is None && (sh.message matches Option::Some(m) && m@
                    == "Resume connection is not supported."@))
                &&& h.resume_connection_token is None ==> r == Result::<
                    ServerHello,
                    ConnectionError,
                >::Ok(
                    ServerHello {
                        version: spec_current_version(),
                        ok: true,
                        connection_token: Option::Some(connection_token),
                        message: Option::None,
                    },
                )
            },
            _ => (r matches Result::Err(ConnectionError::MalformedPayload(m, p)) && m@
                == "expected ClientHello"@ && p == payload),
        },
{
    match payload {
        Payload::ClientHello(h) => {
            if h.resume_connection_token.is_some() {
                Result::Ok(
                    ServerHello {
                        version: crate::schema::current_version(),
                        ok: false,
                        connection_token: Option::None,
                        message: Option::Some(resume_rejection_message()),
                    },
                )
            } else {
                Result::Ok(
                    ServerHello {
                        version: crate::schema::current_version(),
                        ok: true,
                        connection_token: Option::Some(connection_token),
                        message: Option::None,
                    },
                )
            }
        },
        _ => Result::Err(
            ConnectionError::MalformedPayload(String::from_str("expected ClientHello"), payload),
        ),
    }
}

/// The accept loop's reading of the first transport event: the stream id
/// out of a `NewStream`, on which the primary channel is then opened, and a
/// closed-stream error for an unexpected close.
pub fn accept_event_stream(event: UTPEvent) -> (r: Result<u64, ConnectionError>)
    ensures
        match event {
            UTPEvent::NewStream(id) => r == Result::<u64, ConnectionError>::Ok(id),
            UTPEvent::UnexpectedClose => r == Result::<u64, ConnectionError>::Err(
                ConnectionError::ClosedStream,
            ),
        },
{
    match event {
        UTPEvent::NewStream(id) => Result::Ok(id),
        UTPEvent::UnexpectedClose => Result::Err(ConnectionError::ClosedStream),
    }
}

} // verus!
