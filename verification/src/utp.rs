//! The event and error vocabulary of the underlying transport (UTP): the
//! pluggable byte-stream-plus-events abstraction the protocol sits on. The
//! transport itself is asynchronous and lives outside the verified library;
//! the reader loop's reaction to each of these values is verified in the
//! frame router.

use vstd::prelude::*;

verus! {

/// How a transport failure is classified: a warning lets the reader loop
/// continue, a fatal error ends it, and an I/O error is treated as
/// end-of-stream. Each carries the underlying error's text.
#[derive(Clone, Debug, PartialEq, Eq)]
pub enum UTPError {
    Warn(String),
    Fatal(String),
    Io(String),
}

/// An event the transport reports: a peer-initiated sub-stream with its id,
/// or an unexpected close of the connection.
#[derive(Clone, Copy, Debug, PartialEq, Eq, Structural)]
pub enum UTPEvent {
    UnexpectedClose,
    NewStream(u64),
}

} // verus!
