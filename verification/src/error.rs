//! Error taxonomy of the addressing and envelope subsystem.
//!
//! Every failure is returned to the caller as a typed value; nothing here
//! panics or retries. Errors that report an illegal addressing intent carry
//! both operands (the message role and the offending intent).

use vstd::prelude::*;

use crate::addressing::{Destination, Source};

verus! {

/// The role of a message: the three kinds exchanged over the transport.
#[derive(Debug, Clone, Copy, PartialEq, Eq, Structural)]
pub enum MessageKind {
    Event,
    Request,
    Response,
}

/// Failure of an operation of this library.
#[derive(Debug, PartialEq, Eq)]
pub enum Error {
    /// A canonical identity or group string, or a wire envelope text,
    /// does not have the expected structure; carries the invalid text.
    InvalidFormat(String),
    /// The destination intent is illegal for the message role.
    IncompatibleDestination { kind: MessageKind, destination: Destination },
    /// The source intent is illegal for the subscription role.
    IncompatibleSource { kind: MessageKind, source: Source },
    /// A payload could not be serialized.
    PayloadSerializationError,
    /// A payload string could not be deserialized; carries the text.
    PayloadDeserializationError(String),
    /// The envelope's role tag does not match the requested conversion.
    RoleMismatch { expected: MessageKind, found: MessageKind },
    /// A required field of a structured codec is absent.
    MissingField(String),
    /// A field of a structured codec occurs twice.
    DuplicateField(String),
    /// A field unknown to the structured codec occurs.
    UnknownField(String),
    /// The transport collaborator failed; carried with a fixed
    /// description rather than transport-specific detail.
    TransportError,
}

} // verus!
