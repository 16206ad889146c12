use vstd::prelude::*;

verus! {

/// Why a single field failed to parse.
#[derive(Clone, Copy, Debug, PartialEq, Eq, Structural)]
pub enum DecodeErrorKind {
    /// The field is not a decimal integer.
    NotAnInteger,
    /// The field is a decimal integer, but outside the target range.
    OutOfRange,
    /// The field is not valid UTF-8.
    InvalidUtf8,
    /// The cursor ran past the last field of the payload.
    MissingField,
}

/// The error taxonomy of the message bus.
#[derive(Clone, Copy, Debug, PartialEq, Eq, Structural)]
pub enum BusError {
    /// The peer closed the transport, or a frame was cut short.
    TransportClosed,
    /// A length prefix exceeded the configured maximum frame size.
    FrameTooLarge,
    /// A field of a payload could not be parsed.
    Decode { field_index: usize, kind: DecodeErrorKind },
    /// No payload arrived within the allowed time.
    Timeout,
}

} // verus!
