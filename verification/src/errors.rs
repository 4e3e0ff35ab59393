//! Error kinds of the capture core. Decode-time errors are recoverable:
//! they are reported per message and never abort a capture session.

use vstd::prelude::*;

verus! {

/// Why a raw message could not be decoded.
#[derive(Clone, Copy, Debug, PartialEq, Eq, Structural)]
pub enum DecodeError {
    /// The message is malformed at the wire level: wrong length, an
    /// unrecognized status byte, a key code outside the supported range,
    /// or a data byte above the protocol maximum.
    ProtocolError,
    /// A control-class message referenced a key code that carries no
    /// pedal or ambience meaning.
    UnmappedControlKey,
}

/// Why a session-lifecycle request could not be served.
#[derive(Clone, Copy, Debug, PartialEq, Eq, Structural)]
pub enum SessionError {
    /// A stop request arrived while no recording session was active.
    NoActiveRecording,
}

} // verus!
