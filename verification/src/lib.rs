//! USB HID interface-class engine: descriptor encoding, packed-report
//! codecs, and the runtime control-request state machine (idle rates and
//! protocol mode) that device wrappers such as a gamepad delegate to.
use vstd::prelude::*;

pub mod descriptor;
pub mod gamepad;
pub mod interface;
pub mod report;

verus! {

/// Errors surfaced by the HID interface layer.
///
/// `SerializationError`: a packed report's fields do not fit their declared
/// bit widths, or a byte sequence has the wrong length for its report type.
/// `TransportError`: the underlying USB transport rejected a write; raised by
/// the transport glue, never by the verified core.
/// `ProtocolViolation`: a malformed or unsupported control-request payload.
#[derive(Clone, Copy, Debug, PartialEq, Eq, Structural)]
pub enum UsbHidError {
    SerializationError,
    TransportError,
    ProtocolViolation,
}

} // verus!
