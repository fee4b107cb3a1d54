//! Error types for capability dispatch and BLE communication.

use vstd::prelude::*;

verus! {

/// Failure of a capability invocation itself, before any transport is
/// involved. The only such failure is an option combination for which the
/// protocol defines no byte layout.
#[derive(Clone, Copy, PartialEq, Eq, Structural, Debug)]
pub enum CapabilityError {
    /// The requested option has no defined encoding.
    NotSupported,
}

/// Errors related to BLE communication.
///
/// The transport itself lives outside this crate; `InternalError` carries
/// the underlying transport failure as its message.
#[derive(Debug)]
pub enum BluetoothError {
    /// The selected default bluetooth adapter is invalid.
    InvalidBluetoothAdapter,
    /// The device holds no peripheral reference.
    InvalidPeripheralReference,
    /// The peripheral properties could not be unpacked.
    InvalidPeriperipheralProperty,
    /// No characteristic satisfies the requested target value.
    NotFoundTargetCharacteristic,
    /// Failure reported by the underlying transport.
    InternalError(String),
    /// Invalid or absent characteristic.
    InvalidCharacteristic,
}

} // verus!
