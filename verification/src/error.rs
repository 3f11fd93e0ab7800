//! The failure taxonomy exposed to callers of the driver.

use vstd::prelude::*;

verus! {

/// An opaque fault reported by the pulse-generation peripheral, carried as
/// the numeric code that the peripheral driver handed back. The core never
/// inspects it; it is wrapped and surfaced verbatim to the caller.
#[derive(Clone, Copy, PartialEq, Eq, Structural, Debug)]
pub struct TransmitFault {
    /// The peripheral driver's error code.
    pub code: u32,
}

/// All types of errors that can happen during the conversion and
/// transmission of LED commands.
#[derive(Clone, Copy, PartialEq, Eq, Structural, Debug)]
pub enum AdapterError {
    /// Raised in the event that the pulse buffer is not large enough.
    ///
    /// This almost always points to an issue with the buffer capacity the
    /// driver was built with. Size the buffer with
    /// [`buffer_size`](crate::driver::buffer_size), passing in the desired
    /// number of LEDs that will be controlled.
    BufferSizeExceeded,
    /// Raised if something goes wrong in the transmission. This contains the
    /// fault the peripheral reported.
    TransmissionError(TransmitFault),
}

impl From<TransmitFault> for AdapterError {
    /// Wrap a peripheral fault without further interpretation.
    fn from(value: TransmitFault) -> (r: Self) {
        AdapterError::TransmissionError(value)
    }
}

impl vstd::std_specs::convert::FromSpecImpl<TransmitFault> for AdapterError {
    open spec fn obeys_from_spec() -> bool {
        true
    }

    open spec fn from_spec(value: TransmitFault) -> Self {
        AdapterError::TransmissionError(value)
    }
}

} // verus!
