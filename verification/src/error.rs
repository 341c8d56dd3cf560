//! The ways a capture operation can fail.

use crate::control::KnownCameraControl;
use crate::stream::StreamState;
use crate::types::{ApiBackend, CameraFormat};
use vstd::prelude::*;

verus! {

/// A failed capture operation.
///
/// A failure that a driver reports is handed on as it is. The library itself
/// fails an operation before it turns to the device with `StreamStateError`,
/// with `InvalidControlValue`, and with `UnsupportedOperation` for a control
/// it holds no description of; it reports a decoder's failure as a
/// `DecodeError`.
#[derive(Clone, Debug, PartialEq, Eq)]
pub enum NokhwaError {
    /// The backend cannot do this at all, or has no such control.
    UnsupportedOperation(ApiBackend),
    /// The device is busy, absent or gone.
    DeviceUnavailable(String),
    /// The device does not take this format.
    InvalidFormat(CameraFormat),
    /// The value submitted for this control is out of its bounds or off its
    /// step grid.
    InvalidControlValue(KnownCameraControl),
    /// The operation is not valid while the stream is in this state.
    StreamStateError(StreamState),
    /// Raw bytes could not be turned into pixels.
    DecodeError(String),
    /// Anything else the driver reports.
    BackendError(String),
}

} // verus!
