//! What a capture driver has to offer.

use crate::control::{CameraControl, ControlValueSetter, KnownCameraControl};
use crate::error::NokhwaError;
use crate::negotiate::ResolutionTable;
use crate::types::{ApiBackend, CameraFormat, CameraIndex, CameraInfo, FrameFormat};
use vstd::prelude::*;

verus! {

/// The calls a driver for one capture technology answers.
///
/// Nothing is assumed of a driver beyond the types of its answers. A call
/// that succeeds says that the device took the request, not that it now has
/// exactly what was asked: what it has is what [`Backend::get_format`] and
/// [`Backend::get_control`] say afterwards. A driver reports at most two
/// encodings from [`Backend::query_fourccs`].
pub trait Backend {
    /// The capture technology this driver speaks.
    fn backend_kind(&self) -> ApiBackend;

    /// The device as it was listed.
    fn info(&self) -> CameraInfo;

    /// The encodings the device can deliver.
    fn query_fourccs(&mut self) -> Result<Vec<FrameFormat>, NokhwaError>;

    /// The frame sizes the device offers in one encoding, each with its
    /// rates, in no particular order.
    fn query_formats(&mut self, fourcc: FrameFormat) -> Result<ResolutionTable, NokhwaError>;

    /// The format the device has now.
    fn get_format(&mut self) -> Result<CameraFormat, NokhwaError>;

    /// Asks the device to take a format.
    fn apply_format(&mut self, format: CameraFormat) -> Result<(), NokhwaError>;

    /// One control as the device describes it now.
    fn get_control(&mut self, id: KnownCameraControl) -> Result<CameraControl, NokhwaError>;

    /// All controls as the device describes them now.
    fn list_controls(&mut self) -> Result<Vec<CameraControl>, NokhwaError>;

    /// Asks the device to set a control.
    fn set_control(&mut self, id: KnownCameraControl, value: &ControlValueSetter) -> Result<
        (),
        NokhwaError,
    >;

    /// Acquires the device and starts streaming.
    fn open(&mut self) -> Result<(), NokhwaError>;

    /// Stops streaming.
    fn close(&mut self) -> Result<(), NokhwaError>;

    /// Whether the driver itself takes the device to be streaming.
    fn is_open(&self) -> bool;

    /// Waits for the next frame and hands out its bytes.
    fn pull_frame(&mut self) -> Result<Vec<u8>, NokhwaError>;
}

/// A driver that can be had from the name of a device.
pub trait OpenBackend: Backend + Sized {
    /// Finds the device `index` and readies a driver for it, without
    /// starting to stream.
    fn open_device(index: &CameraIndex) -> Result<Self, NokhwaError>;
}

} // verus!
