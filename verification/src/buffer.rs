//! A captured frame.

use crate::error::NokhwaError;
use crate::types::{CameraFormat, FrameFormat, Resolution};
use vstd::prelude::*;

verus! {

/// Something that turns the bytes of a frame into pixels.
///
/// Decoding is not part of this library. A decoder is expected to be a
/// function of its four arguments and to say why it failed rather than to
/// panic; nothing here depends on that.
pub trait Decoder {
    /// The pixels of a frame in `target_format`, or why there are none.
    fn decode(
        &self,
        raw: &[u8],
        source_format: FrameFormat,
        resolution: Resolution,
        target_format: FrameFormat,
    ) -> Result<Vec<u8>, String>;
}

/// The bytes of one frame as the device produced them, with the frame size
/// and the encoding that a decoder needs to read them.
///
/// A buffer owns its bytes. Nothing here changes them: decoding is a function
/// of the three fields and can be repeated.
#[derive(Clone, Debug, PartialEq, Eq)]
pub struct Buffer {
    pub resolution: Resolution,
    pub raw: Vec<u8>,
    pub source_format: FrameFormat,
}

impl Buffer {
    pub fn new(resolution: Resolution, raw: Vec<u8>, source_format: FrameFormat) -> (buffer: Buffer)
        ensures
            buffer == (Buffer { resolution, raw, source_format }),
    {
        Buffer { resolution, raw, source_format }
    }

    /// The frame that `raw` is when it was captured under `format`.
    pub open spec fn captured(raw: Vec<u8>, format: CameraFormat) -> Buffer {
        Buffer { resolution: format.resolution, raw, source_format: format.format }
    }

    pub fn from_capture(raw: Vec<u8>, format: CameraFormat) -> (buffer: Buffer)
        ensures
            buffer == Buffer::captured(raw, format),
    {
        Buffer { resolution: format.resolution, raw, source_format: format.format }
    }

    pub fn resolution(&self) -> (res: Resolution)
        ensures
            res == self.resolution,
    {
        self.resolution
    }

    pub fn source_frame_format(&self) -> (fourcc: FrameFormat)
        ensures
            fourcc == self.source_format,
    {
        self.source_format
    }

    pub fn buffer(&self) -> (bytes: &[u8])
        ensures
            bytes@ == self.raw@,
    {
        self.raw.as_slice()
    }

    pub fn len(&self) -> (n: usize)
        ensures
            n == self.raw@.len(),
    {
        self.raw.len()
    }

    pub fn is_empty(&self) -> (empty: bool)
        ensures
            empty == (self.raw@.len() == 0),
    {
        self.raw.len() == 0
    }

    /// What a decoder's answer comes to for the caller: its pixels as they
    /// are, its failure as a `DecodeError`.
    pub open spec fn decoded(answer: Result<Vec<u8>, String>) -> Result<Vec<u8>, NokhwaError> {
        match answer {
            Ok(pixels) => Ok(pixels),
            Err(why) => Err(NokhwaError::DecodeError(why)),
        }
    }

    pub fn decode_result(answer: Result<Vec<u8>, String>) -> (result: Result<Vec<u8>, NokhwaError>)
        ensures
            result == Buffer::decoded(answer),
    {
        match answer {
            Ok(pixels) => Ok(pixels),
            Err(why) => Err(NokhwaError::DecodeError(why)),
        }
    }

    /// Decodes the frame into `target_format`. The decoder is handed the
    /// bytes, the encoding and the frame size of this buffer; the buffer
    /// stays as it is, so the frame can be decoded again. Whatever goes wrong
    /// in the decoder comes back as a `DecodeError`.
    pub fn decode<D: Decoder>(&self, decoder: &D, target_format: FrameFormat) -> (result: Result<
        Vec<u8>,
        NokhwaError,
    >)
        ensures
            exists|raw: &[u8], answer: Result<Vec<u8>, String>|
                raw@ == self.raw@ && #[trigger] call_ensures(
                    D::decode,
                    (decoder, raw, self.source_format, self.resolution, target_format),
                    answer,
                ) && result == Buffer::decoded(answer),
            result is Err ==> result->Err_0 is DecodeError,
    {
        let answer = decoder.decode(
            self.raw.as_slice(),
            self.source_format,
            self.resolution,
            target_format,
        );
        Buffer::decode_result(answer)
    }

    /// Gives up the frame for its bytes.
    pub fn into_raw(self) -> (raw: Vec<u8>)
        ensures
            raw == self.raw,
    {
        self.raw
    }
}

} // verus!
