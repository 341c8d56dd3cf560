//! Plain value types that describe a capture device and its configuration.

use vstd::prelude::*;

verus! {

/// Frames per second.
pub type FrameRate = u32;

/// The size of a frame in pixels.
///
/// Two resolutions are equal when both sides are; the derived `Hash` agrees
/// with that, so a resolution can key a map.
#[derive(Clone, Copy, Debug, PartialEq, Eq, Hash, Structural)]
pub struct Resolution {
    pub width: u32,
    pub height: u32,
}

impl Resolution {
    pub fn new(width: u32, height: u32) -> (res: Resolution)
        ensures
            res == (Resolution { width, height }),
    {
        Resolution { width, height }
    }

    pub fn width(&self) -> (w: u32)
        ensures
            w == self.width,
    {
        self.width
    }

    pub fn height(&self) -> (h: u32)
        ensures
            h == self.height,
    {
        self.height
    }
}

/// How the bytes of a frame encode its pixels.
#[derive(Clone, Copy, Debug, PartialEq, Eq, Hash, Structural)]
pub enum FrameFormat {
    MJPEG,
    YUYV,
    NV12,
    GRAY,
    RAWRGB,
    RAWBGR,
    /// An encoding known only by its four-character code.
    Custom(u32),
}

/// A capture configuration: frame size, encoding and rate.
///
/// A format is a value. Changing one aspect of it gives a new format and
/// leaves the old one as it was.
#[derive(Clone, Copy, Debug, PartialEq, Eq, Hash, Structural)]
pub struct CameraFormat {
    pub resolution: Resolution,
    pub format: FrameFormat,
    pub frame_rate: FrameRate,
}

impl CameraFormat {
    pub fn new(resolution: Resolution, format: FrameFormat, frame_rate: FrameRate) -> (fmt:
        CameraFormat)
        ensures
            fmt == (CameraFormat { resolution, format, frame_rate }),
    {
        CameraFormat { resolution, format, frame_rate }
    }

    pub fn resolution(&self) -> (res: Resolution)
        ensures
            res == self.resolution,
    {
        self.resolution
    }

    pub fn format(&self) -> (fourcc: FrameFormat)
        ensures
            fourcc == self.format,
    {
        self.format
    }

    pub fn frame_rate(&self) -> (fps: FrameRate)
        ensures
            fps == self.frame_rate,
    {
        self.frame_rate
    }

    /// This format with another frame size.
    pub fn with_resolution(&self, resolution: Resolution) -> (fmt: CameraFormat)
        ensures
            fmt == (CameraFormat { resolution, ..*self }),
    {
        CameraFormat { resolution, format: self.format, frame_rate: self.frame_rate }
    }

    /// This format with another encoding.
    pub fn with_format(&self, format: FrameFormat) -> (fmt: CameraFormat)
        ensures
            fmt == (CameraFormat { format, ..*self }),
    {
        CameraFormat { resolution: self.resolution, format, frame_rate: self.frame_rate }
    }

    /// This format with another frame rate.
    pub fn with_frame_rate(&self, frame_rate: FrameRate) -> (fmt: CameraFormat)
        ensures
            fmt == (CameraFormat { frame_rate, ..*self }),
    {
        CameraFormat { resolution: self.resolution, format: self.format, frame_rate }
    }
}

/// The configuration a device is taken to have when nothing else is known of
/// it: 640 by 480 pixels, MJPEG, 15 frames per second.
impl Default for CameraFormat {
    fn default() -> (fmt: CameraFormat)
        ensures
            fmt == (CameraFormat {
                resolution: Resolution { width: 640, height: 480 },
                format: FrameFormat::MJPEG,
                frame_rate: 15,
            }),
    {
        CameraFormat {
            resolution: Resolution { width: 640, height: 480 },
            format: FrameFormat::MJPEG,
            frame_rate: 15,
        }
    }
}

/// The capture technology behind a device.
#[derive(Clone, Copy, Debug, PartialEq, Eq, Hash, Structural)]
pub enum ApiBackend {
    Auto,
    AVFoundation,
    Video4Linux,
    UniversalVideoClass,
    MediaFoundation,
    OpenCv,
    GStreamer,
    Browser,
}

/// Names one physical device, by number or by text.
#[derive(Clone, Debug, PartialEq, Eq, Hash)]
pub enum CameraIndex {
    Index(u32),
    String(String),
}

/// What is known of a device from the moment it was listed.
#[derive(Clone, Debug, PartialEq, Eq, Hash)]
pub struct CameraInfo {
    pub index: CameraIndex,
    pub human_name: String,
    pub backend: ApiBackend,
}

impl CameraInfo {
    pub fn new(index: CameraIndex, human_name: String, backend: ApiBackend) -> (info: CameraInfo)
        ensures
            info == (CameraInfo { index, human_name, backend }),
    {
        CameraInfo { index, human_name, backend }
    }

    pub fn index(&self) -> (index: &CameraIndex)
        ensures
            *index == self.index,
    {
        &self.index
    }

    pub fn human_name(&self) -> (name: &String)
        ensures
            *name == self.human_name,
    {
        &self.human_name
    }

    pub fn backend(&self) -> (kind: ApiBackend)
        ensures
            kind == self.backend,
    {
        self.backend
    }
}

/// The format a caller wants a device opened with.
#[derive(Clone, Copy, Debug, PartialEq, Eq, Structural)]
pub enum FormatRequest {
    /// No wish: the device is opened with the default configuration.
    Unspecified,
    /// This format and no other.
    Exact(CameraFormat),
}

impl FormatRequest {
    /// The format this request stands for, where `fallback` is the default
    /// configuration.
    pub open spec fn resolved(self, fallback: CameraFormat) -> CameraFormat {
        match self {
            FormatRequest::Unspecified => fallback,
            FormatRequest::Exact(fmt) => fmt,
        }
    }

    pub fn resolve(&self, fallback: CameraFormat) -> (fmt: CameraFormat)
        ensures
            fmt == self.resolved(fallback),
    {
        match self {
            FormatRequest::Unspecified => fallback,
            FormatRequest::Exact(fmt) => *fmt,
        }
    }
}

} // verus!
