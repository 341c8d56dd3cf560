use nokhwa_core::backend::{Backend, OpenBackend};
use nokhwa_core::buffer::Buffer;
use nokhwa_core::control::{CameraControl, ControlFlags, ControlValueSetter, KnownCameraControl};
use nokhwa_core::error::NokhwaError;
use nokhwa_core::negotiate::ResolutionTable;
use nokhwa_core::session::Session;
use nokhwa_core::stream::{Outcome, Step, StreamCore, StreamState};
use nokhwa_core::traits::{CaptureTrait, OneShot, OpenCaptureTrait};
use nokhwa_core::types::{
    ApiBackend, CameraFormat, CameraIndex, CameraInfo, FormatRequest, FrameFormat, Resolution,
};

/// A driver that answers from a script and writes down every call.
struct Scripted {
    calls: Vec<String>,
    format: CameraFormat,
    failures: Vec<(String, NokhwaError)>,
    controls: Vec<CameraControl>,
    frame: Vec<u8>,
    streaming: bool,
}

impl Scripted {
    fn new() -> Scripted {
        Scripted {
            calls: Vec::new(),
            format: CameraFormat::default(),
            failures: Vec::new(),
            controls: vec![brightness(50), zoom(1)],
            frame: vec![1, 2, 3, 4],
            streaming: false,
        }
    }

    fn answer(&mut self, call: &str) -> Result<(), NokhwaError> {
        self.calls.push(call.to_string());
        match self.failures.iter().find(|(failing, _)| failing == call) {
            Some((_, error)) => Err(error.clone()),
            None => Ok(()),
        }
    }
}

impl Backend for Scripted {
    fn backend_kind(&self) -> ApiBackend {
        ApiBackend::Video4Linux
    }

    fn info(&self) -> CameraInfo {
        CameraInfo::new(CameraIndex::Index(0), "scripted".to_string(), ApiBackend::Video4Linux)
    }

    fn query_fourccs(&mut self) -> Result<Vec<FrameFormat>, NokhwaError> {
        self.answer("query_fourccs")?;
        Ok(vec![FrameFormat::MJPEG, FrameFormat::YUYV])
    }

    fn query_formats(&mut self, fourcc: FrameFormat) -> Result<ResolutionTable, NokhwaError> {
        self.answer(if fourcc == FrameFormat::MJPEG { "query_mjpeg" } else { "query_other" })?;
        let mut table = ResolutionTable::new();
        if fourcc == FrameFormat::MJPEG {
            table.insert(Resolution::new(640, 480), vec![15, 30]);
            table.insert(Resolution::new(1280, 720), vec![30]);
        } else {
            table.insert(Resolution::new(640, 480), vec![30, 30]);
        }
        Ok(table)
    }

    fn get_format(&mut self) -> Result<CameraFormat, NokhwaError> {
        self.answer("get_format")?;
        Ok(self.format)
    }

    fn apply_format(&mut self, format: CameraFormat) -> Result<(), NokhwaError> {
        self.answer("apply_format")?;
        // The device takes no rate above 30 and settles for 30 instead.
        self.format = if format.frame_rate() > 30 { format.with_frame_rate(30) } else { format };
        Ok(())
    }

    fn get_control(&mut self, id: KnownCameraControl) -> Result<CameraControl, NokhwaError> {
        self.answer("get_control")?;
        match self.controls.iter().find(|c| c.id() == id) {
            Some(control) => Ok(*control),
            None => Err(NokhwaError::UnsupportedOperation(ApiBackend::Video4Linux)),
        }
    }

    fn list_controls(&mut self) -> Result<Vec<CameraControl>, NokhwaError> {
        self.answer("list_controls")?;
        Ok(self.controls.clone())
    }

    fn set_control(
        &mut self,
        id: KnownCameraControl,
        value: &ControlValueSetter,
    ) -> Result<(), NokhwaError> {
        self.answer("set_control")?;
        for control in self.controls.iter_mut() {
            if control.id() == id {
                *control = control.with_value(value);
            }
        }
        Ok(())
    }

    fn open(&mut self) -> Result<(), NokhwaError> {
        self.answer("open")?;
        self.streaming = true;
        Ok(())
    }

    fn close(&mut self) -> Result<(), NokhwaError> {
        self.answer("close")?;
        self.streaming = false;
        Ok(())
    }

    fn is_open(&self) -> bool {
        self.streaming
    }

    fn pull_frame(&mut self) -> Result<Vec<u8>, NokhwaError> {
        self.answer("pull_frame")?;
        Ok(self.frame.clone())
    }
}

impl OpenBackend for Scripted {
    /// There are two devices, 0 and 1. Device 1 takes no format.
    fn open_device(index: &CameraIndex) -> Result<Self, NokhwaError> {
        match index {
            CameraIndex::Index(0) => Ok(Scripted::new()),
            CameraIndex::Index(1) => {
                let mut backend = Scripted::new();
                backend.failures.push((
                    "apply_format".to_string(),
                    NokhwaError::InvalidFormat(CameraFormat::default()),
                ));
                Ok(backend)
            }
            _ => Err(NokhwaError::DeviceUnavailable("no such device".to_string())),
        }
    }
}

fn flags() -> ControlFlags {
    ControlFlags { active: true, read_only: false }
}

fn brightness(current: i64) -> CameraControl {
    CameraControl::new(KnownCameraControl::Brightness, current, 0, 100, 5, 50, flags()).unwrap()
}

fn zoom(current: i64) -> CameraControl {
    CameraControl::new(KnownCameraControl::Zoom, current, 1, 4, 1, 1, flags()).unwrap()
}

fn busy() -> NokhwaError {
    NokhwaError::DeviceUnavailable("busy".to_string())
}

fn session() -> Session<Scripted> {
    Session::new(Scripted::new(), CameraFormat::default())
}

fn failing(call: &str, error: NokhwaError) -> Session<Scripted> {
    let mut backend = Scripted::new();
    backend.failures.push((call.to_string(), error));
    Session::new(backend, CameraFormat::default())
}

fn opened(mut session: Session<Scripted>) -> Session<Scripted> {
    session.open_stream().unwrap();
    session.backend.calls.clear();
    session
}

fn hd() -> CameraFormat {
    CameraFormat::new(Resolution::new(1280, 720), FrameFormat::MJPEG, 30)
}

#[test]
fn a_new_session_is_closed_and_holds_no_format() {
    let session = session();
    assert!(!session.is_stream_open());
    assert_eq!(session.camera_format(), None);
    assert_eq!(session.resolution(), None);
    assert_eq!(session.frame_rate(), None);
    assert_eq!(session.frame_format(), FrameFormat::MJPEG);
    assert_eq!(session.backend(), ApiBackend::Video4Linux);
    assert_eq!(session.camera_info().human_name(), "scripted");
    assert_eq!(session.camera_info().index(), &CameraIndex::Index(0));
    assert_eq!(session.camera_controls(), Ok(Vec::new()));
    assert!(session.backend.calls.is_empty());
}

#[test]
fn the_fallback_is_what_the_session_was_made_with() {
    let fallback = CameraFormat::new(Resolution::new(320, 240), FrameFormat::GRAY, 5);
    let session = Session::new(Scripted::new(), fallback);
    assert_eq!(session.frame_format(), FrameFormat::GRAY);
    assert_eq!(session.core.fallback(), fallback);
    assert_eq!(session.camera_format(), None);
}

#[test]
fn opening_a_closed_stream_opens_it() {
    let mut session = session();
    assert_eq!(session.open_stream(), Ok(()));
    assert!(session.is_stream_open());
    assert!(session.device_is_open());
    assert_eq!(session.backend.calls, vec!["open"]);
}

#[test]
fn a_stream_that_does_not_open_stays_closed() {
    let mut session = failing("open", busy());
    assert_eq!(session.open_stream(), Err(busy()));
    assert!(!session.is_stream_open());
}

#[test]
fn opening_an_open_stream_is_refused_without_a_call() {
    let mut session = opened(session());
    assert_eq!(session.open_stream(), Err(NokhwaError::StreamStateError(StreamState::Open)));
    assert!(session.is_stream_open());
    assert!(session.backend.calls.is_empty());
}

#[test]
fn stopping_an_open_stream_closes_it() {
    let mut session = opened(session());
    assert_eq!(session.stop_stream(), Ok(()));
    assert!(!session.is_stream_open());
    assert_eq!(session.backend.calls, vec!["close"]);
}

#[test]
fn a_stream_that_does_not_stop_counts_as_closed() {
    let mut session = opened(failing("close", busy()));
    assert_eq!(session.stop_stream(), Err(busy()));
    assert!(!session.is_stream_open());
    assert!(session.device_is_open());
}

#[test]
fn stopping_a_closed_stream_is_refused_without_a_call() {
    let mut session = session();
    assert_eq!(session.stop_stream(), Err(NokhwaError::StreamStateError(StreamState::Closed)));
    assert!(!session.is_stream_open());
    assert!(session.backend.calls.is_empty());
}

#[test]
fn frame_on_a_closed_stream_is_refused_without_a_call() {
    let mut session = session();
    assert_eq!(session.frame(), Err(NokhwaError::StreamStateError(StreamState::Closed)));
    assert_eq!(
        session.frame_raw().map(|bytes| bytes.into_owned()),
        Err(NokhwaError::StreamStateError(StreamState::Closed))
    );
    assert!(!session.is_stream_open());
    assert!(session.backend.calls.is_empty());
}

#[test]
fn a_frame_has_the_size_and_encoding_of_the_fallback_before_any_format_is_held() {
    let mut session = opened(session());
    assert_eq!(
        session.frame(),
        Ok(Buffer::new(Resolution::new(640, 480), vec![1, 2, 3, 4], FrameFormat::MJPEG))
    );
    assert!(session.is_stream_open());
    assert_eq!(session.backend.calls, vec!["pull_frame"]);
}

#[test]
fn a_frame_has_the_size_and_encoding_of_the_held_format() {
    let mut session = session();
    session.set_camera_format(hd().with_format(FrameFormat::YUYV)).unwrap();
    session.open_stream().unwrap();
    assert_eq!(
        session.frame(),
        Ok(Buffer::new(Resolution::new(1280, 720), vec![1, 2, 3, 4], FrameFormat::YUYV))
    );
}

#[test]
fn raw_frames_are_the_bytes_of_the_device() {
    let mut session = opened(session());
    assert_eq!(session.frame_raw().map(|bytes| bytes.into_owned()), Ok(vec![1, 2, 3, 4]));
    assert!(session.is_stream_open());
}

#[test]
fn a_frame_that_does_not_come_leaves_the_stream_open() {
    let mut session = opened(failing("pull_frame", NokhwaError::BackendError("timeout".to_string())));
    assert_eq!(session.frame(), Err(NokhwaError::BackendError("timeout".to_string())));
    assert_eq!(
        session.frame_raw().map(|bytes| bytes.into_owned()),
        Err(NokhwaError::BackendError("timeout".to_string()))
    );
    assert!(session.is_stream_open());
}

#[test]
fn a_closed_stream_takes_a_format_directly() {
    let mut session = session();
    assert_eq!(session.set_camera_format(hd()), Ok(()));
    assert!(!session.is_stream_open());
    assert_eq!(session.camera_format(), Some(hd()));
    assert_eq!(session.resolution(), Some(Resolution::new(1280, 720)));
    assert_eq!(session.frame_rate(), Some(30));
    assert_eq!(session.frame_format(), FrameFormat::MJPEG);
    assert_eq!(session.backend.calls, vec!["apply_format", "get_format"]);
}

#[test]
fn the_held_format_is_what_the_device_acknowledged() {
    let mut session = session();
    let wanted = hd().with_frame_rate(60);
    assert_eq!(session.set_camera_format(wanted), Ok(()));
    assert_eq!(session.camera_format(), Some(hd()));
    assert_eq!(session.frame_rate(), Some(30));
}

#[test]
fn applying_the_same_format_twice_holds_the_same_format() {
    let mut session = session();
    let wanted = hd().with_frame_rate(60);
    session.set_camera_format(wanted).unwrap();
    let once = session.camera_format();
    session.set_camera_format(wanted).unwrap();
    assert_eq!(session.camera_format(), once);
    let mut open = opened(self::session());
    open.set_camera_format(wanted).unwrap();
    let once = open.camera_format();
    open.set_camera_format(wanted).unwrap();
    assert_eq!(open.camera_format(), once);
    assert!(open.is_stream_open());
}

#[test]
fn a_format_the_device_does_not_take_leaves_the_held_one() {
    let mut session = failing("apply_format", NokhwaError::InvalidFormat(hd()));
    assert_eq!(session.set_camera_format(hd()), Err(NokhwaError::InvalidFormat(hd())));
    assert_eq!(session.camera_format(), None);
    assert!(!session.is_stream_open());
    assert_eq!(session.backend.calls, vec!["apply_format"]);
}

#[test]
fn an_open_stream_is_reset_for_a_format() {
    let mut session = opened(session());
    assert_eq!(session.set_camera_format(hd()), Ok(()));
    assert!(session.is_stream_open());
    assert_eq!(session.camera_format(), Some(hd()));
    assert_eq!(session.backend.calls, vec!["close", "apply_format", "get_format", "open"]);
}

#[test]
fn set_resolution_on_an_open_stream_ends_open_on_success() {
    let mut session = opened(session());
    assert_eq!(session.set_resolution(Resolution::new(1280, 720)), Ok(()));
    assert!(session.is_stream_open());
    assert_eq!(
        session.camera_format(),
        Some(CameraFormat::new(Resolution::new(1280, 720), FrameFormat::MJPEG, 15))
    );
    assert_eq!(session.backend.calls, vec!["close", "apply_format", "get_format", "open"]);
}

#[test]
fn set_resolution_on_an_open_stream_ends_closed_on_any_failure() {
    for (call, made) in [
        ("close", vec!["close"]),
        ("apply_format", vec!["close", "apply_format"]),
        ("get_format", vec!["close", "apply_format", "get_format"]),
        ("open", vec!["close", "apply_format", "get_format", "open"]),
    ] {
        let mut session = failing(call, busy());
        // The stream is opened before the failure is scripted to bite.
        let failures = std::mem::take(&mut session.backend.failures);
        session.open_stream().unwrap();
        session.backend.failures = failures;
        session.backend.calls.clear();
        assert_eq!(session.set_resolution(Resolution::new(1280, 720)), Err(busy()));
        assert!(!session.is_stream_open());
        assert_eq!(session.backend.calls, made);
    }
}

#[test]
fn a_reset_that_fails_to_reopen_holds_the_new_format_on_a_closed_stream() {
    let mut session = session();
    session.open_stream().unwrap();
    session.backend.failures.push(("open".to_string(), busy()));
    assert_eq!(session.set_camera_format(hd()), Err(busy()));
    assert!(!session.is_stream_open());
    assert_eq!(session.camera_format(), Some(hd()));
}

#[test]
fn set_frame_rate_keeps_the_rest_of_the_format() {
    let mut session = session();
    session.set_camera_format(hd()).unwrap();
    assert_eq!(session.set_frame_rate(10), Ok(()));
    assert_eq!(session.camera_format(), Some(hd().with_frame_rate(10)));
    assert_eq!(session.set_frame_rate(120), Ok(()));
    assert_eq!(session.camera_format(), Some(hd().with_frame_rate(30)));
}

#[test]
fn set_frame_format_keeps_the_rest_of_the_format() {
    let mut session = opened(session());
    assert_eq!(session.set_frame_format(FrameFormat::NV12), Ok(()));
    assert_eq!(
        session.camera_format(),
        Some(CameraFormat::new(Resolution::new(640, 480), FrameFormat::NV12, 15))
    );
    assert_eq!(session.frame_format(), FrameFormat::NV12);
    assert!(session.is_stream_open());
}

#[test]
fn refreshing_holds_the_format_the_device_has() {
    let mut session = session();
    session.backend.format = hd();
    assert_eq!(session.refresh_camera_format(), Ok(()));
    assert_eq!(session.camera_format(), Some(hd()));
    assert!(!session.is_stream_open());
    assert_eq!(session.backend.calls, vec!["get_format"]);
}

#[test]
fn a_refresh_that_fails_leaves_the_held_format() {
    let mut session = session();
    session.set_camera_format(hd()).unwrap();
    session.backend.failures.push(("get_format".to_string(), busy()));
    assert_eq!(session.refresh_camera_format(), Err(busy()));
    assert_eq!(session.camera_format(), Some(hd()));
}

#[test]
fn one_shot_on_a_closed_stream_opens_captures_and_stops() {
    let mut session = session();
    let frame = session.one_shot().unwrap();
    assert_eq!(frame, Buffer::new(Resolution::new(640, 480), vec![1, 2, 3, 4], FrameFormat::MJPEG));
    assert!(!session.is_stream_open());
    assert_eq!(session.backend.calls, vec!["open", "pull_frame", "close"]);
}

#[test]
fn one_shot_on_an_open_stream_leaves_it_open() {
    let mut session = opened(session());
    assert!(session.one_shot().is_ok());
    assert!(session.is_stream_open());
    assert_eq!(session.backend.calls, vec!["pull_frame"]);
    let mut session = opened(failing("pull_frame", busy()));
    assert_eq!(session.one_shot(), Err(busy()));
    assert!(session.is_stream_open());
}

#[test]
fn one_shot_ends_with_the_first_failure() {
    let mut session = failing("open", busy());
    assert_eq!(session.one_shot(), Err(busy()));
    assert!(!session.is_stream_open());
    assert_eq!(session.backend.calls, vec!["open"]);

    let mut session = failing("pull_frame", busy());
    assert_eq!(session.one_shot(), Err(busy()));
    assert!(session.is_stream_open());
    assert_eq!(session.backend.calls, vec!["open", "pull_frame"]);

    let mut session = failing("close", busy());
    assert_eq!(session.one_shot(), Err(busy()));
    assert!(!session.is_stream_open());
    assert_eq!(session.backend.calls, vec!["open", "pull_frame", "close"]);
}

#[test]
fn the_controls_are_held_once_the_device_described_them() {
    let mut session = session();
    assert_eq!(
        session.camera_control(KnownCameraControl::Brightness),
        Err(NokhwaError::UnsupportedOperation(ApiBackend::Video4Linux))
    );
    assert_eq!(session.refresh_camera_controls(), Ok(()));
    assert_eq!(session.camera_control(KnownCameraControl::Brightness), Ok(brightness(50)));
    assert_eq!(session.camera_controls(), Ok(vec![brightness(50), zoom(1)]));
    assert_eq!(
        session.camera_control(KnownCameraControl::Focus),
        Err(NokhwaError::UnsupportedOperation(ApiBackend::Video4Linux))
    );
    assert_eq!(session.backend.calls, vec!["list_controls"]);
}

#[test]
fn one_control_can_be_described_anew() {
    let mut session = session();
    assert_eq!(session.refresh_camera_control(KnownCameraControl::Zoom), Ok(()));
    assert_eq!(session.camera_controls(), Ok(vec![zoom(1)]));
    session.backend.controls[1] = zoom(3);
    assert_eq!(session.refresh_camera_control(KnownCameraControl::Zoom), Ok(()));
    assert_eq!(session.camera_control(KnownCameraControl::Zoom), Ok(zoom(3)));
    assert_eq!(
        session.refresh_camera_control(KnownCameraControl::Focus),
        Err(NokhwaError::UnsupportedOperation(ApiBackend::Video4Linux))
    );
    assert_eq!(session.camera_controls(), Ok(vec![zoom(3)]));
}

#[test]
fn controls_that_break_their_bounds_are_not_held() {
    let mut session = session();
    session.backend.controls[1] = CameraControl {
        id: KnownCameraControl::Zoom,
        current: 9,
        min: 1,
        max: 4,
        step: 1,
        default: 1,
        flags: flags(),
    };
    assert_eq!(
        session.refresh_camera_controls(),
        Err(NokhwaError::InvalidControlValue(KnownCameraControl::Zoom))
    );
    assert_eq!(session.camera_controls(), Ok(Vec::new()));
    assert_eq!(
        session.refresh_camera_control(KnownCameraControl::Zoom),
        Err(NokhwaError::InvalidControlValue(KnownCameraControl::Zoom))
    );
    assert_eq!(session.camera_controls(), Ok(Vec::new()));
}

#[test]
fn a_value_out_of_bounds_is_refused_without_a_call() {
    let mut session = session();
    session.refresh_camera_controls().unwrap();
    session.backend.calls.clear();
    for bad in [-5, 105, 101, i64::MAX, i64::MIN] {
        assert_eq!(
            session.set_camera_control(
                KnownCameraControl::Brightness,
                ControlValueSetter::Integer(bad)
            ),
            Err(NokhwaError::InvalidControlValue(KnownCameraControl::Brightness))
        );
    }
    assert!(session.backend.calls.is_empty());
    assert_eq!(session.camera_control(KnownCameraControl::Brightness), Ok(brightness(50)));
}

#[test]
fn a_value_off_the_step_grid_is_refused_without_a_call() {
    let mut session = session();
    session.refresh_camera_controls().unwrap();
    session.backend.calls.clear();
    for bad in [1, 52, 99] {
        assert_eq!(
            session.set_camera_control(
                KnownCameraControl::Brightness,
                ControlValueSetter::Integer(bad)
            ),
            Err(NokhwaError::InvalidControlValue(KnownCameraControl::Brightness))
        );
    }
    assert_eq!(
        session.set_camera_control(KnownCameraControl::Zoom, ControlValueSetter::Boolean(false)),
        Err(NokhwaError::InvalidControlValue(KnownCameraControl::Zoom))
    );
    assert!(session.backend.calls.is_empty());
}

#[test]
fn a_value_within_bounds_is_set_and_held() {
    let mut session = session();
    session.refresh_camera_controls().unwrap();
    session.backend.calls.clear();
    assert_eq!(
        session.set_camera_control(KnownCameraControl::Brightness, ControlValueSetter::Integer(75)),
        Ok(())
    );
    assert_eq!(session.backend.calls, vec!["set_control"]);
    assert_eq!(session.camera_control(KnownCameraControl::Brightness), Ok(brightness(75)));
    assert_eq!(session.backend.controls[0], brightness(75));
}

#[test]
fn a_value_the_device_does_not_take_leaves_the_held_one() {
    let mut session = failing("set_control", busy());
    session.refresh_camera_controls().unwrap();
    assert_eq!(
        session.set_camera_control(KnownCameraControl::Brightness, ControlValueSetter::Integer(75)),
        Err(busy())
    );
    assert_eq!(session.camera_control(KnownCameraControl::Brightness), Ok(brightness(50)));
}

#[test]
fn a_value_for_an_unknown_control_is_refused_without_a_call() {
    let mut session = session();
    assert_eq!(
        session.set_camera_control(KnownCameraControl::Zoom, ControlValueSetter::Integer(2)),
        Err(NokhwaError::UnsupportedOperation(ApiBackend::Video4Linux))
    );
    assert!(session.backend.calls.is_empty());
    session.refresh_camera_control(KnownCameraControl::Zoom).unwrap();
    session.backend.calls.clear();
    assert_eq!(
        session.set_camera_control(KnownCameraControl::Zoom, ControlValueSetter::Integer(2)),
        Ok(())
    );
    assert_eq!(
        session.set_camera_control(KnownCameraControl::Brightness, ControlValueSetter::Integer(5)),
        Err(NokhwaError::UnsupportedOperation(ApiBackend::Video4Linux))
    );
    assert_eq!(session.backend.calls, vec!["set_control"]);
}

#[test]
fn controls_leave_the_stream_alone() {
    let mut session = opened(session());
    session.set_camera_format(hd()).unwrap();
    session.refresh_camera_controls().unwrap();
    session.set_camera_control(KnownCameraControl::Zoom, ControlValueSetter::Integer(2)).unwrap();
    let _ = session.set_camera_control(KnownCameraControl::Zoom, ControlValueSetter::Integer(9));
    assert!(session.is_stream_open());
    assert_eq!(session.camera_format(), Some(hd()));
}

#[test]
fn the_session_lists_the_formats_to_choose_from() {
    let mut session = session();
    assert_eq!(
        session.compatible_camera_formats(),
        Ok(vec![
            CameraFormat::new(Resolution::new(640, 480), FrameFormat::MJPEG, 15),
            CameraFormat::new(Resolution::new(640, 480), FrameFormat::MJPEG, 30),
            CameraFormat::new(Resolution::new(1280, 720), FrameFormat::MJPEG, 30),
            CameraFormat::new(Resolution::new(640, 480), FrameFormat::YUYV, 30),
        ])
    );
    assert_eq!(session.backend.calls, vec!["query_fourccs", "query_mjpeg", "query_other"]);
    assert!(!session.is_stream_open());
}

#[test]
fn a_device_that_cannot_enumerate_fails_the_listing() {
    let cannot = NokhwaError::UnsupportedOperation(ApiBackend::Video4Linux);
    let mut session = failing("query_fourccs", cannot.clone());
    assert_eq!(session.compatible_camera_formats(), Err(cannot.clone()));
    assert_eq!(session.backend.calls, vec!["query_fourccs"]);
    let mut session = failing("query_other", cannot.clone());
    assert_eq!(session.compatible_camera_formats(), Err(cannot.clone()));
    assert_eq!(session.backend.calls, vec!["query_fourccs", "query_mjpeg", "query_other"]);
}

#[test]
fn queries_are_handed_on_as_the_device_answered_them() {
    let mut session = opened(session());
    assert_eq!(session.compatible_fourcc(), Ok(vec![FrameFormat::MJPEG, FrameFormat::YUYV]));
    let table = session.compatible_list_by_resolution(FrameFormat::MJPEG).unwrap();
    assert_eq!(table.len(), 2);
    assert_eq!(table.get(Resolution::new(640, 480)), Some(&vec![15, 30]));
    assert_eq!(table.get(Resolution::new(1280, 720)), Some(&vec![30]));
    let table = session.compatible_list_by_resolution(FrameFormat::YUYV).unwrap();
    assert_eq!(table.get(Resolution::new(640, 480)), Some(&vec![30, 30]));
    assert!(session.is_stream_open());
}

#[test]
fn a_step_that_is_finished_makes_no_call() {
    let mut session = session();
    assert_eq!(session.drive(Step::Finished(Outcome::Done)), Outcome::Done);
    assert_eq!(session.drive(Step::Finished(Outcome::Failed(busy()))), Outcome::Failed(busy()));
    assert!(session.backend.calls.is_empty());
}

#[test]
fn a_step_is_driven_to_its_end() {
    let mut session = session();
    assert_eq!(session.drive(Step::Close { then_apply: Some(hd()) }), Outcome::Done);
    assert_eq!(session.backend.calls, vec!["close", "apply_format", "get_format", "open"]);
    assert!(session.is_stream_open());
    assert_eq!(session.drive(Step::Pull), Outcome::Frame(vec![1, 2, 3, 4]));
}

#[test]
fn a_session_gives_its_driver_back() {
    let mut session = session();
    session.open_stream().unwrap();
    let backend = session.into_backend();
    assert!(backend.is_open());
    assert_eq!(backend.calls, vec!["open"]);
}

/// Drives the machine one call at a time, as a driver of its own would.
fn drive_by_hand(backend: &mut Scripted, machine: &mut StreamCore, first: Step) -> Outcome {
    let mut step = first;
    loop {
        step = match step {
            Step::Open => {
                let answer = backend.open();
                machine.after_open(answer)
            }
            Step::Close { then_apply } => {
                let answer = backend.close();
                machine.after_close(then_apply, answer)
            }
            Step::Apply { target, reopen } => {
                let answer = backend.apply_format(target);
                machine.after_apply(reopen, answer)
            }
            Step::Confirm { reopen } => {
                let answer = backend.get_format();
                machine.after_confirm(reopen, answer)
            }
            Step::Pull => {
                let answer = backend.pull_frame();
                machine.after_pull(answer)
            }
            Step::Describe { id } => {
                let answer = backend.get_control(id);
                machine.after_describe(id, answer)
            }
            Step::Adjust { id, value } => {
                let answer = backend.set_control(id, &value);
                machine.after_adjust(id, value, answer)
            }
            Step::Enumerate => {
                let answer = backend.list_controls();
                machine.after_enumerate(answer)
            }
            Step::Finished(outcome) => return outcome,
        };
    }
}

fn as_outcome(result: Result<(), NokhwaError>) -> Outcome {
    match result {
        Ok(()) => Outcome::Done,
        Err(e) => Outcome::Failed(e),
    }
}

#[test]
fn two_drivers_of_the_machine_give_the_same_results() {
    for failure in ["none", "open", "close", "apply_format", "get_format", "pull_frame", "set_control"] {
        let mut session = failing(failure, busy());
        let mut backend = Scripted::new();
        backend.failures.push((failure.to_string(), busy()));
        let mut machine = StreamCore::new(CameraFormat::default(), ApiBackend::Video4Linux);

        let step = machine.begin_frame();
        let by_hand = drive_by_hand(&mut backend, &mut machine, step);
        let by_session = match session.frame_raw() {
            Ok(bytes) => Outcome::Frame(bytes.into_owned()),
            Err(e) => Outcome::Failed(e),
        };
        assert_eq!(by_session, by_hand);

        let step = machine.begin_open();
        assert_eq!(as_outcome(session.open_stream()), drive_by_hand(&mut backend, &mut machine, step));

        let step = machine.begin_format(hd().with_frame_rate(60));
        assert_eq!(
            as_outcome(session.set_camera_format(hd().with_frame_rate(60))),
            drive_by_hand(&mut backend, &mut machine, step)
        );

        let step = machine.begin_frame();
        let by_hand = drive_by_hand(&mut backend, &mut machine, step);
        let by_session = match session.frame_raw() {
            Ok(bytes) => Outcome::Frame(bytes.into_owned()),
            Err(e) => Outcome::Failed(e),
        };
        assert_eq!(by_session, by_hand);

        let step = machine.begin_describe(KnownCameraControl::Zoom);
        assert_eq!(
            as_outcome(session.refresh_camera_control(KnownCameraControl::Zoom)),
            drive_by_hand(&mut backend, &mut machine, step)
        );

        let step = machine.begin_control(KnownCameraControl::Zoom, ControlValueSetter::Integer(3));
        assert_eq!(
            as_outcome(
                session.set_camera_control(KnownCameraControl::Zoom, ControlValueSetter::Integer(3))
            ),
            drive_by_hand(&mut backend, &mut machine, step)
        );

        let step = machine.begin_stop();
        assert_eq!(as_outcome(session.stop_stream()), drive_by_hand(&mut backend, &mut machine, step));

        assert_eq!(session.backend.calls, backend.calls);
        assert_eq!(session.is_stream_open(), machine.is_open());
        assert_eq!(session.camera_format(), machine.format());
        assert_eq!(session.camera_controls(), Ok(machine.controls()));
    }
}

#[test]
fn a_session_opened_without_a_wish_asks_nothing_of_the_device() {
    let session = Session::<Scripted>::open(&CameraIndex::Index(0), FormatRequest::Unspecified)
        .ok()
        .unwrap();
    assert!(!session.is_stream_open());
    assert_eq!(session.camera_format(), None);
    assert_eq!(session.frame_format(), FrameFormat::MJPEG);
    assert_eq!(session.core.fallback(), CameraFormat::default());
    assert!(session.backend.calls.is_empty());
}

#[test]
fn a_session_opened_with_a_format_holds_what_the_device_acknowledged() {
    let wanted = hd().with_frame_rate(60);
    let session = Session::<Scripted>::open(&CameraIndex::Index(0), FormatRequest::Exact(wanted))
        .ok()
        .unwrap();
    assert!(!session.is_stream_open());
    assert_eq!(session.camera_format(), Some(hd()));
    assert_eq!(session.backend.calls, vec!["apply_format", "get_format"]);
}

#[test]
fn a_session_is_not_had_where_the_device_is_not() {
    let missing = Session::<Scripted>::open(
        &CameraIndex::String("elsewhere".to_string()),
        FormatRequest::Unspecified,
    );
    assert_eq!(
        missing.err(),
        Some(NokhwaError::DeviceUnavailable("no such device".to_string()))
    );
}

#[test]
fn a_session_is_not_had_where_the_device_does_not_take_the_format() {
    let refused = Session::<Scripted>::open(&CameraIndex::Index(1), FormatRequest::Exact(hd()));
    assert_eq!(refused.err(), Some(NokhwaError::InvalidFormat(CameraFormat::default())));
    let taken = Session::<Scripted>::open(&CameraIndex::Index(1), FormatRequest::Unspecified);
    assert!(taken.is_ok());
}
