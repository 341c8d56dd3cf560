//! A capture session over a driver: the blocking way to run the stream
//! machine.

use crate::backend::{Backend, OpenBackend};
use crate::buffer::Buffer;
use crate::control::{CameraControl, ControlValueSetter, KnownCameraControl};
use crate::error::NokhwaError;
use crate::negotiate::ResolutionTable;
use crate::laws::{
    lemma_control_leaves_stream, lemma_format_change_outcomes, lemma_frame_keeps_stream,
    lemma_invalid_value_makes_no_call, lemma_open_outcomes, lemma_stop_outcomes,
};
use crate::stream::{leads, CoreModel, Outcome, Step, StreamCore, StreamState};
use crate::traits::{CaptureTrait, OneShot, OpenCaptureTrait};
use crate::types::{
    ApiBackend, CameraFormat, CameraIndex, CameraInfo, FormatRequest, FrameFormat, FrameRate,
    Resolution,
};
use std::borrow::Cow;
use vstd::pervasive::unreached;
use vstd::prelude::*;

verus! {

/// A driver together with what is known of its stream and device.
///
/// Every call on the driver is one that the stream machine asked for, and
/// every answer goes back to the machine. Each call blocks until the driver
/// has answered. A session is not made for use from several threads at once.
pub struct Session<B: Backend> {
    /// The driver. The session owns it, and with it the device.
    pub backend: B,
    /// The device as it was listed when the session was made.
    pub info: CameraInfo,
    /// What the session knows of its stream and device.
    pub core: StreamCore,
}

/// What a session knows when it was just had from the name of a device: what
/// any session knows at its start, with the default configuration as the
/// fallback.
pub open spec fn just_opened(kind: ApiBackend) -> CoreModel {
    CoreModel::fresh(
        CameraFormat {
            resolution: Resolution { width: 640, height: 480 },
            format: FrameFormat::MJPEG,
            frame_rate: 15,
        },
        kind,
    )
}

/// The outcome that a result without a value stands for.
pub open spec fn outcome_of(result: Result<(), NokhwaError>) -> Outcome {
    match result {
        Ok(_) => Outcome::Done,
        Err(e) => Outcome::Failed(e),
    }
}

/// The result of an operation that hands nothing back.
fn settled(outcome: Outcome) -> (result: Result<(), NokhwaError>)
    requires
        !(outcome is Frame),
    ensures
        outcome_of(result) == outcome,
{
    match outcome {
        Outcome::Done => Ok(()),
        Outcome::Failed(e) => Err(e),
        Outcome::Frame(_) => unreached(),
    }
}

/// The result of an operation that hands back the bytes of a frame.
fn delivered(outcome: Outcome) -> (result: Result<Vec<u8>, NokhwaError>)
    requires
        !(outcome is Done),
    ensures
        match result {
            Ok(bytes) => outcome == Outcome::Frame(bytes),
            Err(e) => outcome == Outcome::Failed(e),
        },
{
    match outcome {
        Outcome::Frame(bytes) => Ok(bytes),
        Outcome::Failed(e) => Err(e),
        Outcome::Done => unreached(),
    }
}

impl<B: Backend> Session<B> {
    /// A session over `backend`. Its stream is closed, no format is
    /// acknowledged yet and no control described; `fallback` is the
    /// configuration the device is taken to have until it acknowledges one.
    ///
    /// The session asks the driver once how the device was listed and which
    /// capture technology it speaks, and holds on to both answers.
    pub fn new(backend: B, fallback: CameraFormat) -> (session: Session<B>)
        ensures
            session.backend == backend,
            call_ensures(B::info, (&backend,), session.info),
            call_ensures(B::backend_kind, (&backend,), session.core@.kind),
            session.core@ == CoreModel::fresh(fallback, session.core@.kind),
    {
        let info = backend.info();
        let kind = backend.backend_kind();
        Session { backend, info, core: StreamCore::new(fallback, kind) }
    }

    /// Gives up the session for its driver.
    pub fn into_backend(self) -> (backend: B)
        ensures
            backend == self.backend,
    {
        self.backend
    }

    /// Whether the driver itself takes the device to be streaming: the
    /// answer of the session's driver to
    /// [`is_open`](crate::backend::Backend::is_open), as it is. The session
    /// does not go by this: after a failure it tells a caller whether the
    /// device is left to be cleaned up.
    pub fn device_is_open(&self) -> (open: bool)
        ensures
            call_ensures(B::is_open, (&self.backend,), open),
    {
        self.backend.is_open()
    }

    /// Runs an operation from `step` to its end: makes each call the machine
    /// names and hands it the answer, until the machine names none.
    ///
    /// Where the operation ends and with what depends on the answers of the
    /// driver: the session ends knowing what some answers lead to. A step
    /// that is finished at the start makes no call.
    pub fn drive(&mut self, step: Step) -> (outcome: Outcome)
        ensures
            leads(old(self).core@, step, final(self).core@, outcome),
            final(self).info == old(self).info,
            step is Finished ==> *final(self) == *old(self),
    {
        let ghost start = self.core@;
        let ghost first = step;
        let mut current = step;
        loop
            invariant
                start == old(self).core@,
                first == step,
                forall|end: CoreModel, out: Outcome| #[trigger]
                    leads(self.core@, current, end, out) ==> leads(start, first, end, out),
                self.info == old(self).info,
                first is Finished ==> *self == *old(self) && current == first,
            decreases current.rank(),
        {
            let ghost before = self.core@;
            current =
            match current {
                Step::Open => {
                    let answer = self.backend.open();
                    let ghost a = answer;
                    let next = self.core.after_open(answer);
                    assert forall|end: CoreModel, out: Outcome| #[trigger]
                        leads(self.core@, next, end, out) implies leads(start, first, end, out) by {
                        assert(before.after_open(a) == (self.core@, next));
                        assert(leads(before, Step::Open, end, out));
                    }
                    next
                },
                Step::Close { then_apply } => {
                    let answer = self.backend.close();
                    let ghost a = answer;
                    let next = self.core.after_close(then_apply, answer);
                    assert forall|end: CoreModel, out: Outcome| #[trigger]
                        leads(self.core@, next, end, out) implies leads(start, first, end, out) by {
                        assert(before.after_close(then_apply, a) == (self.core@, next));
                        assert(leads(before, Step::Close { then_apply }, end, out));
                    }
                    next
                },
                Step::Apply { target, reopen } => {
                    let answer = self.backend.apply_format(target);
                    let ghost a = answer;
                    let next = self.core.after_apply(reopen, answer);
                    assert forall|end: CoreModel, out: Outcome| #[trigger]
                        leads(self.core@, next, end, out) implies leads(start, first, end, out) by {
                        assert(before.after_apply(reopen, a) == (self.core@, next));
                        assert(leads(before, Step::Apply { target, reopen }, end, out));
                    }
                    next
                },
                Step::Confirm { reopen } => {
                    let answer = self.backend.get_format();
                    let ghost a = answer;
                    let next = self.core.after_confirm(reopen, answer);
                    assert forall|end: CoreModel, out: Outcome| #[trigger]
                        leads(self.core@, next, end, out) implies leads(start, first, end, out) by {
                        assert(before.after_confirm(reopen, a) == (self.core@, next));
                        assert(leads(before, Step::Confirm { reopen }, end, out));
                    }
                    next
                },
                Step::Pull => {
                    let answer = self.backend.pull_frame();
                    let ghost a = answer;
                    let next = self.core.after_pull(answer);
                    assert forall|end: CoreModel, out: Outcome| #[trigger]
                        leads(self.core@, next, end, out) implies leads(start, first, end, out) by {
                        assert(before.after_pull(a) == (self.core@, next));
                        assert(leads(before, Step::Pull, end, out));
                    }
                    next
                },
                Step::Describe { id } => {
                    let answer = self.backend.get_control(id);
                    let ghost a = answer;
                    let next = self.core.after_describe(id, answer);
                    assert forall|end: CoreModel, out: Outcome| #[trigger]
                        leads(self.core@, next, end, out) implies leads(start, first, end, out) by {
                        assert(before.after_describe(id, a) == (self.core@, next));
                        assert(leads(before, Step::Describe { id }, end, out));
                    }
                    next
                },
                Step::Adjust { id, value } => {
                    let ghost v = value;
                    let answer = self.backend.set_control(id, &value);
                    let ghost a = answer;
                    let next = self.core.after_adjust(id, value, answer);
                    assert forall|end: CoreModel, out: Outcome| #[trigger]
                        leads(self.core@, next, end, out) implies leads(start, first, end, out) by {
                        assert(before.after_adjust(id, v, a) == (self.core@, next));
                        assert(leads(before, Step::Adjust { id, value: v }, end, out));
                    }
                    next
                },
                Step::Enumerate => {
                    let answer = self.backend.list_controls();
                    let ghost a = answer;
                    let next = self.core.after_enumerate(answer);
                    assert forall|end: CoreModel, out: Outcome| #[trigger]
                        leads(self.core@, next, end, out) implies leads(start, first, end, out) by {
                        assert(before.after_enumerate(a) == (self.core@, next));
                        assert(leads(before, Step::Enumerate, end, out));
                    }
                    next
                },
                Step::Finished(outcome) => {
                    assert(leads(self.core@, Step::Finished(outcome), self.core@, outcome));
                    return outcome;
                },
            };
        }
    }
}

impl<B: Backend> Session<B> {
    /// Asks the device anew to describe all its controls and holds on to the
    /// descriptions. They are taken whole or not at all: one control whose
    /// current value breaks its own bounds fails this and names the control.
    pub fn refresh_camera_controls(&mut self) -> (result: Result<(), NokhwaError>)
        ensures
            leads(old(self).core@, Step::Enumerate, final(self).core@, outcome_of(result)),
            final(self).info == old(self).info,
            final(self).core@.state == old(self).core@.state,
            final(self).core@.format == old(self).core@.format,
            final(self).core@.fallback == old(self).core@.fallback,
            result is Err ==> final(self).core@ == old(self).core@,
    {
        let step = self.core.begin_enumerate();
        let outcome = self.drive(step);
        proof {
            reveal_with_fuel(leads, 2);
        }
        settled(outcome)
    }

    /// Asks the device anew to describe one control and holds on to the
    /// description, in place of the one held before.
    pub fn refresh_camera_control(&mut self, id: KnownCameraControl) -> (result: Result<
        (),
        NokhwaError,
    >)
        ensures
            leads(old(self).core@, Step::Describe { id }, final(self).core@, outcome_of(result)),
            final(self).info == old(self).info,
            final(self).core@.state == old(self).core@.state,
            final(self).core@.format == old(self).core@.format,
            final(self).core@.fallback == old(self).core@.fallback,
            result is Err ==> final(self).core@ == old(self).core@,
    {
        let step = self.core.begin_describe(id);
        let outcome = self.drive(step);
        proof {
            reveal_with_fuel(leads, 2);
        }
        settled(outcome)
    }

    /// Runs a change of format from its first step.
    fn change_format(&mut self, step: Step, Ghost(target): Ghost<CameraFormat>) -> (result: Result<
        (),
        NokhwaError,
    >)
        requires
            step == old(self).core@.begin_format(target),
        ensures
            leads(old(self).core@, step, final(self).core@, outcome_of(result)),
            final(self).info == old(self).info,
    {
        let outcome = self.drive(step);
        proof {
            lemma_format_change_outcomes(old(self).core@, target, self.core@, outcome);
        }
        settled(outcome)
    }

    /// Takes the bytes of one frame.
    fn capture(&mut self) -> (result: Result<Vec<u8>, NokhwaError>)
        ensures
            leads(
                old(self).core@,
                old(self).core@.begin_frame(),
                final(self).core@,
                match result {
                    Ok(bytes) => Outcome::Frame(bytes),
                    Err(e) => Outcome::Failed(e),
                },
            ),
            final(self).core@ == old(self).core@,
            final(self).info == old(self).info,
            !old(self).core@.is_open() ==> *final(self) == *old(self) && result == Err::<
                Vec<u8>,
                NokhwaError,
            >(NokhwaError::StreamStateError(StreamState::Closed)),
    {
        let step = self.core.begin_frame();
        let outcome = self.drive(step);
        proof {
            lemma_frame_keeps_stream(old(self).core@, self.core@, outcome);
        }
        delivered(outcome)
    }
}

impl<B: Backend> CaptureTrait for Session<B> {
    open spec fn streaming(&self) -> bool {
        self.core@.is_open()
    }

    open spec fn held_format(&self) -> Option<CameraFormat> {
        self.core@.format
    }

    open spec fn fallback_format(&self) -> CameraFormat {
        self.core@.fallback
    }

    fn backend(&self) -> (kind: ApiBackend)
        ensures
            kind == self.core@.kind,
    {
        self.core.kind()
    }

    fn camera_info(&self) -> (info: &CameraInfo)
        ensures
            *info == self.info,
    {
        &self.info
    }

    fn refresh_camera_format(&mut self) -> (result: Result<(), NokhwaError>)
        ensures
            leads(
                old(self).core@,
                Step::Confirm { reopen: false },
                final(self).core@,
                outcome_of(result),
            ),
            final(self).info == old(self).info,
            result is Err ==> final(self).core@ == old(self).core@,
            final(self).core@.controls == old(self).core@.controls,
    {
        let step = self.core.begin_refresh();
        let outcome = self.drive(step);
        proof {
            reveal_with_fuel(leads, 2);
        }
        settled(outcome)
    }

    fn camera_format(&self) -> (format: Option<CameraFormat>) {
        self.core.format()
    }

    fn set_camera_format(&mut self, new_fmt: CameraFormat) -> (result: Result<(), NokhwaError>)
        ensures
            leads(
                old(self).core@,
                old(self).core@.begin_format(new_fmt),
                final(self).core@,
                outcome_of(result),
            ),
            final(self).info == old(self).info,
    {
        let step = self.core.begin_format(new_fmt);
        let result = self.change_format(step, Ghost(new_fmt));
        proof {
            lemma_format_change_outcomes(
                old(self).core@,
                new_fmt,
                self.core@,
                outcome_of(result),
            );
        }
        result
    }

    /// The answer of the session's driver to
    /// [`query_formats`](crate::backend::Backend::query_formats) for this
    /// encoding, as it is. Only the driver changes by it.
    fn compatible_list_by_resolution(&mut self, fourcc: FrameFormat) -> (result: Result<
        ResolutionTable,
        NokhwaError,
    >)
        ensures
            exists|driver: &mut B|
                #[trigger] call_ensures(B::query_formats, (driver, fourcc), result)
                    && mut_ref_current(driver) == old(self).backend && mut_ref_future(driver)
                    == final(self).backend,
            final(self).core == old(self).core,
            final(self).info == old(self).info,
    {
        self.backend.query_formats(fourcc)
    }

    /// The answer of the session's driver to
    /// [`query_fourccs`](crate::backend::Backend::query_fourccs), as it is.
    /// Only the driver changes by it.
    fn compatible_fourcc(&mut self) -> (result: Result<Vec<FrameFormat>, NokhwaError>)
        ensures
            exists|driver: &mut B|
                #[trigger] call_ensures(B::query_fourccs, (driver,), result) && mut_ref_current(
                    driver,
                ) == old(self).backend && mut_ref_future(driver) == final(self).backend,
            final(self).core == old(self).core,
            final(self).info == old(self).info,
    {
        self.backend.query_fourccs()
    }

    fn resolution(&self) -> (resolution: Option<Resolution>) {
        match self.core.format() {
            Some(format) => Some(format.resolution),
            None => None,
        }
    }

    fn set_resolution(&mut self, new_res: Resolution) -> (result: Result<(), NokhwaError>)
        ensures
            leads(
                old(self).core@,
                old(self).core@.begin_resolution(new_res),
                final(self).core@,
                outcome_of(result),
            ),
            final(self).info == old(self).info,
    {
        let ghost target = CameraFormat { resolution: new_res, ..self.core@.effective_format() };
        let step = self.core.begin_resolution(new_res);
        let result = self.change_format(step, Ghost(target));
        proof {
            lemma_format_change_outcomes(old(self).core@, target, self.core@, outcome_of(result));
        }
        result
    }

    fn frame_rate(&self) -> (rate: Option<FrameRate>) {
        match self.core.format() {
            Some(format) => Some(format.frame_rate),
            None => None,
        }
    }

    fn set_frame_rate(&mut self, new_fps: FrameRate) -> (result: Result<(), NokhwaError>)
        ensures
            leads(
                old(self).core@,
                old(self).core@.begin_frame_rate(new_fps),
                final(self).core@,
                outcome_of(result),
            ),
            final(self).info == old(self).info,
    {
        let ghost target = CameraFormat { frame_rate: new_fps, ..self.core@.effective_format() };
        let step = self.core.begin_frame_rate(new_fps);
        let result = self.change_format(step, Ghost(target));
        proof {
            lemma_format_change_outcomes(old(self).core@, target, self.core@, outcome_of(result));
        }
        result
    }

    fn frame_format(&self) -> (fourcc: FrameFormat) {
        self.core.effective_format().format
    }

    fn set_frame_format(&mut self, fourcc: FrameFormat) -> (result: Result<(), NokhwaError>)
        ensures
            leads(
                old(self).core@,
                old(self).core@.begin_frame_format(fourcc),
                final(self).core@,
                outcome_of(result),
            ),
            final(self).info == old(self).info,
    {
        let ghost target = CameraFormat { format: fourcc, ..self.core@.effective_format() };
        let step = self.core.begin_frame_format(fourcc);
        let result = self.change_format(step, Ghost(target));
        proof {
            lemma_format_change_outcomes(old(self).core@, target, self.core@, outcome_of(result));
        }
        result
    }

    /// The description the session holds of the control; a control it holds
    /// none of counts as unsupported. The device is not asked.
    fn camera_control(&self, control: KnownCameraControl) -> (result: Result<
        CameraControl,
        NokhwaError,
    >)
        ensures
            result == match self.core@.control(control) {
                Some(held) => Ok::<CameraControl, NokhwaError>(held),
                None => Err(NokhwaError::UnsupportedOperation(self.core@.kind)),
            },
    {
        match self.core.control(control) {
            Some(held) => Ok(held),
            None => Err(NokhwaError::UnsupportedOperation(self.core.kind())),
        }
    }

    /// The descriptions the session holds. The device is not asked.
    fn camera_controls(&self) -> (result: Result<Vec<CameraControl>, NokhwaError>)
        ensures
            result is Ok,
            result.unwrap()@ == self.core@.controls,
    {
        Ok(self.core.controls())
    }

    /// Sets a control. The value is checked against the description the
    /// session holds before the device hears of it: a value out of bounds or
    /// off the step grid is refused with `InvalidControlValue`, and any value
    /// for a control the session holds no description of with
    /// `UnsupportedOperation`. Either way no call is made.
    /// [`Session::refresh_camera_controls`] asks the device what it has.
    fn set_camera_control(&mut self, id: KnownCameraControl, value: ControlValueSetter) -> (result:
        Result<(), NokhwaError>)
        ensures
            leads(
                old(self).core@,
                old(self).core@.begin_control(id, value),
                final(self).core@,
                outcome_of(result),
            ),
            final(self).info == old(self).info,
            old(self).core@.control(id) is Some && !old(self).core@.control(id).unwrap().accepts(
                value,
            ) ==> *final(self) == *old(self) && result == Err::<(), NokhwaError>(
                NokhwaError::InvalidControlValue(id),
            ),
            old(self).core@.control(id) is None ==> *final(self) == *old(self) && result == Err::<
                (),
                NokhwaError,
            >(NokhwaError::UnsupportedOperation(old(self).core@.kind)),
    {
        let step = self.core.begin_control(id, value);
        let outcome = self.drive(step);
        proof {
            lemma_control_leaves_stream(old(self).core@, id, value, self.core@, outcome);
            if old(self).core@.control(id) is Some && !old(self).core@.control(id).unwrap().accepts(
                value,
            ) {
                lemma_invalid_value_makes_no_call(
                    old(self).core@,
                    id,
                    value,
                    self.core@,
                    outcome,
                );
            }
        }
        settled(outcome)
    }

    fn open_stream(&mut self) -> (result: Result<(), NokhwaError>)
        ensures
            leads(old(self).core@, old(self).core@.begin_open(), final(self).core@, outcome_of(result)),
            final(self).info == old(self).info,
            old(self).core@.is_open() ==> *final(self) == *old(self) && result == Err::<
                (),
                NokhwaError,
            >(NokhwaError::StreamStateError(StreamState::Open)),
            final(self).core@ == match result {
                Ok(_) => CoreModel { state: StreamState::Open, ..old(self).core@ },
                Err(_) => old(self).core@,
            },
    {
        let step = self.core.begin_open();
        let outcome = self.drive(step);
        proof {
            lemma_open_outcomes(old(self).core@, self.core@, outcome);
        }
        settled(outcome)
    }

    fn is_stream_open(&self) -> (open: bool) {
        self.core.is_open()
    }

    /// Takes one frame; the buffer says it has the size and encoding of the
    /// format the session holds, or of the fallback where it holds none. On
    /// a closed stream this fails with `StreamStateError` and makes no call.
    fn frame(&mut self) -> (result: Result<Buffer, NokhwaError>)
        ensures
            leads(
                old(self).core@,
                old(self).core@.begin_frame(),
                final(self).core@,
                match result {
                    Ok(buffer) => Outcome::Frame(buffer.raw),
                    Err(e) => Outcome::Failed(e),
                },
            ),
            result is Ok ==> result.unwrap() == Buffer::captured(
                result.unwrap().raw,
                old(self).core@.effective_format(),
            ),
            final(self).core@ == old(self).core@,
            final(self).info == old(self).info,
            !old(self).core@.is_open() ==> *final(self) == *old(self) && result == Err::<
                Buffer,
                NokhwaError,
            >(NokhwaError::StreamStateError(StreamState::Closed)),
    {
        match self.capture() {
            Ok(bytes) => Ok(self.core.frame_of(bytes)),
            Err(e) => Err(e),
        }
    }

    /// Takes the bytes of one frame. On a closed stream this fails with
    /// `StreamStateError` and makes no call.
    fn frame_raw(&mut self) -> (result: Result<Cow<'_, [u8]>, NokhwaError>)
        ensures
            match result {
                Ok(Cow::Owned(bytes)) => leads(
                    old(self).core@,
                    old(self).core@.begin_frame(),
                    final(self).core@,
                    Outcome::Frame(bytes),
                ),
                Ok(Cow::Borrowed(_)) => false,
                Err(e) => leads(
                    old(self).core@,
                    old(self).core@.begin_frame(),
                    final(self).core@,
                    Outcome::Failed(e),
                ),
            },
            final(self).core@ == old(self).core@,
            final(self).info == old(self).info,
            !old(self).core@.is_open() ==> *final(self) == *old(self) && result == Err::<
                Cow<'_, [u8]>,
                NokhwaError,
            >(NokhwaError::StreamStateError(StreamState::Closed)),
    {
        match self.capture() {
            Ok(bytes) => Ok(Cow::Owned(bytes)),
            Err(e) => Err(e),
        }
    }

    fn stop_stream(&mut self) -> (result: Result<(), NokhwaError>)
        ensures
            leads(old(self).core@, old(self).core@.begin_stop(), final(self).core@, outcome_of(result)),
            final(self).info == old(self).info,
            final(self).core@ == (CoreModel { state: StreamState::Closed, ..old(self).core@ }),
            !old(self).core@.is_open() ==> *final(self) == *old(self) && result == Err::<
                (),
                NokhwaError,
            >(NokhwaError::StreamStateError(StreamState::Closed)),
    {
        let step = self.core.begin_stop();
        let outcome = self.drive(step);
        proof {
            lemma_stop_outcomes(old(self).core@, self.core@, outcome);
        }
        settled(outcome)
    }
}

impl<B: Backend> OneShot for Session<B> {

}

impl<B: OpenBackend> OpenCaptureTrait for Session<B> {
    /// A session over the driver that
    /// [`open_device`](crate::backend::OpenBackend::open_device) gives for
    /// `index`, with the default configuration as its fallback; without such
    /// a driver, the failure to get one. A request for an exact format is put to
    /// the device at once, and the session is only had if the device took it;
    /// without a wish nothing is asked of the device. Either way the stream
    /// is closed.
    fn open(index: &CameraIndex, camera_fmt: FormatRequest) -> (result: Result<Self, NokhwaError>)
        ensures
            match result {
                Ok(session) => exists|driver: B|
                    {
                        &&& #[trigger] call_ensures(
                            B::open_device,
                            (index,),
                            Ok::<B, NokhwaError>(driver),
                        )
                        &&& call_ensures(B::info, (&driver,), session.info)
                        &&& call_ensures(B::backend_kind, (&driver,), session.core@.kind)
                        &&& match camera_fmt {
                            FormatRequest::Unspecified => session.backend == driver
                                && session.core@ == just_opened(session.core@.kind),
                            FormatRequest::Exact(format) => leads(
                                just_opened(session.core@.kind),
                                just_opened(session.core@.kind).begin_format(format),
                                session.core@,
                                Outcome::Done,
                            ),
                        }
                    },
                Err(e) => call_ensures(B::open_device, (index,), Err::<B, NokhwaError>(e)) || (
                exists|driver: B, kind: ApiBackend, end: CoreModel|
                    #![trigger
                        call_ensures(B::open_device, (index,), Ok::<B, NokhwaError>(driver)),
                        leads(
                            just_opened(kind),
                            just_opened(kind).begin_format(camera_fmt->Exact_0),
                            end,
                            Outcome::Failed(e),
                        ),
                    ]
                    {
                        &&& camera_fmt is Exact
                        &&& call_ensures(B::open_device, (index,), Ok::<B, NokhwaError>(driver))
                        &&& call_ensures(B::backend_kind, (&driver,), kind)
                        &&& leads(
                            just_opened(kind),
                            just_opened(kind).begin_format(camera_fmt->Exact_0),
                            end,
                            Outcome::Failed(e),
                        )
                    }),
            },
            result is Ok ==> {
                let session = result.unwrap();
                &&& session.core@.state == StreamState::Closed
                &&& session.core@.fallback == just_opened(session.core@.kind).fallback
                &&& session.core@.controls == Seq::<CameraControl>::empty()
                &&& camera_fmt is Unspecified ==> session.core@.format is None
                &&& camera_fmt is Exact ==> session.core@.format is Some
            },
    {
        let backend = match B::open_device(index) {
            Ok(backend) => backend,
            Err(e) => {
                return Err(e);
            },
        };
        let ghost driver = backend;
        let mut session = Session::new(backend, CameraFormat::default());
        let ghost start = session.core@;
        assert(start == just_opened(start.kind));
        match camera_fmt {
            FormatRequest::Unspecified => Ok(session),
            FormatRequest::Exact(format) => {
                match session.set_camera_format(format) {
                    Ok(_) => {
                        proof {
                            lemma_format_change_outcomes(
                                start,
                                format,
                                session.core@,
                                Outcome::Done,
                            );
                            assert(session.core@.kind == start.kind);
                            assert(call_ensures(
                                B::open_device,
                                (index,),
                                Ok::<B, NokhwaError>(driver),
                            ));
                        }
                        Ok(session)
                    },
                    Err(e) => Err(e),
                }
            },
        }
    }
}

} // verus!
