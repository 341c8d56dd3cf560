//! The lifecycle of a capture stream, as a machine that decides and never
//! touches a device.
//!
//! A [`StreamCore`] holds what a session knows: whether the stream is open,
//! the format the device last acknowledged, and the controls it last
//! reported. Every operation starts with a `begin_` function, which checks
//! what can be checked without the device and names the first call to make on
//! it. Whoever drives the machine makes that call and hands the result to the
//! matching `after_` function, which settles what is now known and names the
//! next call, until a step says [`Step::Finished`]. A blocking driver and a
//! suspending one differ in how they make the call and in nothing else.

use crate::buffer::Buffer;
use crate::control::{CameraControl, ControlValueSetter, KnownCameraControl};
use crate::error::NokhwaError;
use crate::types::{ApiBackend, CameraFormat, FrameFormat, FrameRate, Resolution};
use vstd::prelude::*;

verus! {

/// The two states of a capture stream. A stream starts out closed.
#[derive(Clone, Copy, Debug, PartialEq, Eq, Hash, Structural)]
pub enum StreamState {
    Closed,
    Open,
}

/// How an operation ended.
#[derive(Debug, PartialEq, Eq)]
pub enum Outcome {
    /// It succeeded and has nothing to hand back.
    Done,
    /// It succeeded with the bytes of a frame.
    Frame(Vec<u8>),
    /// It failed.
    Failed(NokhwaError),
}

/// What the driver of an operation does next.
#[derive(Debug, PartialEq, Eq)]
pub enum Step {
    /// Acquire the device and start streaming.
    Open,
    /// Stop streaming. With a format, the stream is being reset: the format
    /// is applied once the stream has stopped.
    Close { then_apply: Option<CameraFormat> },
    /// Ask the device to take this format.
    Apply { target: CameraFormat, reopen: bool },
    /// Ask the device which format it now has.
    Confirm { reopen: bool },
    /// Take one frame from the device.
    Pull,
    /// Ask the device to describe this control.
    Describe { id: KnownCameraControl },
    /// Ask the device to set this control to this value.
    Adjust { id: KnownCameraControl, value: ControlValueSetter },
    /// Ask the device to describe all its controls.
    Enumerate,
    /// Make no further call: the operation has ended.
    Finished(Outcome),
}

impl Step {
    /// An upper bound on the calls still to be made.
    pub open spec fn rank(self) -> nat {
        match self {
            Step::Finished(_) => 0,
            Step::Open | Step::Pull | Step::Describe { .. } | Step::Adjust { .. } | Step::Enumerate => 1,
            Step::Confirm { reopen } => if reopen {
                2
            } else {
                1
            },
            Step::Apply { reopen, .. } => if reopen {
                3
            } else {
                2
            },
            Step::Close { then_apply } => if then_apply is Some {
                4
            } else {
                1
            },
        }
    }

    pub fn is_finished(&self) -> (done: bool)
        ensures
            done == (self is Finished),
    {
        match self {
            Step::Finished(_) => true,
            _ => false,
        }
    }
}

/// What a session knows of its stream and device.
///
/// Every control it holds is within its own bounds: a description that
/// breaks them is never taken in.
pub struct StreamCore {
    state: StreamState,
    format: Option<CameraFormat>,
    fallback: CameraFormat,
    controls: Vec<CameraControl>,
    kind: ApiBackend,
}

/// A [`StreamCore`] as a mathematical value.
pub struct CoreModel {
    /// Whether the stream is open. This is the one authoritative answer.
    pub state: StreamState,
    /// The format the device last acknowledged, if it ever did.
    pub format: Option<CameraFormat>,
    /// The configuration the device is taken to have before it acknowledges
    /// one.
    pub fallback: CameraFormat,
    /// The controls as the device last described them.
    pub controls: Seq<CameraControl>,
    /// The capture technology behind the device.
    pub kind: ApiBackend,
}

impl View for StreamCore {
    type V = CoreModel;

    closed spec fn view(&self) -> CoreModel {
        CoreModel {
            state: self.state,
            format: self.format,
            fallback: self.fallback,
            controls: self.controls@,
            kind: self.kind,
        }
    }
}

/// Whether `index` is the first place in `list` that describes control `id`.
pub open spec fn is_first_of(list: Seq<CameraControl>, id: KnownCameraControl, index: int) -> bool {
    &&& 0 <= index < list.len()
    &&& list[index].id == id
    &&& forall|j: int| 0 <= j < index ==> (#[trigger] list[j]).id != id
}

/// The first place in `list` that describes control `id`, if any does.
pub open spec fn control_index(list: Seq<CameraControl>, id: KnownCameraControl) -> Option<int> {
    if exists|i: int| is_first_of(list, id, i) {
        Some(choose|i: int| is_first_of(list, id, i))
    } else {
        None
    }
}

/// `list` with `control` in the place of the first description of the same
/// control, or at the end where there is none.
pub open spec fn with_control(list: Seq<CameraControl>, control: CameraControl) -> Seq<
    CameraControl,
> {
    match control_index(list, control.id) {
        Some(i) => list.update(i, control),
        None => list.push(control),
    }
}

/// The first control of `list` that breaks its own bounds, if one does.
pub open spec fn first_ill_formed(list: Seq<CameraControl>) -> Option<CameraControl>
    decreases list.len(),
{
    if list.len() == 0 {
        None
    } else if !list[0].well_formed() {
        Some(list[0])
    } else {
        first_ill_formed(list.skip(1))
    }
}

impl CoreModel {
    /// What a session knows at its start: the stream is closed, the device
    /// has acknowledged no format and described no control.
    pub open spec fn fresh(fallback: CameraFormat, kind: ApiBackend) -> CoreModel {
        CoreModel {
            state: StreamState::Closed,
            format: None,
            fallback,
            controls: Seq::empty(),
            kind,
        }
    }

    /// Whether every held control is within its own bounds.
    pub open spec fn well_formed(self) -> bool {
        forall|i: int| 0 <= i < self.controls.len() ==> (#[trigger] self.controls[i]).well_formed()
    }

    pub open spec fn is_open(self) -> bool {
        self.state == StreamState::Open
    }

    /// The format frames are taken to have: the acknowledged one, or the
    /// fallback before any was acknowledged.
    pub open spec fn effective_format(self) -> CameraFormat {
        match self.format {
            Some(f) => f,
            None => self.fallback,
        }
    }

    /// The description the session holds of control `id`, if it holds one.
    pub open spec fn control(self, id: KnownCameraControl) -> Option<CameraControl> {
        match control_index(self.controls, id) {
            Some(i) => Some(self.controls[i]),
            None => None,
        }
    }

    /// The failure of an operation that the current state does not allow.
    pub open spec fn wrong_state(self) -> Step {
        Step::Finished(Outcome::Failed(NokhwaError::StreamStateError(self.state)))
    }

    /// Opening a stream: allowed only while it is closed.
    pub open spec fn begin_open(self) -> Step {
        if self.is_open() {
            self.wrong_state()
        } else {
            Step::Open
        }
    }

    /// Stopping a stream: allowed only while it is open.
    pub open spec fn begin_stop(self) -> Step {
        if self.is_open() {
            Step::Close { then_apply: None }
        } else {
            self.wrong_state()
        }
    }

    /// Taking a frame: allowed only while the stream is open. A closed
    /// stream is never opened on the caller's behalf.
    pub open spec fn begin_frame(self) -> Step {
        if self.is_open() {
            Step::Pull
        } else {
            self.wrong_state()
        }
    }

    /// Changing the format. A closed stream takes it directly; an open one is
    /// stopped first and opened again afterwards.
    pub open spec fn begin_format(self, target: CameraFormat) -> Step {
        if self.is_open() {
            Step::Close { then_apply: Some(target) }
        } else {
            Step::Apply { target, reopen: false }
        }
    }

    /// Changing the frame size: a change to the format in effect with this
    /// size.
    pub open spec fn begin_resolution(self, resolution: Resolution) -> Step {
        self.begin_format(CameraFormat { resolution, ..self.effective_format() })
    }

    /// Changing the frame rate: a change to the format in effect with this
    /// rate.
    pub open spec fn begin_frame_rate(self, frame_rate: FrameRate) -> Step {
        self.begin_format(CameraFormat { frame_rate, ..self.effective_format() })
    }

    /// Changing the encoding: a change to the format in effect with this
    /// encoding.
    pub open spec fn begin_frame_format(self, format: FrameFormat) -> Step {
        self.begin_format(CameraFormat { format, ..self.effective_format() })
    }

    /// Setting a control. The value is judged against the description the
    /// session holds, before the device hears of it: a value out of bounds
    /// or off the step grid is refused, and so is any value for a control
    /// the session holds no description of, which counts as unsupported.
    pub open spec fn begin_control(self, id: KnownCameraControl, value: ControlValueSetter) -> Step {
        match self.control(id) {
            Some(control) => if control.accepts(value) {
                Step::Adjust { id, value }
            } else {
                Step::Finished(Outcome::Failed(NokhwaError::InvalidControlValue(id)))
            },
            None => Step::Finished(Outcome::Failed(NokhwaError::UnsupportedOperation(self.kind))),
        }
    }

    /// After the device answered a request to open.
    pub open spec fn after_open(self, answer: Result<(), NokhwaError>) -> (CoreModel, Step) {
        match answer {
            Ok(_) => (
                CoreModel { state: StreamState::Open, ..self },
                Step::Finished(Outcome::Done),
            ),
            Err(e) => (self, Step::Finished(Outcome::Failed(e))),
        }
    }

    /// After the device answered a request to stop. Whatever it answered,
    /// the stream counts as closed: after a failure nothing is known of the
    /// device, and the session does not claim a stream it cannot vouch for.
    pub open spec fn after_close(
        self,
        then_apply: Option<CameraFormat>,
        answer: Result<(), NokhwaError>,
    ) -> (CoreModel, Step) {
        let closed = CoreModel { state: StreamState::Closed, ..self };
        match answer {
            Ok(_) => match then_apply {
                Some(target) => (closed, Step::Apply { target, reopen: true }),
                None => (closed, Step::Finished(Outcome::Done)),
            },
            Err(e) => (closed, Step::Finished(Outcome::Failed(e))),
        }
    }

    /// After the device answered a request to take a format. Its word that
    /// it did is not yet the format it has: that is asked next.
    pub open spec fn after_apply(self, reopen: bool, answer: Result<(), NokhwaError>) -> (
        CoreModel,
        Step,
    ) {
        match answer {
            Ok(_) => (self, Step::Confirm { reopen }),
            Err(e) => (self, Step::Finished(Outcome::Failed(e))),
        }
    }

    /// After the device said which format it has. That format, and not the
    /// one asked for, is what the session holds from now on.
    pub open spec fn after_confirm(self, reopen: bool, answer: Result<CameraFormat, NokhwaError>) -> (
        CoreModel,
        Step,
    ) {
        match answer {
            Ok(acknowledged) => (
                CoreModel { format: Some(acknowledged), ..self },
                if reopen {
                    Step::Open
                } else {
                    Step::Finished(Outcome::Done)
                },
            ),
            Err(e) => (self, Step::Finished(Outcome::Failed(e))),
        }
    }

    /// After the device answered a request for a frame.
    pub open spec fn after_pull(self, answer: Result<Vec<u8>, NokhwaError>) -> (CoreModel, Step) {
        match answer {
            Ok(bytes) => (self, Step::Finished(Outcome::Frame(bytes))),
            Err(e) => (self, Step::Finished(Outcome::Failed(e))),
        }
    }

    /// After the device described a control. A description of another
    /// control, or one whose current value breaks its own bounds, is not
    /// taken. One that is taken replaces what the session held.
    pub open spec fn after_describe(
        self,
        id: KnownCameraControl,
        answer: Result<CameraControl, NokhwaError>,
    ) -> (CoreModel, Step) {
        match answer {
            Ok(control) => if control.id == id && control.well_formed() {
                (
                    CoreModel { controls: with_control(self.controls, control), ..self },
                    Step::Finished(Outcome::Done),
                )
            } else {
                (self, Step::Finished(Outcome::Failed(NokhwaError::InvalidControlValue(id))))
            },
            Err(e) => (self, Step::Finished(Outcome::Failed(e))),
        }
    }

    /// After the device answered a request to set a control. On success the
    /// description the session holds takes the value, provided it accepts
    /// it; the device is not asked again.
    pub open spec fn after_adjust(
        self,
        id: KnownCameraControl,
        value: ControlValueSetter,
        answer: Result<(), NokhwaError>,
    ) -> (CoreModel, Step) {
        match answer {
            Ok(_) => (
                match control_index(self.controls, id) {
                    Some(i) if self.controls[i].accepts(value) => CoreModel {
                        controls: self.controls.update(i, self.controls[i].updated(value)),
                        ..self
                    },
                    _ => self,
                },
                Step::Finished(Outcome::Done),
            ),
            Err(e) => (self, Step::Finished(Outcome::Failed(e))),
        }
    }

    /// After the device described all its controls. The list is taken whole
    /// or not at all: one control that breaks its own bounds fails the
    /// operation and names that control.
    pub open spec fn after_enumerate(self, answer: Result<Vec<CameraControl>, NokhwaError>) -> (
        CoreModel,
        Step,
    ) {
        match answer {
            Ok(list) => match first_ill_formed(list@) {
                Some(bad) => (
                    self,
                    Step::Finished(Outcome::Failed(NokhwaError::InvalidControlValue(bad.id))),
                ),
                None => (CoreModel { controls: list@, ..self }, Step::Finished(Outcome::Done)),
            },
            Err(e) => (self, Step::Finished(Outcome::Failed(e))),
        }
    }
}

/// Whether an operation that stands at `step`, with the session knowing
/// `core`, can end with the session knowing `end` and with `outcome`: whether
/// some answers of the device take it there.
pub open spec fn leads(core: CoreModel, step: Step, end: CoreModel, outcome: Outcome) -> bool
    decreases step.rank(),
{
    match step {
        Step::Finished(o) => end == core && outcome == o,
        Step::Open => exists|answer: Result<(), NokhwaError>|
            #![trigger core.after_open(answer)]
            leads(core.after_open(answer).0, core.after_open(answer).1, end, outcome),
        Step::Close { then_apply } => exists|answer: Result<(), NokhwaError>|
            #![trigger core.after_close(then_apply, answer)]
            leads(core.after_close(then_apply, answer).0, core.after_close(then_apply, answer).1, end, outcome),
        Step::Apply { target, reopen } => exists|answer: Result<(), NokhwaError>|
            #![trigger core.after_apply(reopen, answer)]
            leads(core.after_apply(reopen, answer).0, core.after_apply(reopen, answer).1, end, outcome),
        Step::Confirm { reopen } => exists|answer: Result<CameraFormat, NokhwaError>|
            #![trigger core.after_confirm(reopen, answer)]
            leads(core.after_confirm(reopen, answer).0, core.after_confirm(reopen, answer).1, end, outcome),
        Step::Pull => exists|answer: Result<Vec<u8>, NokhwaError>|
            #![trigger core.after_pull(answer)]
            leads(core.after_pull(answer).0, core.after_pull(answer).1, end, outcome),
        Step::Describe { id } => exists|answer: Result<CameraControl, NokhwaError>|
            #![trigger core.after_describe(id, answer)]
            leads(core.after_describe(id, answer).0, core.after_describe(id, answer).1, end, outcome),
        Step::Adjust { id, value } => exists|answer: Result<(), NokhwaError>|
            #![trigger core.after_adjust(id, value, answer)]
            leads(core.after_adjust(id, value, answer).0, core.after_adjust(id, value, answer).1, end, outcome),
        Step::Enumerate => exists|answer: Result<Vec<CameraControl>, NokhwaError>|
            #![trigger core.after_enumerate(answer)]
            leads(core.after_enumerate(answer).0, core.after_enumerate(answer).1, end, outcome),
    }
}

/// The first place in `list` that describes control `id`, if any does.
pub fn find_control(list: &Vec<CameraControl>, id: KnownCameraControl) -> (found: Option<usize>)
    ensures
        match found {
            Some(i) => control_index(list@, id) == Some(i as int),
            None => control_index(list@, id) is None,
        },
{
    let mut i: usize = 0;
    while i < list.len()
        invariant
            i <= list@.len(),
            forall|j: int| 0 <= j < i ==> (#[trigger] list@[j]).id != id,
        decreases list@.len() - i,
    {
        if list[i].id == id {
            proof {
                assert(is_first_of(list@, id, i as int));
                let chosen = choose|k: int| is_first_of(list@, id, k);
                assert(is_first_of(list@, id, chosen));
                assert(chosen == i);
            }
            return Some(i);
        }
        i += 1;
    }
    proof {
        assert forall|k: int| !is_first_of(list@, id, k) by {
            if 0 <= k < list@.len() {
                assert(list@[k].id != id);
            }
        }
    }
    None
}

/// Where no control is the first to break its bounds, none breaks them.
pub proof fn lemma_none_ill_formed(list: Seq<CameraControl>)
    requires
        first_ill_formed(list) is None,
    ensures
        forall|i: int| 0 <= i < list.len() ==> (#[trigger] list[i]).well_formed(),
    decreases list.len(),
{
    if list.len() > 0 {
        lemma_none_ill_formed(list.skip(1));
        assert forall|i: int| 0 <= i < list.len() implies (#[trigger] list[i]).well_formed() by {
            if i > 0 {
                assert(list.skip(1)[i - 1] == list[i]);
            }
        }
    }
}

/// The first control of `list` that breaks its own bounds, if one does.
pub fn find_ill_formed(list: &Vec<CameraControl>) -> (bad: Option<CameraControl>)
    ensures
        bad == first_ill_formed(list@),
{
    let mut i: usize = 0;
    assert(list@.skip(0) =~= list@);
    while i < list.len()
        invariant
            i <= list@.len(),
            first_ill_formed(list@) == first_ill_formed(list@.skip(i as int)),
        decreases list@.len() - i,
    {
        let control = list[i];
        proof {
            assert(list@.skip(i as int)[0] == control);
            assert(list@.skip(i as int).skip(1) =~= list@.skip(i + 1));
        }
        if !control.is_well_formed() {
            return Some(control);
        }
        i += 1;
    }
    None
}

impl StreamCore {
    #[verifier::type_invariant]
    spec fn holds_sound_controls(self) -> bool {
        self@.well_formed()
    }

    /// What a session knows at its start: the stream is closed, the device
    /// has acknowledged no format and described no control.
    pub fn new(fallback: CameraFormat, kind: ApiBackend) -> (core: StreamCore)
        ensures
            core@ == CoreModel::fresh(fallback, kind),
    {
        StreamCore {
            state: StreamState::Closed,
            format: None,
            fallback,
            controls: Vec::new(),
            kind,
        }
    }

    /// The state of the stream. Every control the session holds is within
    /// its own bounds.
    pub fn state(&self) -> (state: StreamState)
        ensures
            state == self@.state,
            self@.well_formed(),
    {
        proof {
            use_type_invariant(self);
        }
        self.state
    }

    pub fn is_open(&self) -> (open: bool)
        ensures
            open == self@.is_open(),
    {
        self.state == StreamState::Open
    }

    pub fn format(&self) -> (format: Option<CameraFormat>)
        ensures
            format == self@.format,
    {
        self.format
    }

    pub fn fallback(&self) -> (format: CameraFormat)
        ensures
            format == self@.fallback,
    {
        self.fallback
    }

    pub fn effective_format(&self) -> (format: CameraFormat)
        ensures
            format == self@.effective_format(),
    {
        match self.format {
            Some(f) => f,
            None => self.fallback,
        }
    }

    pub fn kind(&self) -> (kind: ApiBackend)
        ensures
            kind == self@.kind,
    {
        self.kind
    }

    /// The frame that `raw` is when it is captured now: it has the size and
    /// encoding of the format in effect.
    pub fn frame_of(&self, raw: Vec<u8>) -> (frame: Buffer)
        ensures
            frame == Buffer::captured(raw, self@.effective_format()),
    {
        Buffer::from_capture(raw, self.effective_format())
    }

    /// The description held of control `id`, if one is held. It is within
    /// its own bounds.
    pub fn control(&self, id: KnownCameraControl) -> (control: Option<CameraControl>)
        ensures
            control == self@.control(id),
            control is Some ==> control.unwrap().id == id && control.unwrap().well_formed(),
    {
        proof {
            use_type_invariant(self);
        }
        match find_control(&self.controls, id) {
            Some(i) => {
                proof {
                    let chosen = choose|k: int| is_first_of(self.controls@, id, k);
                    assert(is_first_of(self.controls@, id, chosen));
                }
                Some(self.controls[i])
            },
            None => None,
        }
    }

    /// A copy of the controls as the device last described them. Each is
    /// within its own bounds.
    pub fn controls(&self) -> (list: Vec<CameraControl>)
        ensures
            list@ == self@.controls,
            self@.well_formed(),
    {
        proof {
            use_type_invariant(self);
        }
        let mut list: Vec<CameraControl> = Vec::new();
        let mut i: usize = 0;
        while i < self.controls.len()
            invariant
                i <= self.controls@.len(),
                list@ == self.controls@.take(i as int),
            decreases self.controls@.len() - i,
        {
            list.push(self.controls[i]);
            assert(list@ =~= self.controls@.take(i + 1));
            i += 1;
        }
        assert(self.controls@.take(i as int) =~= self.controls@);
        list
    }

    fn wrong_state(&self) -> (step: Step)
        ensures
            step == self@.wrong_state(),
    {
        Step::Finished(Outcome::Failed(NokhwaError::StreamStateError(self.state)))
    }

    pub fn begin_open(&self) -> (step: Step)
        ensures
            step == self@.begin_open(),
    {
        if self.is_open() {
            self.wrong_state()
        } else {
            Step::Open
        }
    }

    pub fn begin_stop(&self) -> (step: Step)
        ensures
            step == self@.begin_stop(),
    {
        if self.is_open() {
            Step::Close { then_apply: None }
        } else {
            self.wrong_state()
        }
    }

    pub fn begin_frame(&self) -> (step: Step)
        ensures
            step == self@.begin_frame(),
    {
        if self.is_open() {
            Step::Pull
        } else {
            self.wrong_state()
        }
    }

    pub fn begin_format(&self, target: CameraFormat) -> (step: Step)
        ensures
            step == self@.begin_format(target),
    {
        if self.is_open() {
            Step::Close { then_apply: Some(target) }
        } else {
            Step::Apply { target, reopen: false }
        }
    }

    pub fn begin_resolution(&self, resolution: Resolution) -> (step: Step)
        ensures
            step == self@.begin_resolution(resolution),
    {
        self.begin_format(self.effective_format().with_resolution(resolution))
    }

    pub fn begin_frame_rate(&self, frame_rate: FrameRate) -> (step: Step)
        ensures
            step == self@.begin_frame_rate(frame_rate),
    {
        self.begin_format(self.effective_format().with_frame_rate(frame_rate))
    }

    pub fn begin_frame_format(&self, format: FrameFormat) -> (step: Step)
        ensures
            step == self@.begin_frame_format(format),
    {
        self.begin_format(self.effective_format().with_format(format))
    }

    /// Asking the device anew which format it has.
    pub fn begin_refresh(&self) -> (step: Step)
        ensures
            step == (Step::Confirm { reopen: false }),
    {
        Step::Confirm { reopen: false }
    }

    pub fn begin_control(&self, id: KnownCameraControl, value: ControlValueSetter) -> (step: Step)
        ensures
            step == self@.begin_control(id, value),
    {
        match self.control(id) {
            Some(control) => if control.accepts_value(&value) {
                Step::Adjust { id, value }
            } else {
                Step::Finished(Outcome::Failed(NokhwaError::InvalidControlValue(id)))
            },
            None => Step::Finished(Outcome::Failed(NokhwaError::UnsupportedOperation(self.kind))),
        }
    }

    /// Asking the device anew to describe one control.
    pub fn begin_describe(&self, id: KnownCameraControl) -> (step: Step)
        ensures
            step == (Step::Describe { id }),
    {
        Step::Describe { id }
    }

    /// Asking the device anew to describe all its controls.
    pub fn begin_enumerate(&self) -> (step: Step)
        ensures
            step == Step::Enumerate,
    {
        Step::Enumerate
    }

    pub fn after_open(&mut self, answer: Result<(), NokhwaError>) -> (next: Step)
        ensures
            (final(self)@, next) == old(self)@.after_open(answer),
    {
        proof {
            use_type_invariant(&*self);
        }
        match answer {
            Ok(_) => {
                assert(self@.well_formed());
                self.state = StreamState::Open;
                Step::Finished(Outcome::Done)
            },
            Err(e) => Step::Finished(Outcome::Failed(e)),
        }
    }

    pub fn after_close(
        &mut self,
        then_apply: Option<CameraFormat>,
        answer: Result<(), NokhwaError>,
    ) -> (next: Step)
        ensures
            (final(self)@, next) == old(self)@.after_close(then_apply, answer),
    {
        proof {
            use_type_invariant(&*self);
        }
        self.state = StreamState::Closed;
        match answer {
            Ok(_) => match then_apply {
                Some(target) => Step::Apply { target, reopen: true },
                None => Step::Finished(Outcome::Done),
            },
            Err(e) => Step::Finished(Outcome::Failed(e)),
        }
    }

    pub fn after_apply(&mut self, reopen: bool, answer: Result<(), NokhwaError>) -> (next: Step)
        ensures
            (final(self)@, next) == old(self)@.after_apply(reopen, answer),
    {
        match answer {
            Ok(_) => Step::Confirm { reopen },
            Err(e) => Step::Finished(Outcome::Failed(e)),
        }
    }

    pub fn after_confirm(&mut self, reopen: bool, answer: Result<CameraFormat, NokhwaError>) -> (next:
        Step)
        ensures
            (final(self)@, next) == old(self)@.after_confirm(reopen, answer),
    {
        proof {
            use_type_invariant(&*self);
        }
        match answer {
            Ok(acknowledged) => {
                assert(self@.well_formed());
                self.format = Some(acknowledged);
                if reopen {
                    Step::Open
                } else {
                    Step::Finished(Outcome::Done)
                }
            },
            Err(e) => Step::Finished(Outcome::Failed(e)),
        }
    }

    pub fn after_pull(&mut self, answer: Result<Vec<u8>, NokhwaError>) -> (next: Step)
        ensures
            (final(self)@, next) == old(self)@.after_pull(answer),
    {
        match answer {
            Ok(bytes) => Step::Finished(Outcome::Frame(bytes)),
            Err(e) => Step::Finished(Outcome::Failed(e)),
        }
    }

    /// Puts `control` at `place` among the held controls, or at their end
    /// where there is no place.
    fn hold(&mut self, place: Option<usize>, control: CameraControl)
        requires
            control.well_formed(),
            place is Some ==> place.unwrap() < old(self)@.controls.len(),
        ensures
            final(self)@ == (CoreModel {
                controls: match place {
                    Some(i) => old(self)@.controls.update(i as int, control),
                    None => old(self)@.controls.push(control),
                },
                ..old(self)@
            }),
    {
        proof {
            use_type_invariant(&*self);
        }
        // The list is taken out, changed and put back, so that the core is
        // whole whenever it can be seen.
        let mut controls: Vec<CameraControl> = Vec::new();
        core::mem::swap(&mut self.controls, &mut controls);
        match place {
            Some(i) => {
                controls.set(i, control);
            },
            None => {
                controls.push(control);
            },
        }
        core::mem::swap(&mut self.controls, &mut controls);
    }

    pub fn after_describe(&mut self, id: KnownCameraControl, answer: Result<CameraControl, NokhwaError>) -> (next:
        Step)
        ensures
            (final(self)@, next) == old(self)@.after_describe(id, answer),
    {
        match answer {
            Ok(control) => {
                if control.id == id && control.is_well_formed() {
                    let place = find_control(&self.controls, id);
                    self.hold(place, control);
                    Step::Finished(Outcome::Done)
                } else {
                    Step::Finished(Outcome::Failed(NokhwaError::InvalidControlValue(id)))
                }
            },
            Err(e) => Step::Finished(Outcome::Failed(e)),
        }
    }

    pub fn after_adjust(
        &mut self,
        id: KnownCameraControl,
        value: ControlValueSetter,
        answer: Result<(), NokhwaError>,
    ) -> (next: Step)
        ensures
            (final(self)@, next) == old(self)@.after_adjust(id, value, answer),
    {
        proof {
            use_type_invariant(&*self);
        }
        match answer {
            Ok(_) => {
                match find_control(&self.controls, id) {
                    Some(i) => {
                        let held = self.controls[i];
                        if held.accepts_value(&value) {
                            let updated = held.with_value(&value);
                            self.hold(Some(i), updated);
                        }
                    },
                    None => {},
                }
                Step::Finished(Outcome::Done)
            },
            Err(e) => Step::Finished(Outcome::Failed(e)),
        }
    }

    pub fn after_enumerate(&mut self, answer: Result<Vec<CameraControl>, NokhwaError>) -> (next:
        Step)
        ensures
            (final(self)@, next) == old(self)@.after_enumerate(answer),
    {
        proof {
            use_type_invariant(&*self);
        }
        match answer {
            Ok(list) => match find_ill_formed(&list) {
                Some(bad) => Step::Finished(
                    Outcome::Failed(NokhwaError::InvalidControlValue(bad.id)),
                ),
                None => {
                    proof {
                        lemma_none_ill_formed(list@);
                    }
                    self.controls = list;
                    Step::Finished(Outcome::Done)
                },
            },
            Err(e) => Step::Finished(Outcome::Failed(e)),
        }
    }
}

} // verus!
