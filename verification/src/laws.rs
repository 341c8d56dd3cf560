//! What holds of the stream machine whatever a device answers.
//!
//! Each law speaks of [`leads`]: of every way an operation can end, over all
//! answers a device can give. A driver that makes the calls the machine
//! names and hands back the answers is bound by them, however it makes the
//! calls.

use crate::control::{CameraControl, ControlValueSetter, KnownCameraControl};
use crate::error::NokhwaError;
use crate::stream::{
    control_index, first_ill_formed, is_first_of, leads, lemma_none_ill_formed, CoreModel, Outcome,
    Step, StreamState,
};
use crate::types::CameraFormat;
use vstd::prelude::*;

verus! {

/// A frame is never had from a closed stream: the request fails with
/// `StreamStateError` before any call is made, and the session knows what it
/// knew.
pub proof fn lemma_closed_stream_gives_no_frame(core: CoreModel, end: CoreModel, outcome: Outcome)
    requires
        !core.is_open(),
        leads(core, core.begin_frame(), end, outcome),
    ensures
        outcome == Outcome::Failed(NokhwaError::StreamStateError(StreamState::Closed)),
        end == core,
{
}

/// Taking a frame from an open stream leaves it open, whether or not a frame
/// came, and changes nothing else the session knows.
pub proof fn lemma_frame_keeps_stream(core: CoreModel, end: CoreModel, outcome: Outcome)
    requires
        leads(core, core.begin_frame(), end, outcome),
    ensures
        end == core,
        !(outcome is Done),
        outcome is Frame ==> core.is_open(),
{
    reveal_with_fuel(leads, 2);
}

/// Opening a closed stream ends with the stream open if the device agreed
/// and closed if it did not. Opening an open stream is refused.
pub proof fn lemma_open_outcomes(core: CoreModel, end: CoreModel, outcome: Outcome)
    requires
        leads(core, core.begin_open(), end, outcome),
    ensures
        outcome is Done ==> !core.is_open() && end == (CoreModel {
            state: StreamState::Open,
            ..core
        }),
        outcome is Failed ==> end == core,
        core.is_open() ==> outcome == Outcome::Failed(
            NokhwaError::StreamStateError(StreamState::Open),
        ),
        !(outcome is Frame),
{
    reveal_with_fuel(leads, 2);
}

/// Stopping an open stream ends with the stream closed, whatever the device
/// answered. Stopping a closed stream is refused.
pub proof fn lemma_stop_outcomes(core: CoreModel, end: CoreModel, outcome: Outcome)
    requires
        leads(core, core.begin_stop(), end, outcome),
    ensures
        end == (CoreModel { state: StreamState::Closed, ..core }),
        !core.is_open() ==> outcome == Outcome::Failed(
            NokhwaError::StreamStateError(StreamState::Closed),
        ),
        !(outcome is Frame),
{
    reveal_with_fuel(leads, 2);
}

/// A change of format on an open stream ends with the stream open again if
/// it succeeded and closed if it failed at any point. On a closed stream it
/// leaves the stream closed. Where it succeeded the session holds a format
/// that the device acknowledged. It never touches the fallback, the controls
/// or the kind of backend.
pub proof fn lemma_format_change_outcomes(
    core: CoreModel,
    target: CameraFormat,
    end: CoreModel,
    outcome: Outcome,
)
    requires
        leads(core, core.begin_format(target), end, outcome),
    ensures
        core.is_open() && outcome is Done ==> end.is_open(),
        core.is_open() && outcome is Failed ==> !end.is_open(),
        !core.is_open() ==> !end.is_open(),
        outcome is Done ==> end.format is Some,
        !(outcome is Frame),
        end.fallback == core.fallback,
        end.controls == core.controls,
        end.kind == core.kind,
{
    reveal_with_fuel(leads, 5);
}

/// What a change of format to `target` comes to, given what the session
/// knew and what the device answered to each call, had the call been made:
/// the four calls are made in the order stop, apply, confirm, reopen, the
/// first and the last only where the stream was open, and the first failure
/// ends the change.
pub open spec fn format_change_result(
    core: CoreModel,
    target: CameraFormat,
    stopped: Result<(), NokhwaError>,
    applied: Result<(), NokhwaError>,
    confirmed: Result<CameraFormat, NokhwaError>,
    reopened: Result<(), NokhwaError>,
) -> (CoreModel, Outcome) {
    let closed = CoreModel { state: StreamState::Closed, ..core };
    if core.is_open() && stopped is Err {
        (closed, Outcome::Failed(stopped->Err_0))
    } else if applied is Err {
        (closed, Outcome::Failed(applied->Err_0))
    } else if confirmed is Err {
        (closed, Outcome::Failed(confirmed->Err_0))
    } else {
        let settled = CoreModel { format: Some(confirmed->Ok_0), ..closed };
        if !core.is_open() {
            (settled, Outcome::Done)
        } else if reopened is Err {
            (settled, Outcome::Failed(reopened->Err_0))
        } else {
            (CoreModel { state: StreamState::Open, ..settled }, Outcome::Done)
        }
    }
}

/// Whatever the device answers, a change of format ends as
/// [`format_change_result`] says it does for these answers.
pub proof fn lemma_format_change_reaches_its_result(
    core: CoreModel,
    target: CameraFormat,
    stopped: Result<(), NokhwaError>,
    applied: Result<(), NokhwaError>,
    confirmed: Result<CameraFormat, NokhwaError>,
    reopened: Result<(), NokhwaError>,
)
    ensures
        leads(
            core,
            core.begin_format(target),
            format_change_result(core, target, stopped, applied, confirmed, reopened).0,
            format_change_result(core, target, stopped, applied, confirmed, reopened).1,
        ),
{
    let (end, outcome) = format_change_result(core, target, stopped, applied, confirmed, reopened);
    if core.is_open() {
        let (c1, s1) = core.after_close(Some(target), stopped);
        let (c2, s2) = c1.after_apply(true, applied);
        let (c3, s3) = c2.after_confirm(true, confirmed);
        let (c4, s4) = c3.after_open(reopened);
        // Each step is unfolded once its successor is known to rank lower.
        assert(s1.rank() < core.begin_format(target).rank());
        if stopped is Ok {
            assert(s2.rank() < s1.rank());
            if applied is Ok {
                assert(s3.rank() < s2.rank());
                if confirmed is Ok {
                    assert(s4.rank() < s3.rank());
                    assert(leads(c4, s4, end, outcome));
                }
                assert(leads(c3, s3, end, outcome));
            }
            assert(leads(c2, s2, end, outcome));
        }
        assert(leads(c1, s1, end, outcome));
    } else {
        let (c2, s2) = core.after_apply(false, applied);
        let (c3, s3) = c2.after_confirm(false, confirmed);
        assert(s2.rank() < core.begin_format(target).rank());
        if applied is Ok {
            assert(s3.rank() < s2.rank());
            assert(leads(c3, s3, end, outcome));
        }
        assert(leads(c2, s2, end, outcome));
    }
}

/// However a change of format ends, it ends as [`format_change_result`] says
/// for some answers of the device.
pub proof fn lemma_format_change_is_some_result(
    core: CoreModel,
    target: CameraFormat,
    end: CoreModel,
    outcome: Outcome,
)
    requires
        leads(core, core.begin_format(target), end, outcome),
    ensures
        exists|
            stopped: Result<(), NokhwaError>,
            applied: Result<(), NokhwaError>,
            confirmed: Result<CameraFormat, NokhwaError>,
            reopened: Result<(), NokhwaError>,
        |
            #![trigger format_change_result(core, target, stopped, applied, confirmed, reopened)]
            format_change_result(core, target, stopped, applied, confirmed, reopened) == (
                end,
                outcome,
            ),
{
    reveal_with_fuel(leads, 5);
    let ok: Result<(), NokhwaError> = Ok(());
    let same: Result<CameraFormat, NokhwaError> = Ok(target);
    if core.is_open() {
        let stopped = choose|a: Result<(), NokhwaError>|
            #![trigger core.after_close(Some(target), a)]
            leads(
                core.after_close(Some(target), a).0,
                core.after_close(Some(target), a).1,
                end,
                outcome,
            );
        let c1 = core.after_close(Some(target), stopped).0;
        if stopped is Ok {
            let applied = choose|a: Result<(), NokhwaError>|
                #![trigger c1.after_apply(true, a)]
                leads(c1.after_apply(true, a).0, c1.after_apply(true, a).1, end, outcome);
            if applied is Ok {
                let confirmed = choose|a: Result<CameraFormat, NokhwaError>|
                    #![trigger c1.after_confirm(true, a)]
                    leads(c1.after_confirm(true, a).0, c1.after_confirm(true, a).1, end, outcome);
                let c2 = c1.after_confirm(true, confirmed).0;
                if confirmed is Ok {
                    let reopened = choose|a: Result<(), NokhwaError>|
                        #![trigger c2.after_open(a)]
                        leads(c2.after_open(a).0, c2.after_open(a).1, end, outcome);
                    assert(format_change_result(
                        core,
                        target,
                        stopped,
                        applied,
                        confirmed,
                        reopened,
                    ) == (end, outcome));
                } else {
                    assert(format_change_result(core, target, stopped, applied, confirmed, ok) == (
                        end,
                        outcome,
                    ));
                }
            } else {
                assert(format_change_result(core, target, stopped, applied, same, ok) == (
                    end,
                    outcome,
                ));
            }
        } else {
            assert(format_change_result(core, target, stopped, ok, same, ok) == (end, outcome));
        }
    } else {
        let applied = choose|a: Result<(), NokhwaError>|
            #![trigger core.after_apply(false, a)]
            leads(core.after_apply(false, a).0, core.after_apply(false, a).1, end, outcome);
        if applied is Ok {
            let confirmed = choose|a: Result<CameraFormat, NokhwaError>|
                #![trigger core.after_confirm(false, a)]
                leads(
                    core.after_confirm(false, a).0,
                    core.after_confirm(false, a).1,
                    end,
                    outcome,
                );
            assert(format_change_result(core, target, ok, applied, confirmed, ok) == (
                end,
                outcome,
            ));
        } else {
            assert(format_change_result(core, target, ok, applied, same, ok) == (end, outcome));
        }
    }
}

/// Changing to the same format twice, with the device answering the same
/// both times, ends as changing to it once did: where the first change
/// succeeded, the second succeeds too and leaves the session knowing exactly
/// what it knew, the held format included. And what the session holds after
/// a change that succeeded is what the device acknowledged, not what was
/// asked for.
pub proof fn lemma_format_change_is_idempotent(
    core: CoreModel,
    target: CameraFormat,
    stopped: Result<(), NokhwaError>,
    applied: Result<(), NokhwaError>,
    confirmed: Result<CameraFormat, NokhwaError>,
    reopened: Result<(), NokhwaError>,
)
    requires
        format_change_result(core, target, stopped, applied, confirmed, reopened).1 is Done,
    ensures
        ({
            let once = format_change_result(core, target, stopped, applied, confirmed, reopened);
            let twice = format_change_result(
                once.0,
                target,
                stopped,
                applied,
                confirmed,
                reopened,
            );
            &&& twice == once
            &&& confirmed is Ok
            &&& once.0.format == Some(confirmed->Ok_0)
        }),
{
}

/// The format the session holds after the device said which one it has is
/// that one, whatever the session held before and whatever was asked for. So
/// the same acknowledgement gives the same held format, the first time and
/// every time after.
pub proof fn lemma_held_format_is_acknowledged(
    core: CoreModel,
    other: CoreModel,
    reopen: bool,
    acknowledged: CameraFormat,
)
    ensures
        core.after_confirm(reopen, Ok(acknowledged)).0.format == Some(acknowledged),
        core.after_confirm(reopen, Ok(acknowledged)).0.format == other.after_confirm(
            reopen,
            Ok(acknowledged),
        ).0.format,
        core.after_confirm(reopen, Ok(acknowledged)).0.after_confirm(reopen, Ok(acknowledged)).0
            == core.after_confirm(reopen, Ok(acknowledged)).0,
{
}

/// What setting a control comes to, given what the session knew and what
/// the device answered to the one call, had the call been made. A control
/// the session holds no description of is refused as unsupported, and a value
/// its description does not accept as invalid; only then is the device
/// asked, and where it agrees the held description takes the value.
pub open spec fn control_result(
    core: CoreModel,
    id: KnownCameraControl,
    value: ControlValueSetter,
    adjusted: Result<(), NokhwaError>,
) -> (CoreModel, Outcome) {
    match core.control(id) {
        None => (core, Outcome::Failed(NokhwaError::UnsupportedOperation(core.kind))),
        Some(held) => if !held.accepts(value) {
            (core, Outcome::Failed(NokhwaError::InvalidControlValue(id)))
        } else {
            match adjusted {
                Err(e) => (core, Outcome::Failed(e)),
                Ok(_) => (
                    CoreModel {
                        controls: core.controls.update(
                            control_index(core.controls, id)->Some_0,
                            held.updated(value),
                        ),
                        ..core
                    },
                    Outcome::Done,
                ),
            }
        },
    }
}

/// Setting a control can end in a way if and only if it is
/// [`control_result`] of some answer of the device.
pub proof fn lemma_control_is_its_result(
    core: CoreModel,
    id: KnownCameraControl,
    value: ControlValueSetter,
    end: CoreModel,
    outcome: Outcome,
)
    ensures
        leads(core, core.begin_control(id, value), end, outcome) <==> exists|
            adjusted: Result<(), NokhwaError>,
        |
            #![trigger control_result(core, id, value, adjusted)]
            control_result(core, id, value, adjusted) == (end, outcome),
{
    let first = core.begin_control(id, value);
    let ok: Result<(), NokhwaError> = Ok(());
    if first is Finished {
        assert(control_result(core, id, value, ok) == (core, first->Finished_0));
        assert(forall|a: Result<(), NokhwaError>|
            control_result(core, id, value, a) == (core, first->Finished_0));
    } else {
        if leads(core, first, end, outcome) {
            let a = choose|a: Result<(), NokhwaError>|
                #![trigger core.after_adjust(id, value, a)]
                leads(
                    core.after_adjust(id, value, a).0,
                    core.after_adjust(id, value, a).1,
                    end,
                    outcome,
                );
            assert(control_result(core, id, value, a) == (end, outcome));
        }
        if exists|adjusted: Result<(), NokhwaError>|
            #![trigger control_result(core, id, value, adjusted)]
            control_result(core, id, value, adjusted) == (end, outcome) {
            let a = choose|adjusted: Result<(), NokhwaError>|
                #![trigger control_result(core, id, value, adjusted)]
                control_result(core, id, value, adjusted) == (end, outcome);
            let (c, s) = core.after_adjust(id, value, a);
            assert(s.rank() < first.rank());
            assert(leads(c, s, end, outcome));
        }
    }
}

/// A value is refused with the session's own `InvalidControlValue` exactly
/// when the session holds a description of the control that does not accept
/// it. Then no call is made, and the session knows what it knew.
pub proof fn lemma_invalid_value_makes_no_call(
    core: CoreModel,
    id: KnownCameraControl,
    value: ControlValueSetter,
    end: CoreModel,
    outcome: Outcome,
)
    requires
        core.control(id) is Some,
        !core.control(id).unwrap().accepts(value),
        leads(core, core.begin_control(id, value), end, outcome),
    ensures
        core.begin_control(id, value) == Step::Finished(
            Outcome::Failed(NokhwaError::InvalidControlValue(id)),
        ),
        outcome == Outcome::Failed(NokhwaError::InvalidControlValue(id)),
        end == core,
{
}

/// The device is asked to set a control only with a value that the held
/// description of that control accepts. Every other request ends before any
/// call is made: nothing is asked of the device to find out that a value is
/// not to be had.
pub proof fn lemma_only_accepted_values_are_set(
    core: CoreModel,
    id: KnownCameraControl,
    value: ControlValueSetter,
)
    ensures
        core.begin_control(id, value) is Adjust <==> core.control(id) is Some && core.control(
            id,
        ).unwrap().accepts(value),
        core.begin_control(id, value) is Adjust || core.begin_control(id, value) is Finished,
        core.begin_control(id, value) is Adjust ==> core.begin_control(id, value) == (Step::Adjust {
            id,
            value,
        }),
{
}

/// Setting a control has nothing to do with the stream: it leaves the state
/// and the held format as they were, in every outcome.
pub proof fn lemma_control_leaves_stream(
    core: CoreModel,
    id: KnownCameraControl,
    value: ControlValueSetter,
    end: CoreModel,
    outcome: Outcome,
)
    requires
        leads(core, core.begin_control(id, value), end, outcome),
    ensures
        end.state == core.state,
        end.format == core.format,
        end.fallback == core.fallback,
        end.kind == core.kind,
        !(outcome is Frame),
{
    reveal_with_fuel(leads, 2);
}

/// Every call settled keeps the held controls within their bounds.
proof fn lemma_settling_keeps_controls_sound(core: CoreModel)
    requires
        core.well_formed(),
    ensures
        forall|a: Result<(), NokhwaError>| (#[trigger] core.after_open(a)).0.well_formed(),
        forall|t: Option<CameraFormat>, a: Result<(), NokhwaError>|
            (#[trigger] core.after_close(t, a)).0.well_formed(),
        forall|r: bool, a: Result<(), NokhwaError>|
            (#[trigger] core.after_apply(r, a)).0.well_formed(),
        forall|r: bool, a: Result<CameraFormat, NokhwaError>|
            (#[trigger] core.after_confirm(r, a)).0.well_formed(),
        forall|a: Result<Vec<u8>, NokhwaError>| (#[trigger] core.after_pull(a)).0.well_formed(),
        forall|id: KnownCameraControl, a: Result<CameraControl, NokhwaError>|
            (#[trigger] core.after_describe(id, a)).0.well_formed(),
        forall|id: KnownCameraControl, v: ControlValueSetter, a: Result<(), NokhwaError>|
            (#[trigger] core.after_adjust(id, v, a)).0.well_formed(),
        forall|a: Result<Vec<CameraControl>, NokhwaError>|
            (#[trigger] core.after_enumerate(a)).0.well_formed(),
{
    assert forall|id: KnownCameraControl, a: Result<CameraControl, NokhwaError>|
        (#[trigger] core.after_describe(id, a)).0.well_formed() by {
        let end = core.after_describe(id, a).0;
        if end != core {
            let control = a.unwrap();
            match control_index(core.controls, id) {
                Some(i) => {
                    assert(is_first_of(core.controls, id, i));
                    assert forall|k: int| 0 <= k < end.controls.len() implies (
                    #[trigger] end.controls[k]).well_formed() by {
                        if k != i {
                            assert(core.controls[k].well_formed());
                        }
                    }
                },
                None => {
                    assert forall|k: int| 0 <= k < end.controls.len() implies (
                    #[trigger] end.controls[k]).well_formed() by {
                        if k < core.controls.len() {
                            assert(core.controls[k].well_formed());
                        }
                    }
                },
            }
        }
    }
    assert forall|id: KnownCameraControl, v: ControlValueSetter, a: Result<(), NokhwaError>|
        (#[trigger] core.after_adjust(id, v, a)).0.well_formed() by {
        let end = core.after_adjust(id, v, a).0;
        if end != core {
            let i = control_index(core.controls, id).unwrap();
            assert(is_first_of(core.controls, id, i));
            assert(core.controls[i].well_formed());
            assert forall|k: int| 0 <= k < end.controls.len() implies (
            #[trigger] end.controls[k]).well_formed() by {
                if k != i {
                    assert(core.controls[k].well_formed());
                }
            }
        }
    }
    assert forall|a: Result<Vec<CameraControl>, NokhwaError>|
        (#[trigger] core.after_enumerate(a)).0.well_formed() by {
        if a is Ok && first_ill_formed(a.unwrap()@) is None {
            lemma_none_ill_formed(a.unwrap()@);
        }
    }
}

/// Whatever the device answers during an operation, every control the
/// session holds at its end is within its own bounds, as at its start.
pub proof fn lemma_controls_stay_sound(
    core: CoreModel,
    step: Step,
    end: CoreModel,
    outcome: Outcome,
)
    requires
        core.well_formed(),
        leads(core, step, end, outcome),
    ensures
        end.well_formed(),
    decreases step.rank(),
{
    lemma_settling_keeps_controls_sound(core);
    match step {
        Step::Finished(_) => {},
        Step::Open => {
            let a = choose|a: Result<(), NokhwaError>|
                #![trigger core.after_open(a)]
                leads(core.after_open(a).0, core.after_open(a).1, end, outcome);
            lemma_controls_stay_sound(core.after_open(a).0, core.after_open(a).1, end, outcome);
        },
        Step::Close { then_apply } => {
            let a = choose|a: Result<(), NokhwaError>|
                #![trigger core.after_close(then_apply, a)]
                leads(
                    core.after_close(then_apply, a).0,
                    core.after_close(then_apply, a).1,
                    end,
                    outcome,
                );
            lemma_controls_stay_sound(
                core.after_close(then_apply, a).0,
                core.after_close(then_apply, a).1,
                end,
                outcome,
            );
        },
        Step::Apply { target, reopen } => {
            let a = choose|a: Result<(), NokhwaError>|
                #![trigger core.after_apply(reopen, a)]
                leads(core.after_apply(reopen, a).0, core.after_apply(reopen, a).1, end, outcome);
            lemma_controls_stay_sound(
                core.after_apply(reopen, a).0,
                core.after_apply(reopen, a).1,
                end,
                outcome,
            );
        },
        Step::Confirm { reopen } => {
            let a = choose|a: Result<CameraFormat, NokhwaError>|
                #![trigger core.after_confirm(reopen, a)]
                leads(
                    core.after_confirm(reopen, a).0,
                    core.after_confirm(reopen, a).1,
                    end,
                    outcome,
                );
            lemma_controls_stay_sound(
                core.after_confirm(reopen, a).0,
                core.after_confirm(reopen, a).1,
                end,
                outcome,
            );
        },
        Step::Pull => {
            let a = choose|a: Result<Vec<u8>, NokhwaError>|
                #![trigger core.after_pull(a)]
                leads(core.after_pull(a).0, core.after_pull(a).1, end, outcome);
            lemma_controls_stay_sound(core.after_pull(a).0, core.after_pull(a).1, end, outcome);
        },
        Step::Describe { id } => {
            let a = choose|a: Result<CameraControl, NokhwaError>|
                #![trigger core.after_describe(id, a)]
                leads(core.after_describe(id, a).0, core.after_describe(id, a).1, end, outcome);
            lemma_controls_stay_sound(
                core.after_describe(id, a).0,
                core.after_describe(id, a).1,
                end,
                outcome,
            );
        },
        Step::Adjust { id, value } => {
            let a = choose|a: Result<(), NokhwaError>|
                #![trigger core.after_adjust(id, value, a)]
                leads(
                    core.after_adjust(id, value, a).0,
                    core.after_adjust(id, value, a).1,
                    end,
                    outcome,
                );
            lemma_controls_stay_sound(
                core.after_adjust(id, value, a).0,
                core.after_adjust(id, value, a).1,
                end,
                outcome,
            );
        },
        Step::Enumerate => {
            let a = choose|a: Result<Vec<CameraControl>, NokhwaError>|
                #![trigger core.after_enumerate(a)]
                leads(core.after_enumerate(a).0, core.after_enumerate(a).1, end, outcome);
            lemma_controls_stay_sound(
                core.after_enumerate(a).0,
                core.after_enumerate(a).1,
                end,
                outcome,
            );
        },
    }
}

} // verus!
