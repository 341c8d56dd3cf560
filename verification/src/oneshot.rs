//! Capturing a single frame: the decisions, apart from the stream they are
//! made about.
//!
//! On an open stream a single capture takes a frame and leaves the stream
//! open. On a closed one it opens the stream, takes a frame and stops the
//! stream again. The first failure ends it: in particular a frame that does
//! not come leaves the stream as it then is, open, and stopping it is up to
//! the caller.

use crate::buffer::Buffer;
use crate::error::NokhwaError;
use vstd::prelude::*;

verus! {

/// What the driver of a single capture does next.
#[derive(Debug, PartialEq, Eq)]
pub enum ShotStep {
    /// Open the stream.
    OpenStream,
    /// Take a frame. `then_stop` says whether the capture opened the stream
    /// itself and so has to stop it.
    Frame { then_stop: bool },
    /// Stop the stream; `frame` is handed out once it has stopped.
    StopStream { frame: Buffer },
    /// Do nothing further: the capture has ended with this result.
    Finished(Result<Buffer, NokhwaError>),
}

impl ShotStep {
    /// An upper bound on the operations still to be run.
    pub open spec fn rank(self) -> nat {
        match self {
            ShotStep::OpenStream => 3,
            ShotStep::Frame { .. } => 2,
            ShotStep::StopStream { .. } => 1,
            ShotStep::Finished(_) => 0,
        }
    }

    /// The first step, given whether the stream is open.
    pub open spec fn begun(open: bool) -> ShotStep {
        if open {
            ShotStep::Frame { then_stop: false }
        } else {
            ShotStep::OpenStream
        }
    }

    /// The step after the stream was asked to open.
    pub open spec fn opened(answer: Result<(), NokhwaError>) -> ShotStep {
        match answer {
            Ok(_) => ShotStep::Frame { then_stop: true },
            Err(e) => ShotStep::Finished(Err(e)),
        }
    }

    /// The step after a frame was asked for.
    pub open spec fn captured(then_stop: bool, answer: Result<Buffer, NokhwaError>) -> ShotStep {
        match answer {
            Ok(frame) => if then_stop {
                ShotStep::StopStream { frame }
            } else {
                ShotStep::Finished(Ok(frame))
            },
            Err(e) => ShotStep::Finished(Err(e)),
        }
    }

    /// The step after the stream was asked to stop.
    pub open spec fn stopped(frame: Buffer, answer: Result<(), NokhwaError>) -> ShotStep {
        match answer {
            Ok(_) => ShotStep::Finished(Ok(frame)),
            Err(e) => ShotStep::Finished(Err(e)),
        }
    }

    pub fn begin(open: bool) -> (step: ShotStep)
        ensures
            step == ShotStep::begun(open),
    {
        if open {
            ShotStep::Frame { then_stop: false }
        } else {
            ShotStep::OpenStream
        }
    }

    pub fn after_open(answer: Result<(), NokhwaError>) -> (step: ShotStep)
        ensures
            step == ShotStep::opened(answer),
    {
        match answer {
            Ok(_) => ShotStep::Frame { then_stop: true },
            Err(e) => ShotStep::Finished(Err(e)),
        }
    }

    pub fn after_frame(then_stop: bool, answer: Result<Buffer, NokhwaError>) -> (step: ShotStep)
        ensures
            step == ShotStep::captured(then_stop, answer),
    {
        match answer {
            Ok(frame) => if then_stop {
                ShotStep::StopStream { frame }
            } else {
                ShotStep::Finished(Ok(frame))
            },
            Err(e) => ShotStep::Finished(Err(e)),
        }
    }

    pub fn after_stop(frame: Buffer, answer: Result<(), NokhwaError>) -> (step: ShotStep)
        ensures
            step == ShotStep::stopped(frame, answer),
    {
        match answer {
            Ok(_) => ShotStep::Finished(Ok(frame)),
            Err(e) => ShotStep::Finished(Err(e)),
        }
    }
}

/// Whether a single capture that found the stream open or not (`was_open`)
/// can stand at `step` while the stream is open or not (`open_now`).
pub open spec fn shot_in_order(was_open: bool, open_now: bool, step: ShotStep) -> bool {
    if was_open {
        open_now && (step is Finished || step == (ShotStep::Frame { then_stop: false }))
    } else {
        match step {
            ShotStep::OpenStream => !open_now,
            ShotStep::Frame { then_stop } => then_stop && open_now,
            ShotStep::StopStream { .. } => open_now,
            ShotStep::Finished(Ok(_)) => !open_now,
            ShotStep::Finished(Err(_)) => true,
        }
    }
}

/// The result of a single capture, given whether it found the stream open
/// and what each operation answered, had it been run: on an open stream the
/// answer to the request for a frame; on a closed one the first failure
/// among opening, taking a frame and stopping, or else the frame.
pub open spec fn one_shot_result(
    was_open: bool,
    opened: Result<(), NokhwaError>,
    frame: Result<Buffer, NokhwaError>,
    stopped: Result<(), NokhwaError>,
) -> Result<Buffer, NokhwaError> {
    if was_open {
        frame
    } else {
        match (opened, frame, stopped) {
            (Err(e), _, _) => Err(e),
            (Ok(_), Err(e), _) => Err(e),
            (Ok(_), Ok(_), Err(e)) => Err(e),
            (Ok(_), Ok(f), Ok(_)) => Ok(f),
        }
    }
}

/// The steps of a single capture, taken with given answers, end with
/// [`one_shot_result`] of these answers, and an operation is only run while
/// every one before it succeeded.
pub proof fn lemma_steps_give_one_shot_result(
    was_open: bool,
    opened: Result<(), NokhwaError>,
    frame: Result<Buffer, NokhwaError>,
    stopped: Result<(), NokhwaError>,
)
    ensures
        was_open ==> ShotStep::captured(false, frame) == ShotStep::Finished(
            one_shot_result(was_open, opened, frame, stopped),
        ),
        !was_open && opened is Err ==> ShotStep::opened(opened) == ShotStep::Finished(
            one_shot_result(was_open, opened, frame, stopped),
        ),
        !was_open && opened is Ok && frame is Err ==> ShotStep::opened(opened) == (ShotStep::Frame {
            then_stop: true,
        }) && ShotStep::captured(true, frame) == ShotStep::Finished(
            one_shot_result(was_open, opened, frame, stopped),
        ),
        !was_open && opened is Ok && frame is Ok ==> ShotStep::captured(true, frame)
            == (ShotStep::StopStream { frame: frame.unwrap() }) && ShotStep::stopped(
            frame.unwrap(),
            stopped,
        ) == ShotStep::Finished(one_shot_result(was_open, opened, frame, stopped)),
{
}

} // verus!
