//! The capture contract: the operations every capture session offers, and
//! what each of them may do to the stream.

use crate::buffer::Buffer;
use crate::control::{CameraControl, ControlValueSetter, KnownCameraControl};
use crate::error::NokhwaError;
use crate::negotiate::{
    answers_of, candidate_formats, candidates, lemma_candidates_are_the_offered, ResolutionTable,
};
use crate::oneshot::{one_shot_result, shot_in_order, ShotStep};
use crate::types::{
    ApiBackend, CameraFormat, CameraIndex, CameraInfo, FormatRequest, FrameFormat, FrameRate,
    Resolution,
};
use std::borrow::Cow;
use vstd::prelude::*;

verus! {

/// Whether `index` counts one of the first `len` of a list.
pub open spec fn counts_below(index: int, len: nat) -> bool {
    0 <= index < len
}

/// Anything that frames can be taken from.
///
/// A capture session has a stream, which is open or closed, and holds the
/// format that its device last acknowledged. The contract says how each
/// operation moves between the two states:
///
/// - [`open_stream`](CaptureTrait::open_stream) takes a closed stream to
///   open, or leaves it closed if it fails.
/// - [`stop_stream`](CaptureTrait::stop_stream) leaves the stream closed,
///   also where it fails: a stream that may or may not have stopped is not
///   claimed to be open.
/// - A change of format on an open stream resets it. The stream is open
///   again if the change succeeded and closed if it failed.
/// - [`frame`](CaptureTrait::frame) and
///   [`frame_raw`](CaptureTrait::frame_raw) need an open stream and never
///   open one themselves.
/// - Queries and controls leave the stream alone.
///
/// The contract speaks of a session through three functions that every
/// implementor defines: whether its stream is open, which format it holds,
/// and which it falls back on.
pub trait CaptureTrait {
    /// Whether the stream is open.
    spec fn streaming(&self) -> bool;

    /// The format the device last acknowledged, if it ever did.
    spec fn held_format(&self) -> Option<CameraFormat>;

    /// The configuration the device is taken to have before it acknowledges
    /// one.
    spec fn fallback_format(&self) -> CameraFormat;

    /// The capture technology in use.
    fn backend(&self) -> ApiBackend;

    /// The device as it was listed.
    fn camera_info(&self) -> &CameraInfo;

    /// Asks the device which format it has and holds on to the answer.
    fn refresh_camera_format(&mut self) -> (result: Result<(), NokhwaError>)
        ensures
            final(self).streaming() == old(self).streaming(),
            final(self).fallback_format() == old(self).fallback_format(),
            result is Ok ==> final(self).held_format() is Some,
            result is Err ==> final(self).held_format() == old(self).held_format(),
    ;

    /// The format the device last acknowledged.
    fn camera_format(&self) -> (format: Option<CameraFormat>)
        ensures
            format == self.held_format(),
    ;

    /// Changes the format. An open stream is reset for it.
    fn set_camera_format(&mut self, new_fmt: CameraFormat) -> (result: Result<(), NokhwaError>)
        ensures
            result is Ok ==> final(self).streaming() == old(self).streaming(),
            result is Err ==> !final(self).streaming(),
            result is Ok ==> final(self).held_format() is Some,
            final(self).fallback_format() == old(self).fallback_format(),
    ;

    /// The frame sizes the device offers in one encoding, each with its
    /// rates. The table is not sorted.
    fn compatible_list_by_resolution(&mut self, fourcc: FrameFormat) -> (result: Result<
        ResolutionTable,
        NokhwaError,
    >)
        ensures
            final(self).streaming() == old(self).streaming(),
            final(self).held_format() == old(self).held_format(),
            final(self).fallback_format() == old(self).fallback_format(),
    ;

    /// The formats to choose from: every encoding the device reports,
    /// crossed with the frame sizes and rates it reports for that encoding,
    /// each format once, in the order in which the device first offered it.
    ///
    /// The session is asked for its encodings once and then for the table of
    /// each encoding in turn, each question put to the session as the one
    /// before left it. The first question that fails ends the listing with
    /// its failure; where none fails, the result is the candidates of the
    /// answers.
    fn compatible_camera_formats(&mut self) -> (result: Result<Vec<CameraFormat>, NokhwaError>)
        ensures
            final(self).streaming() == old(self).streaming(),
            final(self).held_format() == old(self).held_format(),
            final(self).fallback_format() == old(self).fallback_format(),
            result is Ok ==> result.unwrap()@.no_duplicates(),
            exists|asking: &mut Self, asked: Result<Vec<FrameFormat>, NokhwaError>|
                #![trigger call_ensures(Self::compatible_fourcc, (asking,), asked)]
                {
                    &&& call_ensures(Self::compatible_fourcc, (asking,), asked)
                    &&& &*asking == &*old(self)
                    &&& match asked {
                        Err(e) => result == Err::<Vec<CameraFormat>, NokhwaError>(e)
                            && &*final(asking) == &*final(self),
                        Ok(fourccs) => exists|states: Seq<&Self>, tables: Seq<ResolutionTable>|
                            #![trigger states.len(), tables.len()]
                            {
                                &&& tables.len() <= fourccs@.len()
                                &&& states.len() == tables.len() + 1
                                &&& states[0] == &*final(asking)
                                &&& forall|j: int| #[trigger]
                                    counts_below(j, tables.len()) ==> exists|query: &mut Self|
                                        {
                                            &&& #[trigger] call_ensures(
                                                Self::compatible_list_by_resolution,
                                                (query, fourccs@[j]),
                                                Ok::<ResolutionTable, NokhwaError>(tables[j]),
                                            )
                                            &&& &*query == states[j]
                                            &&& &*final(query) == states[j + 1]
                                        }
                                &&& if tables.len() == fourccs@.len() {
                                    &&& states.last() == &*final(self)
                                    &&& result is Ok
                                    &&& result.unwrap()@ == candidates(
                                        Seq::new(tables.len(), |j: int| (fourccs@[j], tables[j]@)),
                                    )
                                } else {
                                    exists|query: &mut Self, e: NokhwaError|
                                        {
                                            &&& #[trigger] call_ensures(
                                                Self::compatible_list_by_resolution,
                                                (query, fourccs@[tables.len() as int]),
                                                Err::<ResolutionTable, NokhwaError>(e),
                                            )
                                            &&& &*query == states.last()
                                            &&& &*final(query) == &*final(self)
                                            &&& result == Err::<Vec<CameraFormat>, NokhwaError>(e)
                                        }
                                }
                            },
                    }
                },
    {
        let ghost start: &Self = &*self;
        let asked = self.compatible_fourcc();
        let ghost asked_answer = asked;
        let ghost after_asking: &Self = &*self;
        let fourccs = match asked {
            Ok(fourccs) => fourccs,
            Err(e) => {
                return Err(e);
            },
        };
        let mut queried: Vec<(FrameFormat, ResolutionTable)> = Vec::new();
        let ghost mut states: Seq<&Self> = seq![after_asking];
        let ghost mut tables: Seq<ResolutionTable> = Seq::empty();
        let mut i: usize = 0;
        while i < fourccs.len()
            invariant
                self.streaming() == old(self).streaming(),
                self.held_format() == old(self).held_format(),
                self.fallback_format() == old(self).fallback_format(),
                start == &*old(self),
                asked_answer == Ok::<Vec<FrameFormat>, NokhwaError>(fourccs),
                exists|asking: &mut Self|
                    #[trigger] call_ensures(Self::compatible_fourcc, (asking,), asked_answer)
                        && &*asking == start && &*final(asking) == after_asking,
                i <= fourccs@.len(),
                tables.len() == i,
                queried@.len() == i,
                states.len() == i + 1,
                states[0] == after_asking,
                states.last() == &*self,
                forall|j: int| #[trigger]
                    counts_below(j, tables.len()) ==> exists|query: &mut Self|
                        {
                            &&& #[trigger] call_ensures(
                                Self::compatible_list_by_resolution,
                                (query, fourccs@[j]),
                                Ok::<ResolutionTable, NokhwaError>(tables[j]),
                            )
                            &&& &*query == states[j]
                            &&& &*final(query) == states[j + 1]
                        },
                forall|j: int|
                    #![trigger queried@[j]]
                    0 <= j < i ==> queried@[j] == (fourccs@[j], tables[j]),
            decreases fourccs@.len() - i,
        {
            let fourcc = fourccs[i];
            let ghost before: &Self = &*self;
            let answer = self.compatible_list_by_resolution(fourcc);
            let ghost answered = answer;
            match answer {
                Ok(table) => {
                    proof {
                        let grown = states.push(&*self);
                        let more = tables.push(table);
                        assert forall|j: int| #[trigger]
                            counts_below(j, more.len()) implies exists|query: &mut Self|
                            {
                                &&& #[trigger] call_ensures(
                                    Self::compatible_list_by_resolution,
                                    (query, fourccs@[j]),
                                    Ok::<ResolutionTable, NokhwaError>(more[j]),
                                )
                                &&& &*query == grown[j]
                                &&& &*final(query) == grown[j + 1]
                            } by {
                            if j < tables.len() {
                                assert(counts_below(j, tables.len()));
                                assert(tables[j] == more[j]);
                                assert(grown[j] == states[j]);
                                assert(grown[j + 1] == states[j + 1]);
                            } else {
                                assert(answered == Ok::<ResolutionTable, NokhwaError>(more[j]));
                                assert(grown[j] == before);
                            }
                        }
                        states = grown;
                        tables = more;
                    }
                    queried.push((fourcc, table));
                },
                Err(e) => {
                    proof {
                        assert(fourcc == fourccs@[tables.len() as int]);
                        assert(states.last() == before);
                        assert(exists|query: &mut Self, failure: NokhwaError|
                            {
                                &&& #[trigger] call_ensures(
                                    Self::compatible_list_by_resolution,
                                    (query, fourccs@[tables.len() as int]),
                                    Err::<ResolutionTable, NokhwaError>(failure),
                                )
                                &&& &*query == states.last()
                                &&& &*final(query) == &*self
                                &&& failure == e
                            });
                        assert(states.len() == tables.len() + 1);
                    }
                    return Err(e);
                },
            }
            i += 1;
        }
        let formats = candidate_formats(&queried);
        proof {
            assert(tables.len() == fourccs@.len());
            assert(states.len() == tables.len() + 1);
            assert(states.last() == &*self);
            lemma_candidates_are_the_offered(answers_of(queried@));
            assert(answers_of(queried@) =~= Seq::new(
                tables.len(),
                |j: int| (fourccs@[j], tables[j]@),
            ));
        }
        Ok(formats)
    }

    /// The encodings the device can deliver.
    fn compatible_fourcc(&mut self) -> (result: Result<Vec<FrameFormat>, NokhwaError>)
        ensures
            final(self).streaming() == old(self).streaming(),
            final(self).held_format() == old(self).held_format(),
            final(self).fallback_format() == old(self).fallback_format(),
    ;

    /// The frame size of the format the device last acknowledged.
    fn resolution(&self) -> (resolution: Option<Resolution>)
        ensures
            resolution == match self.held_format() {
                Some(format) => Some(format.resolution),
                None => None,
            },
    ;

    /// Changes the frame size and keeps the rest of the format. An open
    /// stream is reset for it.
    fn set_resolution(&mut self, new_res: Resolution) -> (result: Result<(), NokhwaError>)
        ensures
            result is Ok ==> final(self).streaming() == old(self).streaming(),
            result is Err ==> !final(self).streaming(),
            result is Ok ==> final(self).held_format() is Some,
            final(self).fallback_format() == old(self).fallback_format(),
    ;

    /// The frame rate of the format the device last acknowledged.
    fn frame_rate(&self) -> (rate: Option<FrameRate>)
        ensures
            rate == match self.held_format() {
                Some(format) => Some(format.frame_rate),
                None => None,
            },
    ;

    /// Changes the frame rate and keeps the rest of the format. An open
    /// stream is reset for it.
    fn set_frame_rate(&mut self, new_fps: FrameRate) -> (result: Result<(), NokhwaError>)
        ensures
            result is Ok ==> final(self).streaming() == old(self).streaming(),
            result is Err ==> !final(self).streaming(),
            result is Ok ==> final(self).held_format() is Some,
            final(self).fallback_format() == old(self).fallback_format(),
    ;

    /// The encoding frames are taken to have: that of the format the device
    /// last acknowledged, or of the fallback before it acknowledged one.
    fn frame_format(&self) -> (fourcc: FrameFormat)
        ensures
            fourcc == match self.held_format() {
                Some(format) => format.format,
                None => self.fallback_format().format,
            },
    ;

    /// Changes the encoding and keeps the rest of the format. An open stream
    /// is reset for it.
    fn set_frame_format(&mut self, fourcc: FrameFormat) -> (result: Result<(), NokhwaError>)
        ensures
            result is Ok ==> final(self).streaming() == old(self).streaming(),
            result is Err ==> !final(self).streaming(),
            result is Ok ==> final(self).held_format() is Some,
            final(self).fallback_format() == old(self).fallback_format(),
    ;

    /// One control. What is handed out is a description of the control that
    /// was asked for, and its current value is within its bounds.
    fn camera_control(&self, control: KnownCameraControl) -> (result: Result<
        CameraControl,
        NokhwaError,
    >)
        ensures
            result is Ok ==> result.unwrap().id == control && result.unwrap().well_formed(),
    ;

    /// All controls. The current value of each is within its bounds.
    fn camera_controls(&self) -> (result: Result<Vec<CameraControl>, NokhwaError>)
        ensures
            result is Ok ==> forall|i: int|
                0 <= i < result.unwrap()@.len() ==> (#[trigger] result.unwrap()@[i]).well_formed(),
    ;

    /// Sets a control. The stream and the format are left alone.
    fn set_camera_control(&mut self, id: KnownCameraControl, value: ControlValueSetter) -> (result:
        Result<(), NokhwaError>)
        ensures
            final(self).streaming() == old(self).streaming(),
            final(self).held_format() == old(self).held_format(),
            final(self).fallback_format() == old(self).fallback_format(),
    ;

    /// Opens the stream. A closed stream is open afterwards if this
    /// succeeded and closed if it failed.
    fn open_stream(&mut self) -> (result: Result<(), NokhwaError>)
        ensures
            result is Ok ==> final(self).streaming(),
            result is Err ==> final(self).streaming() == old(self).streaming(),
            final(self).held_format() == old(self).held_format(),
            final(self).fallback_format() == old(self).fallback_format(),
    ;

    /// Whether the stream is open.
    fn is_stream_open(&self) -> (open: bool)
        ensures
            open == self.streaming(),
    ;

    /// Takes one frame. This needs an open stream: on a closed one it fails
    /// and does not open it.
    fn frame(&mut self) -> (result: Result<Buffer, NokhwaError>)
        ensures
            final(self).streaming() == old(self).streaming(),
            final(self).held_format() == old(self).held_format(),
            final(self).fallback_format() == old(self).fallback_format(),
            !old(self).streaming() ==> result is Err,
    ;

    /// Takes the bytes of one frame as the device produced them. This needs
    /// an open stream: on a closed one it fails and does not open it.
    fn frame_raw(&mut self) -> (result: Result<Cow<'_, [u8]>, NokhwaError>)
        ensures
            final(self).streaming() == old(self).streaming(),
            final(self).held_format() == old(self).held_format(),
            final(self).fallback_format() == old(self).fallback_format(),
            !old(self).streaming() ==> result is Err,
    ;

    /// Stops the stream. It is closed afterwards, also where this failed:
    /// then the device may still be streaming, and seeing to it is up to the
    /// caller.
    fn stop_stream(&mut self) -> (result: Result<(), NokhwaError>)
        ensures
            !final(self).streaming(),
            final(self).held_format() == old(self).held_format(),
            final(self).fallback_format() == old(self).fallback_format(),
    ;
}

/// Any capture session can be boxed and used without knowing its type.
impl<T> From<T> for Box<dyn CaptureTrait> where T: CaptureTrait + 'static {
    fn from(backend: T) -> (boxed: Self) {
        Box::new(backend)
    }
}

/// The box holds the session it was made from.
impl<T> vstd::std_specs::convert::FromSpecImpl<T> for Box<dyn CaptureTrait> where T: CaptureTrait + 'static {
    open spec fn obeys_from_spec() -> bool {
        true
    }

    open spec fn from_spec(backend: T) -> Self {
        Box::new(backend)
    }
}

/// A capture session that can be had from the name of a device.
pub trait OpenCaptureTrait: CaptureTrait {
    /// Opens the device `index` for capture. The stream of a new session is
    /// closed.
    fn open(index: &CameraIndex, camera_fmt: FormatRequest) -> (result: Result<
        Self,
        NokhwaError,
    >) where Self: Sized
        ensures
            result is Ok ==> !result.unwrap().streaming(),
    ;
}

/// Capturing a single frame.
pub trait OneShot: CaptureTrait {
    /// Takes one frame with as little lasting effect on the stream as can
    /// be. An open stream is used as it is and stays open. A closed stream is
    /// opened, used and stopped again; where that goes well it is closed
    /// afterwards. The first failure ends the capture and is returned; a
    /// frame that did not come leaves the stream open.
    fn one_shot(&mut self) -> (result: Result<Buffer, NokhwaError>)
        ensures
            old(self).streaming() ==> final(self).streaming(),
            !old(self).streaming() && result is Ok ==> !final(self).streaming(),
            final(self).held_format() == old(self).held_format(),
            final(self).fallback_format() == old(self).fallback_format(),
            // On an open stream the capture is one call of `frame`.
            old(self).streaming() ==> exists|taking: &mut Self|
                #[trigger] call_ensures(Self::frame, (taking,), result) && &*taking == &*old(self)
                    && &*final(taking) == &*final(self),
            // On a closed stream it is `open_stream`, then `frame`, then
            // `stop_stream`, each on the session as the call before left it,
            // up to the first that fails.
            !old(self).streaming() ==> exists|opening: &mut Self, opened: Result<(), NokhwaError>|
                #![trigger call_ensures(Self::open_stream, (opening,), opened)]
                {
                    &&& call_ensures(Self::open_stream, (opening,), opened)
                    &&& &*opening == &*old(self)
                    &&& match opened {
                        Err(e) => result == Err::<Buffer, NokhwaError>(e) && &*final(opening)
                            == &*final(self),
                        Ok(_) => exists|taking: &mut Self, taken: Result<Buffer, NokhwaError>|
                            #![trigger call_ensures(Self::frame, (taking,), taken)]
                            {
                                &&& call_ensures(Self::frame, (taking,), taken)
                                &&& &*taking == &*final(opening)
                                &&& match taken {
                                    Err(e) => result == Err::<Buffer, NokhwaError>(e)
                                        && &*final(taking) == &*final(self),
                                    Ok(_) => exists|
                                        stopping: &mut Self,
                                        stopped: Result<(), NokhwaError>,
                                    |
                                        #![trigger
                                            call_ensures(Self::stop_stream, (stopping,), stopped)
                                        ]
                                        {
                                            &&& call_ensures(
                                                Self::stop_stream,
                                                (stopping,),
                                                stopped,
                                            )
                                            &&& &*stopping == &*final(taking)
                                            &&& &*final(stopping) == &*final(self)
                                            &&& result == one_shot_result(
                                                false,
                                                opened,
                                                taken,
                                                stopped,
                                            )
                                        },
                                }
                            },
                    }
                },
    {
        let ghost was_open = self.streaming();
        let ghost start: &Self = &*self;
        let mut step = ShotStep::begin(self.is_stream_open());
        loop
            invariant
                was_open == old(self).streaming(),
                start == &*old(self),
                shot_in_order(was_open, self.streaming(), step),
                self.held_format() == old(self).held_format(),
                self.fallback_format() == old(self).fallback_format(),
                was_open ==> match step {
                    ShotStep::Frame { .. } => &*self == start,
                    ShotStep::Finished(r) => exists|taking: &mut Self|
                        #[trigger] call_ensures(Self::frame, (taking,), r) && &*taking == start
                            && &*final(taking) == &*self,
                    _ => true,
                },
                !was_open ==> match step {
                    ShotStep::OpenStream => &*self == start,
                    ShotStep::Frame { .. } => exists|
                        opening: &mut Self,
                        opened: Result<(), NokhwaError>,
                    |
                        #![trigger call_ensures(Self::open_stream, (opening,), opened)]
                        {
                            &&& call_ensures(Self::open_stream, (opening,), opened)
                            &&& opened is Ok
                            &&& &*opening == start
                            &&& &*final(opening) == &*self
                        },
                    ShotStep::StopStream { frame } => exists|
                        opening: &mut Self,
                        opened: Result<(), NokhwaError>,
                        taking: &mut Self,
                    |
                        #![trigger
                            call_ensures(Self::open_stream, (opening,), opened),
                            call_ensures(Self::frame, (taking,), Ok::<Buffer, NokhwaError>(frame)),
                        ]
                        {
                            &&& call_ensures(Self::open_stream, (opening,), opened)
                            &&& opened is Ok
                            &&& &*opening == start
                            &&& call_ensures(
                                Self::frame,
                                (taking,),
                                Ok::<Buffer, NokhwaError>(frame),
                            )
                            &&& &*taking == &*final(opening)
                            &&& &*final(taking) == &*self
                        },
                    ShotStep::Finished(r) => exists|
                        opening: &mut Self,
                        opened: Result<(), NokhwaError>,
                    |
                        #![trigger call_ensures(Self::open_stream, (opening,), opened)]
                        {
                            &&& call_ensures(Self::open_stream, (opening,), opened)
                            &&& &*opening == start
                            &&& match opened {
                                Err(e) => r == Err::<Buffer, NokhwaError>(e) && &*final(opening)
                                    == &*self,
                                Ok(_) => exists|
                                    taking: &mut Self,
                                    taken: Result<Buffer, NokhwaError>,
                                |
                                    #![trigger call_ensures(Self::frame, (taking,), taken)]
                                    {
                                        &&& call_ensures(Self::frame, (taking,), taken)
                                        &&& &*taking == &*final(opening)
                                        &&& match taken {
                                            Err(e) => r == Err::<Buffer, NokhwaError>(e)
                                                && &*final(taking) == &*self,
                                            Ok(_) => exists|
                                                stopping: &mut Self,
                                                stopped: Result<(), NokhwaError>,
                                            |
                                                #![trigger
                                                    call_ensures(
                                                        Self::stop_stream,
                                                        (stopping,),
                                                        stopped,
                                                    )
                                                ]
                                                {
                                                    &&& call_ensures(
                                                        Self::stop_stream,
                                                        (stopping,),
                                                        stopped,
                                                    )
                                                    &&& &*stopping == &*final(taking)
                                                    &&& &*final(stopping) == &*self
                                                    &&& r == one_shot_result(
                                                        false,
                                                        opened,
                                                        taken,
                                                        stopped,
                                                    )
                                                },
                                        }
                                    },
                            }
                        },
                },
            decreases step.rank(),
        {
            step = match step {
                ShotStep::OpenStream => {
                    let answer = self.open_stream();
                    ShotStep::after_open(answer)
                },
                ShotStep::Frame { then_stop } => {
                    let answer = self.frame();
                    ShotStep::after_frame(then_stop, answer)
                },
                ShotStep::StopStream { frame } => {
                    let answer = self.stop_stream();
                    ShotStep::after_stop(frame, answer)
                },
                ShotStep::Finished(result) => {
                    return result;
                },
            };
        }
    }
}

/// How far two values lie apart. What the distance is, and in what it is
/// counted, is for the implementor to say.
pub trait Distance<T> where T: PartialEq {
    fn distance_from(&self, other: &Self) -> T;
}

} // verus!
