//! One transcription by the local engine, step by step.
//!
//! The engine itself is not part of this library. A session says what the
//! engine is to do next and is told how that went; from one to the next it
//! decides the order of the work, what a failure turns into and how the text
//! is put together. A session belongs to one call and is used up by it.

use vstd::prelude::*;
use vstd::string::StringExecFns;
use crate::audio::{MonoAudio, MonoView};
use crate::error::{ErrorView, TranscriberError};
use crate::local::WhisperProviderError;
use crate::transcript::{lemma_transcript_of_nothing, lemma_transcript_unfolds, transcript};

verus! {

/// What the engine is asked to do for a session.
#[derive(Debug, Clone, Copy, PartialEq, Eq)]
pub enum Action {
    /// Create a fresh inference state from the loaded model.
    CreateState,
    /// Run inference over the session's audio, under the fixed settings.
    Run,
    /// Report how many segments the run has produced.
    CountSegments,
    /// Report the text of the segment with this index.
    FetchSegment(i32),
}

/// How the engine answered the action that was pending.
#[derive(Debug, PartialEq, Eq)]
pub enum Event {
    /// The inference state exists.
    StateCreated,
    /// Inference ran to its end.
    RunCompleted,
    /// The run has produced this many segments.
    SegmentCount(i32),
    /// The text of the segment that was asked for.
    SegmentText(String),
    /// The engine failed at what it was asked to do.
    Failed(WhisperProviderError),
}

/// An [`Event`] with its texts as sequences of characters.
pub enum EventView {
    StateCreated,
    RunCompleted,
    SegmentCount(i32),
    SegmentText(Seq<char>),
    Failed(Seq<char>),
}

impl View for Event {
    type V = EventView;

    open spec fn view(&self) -> EventView {
        match self {
            Event::StateCreated => EventView::StateCreated,
            Event::RunCompleted => EventView::RunCompleted,
            Event::SegmentCount(count) => EventView::SegmentCount(*count),
            Event::SegmentText(text) => EventView::SegmentText(text@),
            Event::Failed(failure) => EventView::Failed(failure@),
        }
    }
}

/// How far a session has come.
pub enum StageView {
    /// The inference state is being created.
    Creating,
    /// Inference is running.
    Running,
    /// The segments are being counted.
    Counting,
    /// The segments are being fetched: `received` of `expected` have come,
    /// and `text` is what they make up.
    Collecting { expected: int, received: int, text: Seq<char> },
}

/// A session as plain values.
pub struct SessionView {
    pub audio: MonoView,
    pub stage: StageView,
}

/// What a step leaves: a session that goes on, or the result of the call.
pub enum StepView {
    Continue(SessionView),
    Done(Result<Seq<char>, ErrorView>),
}

/// The text of the failure that an event out of turn ends a session with.
pub open spec fn out_of_turn() -> Seq<char> {
    "the event does not answer the pending action"@
}

impl SessionView {
    /// A session that has just begun.
    pub open spec fn fresh(audio: MonoView) -> SessionView {
        SessionView { audio, stage: StageView::Creating }
    }

    /// While segments are fetched, fewer have come than are expected.
    pub open spec fn well_formed(self) -> bool {
        self.stage matches StageView::Collecting { expected, received, .. } ==> (0 <= received
            < expected <= i32::MAX)
    }

    /// What the engine is to do now.
    pub open spec fn action(self) -> Action {
        match self.stage {
            StageView::Creating => Action::CreateState,
            StageView::Running => Action::Run,
            StageView::Counting => Action::CountSegments,
            StageView::Collecting { received, .. } => Action::FetchSegment(received as i32),
        }
    }

    /// The session after an event.
    ///
    /// A failure ends the session at any stage, as an engine failure with the
    /// engine's text. Otherwise the event must answer the pending action: the
    /// stages follow one another, a count of no segments ends the session
    /// with an empty text, and each segment adds its text and one space until
    /// the expected number has come. Any other event ends the session as an
    /// unknown failure.
    pub open spec fn step(self, event: EventView) -> StepView {
        match (self.stage, event) {
            (_, EventView::Failed(text)) => StepView::Done(Err(ErrorView::Whisper(text))),
            (StageView::Creating, EventView::StateCreated) => StepView::Continue(
                SessionView { audio: self.audio, stage: StageView::Running },
            ),
            (StageView::Running, EventView::RunCompleted) => StepView::Continue(
                SessionView { audio: self.audio, stage: StageView::Counting },
            ),
            (StageView::Counting, EventView::SegmentCount(count)) => if count <= 0 {
                StepView::Done(Ok(Seq::empty()))
            } else {
                StepView::Continue(
                    SessionView {
                        audio: self.audio,
                        stage: StageView::Collecting {
                            expected: count as int,
                            received: 0,
                            text: Seq::empty(),
                        },
                    },
                )
            },
            (
                StageView::Collecting { expected, received, text },
                EventView::SegmentText(segment),
            ) => if received + 1 >= expected {
                StepView::Done(Ok(text + segment + seq![' ']))
            } else {
                StepView::Continue(
                    SessionView {
                        audio: self.audio,
                        stage: StageView::Collecting {
                            expected,
                            received: received + 1,
                            text: text + segment + seq![' '],
                        },
                    },
                )
            },
            _ => StepView::Done(Err(ErrorView::Unknown(out_of_turn()))),
        }
    }

    /// The session after a run of events, one step for each; the run is over
    /// with the first step that ends the session.
    pub open spec fn run(self, events: Seq<EventView>) -> StepView
        decreases events.len(),
    {
        if events.len() == 0 {
            StepView::Continue(self)
        } else {
            match self.step(events[0]) {
                StepView::Continue(next) => next.run(events.drop_first()),
                StepView::Done(result) => StepView::Done(result),
            }
        }
    }
}

/// The events of an engine that never fails and emits these segments.
pub open spec fn faultless(segments: Seq<Seq<char>>) -> Seq<EventView> {
    seq![
        EventView::StateCreated,
        EventView::RunCompleted,
        EventView::SegmentCount(segments.len() as i32),
    ] + segments.map_values(|segment: Seq<char>| EventView::SegmentText(segment))
}

/// A step leaves the audio alone and a well-formed session well-formed.
pub proof fn lemma_step_keeps_session(session: SessionView, event: EventView)
    requires
        session.well_formed(),
    ensures
        session.step(event) matches StepView::Continue(next) ==> (next.well_formed() && next.audio
            == session.audio),
{
}

/// A run can be taken in two parts: the second part goes on from where the
/// first has left the session, if it has left one.
pub proof fn lemma_run_in_parts(session: SessionView, first: Seq<EventView>, second: Seq<EventView>)
    ensures
        session.run(first + second) == match session.run(first) {
            StepView::Continue(next) => next.run(second),
            StepView::Done(result) => StepView::Done(result),
        },
    decreases first.len(),
{
    if first.len() == 0 {
        assert(first + second =~= second);
    } else {
        assert((first + second)[0] == first[0]);
        assert((first + second).drop_first() =~= first.drop_first() + second);
        match session.step(first[0]) {
            StepView::Continue(next) => {
                lemma_run_in_parts(next, first.drop_first(), second);
            },
            StepView::Done(_) => {},
        }
    }
}

/// A failure of the engine ends a session that is still going, whatever has
/// happened before and at whatever stage it is, as an engine failure with the
/// text of the engine.
pub proof fn lemma_failure_ends_run(session: SessionView, before: Seq<EventView>, text: Seq<char>)
    requires
        session.run(before) is Continue,
    ensures
        session.run(before.push(EventView::Failed(text))) == StepView::Done(
            Err(ErrorView::Whisper(text)),
        ),
{
    let failure = seq![EventView::Failed(text)];
    assert(before.push(EventView::Failed(text)) =~= before + failure);
    lemma_run_in_parts(session, before, failure);
    let next = session.run(before)->Continue_0;
    assert(failure.drop_first() =~= Seq::<EventView>::empty());
    assert(next.run(failure) == StepView::Done(Err(ErrorView::Whisper(text)))) by {
        reveal_with_fuel(SessionView::run, 2);
    }
}

/// Once segments are being fetched, the segments that are still to come add
/// their text to what is there, and the last of them ends the session.
pub proof fn lemma_collecting_run(session: SessionView, rest: Seq<Seq<char>>)
    requires
        session.well_formed(),
        rest.len() > 0,
        (session.stage matches StageView::Collecting { expected, received, .. } && received
            + rest.len() == expected),
    ensures
        (session.stage matches StageView::Collecting { text, .. } && session.run(
            rest.map_values(|segment: Seq<char>| EventView::SegmentText(segment)),
        ) == StepView::Done(Ok(text + transcript(rest)))),
    decreases rest.len(),
{
    let wrap = |segment: Seq<char>| EventView::SegmentText(segment);
    let events = rest.map_values(wrap);
    assert(events[0] == EventView::SegmentText(rest[0]));
    assert(events.drop_first() =~= rest.drop_first().map_values(wrap));
    lemma_transcript_unfolds(rest);
    match session.stage {
        StageView::Collecting { expected, received, text } => {
            let grown = text + rest[0] + seq![' '];
            assert(grown =~= text + rest[0].push(' '));
            if rest.len() == 1 {
                assert(rest.drop_first() =~= Seq::<Seq<char>>::empty());
                lemma_transcript_of_nothing();
                assert(text + transcript(rest) =~= grown);
            } else {
                match session.step(events[0]) {
                    StepView::Continue(next) => {
                        lemma_collecting_run(next, rest.drop_first());
                        assert(text + transcript(rest) =~= grown + transcript(rest.drop_first()));
                    },
                    StepView::Done(_) => {},
                }
            }
        },
        _ => {},
    }
}

/// With an engine that never fails, a session ends in the text of the
/// segments that the engine emitted: each in order, each followed by one
/// space, and an empty text where there was no segment.
pub proof fn lemma_faultless_run_yields_transcript(audio: MonoView, segments: Seq<Seq<char>>)
    requires
        segments.len() <= i32::MAX,
    ensures
        SessionView::fresh(audio).run(faultless(segments)) == StepView::Done(
            Ok(transcript(segments)),
        ),
{
    let wrap = |segment: Seq<char>| EventView::SegmentText(segment);
    let events = faultless(segments);
    let creating = SessionView::fresh(audio);
    let running = SessionView { audio, stage: StageView::Running };
    let counting = SessionView { audio, stage: StageView::Counting };
    assert(events.drop_first().drop_first().drop_first() =~= segments.map_values(wrap));
    assert(creating.step(events[0]) == StepView::Continue(running));
    assert(running.step(events.drop_first()[0]) == StepView::Continue(counting));
    assert(events.drop_first().drop_first()[0] == EventView::SegmentCount(segments.len() as i32));
    reveal_with_fuel(SessionView::run, 4);
    if segments.len() == 0 {
        lemma_transcript_of_nothing();
        assert(segments =~= Seq::empty());
    } else {
        let collecting = SessionView {
            audio,
            stage: StageView::Collecting {
                expected: segments.len() as int,
                received: 0,
                text: Seq::empty(),
            },
        };
        assert(counting.step(events.drop_first().drop_first()[0]) == StepView::Continue(
            collecting,
        ));
        lemma_collecting_run(collecting, segments);
        assert(Seq::<char>::empty() + transcript(segments) =~= transcript(segments));
    }
}

/// How far a session has come, with what it has gathered.
#[derive(Debug, PartialEq, Eq)]
enum Stage {
    Creating,
    Running,
    Counting,
    Collecting { expected: i32, received: i32, text: String },
}

/// A transcription in progress: the audio that was decoded for it, and how
/// far the engine has come with it.
#[derive(Debug, PartialEq, Eq)]
pub struct Session {
    audio: MonoAudio,
    stage: Stage,
}

/// What a step leaves: a session that goes on, or the result of the call.
#[derive(Debug, PartialEq, Eq)]
pub enum Step {
    Continue(Session),
    Done(Result<String, TranscriberError>),
}

impl View for Session {
    type V = SessionView;

    closed spec fn view(&self) -> SessionView {
        SessionView {
            audio: self.audio@,
            stage: match self.stage {
                Stage::Creating => StageView::Creating,
                Stage::Running => StageView::Running,
                Stage::Counting => StageView::Counting,
                Stage::Collecting { expected, received, text } => StageView::Collecting {
                    expected: expected as int,
                    received: received as int,
                    text: text@,
                },
            },
        }
    }
}

impl View for Step {
    type V = StepView;

    open spec fn view(&self) -> StepView {
        match self {
            Step::Continue(session) => StepView::Continue(session@),
            Step::Done(Ok(text)) => StepView::Done(Ok(text@)),
            Step::Done(Err(failure)) => StepView::Done(Err(failure@)),
        }
    }
}

impl Session {
    #[verifier::type_invariant]
    spec fn expects_more_than_it_has(self) -> bool {
        self@.well_formed()
    }

    /// A session over this audio, with everything still to be done.
    pub fn new(audio: MonoAudio) -> (r: Session)
        ensures
            r@ == SessionView::fresh(audio@),
    {
        Session { audio, stage: Stage::Creating }
    }

    /// The audio that is being transcribed.
    pub fn audio(&self) -> (r: &MonoAudio)
        ensures
            r@ == self@.audio,
    {
        &self.audio
    }

    /// What the engine is to do now.
    pub fn action(&self) -> (r: Action)
        ensures
            r == self@.action(),
            self@.well_formed(),
    {
        proof {
            use_type_invariant(self);
        }
        match &self.stage {
            Stage::Creating => Action::CreateState,
            Stage::Running => Action::Run,
            Stage::Counting => Action::CountSegments,
            Stage::Collecting { received, .. } => Action::FetchSegment(*received),
        }
    }

    /// Takes the engine's answer to the pending action and moves on.
    pub fn step(self, event: Event) -> (r: Step)
        ensures
            r@ == self@.step(event@),
            event@ matches EventView::Failed(text) ==> r@ == StepView::Done(
                Err(ErrorView::Whisper(text)),
            ),
    {
        proof {
            use_type_invariant(&self);
        }
        let Session { audio, stage } = self;
        match (stage, event) {
            (_, Event::Failed(failure)) => Step::Done(Err(TranscriberError::from(failure))),
            (Stage::Creating, Event::StateCreated) => Step::Continue(
                Session { audio, stage: Stage::Running },
            ),
            (Stage::Running, Event::RunCompleted) => Step::Continue(
                Session { audio, stage: Stage::Counting },
            ),
            (Stage::Counting, Event::SegmentCount(count)) => {
                if count <= 0 {
                    Step::Done(Ok(String::new()))
                } else {
                    Step::Continue(
                        Session {
                            audio,
                            stage: Stage::Collecting {
                                expected: count,
                                received: 0,
                                text: String::new(),
                            },
                        },
                    )
                }
            },
            (Stage::Collecting { expected, received, text }, Event::SegmentText(segment)) => {
                let mut text = text;
                text.append(segment.as_str());
                text.append(" ");
                proof {
                    reveal_strlit(" ");
                    assert(" "@ =~= seq![' ']);
                }
                if received + 1 >= expected {
                    Step::Done(Ok(text))
                } else {
                    Step::Continue(
                        Session {
                            audio,
                            stage: Stage::Collecting { expected, received: received + 1, text },
                        },
                    )
                }
            },
            _ => Step::Done(
                Err(TranscriberError::Unknown(
                    String::from_str("the event does not answer the pending action"),
                )),
            ),
        }
    }
}

} // verus!
