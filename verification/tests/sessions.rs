use stt::audio::PcmAudio;
use stt::{Action, Event, Session, Step, TranscriberError, WhisperProviderError};

fn fresh() -> Session {
    Session::new(PcmAudio::new(1, 16000, vec![1, 2, 3]).unwrap().to_mono())
}

fn go_on(step: Step) -> Session {
    match step {
        Step::Continue(session) => session,
        Step::Done(result) => panic!("the session is over: {:?}", result),
    }
}

fn collecting(count: i32) -> Session {
    let session = go_on(fresh().step(Event::StateCreated));
    let session = go_on(session.step(Event::RunCompleted));
    go_on(session.step(Event::SegmentCount(count)))
}

fn text(segment: &str) -> Event {
    Event::SegmentText(segment.to_string())
}

fn failed(message: &str) -> Event {
    Event::Failed(WhisperProviderError(message.to_string()))
}

#[test]
fn session_keeps_its_audio() {
    let session = fresh();
    assert_eq!(session.audio().frames(), &vec![1i32, 2, 3]);
    let session = go_on(session.step(Event::StateCreated));
    assert_eq!(session.audio().frames(), &vec![1i32, 2, 3]);
}

#[test]
fn actions_follow_one_another() {
    let session = fresh();
    assert_eq!(session.action(), Action::CreateState);
    let session = go_on(session.step(Event::StateCreated));
    assert_eq!(session.action(), Action::Run);
    let session = go_on(session.step(Event::RunCompleted));
    assert_eq!(session.action(), Action::CountSegments);
    let session = go_on(session.step(Event::SegmentCount(2)));
    assert_eq!(session.action(), Action::FetchSegment(0));
    let session = go_on(session.step(text("one")));
    assert_eq!(session.action(), Action::FetchSegment(1));
    assert_eq!(session.step(text("two")), Step::Done(Ok("one two ".to_string())));
}

#[test]
fn segments_are_joined_in_order_each_with_one_space() {
    let session = collecting(3);
    let session = go_on(session.step(text("Dobry")));
    let session = go_on(session.step(text(" den")));
    assert_eq!(session.step(text("svet.")), Step::Done(Ok("Dobry  den svet. ".to_string())));
}

#[test]
fn single_segment_keeps_its_trailing_space() {
    assert_eq!(collecting(1).step(text("ahoj")), Step::Done(Ok("ahoj ".to_string())));
}

#[test]
fn empty_segment_still_adds_its_space() {
    let session = go_on(collecting(2).step(text("")));
    assert_eq!(session.step(text("x")), Step::Done(Ok(" x ".to_string())));
}

#[test]
fn no_segments_give_an_empty_text() {
    let session = go_on(fresh().step(Event::StateCreated));
    let session = go_on(session.step(Event::RunCompleted));
    assert_eq!(session.step(Event::SegmentCount(0)), Step::Done(Ok(String::new())));
}

#[test]
fn negative_count_gives_an_empty_text() {
    let session = go_on(fresh().step(Event::StateCreated));
    let session = go_on(session.step(Event::RunCompleted));
    assert_eq!(session.step(Event::SegmentCount(-4)), Step::Done(Ok(String::new())));
}

#[test]
fn failure_to_open_is_an_engine_error() {
    assert_eq!(
        fresh().step(failed("Creating a state pointer failed.")),
        Step::Done(Err(TranscriberError::Whisper("Creating a state pointer failed.".to_string()))),
    );
}

#[test]
fn failure_to_run_is_an_engine_error() {
    let session = go_on(fresh().step(Event::StateCreated));
    assert_eq!(
        session.step(failed("Failed to run the encoder")),
        Step::Done(Err(TranscriberError::Whisper("Failed to run the encoder".to_string()))),
    );
}

#[test]
fn failure_to_count_is_an_engine_error() {
    let session = go_on(fresh().step(Event::StateCreated));
    let session = go_on(session.step(Event::RunCompleted));
    assert_eq!(
        session.step(failed("null pointer")),
        Step::Done(Err(TranscriberError::Whisper("null pointer".to_string()))),
    );
}

#[test]
fn failure_to_fetch_discards_the_text_so_far() {
    let session = go_on(collecting(3).step(text("one")));
    assert_eq!(
        session.step(failed("Invalid UTF-8")),
        Step::Done(Err(TranscriberError::Whisper("Invalid UTF-8".to_string()))),
    );
}

#[test]
fn event_out_of_turn_is_an_unknown_error() {
    let expected = Step::Done(Err(TranscriberError::Unknown(
        "the event does not answer the pending action".to_string(),
    )));
    assert_eq!(fresh().step(Event::RunCompleted), expected);
    assert_eq!(fresh().step(Event::SegmentCount(1)), expected);
    assert_eq!(fresh().step(text("early")), expected);
    assert_eq!(go_on(fresh().step(Event::StateCreated)).step(Event::StateCreated), expected);
    assert_eq!(collecting(2).step(Event::SegmentCount(2)), expected);
    assert_eq!(collecting(2).step(Event::RunCompleted), expected);
}

#[test]
fn interleaved_sessions_do_not_mix() {
    let first = collecting(2);
    let second = collecting(2);
    let first = go_on(first.step(text("alpha")));
    let second = go_on(second.step(text("one")));
    let second = second.step(text("two"));
    let first = first.step(text("beta"));
    assert_eq!(first, Step::Done(Ok("alpha beta ".to_string())));
    assert_eq!(second, Step::Done(Ok("one two ".to_string())));
}

#[test]
fn engine_error_turns_into_the_engine_kind() {
    let failure = WhisperProviderError("Failed to decode".to_string());
    assert_eq!(
        TranscriberError::from(failure),
        TranscriberError::Whisper("Failed to decode".to_string()),
    );
}
