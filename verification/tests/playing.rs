use std::sync::Arc;

use crust_node::filters::FilterConfiguration;
use crust_node::media::{
    AdapterError, MediaEvent, MediaTrack, PlayerStatus, TrackEndReason, TrackMetadata,
};
use crust_node::playback::{
    read_frame, seek_result, source_frame, ActorAnswer, ActorCommand, ActorNeed, ActorReply,
    ActorStep, BufferedFrame, FrameAnswer, FramePoll, MediaFrame, PlayerActor, ProcessingMode,
    SessionEnd, SessionPoll, SourceFrame, MEDIA_READ_AHEAD_FRAMES, PLAYER_COMMAND_CAPACITY,
    PLAYER_EVENT_CAPACITY,
};
use crust_node::source::{
    invalid_track, load_failed, overloaded, SessionKind, YoutubePlaybackErrorKind,
};
use crust_node::span::Span;
use crust_node::text_map::TextMap;

/// A session of numbered frames, twenty milliseconds each.
struct Fixture {
    frames: u64,
    next: u64,
    staged: bool,
}

impl Fixture {
    fn read(&mut self) -> BufferedFrame {
        let poll = if self.next < self.frames {
            let number = self.next;
            self.next += 1;
            FramePoll::Frame {
                payload: number.to_be_bytes().to_vec(),
                timestamp: Span::from_millis(number * 20),
            }
        } else {
            FramePoll::Ended
        };
        BufferedFrame { poll, source_position: None }
    }
}

struct Driver {
    actor: PlayerActor,
    session: Option<Fixture>,
    kept: Option<Fixture>,
    answers: Vec<(u64, Result<(), AdapterError>)>,
}

impl Driver {
    fn open(&mut self, encoded: &str, reuse: bool) -> Result<SessionKind, AdapterError> {
        let kept = self.kept.take();
        if reuse {
            self.session = kept;
            return Ok(SessionKind::Finite);
        }
        match encoded {
            "fixture:buffered" => {
                self.session = Some(Fixture { frames: 16, next: 0, staged: false });
                Ok(SessionKind::Finite)
            }
            "fixture:short" => {
                self.session = Some(Fixture { frames: 1, next: 0, staged: false });
                Ok(SessionKind::Finite)
            }
            _ => Err(invalid_track()),
        }
    }

    fn perform(&mut self, need: ActorNeed) -> ActorReply {
        match need {
            ActorNeed::AwaitRead => {
                ActorReply::Read(SessionEnd::Ended(Ok(self.session.as_mut().unwrap().read())))
            }
            ActorNeed::Install(_) => {
                ActorReply::Installed(SessionEnd::Ended(Ok(ProcessingMode::Pcm)))
            }
            ActorNeed::Answer { reply, result } => {
                self.answers.push((reply, result));
                ActorReply::Answered
            }
            ActorNeed::Open { encoded, reuse } => {
                let end = SessionEnd::Ended(self.open(&encoded, reuse));
                ActorReply::Opened { end, cancelled: false }
            }
            ActorNeed::InstallNew(_) => ActorReply::InstalledNew(Ok(ProcessingMode::Passthrough)),
            ActorNeed::SeekSession(position) => {
                self.session.as_mut().unwrap().next = position.as_millis() / 20;
                ActorReply::Sought(SessionEnd::Ended(Ok(position)))
            }
            ActorNeed::ReadSession => {
                ActorReply::FrameRead(SessionEnd::Ended(Ok(self.session.as_mut().unwrap().read())))
            }
            ActorNeed::KeepInput => {
                let session = self.session.take().unwrap();
                let staged = session.staged;
                if staged {
                    self.kept = Some(Fixture { next: 0, ..session });
                }
                ActorReply::Kept(staged)
            }
        }
    }

    fn run(&mut self, step: ActorStep) -> ActorAnswer {
        let mut step = step;
        loop {
            match step {
                ActorStep::Ask(stage, need) => {
                    let reply = self.perform(need);
                    step = self.actor.resume(stage, reply);
                }
                ActorStep::Done(answer) => return answer,
            }
        }
    }

    fn command(&mut self, command: ActorCommand) -> ActorAnswer {
        let step = self.actor.handle(command);
        self.run(step)
    }

    fn unit(&mut self, command: ActorCommand) -> Result<(), AdapterError> {
        match self.command(command) {
            ActorAnswer::Unit(result) => result,
            _ => panic!("the command is answered with a result"),
        }
    }

    fn next_frame(&mut self) -> Result<FrameAnswer, AdapterError> {
        let step = self.actor.next_frame();
        match self.run(step) {
            ActorAnswer::Frame(frame) => frame,
            _ => panic!("the command is answered with a frame"),
        }
    }

    fn frame(&mut self) -> MediaFrame {
        match self.next_frame() {
            Ok(FrameAnswer::Frame(frame)) => frame,
            _ => panic!("no frame"),
        }
    }

    fn read_ahead(&mut self) {
        if self.actor.start_read_ahead() {
            let end = SessionEnd::Ended(Ok(self.session.as_mut().unwrap().read()));
            let step = self.actor.read_ended(end);
            self.run(step);
        }
    }
}

fn track(encoded: &str) -> MediaTrack {
    MediaTrack {
        encoded: encoded.to_owned(),
        metadata: TrackMetadata {
            identifier: encoded.to_owned(),
            title: String::new(),
            author: String::new(),
            duration_ms: 320,
            seekable: true,
            stream: false,
            source_name: "fixture".to_owned(),
            uri: None,
            artwork_url: None,
            isrc: None,
        },
        plugin_info: Arc::new(TextMap::new()),
    }
}

fn buffered_fixture_actor() -> Driver {
    let mut driver = Driver {
        actor: PlayerActor::new(0),
        session: None,
        kept: None,
        answers: Vec::new(),
    };
    driver
        .unit(ActorCommand::Play { track: track("fixture:buffered"), cancelled: false })
        .unwrap();
    driver.command(ActorCommand::NextEvent);
    driver
}

fn staged_fixture_actor() -> Driver {
    let mut driver = buffered_fixture_actor();
    driver.actor.staging_max_bytes = 16 * 1024 * 1024;
    driver.session.as_mut().unwrap().staged = true;
    if let Some(track) = driver.actor.track.as_mut() {
        track.encoded = "requires-completed-input".to_owned();
    }
    driver
}

fn play_to_the_end(driver: &mut Driver) {
    for _ in 0..16 {
        driver.frame();
    }
    assert!(matches!(driver.next_frame(), Ok(FrameAnswer::Ended)));
}

fn at_volume(volume: u16) -> FilterConfiguration {
    FilterConfiguration { player_volume: Some(volume), ..FilterConfiguration::default() }
}

#[test]
fn completed_staged_input_repeats_and_resets_sequence_without_reopening_source() {
    let mut driver = staged_fixture_actor();
    for _ in 0..16 {
        assert!(matches!(driver.next_frame(), Ok(FrameAnswer::Frame(_))));
    }
    assert!(matches!(driver.next_frame(), Ok(FrameAnswer::Ended)));
    assert!(driver.actor.session.is_none(), "EOF must release decoder buffers");
    assert!(driver.actor.completed_input.is_some());
    let again = track("requires-completed-input");
    driver.unit(ActorCommand::Play { track: again, cancelled: false }).unwrap();
    let frame = driver.frame();
    assert_eq!(frame.sequence, 0);
    driver.unit(ActorCommand::Stop).unwrap();
    assert!(driver.actor.session.is_none());
    assert!(driver.actor.completed_input.is_none());
}

#[test]
fn staged_input_cleanup_cancellation_and_stopped_controls() {
    let mut driver = staged_fixture_actor();
    play_to_the_end(&mut driver);
    assert!(driver.unit(ActorCommand::Seek(Span::zero())).is_err());
    let again = track("requires-completed-input");
    assert!(driver.unit(ActorCommand::Play { track: again, cancelled: true }).is_err());
    assert!(
        driver.actor.completed_input.is_some(),
        "cancelled preflight must preserve cache"
    );
    let invalid = track("invalid");
    assert!(driver.unit(ActorCommand::Play { track: invalid, cancelled: false }).is_err());
    assert!(
        driver.actor.completed_input.is_none(),
        "replacement failure must release old cache"
    );
    let mut driver = staged_fixture_actor();
    play_to_the_end(&mut driver);
    driver.unit(ActorCommand::Shutdown).unwrap();
    assert!(driver.actor.completed_input.is_none());
    assert_eq!(driver.actor.status, PlayerStatus::Shutdown);
}

#[test]
fn completed_streaming_fallback_does_not_retain_a_decoder_or_source() {
    let mut driver = buffered_fixture_actor();
    driver.actor.staging_max_bytes = 16 * 1024 * 1024;
    play_to_the_end(&mut driver);
    assert!(driver.actor.session.is_none());
    assert!(driver.actor.completed_input.is_none());
}

#[test]
fn read_ahead_is_bounded_and_eof_waits_for_the_last_delivered_frame() {
    let mut driver = buffered_fixture_actor();
    for _ in 0..(MEDIA_READ_AHEAD_FRAMES * 2) {
        driver.read_ahead();
    }
    assert_eq!(driver.actor.buffered.len(), MEDIA_READ_AHEAD_FRAMES);
    assert_eq!(
        driver.actor.position,
        Span::zero(),
        "decoded position must not become delivered position"
    );
    assert!(driver.actor.events.is_empty());
    assert_eq!(driver.actor.status, PlayerStatus::Playing);
    for expected in 0..16_u64 {
        let frame = driver.frame();
        assert_eq!(frame.sequence, expected);
        assert_eq!(frame.payload.as_slice(), &expected.to_be_bytes());
        assert_eq!(driver.actor.position, Span::from_millis(expected * 20));
        driver.read_ahead();
        assert!(
            driver.actor.events.is_empty(),
            "prefetched EOF must not terminate the queued tail"
        );
    }
    assert!(matches!(driver.next_frame(), Ok(FrameAnswer::Ended)));
    match driver.command(ActorCommand::NextEvent) {
        ActorAnswer::Event(Some(MediaEvent::TrackEnd { reason, .. })) => {
            assert_eq!(reason, TrackEndReason::Finished);
        }
        _ => panic!("the end of the track is told"),
    }
    assert_eq!(driver.actor.status, PlayerStatus::Stopped);
    assert!(driver.actor.buffered.is_empty(), "stopped players release their buffer");
}

#[test]
fn pause_retains_read_ahead_and_resume_delivers_in_order() {
    let mut driver = buffered_fixture_actor();
    for _ in 0..8 {
        driver.read_ahead();
    }
    driver.unit(ActorCommand::Pause(true)).unwrap();
    let buffered = driver.actor.buffered.len();
    assert!(!driver.actor.start_read_ahead());
    assert!(!driver.actor.reading);
    assert!(matches!(driver.next_frame(), Ok(FrameAnswer::Ended)));
    assert_eq!(driver.actor.buffered.len(), buffered);
    driver.unit(ActorCommand::Pause(false)).unwrap();
    let frame = driver.frame();
    assert_eq!(frame.payload.as_slice(), &0_u64.to_be_bytes());
    driver.unit(ActorCommand::Stop).unwrap();
    assert!(driver.actor.buffered.is_empty());
    assert!(!driver.actor.reading);
}

#[test]
fn a_playback_is_delivered_whole_and_in_order() {
    let mut driver = buffered_fixture_actor();
    for expected in 0..16_u64 {
        if expected % 3 == 0 {
            driver.read_ahead();
            driver.read_ahead();
        }
        if expected % 5 == 0 {
            driver.unit(ActorCommand::Pause(true)).unwrap();
            assert!(matches!(driver.next_frame(), Ok(FrameAnswer::Ended)));
            driver.unit(ActorCommand::Pause(false)).unwrap();
        }
        let frame = driver.frame();
        assert_eq!(frame.sequence, expected);
        assert_eq!(frame.payload.as_slice(), &expected.to_be_bytes());
        assert!(driver.actor.track.is_some());
    }
    assert!(matches!(driver.next_frame(), Ok(FrameAnswer::Ended)));
    assert!(driver.actor.track.is_none());
    assert_eq!(driver.actor.events.len(), 1);
    assert!(matches!(driver.next_frame(), Ok(FrameAnswer::Ended)));
    assert_eq!(driver.actor.events.len(), 1, "the end is told once");
}

#[test]
fn frames_are_numbered_on_across_a_seek() {
    let mut driver = buffered_fixture_actor();
    for expected in 0..3_u64 {
        driver.read_ahead();
        driver.read_ahead();
        assert_eq!(driver.frame().sequence, expected);
    }
    assert_eq!(driver.actor.buffered.len(), 3);
    driver.unit(ActorCommand::Seek(Span::from_millis(200))).unwrap();
    assert!(driver.actor.buffered.is_empty());
    let frame = driver.frame();
    assert_eq!(frame.sequence, 3);
    assert_eq!(frame.payload.as_slice(), &10_u64.to_be_bytes());
}

#[test]
fn an_end_that_cannot_be_told_is_an_overload() {
    let mut driver = buffered_fixture_actor();
    for _ in 0..16 {
        driver.frame();
    }
    while driver.actor.events.len() < PLAYER_EVENT_CAPACITY {
        let ended = track("other");
        let event = MediaEvent::TrackEnd { track: ended, reason: TrackEndReason::Stopped };
        driver.actor.events.push(event);
    }
    assert_eq!(driver.next_frame().err(), Some(overloaded()));
    assert!(driver.actor.track.is_some());
    assert_eq!(driver.actor.events.len(), PLAYER_EVENT_CAPACITY);
    driver.command(ActorCommand::NextEvent);
    assert!(matches!(driver.next_frame(), Ok(FrameAnswer::Ended)));
    assert!(driver.actor.track.is_none());
}

#[test]
fn buffered_audio_remains_available_while_next_read_is_blocked() {
    let mut driver = buffered_fixture_actor();
    for _ in 0..8 {
        driver.read_ahead();
    }
    assert!(driver.actor.start_read_ahead());
    for _ in 0..4 {
        assert!(matches!(
            driver.actor.handle(ActorCommand::NextFrame),
            ActorStep::Done(ActorAnswer::Frame(Ok(FrameAnswer::Frame(_))))
        ));
    }
    assert!(matches!(
        driver.actor.handle(ActorCommand::Pause(true)),
        ActorStep::Done(ActorAnswer::Unit(Ok(())))
    ));
    assert_eq!(driver.actor.status, PlayerStatus::Paused);
    driver.unit(ActorCommand::Pause(false)).unwrap();
    let step = driver.actor.read_ended(SessionEnd::Ended(Err(load_failed())));
    driver.run(step);
    for _ in 0..4 {
        assert!(matches!(driver.next_frame(), Ok(FrameAnswer::Frame(_))));
    }
    assert_eq!(
        driver.next_frame().err(),
        Some(load_failed()),
        "source errors follow already buffered audio"
    );
}

#[test]
fn filter_update_waiting_on_a_source_read_does_not_block_buffered_audio() {
    let mut driver = buffered_fixture_actor();
    for _ in 0..8 {
        driver.read_ahead();
    }
    assert!(driver.actor.start_read_ahead());
    let configuration = FilterConfiguration::default();
    assert!(
        matches!(
            driver.actor.handle(ActorCommand::SetFilters { configuration, reply: 1 }),
            ActorStep::Done(ActorAnswer::Queued)
        ),
        "a pending HTTP read must not hold the actor inside a filter command"
    );
    assert!(driver.answers.is_empty());
    for _ in 0..4 {
        assert!(matches!(
            driver.actor.handle(ActorCommand::NextFrame),
            ActorStep::Done(ActorAnswer::Frame(Ok(FrameAnswer::Frame(_))))
        ));
    }
    let step = driver.actor.read_ended(SessionEnd::Ended(Err(load_failed())));
    driver.run(step);
    assert_eq!(driver.answers, vec![(1, Ok(()))]);
    assert_eq!(driver.actor.buffered.len(), 5);
}

#[test]
fn deferred_filters_are_bounded_ordered_and_drained_before_stop() {
    let mut driver = buffered_fixture_actor();
    assert!(driver.actor.start_read_ahead());
    for volume in 0..PLAYER_COMMAND_CAPACITY {
        let configuration = at_volume(volume as u16);
        let command = ActorCommand::SetFilters { configuration, reply: volume as u64 };
        assert!(matches!(driver.command(command), ActorAnswer::Queued));
    }
    let configuration = FilterConfiguration::default();
    assert_eq!(
        driver.unit(ActorCommand::SetFilters { configuration, reply: 99 }),
        Err(overloaded())
    );
    assert_eq!(driver.actor.pending_filters.len(), PLAYER_COMMAND_CAPACITY);
    driver.unit(ActorCommand::Stop).unwrap();
    let replies: Vec<u64> = driver.answers.iter().map(|(reply, _)| *reply).collect();
    assert_eq!(replies, (0..PLAYER_COMMAND_CAPACITY as u64).collect::<Vec<u64>>());
    assert!(driver.answers.iter().all(|(_, result)| result.is_ok()));
    assert_eq!(
        driver.actor.filters.player_volume,
        Some((PLAYER_COMMAND_CAPACITY - 1) as u16)
    );
    assert!(driver.actor.pending_filters.is_empty());
    assert_eq!(driver.actor.status, PlayerStatus::Stopped);
}

#[test]
fn seek_and_replacement_discard_frames_from_the_previous_position() {
    let mut driver = buffered_fixture_actor();
    for _ in 0..8 {
        driver.read_ahead();
    }
    assert!(driver.actor.start_read_ahead());
    driver.unit(ActorCommand::Seek(Span::from_millis(120))).unwrap();
    assert!(driver.actor.buffered.is_empty());
    assert!(!driver.actor.reading);
    assert_eq!(driver.actor.position, Span::from_millis(120));
    driver.read_ahead();
    driver
        .unit(ActorCommand::Play { track: track("fixture:short"), cancelled: false })
        .unwrap();
    let frame = driver.frame();
    assert_eq!(frame.payload.as_slice(), &0_u64.to_be_bytes());
    assert!(matches!(driver.next_frame(), Ok(FrameAnswer::Ended)));
}

#[test]
fn a_replaced_track_ends_first() {
    let mut driver = buffered_fixture_actor();
    driver
        .unit(ActorCommand::Play { track: track("fixture:short"), cancelled: false })
        .unwrap();
    match driver.command(ActorCommand::NextEvent) {
        ActorAnswer::Event(Some(MediaEvent::TrackEnd { track, reason })) => {
            assert_eq!(track.encoded, "fixture:buffered");
            assert_eq!(reason, TrackEndReason::Replaced);
        }
        _ => panic!("the end of the replaced track comes first"),
    }
    match driver.command(ActorCommand::NextEvent) {
        ActorAnswer::Event(Some(MediaEvent::TrackStart(track))) => {
            assert_eq!(track.encoded, "fixture:short");
        }
        _ => panic!("the start of the next track follows"),
    }
    assert!(matches!(driver.command(ActorCommand::NextEvent), ActorAnswer::Event(None)));
}

#[test]
fn a_lost_session_is_told() {
    let mut driver = buffered_fixture_actor();
    assert!(driver.actor.start_read_ahead());
    let step = driver.actor.read_ended(SessionEnd::Lost);
    driver.run(step);
    assert!(driver.actor.session.is_none());
    assert!(driver.next_frame().is_err());
    match driver.command(ActorCommand::Snapshot) {
        ActorAnswer::Snapshot { snapshot, processing } => {
            assert_eq!(snapshot.position_ms, 0);
            assert!(snapshot.track.is_some());
            assert_eq!(processing, ProcessingMode::Passthrough);
        }
        _ => panic!("a snapshot was asked for"),
    }
}

#[test]
fn filters_are_installed_in_what_plays() {
    let mut driver = buffered_fixture_actor();
    driver
        .unit(ActorCommand::SetFilters { configuration: at_volume(50), reply: 1 })
        .unwrap();
    assert_eq!(driver.actor.processing, ProcessingMode::Pcm);
    driver.unit(ActorCommand::Stop).unwrap();
    assert_eq!(driver.actor.processing, ProcessingMode::Passthrough);
    assert_eq!(driver.actor.filters.player_volume, Some(50));
    assert!(driver.unit(ActorCommand::Pause(true)).is_err());
}

#[test]
fn frames_are_read_as_they_are_due() {
    let given = SessionPoll::Frame { payload: Some(vec![1]), timestamp: Some(Span::zero()) };
    let (_, frame) = read_frame(Span::zero(), given);
    assert!(matches!(frame, Ok(FramePoll::Frame { payload, .. }) if payload == vec![1]));
    let missing = SessionPoll::Frame { payload: None, timestamp: None };
    assert!(read_frame(Span::zero(), missing).1.is_err());
    let wait = SessionPoll::WaitUntil(Span::from_millis(30));
    let (_, frame) = read_frame(Span::from_millis(10), wait);
    assert!(matches!(frame, Ok(FramePoll::Wait(left)) if left == Span::from_millis(20)));
    assert!(matches!(read_frame(Span::zero(), SessionPoll::Ended).1, Ok(FramePoll::Ended)));
    let failed = SessionPoll::Failed(YoutubePlaybackErrorKind::Other);
    assert!(read_frame(Span::zero(), failed).1.is_err());
}

#[test]
fn live_streams_are_not_sought() {
    let asked = Span::from_secs(3);
    assert_eq!(seek_result(SessionKind::Finite, asked, Ok(Some(asked))), Ok(asked));
    assert_eq!(seek_result(SessionKind::Finite, asked, Ok(None)), Ok(asked));
    assert!(seek_result(SessionKind::Live, asked, Ok(None)).is_err());
    let failed = Err(YoutubePlaybackErrorKind::Other);
    assert!(seek_result(SessionKind::Finite, asked, failed).is_err());
}

#[test]
fn source_frames_are_timed_by_their_number() {
    let frame = MediaFrame { sequence: 3, duration_ms: 20, payload: vec![9] };
    match source_frame(Ok(Some(frame)), true) {
        SourceFrame::Give(frame) => {
            assert_eq!(frame.sequence, 3);
            assert_eq!(frame.timestamp, Span::from_millis(60));
            assert_eq!(frame.duration, Span::from_millis(20));
        }
        _ => panic!("the frame is given"),
    }
    let frame = MediaFrame { sequence: 3, duration_ms: 20, payload: Vec::new() };
    assert!(matches!(source_frame(Ok(Some(frame)), false), SourceFrame::Fail(_)));
    assert!(matches!(source_frame(Ok(None), true), SourceFrame::End));
    assert!(matches!(source_frame(Err(load_failed()), true), SourceFrame::Fail(_)));
}
