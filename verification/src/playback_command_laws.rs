//! What each command makes of a playback, whatever has to be waited for first.

use crate::filters::FilterConfiguration;
use crate::media::{AdapterError, MediaEvent, MediaTrack, PlayerStatus, TrackEndReason};
use crate::playback;
use crate::playback::{
    ActorAnswer, ActorCommand, ActorModel, ActorNeed, ActorReply, ActorStage, ActorStep,
    BufferedFrame, Deferred, FramePoll, MediaFrame, ProcessingMode, SessionEnd, SessionPoll,
    SourceFrame,
};
use crate::source;
use crate::source::{SessionKind, YoutubePlaybackErrorKind};
use crate::span::Span;
use vstd::prelude::*;

verus! {

/// Where a command stands after so many replies to what it needed.
pub open spec fn carried(m: ActorModel, command: ActorCommand, replies: Seq<ActorReply>) -> (
    ActorModel,
    ActorStep,
)
    decreases replies.len(),
{
    if replies.len() == 0 {
        playback::begun(m, command)
    } else {
        let (before, step) = carried(m, command, replies.drop_last());
        match step {
            ActorStep::Ask(stage, _) => playback::resumed(before, stage, replies.last()),
            ActorStep::Done(_) => (before, step),
        }
    }
}

/// Whether each reply is one to what was needed.
pub open spec fn fitting(m: ActorModel, command: ActorCommand, replies: Seq<ActorReply>) -> bool
    decreases replies.len(),
{
    replies.len() == 0 || (fitting(m, command, replies.drop_last()) && match carried(
        m,
        command,
        replies.drop_last(),
    ).1 {
        ActorStep::Ask(stage, _) => playback::actor_answers(stage, replies.last()),
        ActorStep::Done(_) => false,
    })
}

/// Whether what plays, what was told of it and where it stands are the same.
spec fn same_track(m: ActorModel, x: ActorModel) -> bool {
    &&& x.track == m.track && x.events == m.events && x.position == m.position
    &&& x.sequence == m.sequence && x.paused == m.paused && x.status == m.status
    &&& x.completed_input == m.completed_input && x.staging_max_bytes == m.staging_max_bytes
}

/// The command as it waits for what is under way.
spec fn deferred(command: ActorCommand) -> Deferred {
    match command {
        ActorCommand::Play { track, .. } => Deferred::Play { track },
        ActorCommand::Seek(position) => Deferred::Seek { position },
        ActorCommand::Stop => Deferred::Stop,
        ActorCommand::Shutdown => Deferred::Shutdown,
        _ => Deferred::Nothing,
    }
}

spec fn waits(m: ActorModel, command: ActorCommand, o: (ActorModel, ActorStep)) -> bool {
    same_track(m, o.0) && match o.1 {
        ActorStep::Ask(ActorStage::Settle { command: c }, _) => c == deferred(command),
        ActorStep::Ask(ActorStage::Install { command: c, .. }, _) => c == deferred(command),
        ActorStep::Ask(ActorStage::Answer { command: c }, _) => c == deferred(command),
        _ => false,
    }
}

/// Whether a command went ahead from a playback that is the same but for what
/// was waited for.
spec fn went_ahead(m: ActorModel, command: ActorCommand, o: (ActorModel, ActorStep)) -> bool {
    exists|x: ActorModel|
        same_track(m, x) && o == #[trigger] playback::proceed(x, deferred(command))
}

proof fn lemma_pending(m: ActorModel, x: ActorModel, command: ActorCommand)
    requires
        same_track(m, x),
    ensures
        ({
            let o = playback::pending_next(x, deferred(command));
            waits(m, command, o) || went_ahead(m, command, o)
        }),
{
    if x.pending_filters.len() == 0 {
        assert(playback::pending_next(x, deferred(command)) == playback::proceed(
            x,
            deferred(command),
        ));
    }
}

proof fn lemma_waits(m: ActorModel, command: ActorCommand, o: (ActorModel, ActorStep), reply: ActorReply)
    requires
        waits(m, command, o),
        playback::actor_answers(o.1->Ask_0, reply),
    ensures
        ({
            let next = playback::resumed(o.0, o.1->Ask_0, reply);
            waits(m, command, next) || went_ahead(m, command, next)
        }),
{
    let x = o.0;
    match (o.1->Ask_0, reply) {
        (ActorStage::Settle { .. }, ActorReply::Read(end)) => {
            lemma_pending(m, playback::with_read(x, end), command);
        },
        (ActorStage::Answer { .. }, _) => {
            lemma_pending(m, x, command);
        },
        _ => {},
    }
}

/// A stop ends the track that plays, and tells that it was stopped: whatever had
/// to be waited for, once it is answered no track plays, nothing of it is kept,
/// and exactly one event was added, the end of that track with that reason.
/// Where no event fits any more it is refused and the track plays on; where no
/// track plays nothing is told.
pub proof fn a_stop_is_told_as_a_stop(m: ActorModel, replies: Seq<ActorReply>)
    requires
        fitting(m, ActorCommand::Stop, replies),
    ensures
        ({
            let (after, step) = carried(m, ActorCommand::Stop, replies);
            step is Done ==> match m.track {
                Some(track) => if m.events.len() == 32 {
                    &&& step == ActorStep::Done(
                        ActorAnswer::Unit(Err(source::overloaded_fault())),
                    )
                    &&& after.track == m.track && after.events == m.events
                } else {
                    &&& step == ActorStep::Done(ActorAnswer::Unit(Ok(())))
                    &&& after.events == m.events.push(
                        MediaEvent::TrackEnd { track, reason: TrackEndReason::Stopped },
                    )
                    &&& after.track is None && after.status is Stopped && after.session is None
                    &&& after.buffered.len() == 0 && after.completed_input is None
                    &&& after.position.nanos == 0
                },
                None => step == ActorStep::Done(ActorAnswer::Unit(Ok(()))) && after.events
                    == m.events && after.track is None,
            }
        }),
        ({
            let (after, step) = carried(m, ActorCommand::Stop, replies);
            step is Ask ==> after.track == m.track && after.events == m.events
        }),
{
    lemma_carried(m, ActorCommand::Stop, replies);
}

/// Where a command that waits stands: it waits on, or it went ahead at some
/// point and was not asked for anything since.
proof fn lemma_carried(m: ActorModel, command: ActorCommand, replies: Seq<ActorReply>)
    requires
        fitting(m, command, replies),
        command is Stop || command is Shutdown,
    ensures
        waits(m, command, carried(m, command, replies)) || went_ahead(
            m,
            command,
            carried(m, command, replies),
        ),
    decreases replies.len(),
{
    if replies.len() == 0 {
        lemma_pending(m, m, command);
    } else {
        let o = carried(m, command, replies.drop_last());
        lemma_carried(m, command, replies.drop_last());
        if waits(m, command, o) {
            lemma_waits(m, command, o, replies.last());
        }
    }
}

/// A shutdown ends everything without a word: no track plays, nothing is kept,
/// and no event is added.
pub proof fn a_shutdown_tells_nothing(m: ActorModel, replies: Seq<ActorReply>)
    requires
        fitting(m, ActorCommand::Shutdown, replies),
    ensures
        ({
            let (after, step) = carried(m, ActorCommand::Shutdown, replies);
            step is Done ==> {
                &&& step == ActorStep::Done(ActorAnswer::Unit(Ok(())))
                &&& after.events == m.events && after.track is None && after.session is None
                &&& after.completed_input is None && after.buffered.len() == 0
                &&& after.status is Shutdown
            }
        }),
{
    lemma_carried(m, ActorCommand::Shutdown, replies);
}

/// Whether a seek stands where it should: it waits, asks the source for the
/// position that was asked for, or is answered.
spec fn seeks(m: ActorModel, position: Span, o: (ActorModel, ActorStep)) -> bool {
    let command = ActorCommand::Seek(position);
    ||| waits(m, command, o)
    ||| same_track(m, o.0) && o.1 == ActorStep::Ask(
        ActorStage::Seek,
        ActorNeed::SeekSession(position),
    )
    ||| o.1 is Done && o.0.track == m.track && o.0.events == m.events && o.0.sequence == m.sequence
}

proof fn lemma_seek_ahead(m: ActorModel, position: Span, o: (ActorModel, ActorStep))
    requires
        went_ahead(m, ActorCommand::Seek(position), o),
    ensures
        seeks(m, position, o),
{
}

proof fn lemma_seek(m: ActorModel, position: Span, replies: Seq<ActorReply>)
    requires
        fitting(m, ActorCommand::Seek(position), replies),
    ensures
        seeks(m, position, carried(m, ActorCommand::Seek(position), replies)),
    decreases replies.len(),
{
    let command = ActorCommand::Seek(position);
    if replies.len() == 0 {
        lemma_pending(m, m, command);
        if went_ahead(m, command, carried(m, command, replies)) {
            lemma_seek_ahead(m, position, carried(m, command, replies));
        }
    } else {
        let o = carried(m, command, replies.drop_last());
        lemma_seek(m, position, replies.drop_last());
        if waits(m, command, o) {
            lemma_waits(m, command, o, replies.last());
            if went_ahead(m, command, carried(m, command, replies)) {
                lemma_seek_ahead(m, position, carried(m, command, replies));
            }
        }
    }
}

/// A seek asks the source for the very position that was asked for. Where the
/// source went, playback stands, what was read from the previous position is
/// dropped, and the track plays on; where the source refused, everything stays
/// and the refusal is the answer.
pub proof fn a_seek_goes_where_it_was_asked(
    m: ActorModel,
    position: Span,
    replies: Seq<ActorReply>,
    reached: Span,
    error: AdapterError,
)
    requires
        fitting(m, ActorCommand::Seek(position), replies),
    ensures
        ({
            let (before, step) = carried(m, ActorCommand::Seek(position), replies);
            &&& before.track == m.track && before.events == m.events
            &&& step matches ActorStep::Ask(stage, need) ==> (stage is Seek ==> {
                &&& need == ActorNeed::SeekSession(position)
                &&& playback::resumed(
                    before,
                    stage,
                    ActorReply::Sought(SessionEnd::Ended(Ok(reached))),
                ).1 == ActorStep::Done(ActorAnswer::Unit(Ok(())))
                &&& ({
                    let after = playback::resumed(
                        before,
                        stage,
                        ActorReply::Sought(SessionEnd::Ended(Ok(reached))),
                    ).0;
                    after.position == reached && after.buffered.len() == 0 && after.track == m.track
                        && after.events == m.events && after.sequence == m.sequence && after.paused
                        == m.paused
                })
                &&& playback::resumed(
                    before,
                    stage,
                    ActorReply::Sought(SessionEnd::Ended(Err(error))),
                ) == (before, ActorStep::Done(ActorAnswer::Unit(Err(error))))
            })
        }),
{
    lemma_seek(m, position, replies);
}

/// Where nothing is under way, a seek without a track to seek in is refused.
pub proof fn nothing_is_sought_without_a_track(m: ActorModel, position: Span)
    requires
        !m.reading,
        m.pending_filters.len() == 0,
        m.session is None,
    ensures
        playback::begun(m, ActorCommand::Seek(position)) == (
            m,
            ActorStep::Done(
                ActorAnswer::Unit(Err(source::invalid_operation_fault("no active track"))),
            ),
        ),
{
}

/// A track is opened by its own text; bytes that were kept are used only where
/// they are those of the same track, and are given up either way.
pub proof fn a_track_is_opened_by_its_text(m: ActorModel, track: MediaTrack)
    requires
        !m.reading,
        m.pending_filters.len() == 0,
        m.events.len() <= 30,
    ensures
        ({
            let (after, step) = playback::begun(
                m,
                ActorCommand::Play { track, cancelled: false },
            );
            &&& after.completed_input is None && after.track == m.track && after.events == m.events
            &&& step matches ActorStep::Ask(ActorStage::Open { track: opened }, need) && opened
                == track && (need matches ActorNeed::Open { encoded, reuse } && encoded
                == track.encoded && reuse == (m.completed_input is Some
                && m.completed_input->0@ == track.encoded@))
        }),
{
}

/// A play that was given up, or for whose events there is no room, changes
/// nothing.
pub proof fn a_refused_play_changes_nothing(m: ActorModel, track: MediaTrack, cancelled: bool)
    requires
        cancelled || m.events.len() > 30,
    ensures
        playback::begun(m, ActorCommand::Play { track, cancelled }) == (
            m,
            ActorStep::Done(
                ActorAnswer::Unit(
                    Err(
                        if cancelled {
                            source::cancelled_fault()
                        } else {
                            source::overloaded_fault()
                        },
                    ),
                ),
            ),
        ),
{
}

/// A track that was opened gets the filters of the player and then plays: from
/// its start, not paused, its frames numbered from zero, its start told; a track
/// that played before ends as replaced, and its end is told first.
pub proof fn an_opened_track_plays_from_its_start(
    m: ActorModel,
    track: MediaTrack,
    kind: SessionKind,
    mode: ProcessingMode,
)
    ensures
        playback::resumed(
            m,
            ActorStage::Open { track },
            ActorReply::Opened { end: SessionEnd::Ended(Ok(kind)), cancelled: false },
        ) == (
            m,
            ActorStep::Ask(
                ActorStage::InstallNew { track, kind },
                ActorNeed::InstallNew(m.filters),
            ),
        ),
        ({
            let (after, step) = playback::resumed(
                m,
                ActorStage::InstallNew { track, kind },
                ActorReply::InstalledNew(Ok(mode)),
            );
            &&& step == ActorStep::Done(ActorAnswer::Unit(Ok(())))
            &&& after.track == Some(track) && after.session == Some(kind) && after.processing == mode
            &&& !after.paused && after.status is Playing && after.position.nanos == 0
            &&& after.sequence == 0 && after.buffered.len() == 0 && after.filters == m.filters
            &&& match m.track {
                Some(previous) => after.events == m.events.push(
                    MediaEvent::TrackEnd { track: previous, reason: TrackEndReason::Replaced },
                ).push(MediaEvent::TrackStart(track)),
                None => after.events == m.events.push(MediaEvent::TrackStart(track)),
            }
        }),
{
}

/// A track that could not be opened, or whose filters could not be installed,
/// leaves what plays as it was; the reason is the answer.
pub proof fn what_plays_outlives_a_failed_play(
    m: ActorModel,
    track: MediaTrack,
    kind: SessionKind,
    error: AdapterError,
)
    ensures
        playback::resumed(
            m,
            ActorStage::Open { track },
            ActorReply::Opened { end: SessionEnd::Ended(Err(error)), cancelled: false },
        ) == (m, ActorStep::Done(ActorAnswer::Unit(Err(error)))),
        playback::resumed(
            m,
            ActorStage::InstallNew { track, kind },
            ActorReply::InstalledNew(Err(error)),
        ) == (m, ActorStep::Done(ActorAnswer::Unit(Err(error)))),
        playback::resumed(
            m,
            ActorStage::Open { track },
            ActorReply::Opened { end: SessionEnd::Ended(Ok(kind)), cancelled: true },
        ) == (m, ActorStep::Done(ActorAnswer::Unit(Err(source::cancelled_fault())))),
{
}

/// A pause is kept exactly as asked and touches nothing else; without a track it
/// is refused.
pub proof fn a_pause_is_kept(m: ActorModel, paused: bool)
    ensures
        ({
            let (after, step) = playback::begun(m, ActorCommand::Pause(paused));
            if m.track is Some {
                &&& step == ActorStep::Done(ActorAnswer::Unit(Ok(())))
                &&& after.paused == paused
                &&& after.status == (if paused {
                    PlayerStatus::Paused
                } else {
                    PlayerStatus::Playing
                })
                &&& after.track == m.track && after.position == m.position && after.buffered
                    == m.buffered && after.sequence == m.sequence && after.events == m.events
            } else {
                &&& after == m
                &&& step == ActorStep::Done(
                    ActorAnswer::Unit(Err(source::invalid_operation_fault("no active track"))),
                )
            }
        }),
{
}

/// Pausing and then resuming leaves the playback as if nothing had been asked.
pub proof fn resuming_undoes_a_pause(m: ActorModel)
    requires
        m.track is Some,
        !m.paused,
        m.status is Playing,
    ensures
        playback::begun(
            playback::begun(m, ActorCommand::Pause(true)).0,
            ActorCommand::Pause(false),
        ).0 == m,
{
}

/// A snapshot tells what plays, how, and where in whole milliseconds, and
/// changes nothing.
pub proof fn a_snapshot_tells_where_playback_stands(m: ActorModel)
    requires
        m.position.nanos / 1_000_000 <= u64::MAX,
    ensures
        ({
            let (after, step) = playback::begun(m, ActorCommand::Snapshot);
            &&& after == m
            &&& step matches ActorStep::Done(ActorAnswer::Snapshot { snapshot, processing })
                && snapshot.status == m.status && snapshot.track == m.track && processing
                == m.processing && snapshot.position_ms == m.position.nanos / 1_000_000
        }),
{
}

/// Events are handed out one by one, the oldest first.
pub proof fn events_come_oldest_first(m: ActorModel)
    ensures
        ({
            let (after, step) = playback::begun(m, ActorCommand::NextEvent);
            if m.events.len() > 0 {
                step == ActorStep::Done(ActorAnswer::Event(Some(m.events[0]))) && seq![m.events[0]]
                    + after.events == m.events
            } else {
                step == ActorStep::Done(ActorAnswer::Event(None)) && after == m
            }
        }),
{
    if m.events.len() > 0 {
        assert(seq![m.events[0]] + m.events.skip(1) =~= m.events);
    }
}

/// Filters are installed as they were given, and are the player's once that is
/// done; a refusal leaves the old ones.
pub proof fn filters_are_installed_as_given(
    m: ActorModel,
    configuration: FilterConfiguration,
    reply: u64,
    mode: ProcessingMode,
    error: AdapterError,
)
    ensures
        !m.reading && m.session is Some ==> playback::begun(
            m,
            ActorCommand::SetFilters { configuration, reply },
        ) == (
            m,
            ActorStep::Ask(
                ActorStage::Apply { configuration },
                ActorNeed::Install(configuration),
            ),
        ),
        !m.reading && m.session is None ==> ({
            let (after, step) = playback::begun(
                m,
                ActorCommand::SetFilters { configuration, reply },
            );
            after.filters == configuration && step == ActorStep::Done(ActorAnswer::Unit(Ok(())))
        }),
        ({
            let (after, step) = playback::resumed(
                m,
                ActorStage::Apply { configuration },
                ActorReply::Installed(SessionEnd::Ended(Ok(mode))),
            );
            after.filters == configuration && after.processing == mode && after.track == m.track
                && step == ActorStep::Done(ActorAnswer::Unit(Ok(())))
        }),
        playback::resumed(
            m,
            ActorStage::Apply { configuration },
            ActorReply::Installed(SessionEnd::Ended(Err(error))),
        ) == (m, ActorStep::Done(ActorAnswer::Unit(Err(error)))),
{
}

/// A frame stands where the source says it does, or at its own time; a frame of
/// the media library keeps its payload and its time, one that is no Opus frame
/// is an error, and a live stream waits until its next frame is due.
pub proof fn reads_are_taken_as_given(
    now: Span,
    payload: Vec<u8>,
    timestamp: Span,
    deadline: Span,
    kind: YoutubePlaybackErrorKind,
)
    ensures
        playback::read_of(
            now,
            SessionPoll::Frame { payload: Some(payload), timestamp: Some(timestamp) },
        ) == (now, Ok::<FramePoll, AdapterError>(FramePoll::Frame { payload, timestamp })),
        playback::read_of(now, SessionPoll::Frame { payload: None, timestamp: None }).1 is Err,
        playback::read_of(now, SessionPoll::Ended) == (
            now,
            Ok::<FramePoll, AdapterError>(FramePoll::Ended),
        ),
        playback::read_of(now, SessionPoll::Failed(kind)).1 is Err,
        playback::read_of(now, SessionPoll::WaitUntil(deadline)).0 == deadline,
        playback::read_of(now, SessionPoll::WaitUntil(deadline)).1 matches Ok(poll) && (poll matches
            FramePoll::Wait(wait) && (deadline.nanos >= now.nanos ==> now.nanos + wait.nanos
            == deadline.nanos) && (deadline.nanos < now.nanos ==> wait.nanos == 0)),
{
}

/// A live stream is not sought; otherwise playback stands where the source says
/// it went, or where it was asked to go where the source says nothing.
pub proof fn a_source_seeks_where_it_can(
    requested: Span,
    reached: Span,
    kind: YoutubePlaybackErrorKind,
)
    ensures
        playback::seek_of(SessionKind::Live, requested, Ok(Some(reached))) is Err,
        playback::seek_of(SessionKind::Live, requested, Ok(None)) is Err,
        playback::seek_of(SessionKind::Finite, requested, Ok(Some(reached))) == Ok::<
            Span,
            AdapterError,
        >(reached),
        playback::seek_of(SessionKind::Finite, requested, Ok(None)) == Ok::<Span, AdapterError>(
            requested,
        ),
        playback::seek_of(SessionKind::Finite, requested, Err(kind)) is Err,
{
}

/// A frame goes to the voice connection with its number and payload, due twenty
/// milliseconds after the one before it; what cannot be sent is an error, and
/// the end of playback the end of the source.
pub proof fn frames_are_handed_to_voice(frame: MediaFrame)
    requires
        frame.sequence * 20 <= u64::MAX,
    ensures
        playback::source_frame_of(Ok(Some(frame)), true) matches SourceFrame::Give(timed)
            && timed.sequence == frame.sequence && timed.payload == frame.payload
            && timed.timestamp.nanos == frame.sequence * 20_000_000 && timed.duration.nanos
            == frame.duration_ms * 1_000_000,
        playback::source_frame_of(Ok(Some(frame)), false) is Fail,
        playback::source_frame_of(Ok(None), true) is End,
        playback::source_frame_of(Ok(None), false) is End,
{
}

/// Whether what was read says that the source came to its end.
pub open spec fn is_end(frame: Result<BufferedFrame, AdapterError>) -> bool {
    frame matches Ok(frame) && frame.poll is Ended
}

/// Whether a reply says that the source came to its end.
pub open spec fn tells_end(reply: ActorReply) -> bool {
    match reply {
        ActorReply::Read(SessionEnd::Ended(frame)) => is_end(frame),
        ActorReply::FrameRead(SessionEnd::Ended(frame)) => is_end(frame),
        _ => false,
    }
}

/// Whether the source came to its end: what was read ahead says so, or one of
/// the replies.
pub open spec fn came_to_its_end(m: ActorModel, replies: Seq<ActorReply>) -> bool {
    ||| exists|i: int| 0 <= i < m.buffered.len() && is_end(#[trigger] m.buffered[i])
    ||| exists|i: int| 0 <= i < replies.len() && tells_end(#[trigger] replies[i])
}

/// Where a command may stand as long as nothing was told of it.
spec fn on_its_way(
    m: ActorModel,
    command: ActorCommand,
    replies: Seq<ActorReply>,
    o: (ActorModel, ActorStep),
) -> bool {
    &&& o.0.events == m.events
    &&& o.0.track == m.track
    &&& forall|i: int|
        0 <= i < o.0.buffered.len() && is_end(#[trigger] o.0.buffered[i]) ==> came_to_its_end(
            m,
            replies,
        )
    &&& match o.1 {
        ActorStep::Ask(ActorStage::Settle { command: c }, _) => c is NextFrame ==> command
            is NextFrame,
        ActorStep::Ask(ActorStage::Install { command: c, .. }, _) => c is NextFrame ==> command
            is NextFrame,
        ActorStep::Ask(ActorStage::Answer { command: c }, _) => c is NextFrame ==> command
            is NextFrame,
        ActorStep::Ask(ActorStage::Read, _) => command is NextFrame,
        ActorStep::Ask(ActorStage::Finish, _) => command is NextFrame && came_to_its_end(
            m,
            replies,
        ),
        _ => true,
    }
}

/// Whether each event that is new tells a natural end only where there was one.
spec fn told_truly(
    m: ActorModel,
    command: ActorCommand,
    replies: Seq<ActorReply>,
    events: Seq<MediaEvent>,
) -> bool {
    forall|k: int|
        m.events.len() <= k < events.len() ==> (#[trigger] events[k] matches MediaEvent::TrackEnd {
            track,
            reason: TrackEndReason::Finished,
        } ==> (command is NextFrame && came_to_its_end(m, replies) && m.track == Some(track)))
}

spec fn ends_truly(
    m: ActorModel,
    command: ActorCommand,
    replies: Seq<ActorReply>,
    o: (ActorModel, ActorStep),
) -> bool {
    on_its_way(m, command, replies, o) || (o.1 is Done && told_truly(
        m,
        command,
        replies,
        o.0.events,
    ))
}

proof fn lemma_goes_truly(
    m: ActorModel,
    x: ActorModel,
    command: ActorCommand,
    replies: Seq<ActorReply>,
    c: Deferred,
)
    requires
        x.events == m.events,
        x.track == m.track,
        forall|i: int|
            0 <= i < x.buffered.len() && is_end(#[trigger] x.buffered[i]) ==> came_to_its_end(
                m,
                replies,
            ),
        c is NextFrame ==> command is NextFrame,
    ensures
        ends_truly(m, command, replies, playback::pending_next(x, c)),
{
    if x.pending_filters.len() == 0 && c is NextFrame && x.buffered.len() > 0 {
        assert(is_end(x.buffered[0]) ==> came_to_its_end(m, replies));
    }
}

proof fn lemma_carries_truly(m: ActorModel, command: ActorCommand, replies: Seq<ActorReply>)
    requires
        fitting(m, command, replies),
    ensures
        ends_truly(m, command, replies, carried(m, command, replies)),
    decreases replies.len(),
{
    if replies.len() == 0 {
        match command {
            ActorCommand::Play { track, .. } => {
                lemma_goes_truly(m, m, command, replies, Deferred::Play { track });
            },
            ActorCommand::Seek(position) => {
                lemma_goes_truly(m, m, command, replies, Deferred::Seek { position });
            },
            ActorCommand::Stop => {
                lemma_goes_truly(m, m, command, replies, Deferred::Stop);
            },
            ActorCommand::Shutdown => {
                lemma_goes_truly(m, m, command, replies, Deferred::Shutdown);
            },
            ActorCommand::NextFrame => {
                lemma_goes_truly(m, m, command, replies, Deferred::NextFrame);
                if m.buffered.len() > 0 {
                    assert(is_end(m.buffered[0]) ==> came_to_its_end(m, replies));
                }
            },
            _ => {},
        }
    } else {
        let front = replies.drop_last();
        lemma_carries_truly(m, command, front);
        let (x, step) = carried(m, command, front);
        assert(came_to_its_end(m, front) ==> came_to_its_end(m, replies)) by {
            if exists|i: int| 0 <= i < front.len() && tells_end(#[trigger] front[i]) {
                let i = choose|i: int| 0 <= i < front.len() && tells_end(#[trigger] front[i]);
                assert(replies[i] == front[i]);
            }
        }
        let stage = step->Ask_0;
        let reply = replies.last();
        assert(tells_end(reply) ==> came_to_its_end(m, replies)) by {
            assert(replies[replies.len() - 1] == reply);
        }
        match (stage, reply) {
            (ActorStage::Settle { command: c }, ActorReply::Read(end)) => {
                let y = playback::with_read(x, end);
                assert forall|i: int|
                    0 <= i < y.buffered.len() && is_end(
                        #[trigger] y.buffered[i],
                    ) implies came_to_its_end(m, replies) by {
                    if i < x.buffered.len() {
                        assert(is_end(x.buffered[i]));
                    }
                }
                lemma_goes_truly(m, y, command, replies, c);
            },
            (ActorStage::Answer { command: c }, _) => {
                lemma_goes_truly(m, x, command, replies, c);
            },
            _ => {},
        }
    }
}

/// A track is told to have finished only where a frame of it was asked for and
/// its source came to its end.
pub proof fn only_a_source_at_its_end_finishes(
    m: ActorModel,
    command: ActorCommand,
    replies: Seq<ActorReply>,
    k: int,
)
    requires
        fitting(m, command, replies),
        m.events.len() <= k < carried(m, command, replies).0.events.len(),
    ensures
        carried(m, command, replies).0.events[k] matches MediaEvent::TrackEnd {
            track,
            reason: TrackEndReason::Finished,
        } ==> (command is NextFrame && came_to_its_end(m, replies) && m.track == Some(track)),
{
    lemma_carries_truly(m, command, replies);
}

/// Where the source came to its end and there is room for an event, the track
/// is told to have finished, once it is settled whether its bytes are kept.
pub proof fn a_source_at_its_end_finishes(
    m: ActorModel,
    track: MediaTrack,
    frame: BufferedFrame,
    kept: bool,
)
    requires
        m.track == Some(track),
        m.events.len() < 32,
        frame.poll is Ended,
    ensures
        ({
            let (x, step) = playback::resumed(
                m,
                ActorStage::Read,
                ActorReply::FrameRead(SessionEnd::Ended(Ok(frame))),
            );
            let after = if step is Done {
                x
            } else {
                playback::resumed(x, step->Ask_0, ActorReply::Kept(kept)).0
            };
            &&& step is Ask ==> step->Ask_1 is KeepInput && step->Ask_0 is Finish
            &&& after.events == m.events.push(
                MediaEvent::TrackEnd { track, reason: TrackEndReason::Finished },
            )
            &&& after.track is None
            &&& after.status is Stopped
            &&& after.position.nanos == 0
        }),
{
}

/// A frame that was read ahead is delivered as it was read, under the number
/// that is next, and lasts twenty milliseconds; playback then stands where the
/// frame came from.
pub proof fn a_frame_is_delivered_as_it_was_read(
    m: ActorModel,
    frame: BufferedFrame,
    payload: Vec<u8>,
    timestamp: Span,
)
    requires
        m.track is Some,
        !m.paused,
        m.buffered.len() > 0,
        m.buffered[0] == Ok::<BufferedFrame, AdapterError>(frame),
        frame.poll == (FramePoll::Frame { payload, timestamp }),
        m.sequence < u64::MAX,
    ensures
        ({
            let (after, step) = playback::begun(m, ActorCommand::NextFrame);
            &&& step == ActorStep::Done(
                ActorAnswer::Frame(
                    Ok(
                        playback::FrameAnswer::Frame(
                            MediaFrame { sequence: m.sequence, duration_ms: 20, payload },
                        ),
                    ),
                ),
            )
            &&& after.sequence == m.sequence + 1
            &&& frame.source_position matches Some(position) ==> after.position == position
            &&& frame.source_position is None ==> after.position == timestamp
            &&& after.buffered == m.buffered.skip(1)
            &&& after.track == m.track && after.events == m.events
        }),
{
}

/// A frame is read ahead exactly where a finite track plays, is not paused, no
/// read is under way, and fewer than sixteen wait.
pub proof fn frames_are_read_ahead_while_there_is_room(m: ActorModel)
    ensures
        playback::may_read_ahead(m) <==> m.track is Some && m.session == Some(SessionKind::Finite)
            && !m.paused && !m.reading && !m.read_ahead_halted && m.buffered.len() < 16,
{
}

/// Frames are due twenty milliseconds after each other.
pub proof fn frames_are_due_every_twenty_milliseconds(sequence: u64)
    requires
        sequence < 900_000_000_000_000_000,
    ensures
        playback::due_at(sequence).nanos == sequence * 20_000_000,
{
}

} // verus!
