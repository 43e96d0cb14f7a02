//! What holds of a whole playback: from the start of a track on, over any run
//! of reads, pauses, seeks, filter changes and deliveries.

use crate::media::{AdapterError, MediaEvent, MediaTrack, TrackEndReason};
use crate::playback;
use crate::playback::{
    ActorAnswer, ActorCommand, ActorModel, ActorReply, ActorStage, ActorStep, BufferedFrame,
    Deferred, FrameAnswer, FramePoll, MediaFrame, ProcessingMode, SessionEnd,
    FRAME_DURATION_MS, PLAYER_EVENT_CAPACITY,
};
use crate::source;
use crate::source::SessionKind;
use vstd::prelude::*;

verus! {

/// What happens to a playback.
pub enum Turn {
    /// A read ahead starts.
    ReadAhead,
    /// A read ahead ends that no command waits for.
    ReadEnded(SessionEnd<BufferedFrame>),
    Command(ActorCommand),
    /// What the command under way needed is replied to.
    Reply(ActorReply),
}

/// A playback and what became of it so far.
pub struct Course {
    pub model: ActorModel,
    /// What the command under way waits for.
    pub waiting: Option<ActorStage>,
    /// What the source gave, in order, without what a seek dropped.
    pub reads: Seq<Result<BufferedFrame, AdapterError>>,
    /// What was delivered of it, in order.
    pub given: Seq<Result<FrameAnswer, AdapterError>>,
}

/// What the source gives in a turn.
pub open spec fn read_in(turn: Turn) -> Option<Result<BufferedFrame, AdapterError>> {
    match turn {
        Turn::ReadEnded(end) => Some(playback::read_result(end)),
        Turn::Reply(ActorReply::Read(end)) => Some(playback::read_result(end)),
        Turn::Reply(ActorReply::FrameRead(end)) => Some(playback::read_result(end)),
        _ => None,
    }
}

/// Whether a turn brings a seek to its end: what waits to be delivered is from
/// the previous position, and is dropped.
pub open spec fn seeks(c: Course, turn: Turn) -> bool {
    match (c.waiting, turn) {
        (Some(ActorStage::Seek), Turn::Reply(ActorReply::Sought(SessionEnd::Ended(Ok(_))))) => true,
        _ => false,
    }
}

/// Whether the answer of a turn, where it is one to a request for a frame,
/// stands for something that the source gave. It does not where the player is
/// paused or plays nothing, or where there is nothing left to read from.
pub open spec fn hands_over(c: Course, turn: Turn) -> bool {
    match (c.waiting, turn) {
        (None, Turn::Command(_)) => !c.model.paused && c.model.track is Some
            && c.model.buffered.len() > 0,
        (Some(ActorStage::Answer { .. }), _) => c.model.buffered.len() > 0,
        _ => true,
    }
}

/// The playback after a turn, and what comes of it.
pub open spec fn turn_result(c: Course, turn: Turn) -> (ActorModel, ActorStep) {
    match turn {
        Turn::ReadAhead => (
            playback::reading_ahead(c.model),
            ActorStep::Done(ActorAnswer::Nothing),
        ),
        Turn::ReadEnded(end) => playback::pending_next(
            playback::with_read(c.model, end),
            Deferred::Nothing,
        ),
        Turn::Command(command) => playback::begun(c.model, command),
        Turn::Reply(reply) => playback::resumed(c.model, c.waiting->0, reply),
    }
}

/// The course after a turn.
pub open spec fn turned(c: Course, turn: Turn) -> Course {
    let (model, step) = turn_result(c, turn);
    Course {
        model,
        waiting: match step {
            ActorStep::Ask(stage, _) => Some(stage),
            ActorStep::Done(_) => None,
        },
        reads: match read_in(turn) {
            Some(read) => c.reads.push(read),
            None => if seeks(c, turn) {
                c.reads.take(c.given.len() as int)
            } else {
                c.reads
            },
        },
        given: match step {
            ActorStep::Done(ActorAnswer::Frame(answer)) => if hands_over(c, turn) {
                c.given.push(answer)
            } else {
                c.given
            },
            _ => c.given,
        },
    }
}

/// Whether a command leaves the track alone.
pub open spec fn keeps_track(command: ActorCommand) -> bool {
    command is Pause || command is Seek || command is SetFilters || command is Snapshot || command is NextFrame
        || command is NextEvent
}

/// Whether a turn can come: one command is under way at a time, and it is
/// answered with what it waits for.
pub open spec fn may_come(c: Course, turn: Turn) -> bool {
    match (c.waiting, turn) {
        (None, Turn::ReadAhead) => playback::may_read_ahead(c.model),
        (None, Turn::ReadEnded(_)) => c.model.reading,
        (None, Turn::Command(command)) => keeps_track(command),
        (Some(stage), Turn::Reply(reply)) => playback::actor_answers(stage, reply),
        _ => false,
    }
}

/// The course after a run of turns.
pub open spec fn after(c: Course, turns: Seq<Turn>) -> Course
    decreases turns.len(),
{
    if turns.len() == 0 {
        c
    } else {
        turned(after(c, turns.drop_last()), turns.last())
    }
}

/// Whether the turns of a run can come one after another.
pub open spec fn may_run(c: Course, turns: Seq<Turn>) -> bool
    decreases turns.len(),
{
    turns.len() == 0 || (may_run(c, turns.drop_last()) && may_come(
        after(c, turns.drop_last()),
        turns.last(),
    ))
}

/// The course of a track that was just started.
pub open spec fn opening(
    m: ActorModel,
    track: MediaTrack,
    kind: SessionKind,
    mode: ProcessingMode,
) -> Course {
    Course {
        model: playback::playing(m, track, kind, mode),
        waiting: None,
        reads: Seq::empty(),
        given: Seq::empty(),
    }
}

/// How many of the reads gave a frame.
pub open spec fn frames_in(reads: Seq<Result<BufferedFrame, AdapterError>>) -> nat
    decreases reads.len(),
{
    if reads.len() == 0 {
        0
    } else {
        frames_in(reads.drop_last()) + if playback::gave_frame(reads.last()) {
            1nat
        } else {
            0
        }
    }
}

/// A number, held at the largest that a frame can have.
pub open spec fn capped(number: nat) -> u64 {
    if number < u64::MAX {
        number as u64
    } else {
        u64::MAX
    }
}

/// What is delivered for a read, where so many frames came before it.
pub open spec fn answer_to(read: Result<BufferedFrame, AdapterError>, number: nat) -> Result<
    FrameAnswer,
    AdapterError,
> {
    match read {
        Err(error) => Err(error),
        Ok(frame) => Ok(
            match frame.poll {
                FramePoll::Frame { payload, .. } => FrameAnswer::Frame(
                    MediaFrame {
                        sequence: capped(number),
                        duration_ms: FRAME_DURATION_MS,
                        payload,
                    },
                ),
                FramePoll::Wait(duration) => FrameAnswer::Wait(duration),
                FramePoll::Ended => FrameAnswer::Ended,
            },
        ),
    }
}

/// Whether a read came to the end of the source.
pub open spec fn is_end(read: Result<BufferedFrame, AdapterError>) -> bool {
    read matches Ok(frame) && frame.poll is Ended
}

/// Whether an answer stands for a read. An end that could not be told of, for
/// want of room for the event, is answered as an overload.
pub open spec fn stands_for(
    answer: Result<FrameAnswer, AdapterError>,
    read: Result<BufferedFrame, AdapterError>,
    number: nat,
) -> bool {
    answer == answer_to(read, number) || (is_end(read) && answer == Err::<
        FrameAnswer,
        AdapterError,
    >(source::overloaded_fault()))
}

/// Whether an answer tells of the end of the track.
pub open spec fn tells_end(answer: Result<FrameAnswer, AdapterError>) -> bool {
    answer matches Ok(answer) && answer is Ended
}

/// How many reads were taken to be delivered.
pub open spec fn taken(c: Course) -> int {
    c.given.len() + if c.waiting matches Some(stage) && stage is Finish {
        1int
    } else {
        0
    }
}

/// Whether deliveries follow the reads: each stands for the read at its place,
/// what was not delivered waits in order, and frames are numbered from zero.
pub open spec fn follows_reads(c: Course) -> bool {
    &&& taken(c) <= c.reads.len()
    &&& forall|k: int|
        0 <= k < c.given.len() ==> stands_for(
            #[trigger] c.given[k],
            c.reads[k],
            frames_in(c.reads.take(k)),
        )
    &&& c.model.buffered == c.reads.skip(taken(c))
    &&& c.model.sequence == capped(frames_in(c.reads.take(c.given.len() as int)))
}

/// Whether only the last of what waits is anything but a frame.
pub open spec fn frames_wait_first(c: Course) -> bool {
    let waiting = c.model.buffered;
    &&& forall|i: int| 0 <= i < waiting.len() - 1 ==> playback::gave_frame(#[trigger] waiting[i])
    &&& waiting.len() > 0 && !playback::gave_frame(waiting.last()) ==> c.model.read_ahead_halted
    &&& c.model.reading ==> !c.model.read_ahead_halted
}

/// Whether the end of the track was told exactly where nothing plays any more,
/// and last.
pub open spec fn ends_last(c: Course) -> bool {
    &&& forall|k: int| 0 <= k < c.given.len() - 1 ==> !tells_end(#[trigger] c.given[k])
    &&& c.model.track is None <==> c.given.len() > 0 && tells_end(c.given.last())
    &&& c.model.track is None ==> c.given.len() == c.reads.len() && !c.model.reading
}

/// Whether a command may follow filter changes that waited.
spec fn may_follow(c: Course, command: Deferred) -> bool {
    command is Nothing || command is Seek || (command is NextFrame && c.model.track is Some)
}

/// Whether what a command waits for fits the playback.
spec fn fits(c: Course) -> bool {
    match c.waiting {
        None => true,
        Some(ActorStage::Settle { command }) => c.model.reading && (command is Seek || (command
            is NextFrame && c.model.buffered.len() == 0 && c.model.track is Some)),
        Some(ActorStage::Install { command, .. }) => !c.model.reading && may_follow(
            c,
            command,
        ),
        Some(ActorStage::Answer { command }) => !c.model.reading && may_follow(c, command),
        Some(ActorStage::Seek) => !c.model.reading,
        Some(ActorStage::Read) => !c.model.reading && c.model.buffered.len() == 0
            && c.model.track is Some,
        Some(ActorStage::Finish) => !c.model.reading && c.model.buffered.len() == 0
            && c.model.track is Some && c.given.len() < c.reads.len() && is_end(
            c.reads[c.given.len() as int],
        ) && c.model.events.len() != PLAYER_EVENT_CAPACITY,
        Some(ActorStage::Apply { .. }) => !c.model.reading,
        _ => false,
    }
}

spec fn sound(c: Course) -> bool {
    follows_reads(c) && frames_wait_first(c) && ends_last(c) && fits(c)
}

proof fn lemma_one_more(reads: Seq<Result<BufferedFrame, AdapterError>>, k: int)
    requires
        0 <= k < reads.len(),
    ensures
        frames_in(reads.take(k + 1)) == frames_in(reads.take(k)) + (if playback::gave_frame(
            reads[k],
        ) {
            1nat
        } else {
            0
        }),
{
    assert(reads.take(k + 1).drop_last() =~= reads.take(k));
    assert(reads.take(k + 1).last() == reads[k]);
}

/// The course after a step that took nothing more from the source; `over` says
/// whether a frame's answer stands for a read.
spec fn stepped(c: Course, result: (ActorModel, ActorStep), over: bool) -> Course {
    Course {
        model: result.0,
        waiting: match result.1 {
            ActorStep::Ask(stage, _) => Some(stage),
            ActorStep::Done(_) => None,
        },
        reads: c.reads,
        given: match result.1 {
            ActorStep::Done(ActorAnswer::Frame(answer)) => if over {
                c.given.push(answer)
            } else {
                c.given
            },
            _ => c.given,
        },
    }
}

/// The course once the source gave something to wait in line.
spec fn with_read(c: Course, end: SessionEnd<BufferedFrame>) -> Course {
    Course {
        model: playback::with_read(c.model, end),
        waiting: None,
        reads: c.reads.push(playback::read_result(end)),
        given: c.given,
    }
}

proof fn lemma_read(c: Course, end: SessionEnd<BufferedFrame>)
    requires
        sound(c),
        c.model.reading,
    ensures
        sound(with_read(c, end)),
        !with_read(c, end).model.reading,
        with_read(c, end).model.track == c.model.track,
{
    let d = with_read(c, end);
    let n = c.given.len() as int;
    assert(taken(c) == n);
    assert(c.reads.push(playback::read_result(end)).skip(n) =~= c.reads.skip(n).push(
        playback::read_result(end),
    ));
    assert(d.reads.take(n) =~= c.reads.take(n));
    assert forall|k: int| 0 <= k < d.given.len() implies stands_for(
        #[trigger] d.given[k],
        d.reads[k],
        frames_in(d.reads.take(k)),
    ) by {
        assert(d.reads.take(k) =~= c.reads.take(k));
    }
    assert forall|i: int| 0 <= i < d.model.buffered.len() - 1 implies playback::gave_frame(
        #[trigger] d.model.buffered[i],
    ) by {
        assert(d.model.buffered[i] == c.model.buffered[i]);
        if i == c.model.buffered.len() - 1 {
            assert(c.model.buffered.last() == c.model.buffered[i]);
        }
    }
}

/// What waits first is taken: a frame, a wait or an error is delivered, and the
/// end of the source ends the track.
proof fn lemma_give(c: Course)
    requires
        sound(c),
        c.waiting is None,
        !c.model.reading || c.model.buffered.len() > 0,
        c.model.track is Some,
    ensures
        sound(stepped(c, playback::frame_next(c.model), c.model.buffered.len() > 0)),
{
    let result = playback::frame_next(c.model);
    let d = stepped(c, result, c.model.buffered.len() > 0);
    let n = c.given.len() as int;
    if c.model.buffered.len() > 0 {
        let read = c.model.buffered[0];
        assert(read == c.reads[n]);
        lemma_one_more(c.reads, n);
        assert(c.reads.skip(n).skip(1) =~= c.reads.skip(n + 1));
        if is_end(read) {
            assert(!playback::gave_frame(read));
            assert(c.model.buffered.len() == 1);
            assert(c.model.buffered.last() == read);
            assert(c.reads.len() == n + 1);
            assert(c.reads.skip(n + 1) =~= Seq::empty());
        } else {
            assert(d.given == c.given.push(answer_to(read, frames_in(c.reads.take(n)))));
            assert(d.model.buffered == c.model.buffered.skip(1));
            assert forall|i: int| 0 <= i < d.model.buffered.len() - 1 implies playback::gave_frame(
                #[trigger] d.model.buffered[i],
            ) by {
                assert(d.model.buffered[i] == c.model.buffered[i + 1]);
            }
            if d.model.buffered.len() > 0 {
                assert(d.model.buffered.last() == c.model.buffered.last());
            }
        }
        assert forall|k: int| 0 <= k < d.given.len() implies stands_for(
            #[trigger] d.given[k],
            d.reads[k],
            frames_in(d.reads.take(k)),
        ) by {
            if k < n {
                assert(d.given[k] == c.given[k]);
            }
        }
        assert forall|k: int| 0 <= k < d.given.len() - 1 implies !tells_end(
            #[trigger] d.given[k],
        ) by {
            assert(d.given[k] == c.given[k]);
            if k == n - 1 {
                assert(c.given.last() == c.given[k]);
            }
        }
    }
}

/// Filter changes that wait are made first; they take nothing away.
proof fn lemma_next(c: Course, command: Deferred)
    requires
        sound(c),
        c.waiting is None,
        !c.model.reading,
        may_follow(c, command),
    ensures
        sound(stepped(c, playback::pending_next(c.model, command), c.model.buffered.len() > 0)),
{
    if c.model.pending_filters.len() == 0 && command is NextFrame {
        lemma_give(c);
    }
}

/// Whatever turn comes, deliveries go on to follow the reads.
proof fn lemma_turn(c: Course, turn: Turn)
    requires
        sound(c),
        may_come(c, turn),
    ensures
        sound(turned(c, turn)),
{
    let d = turned(c, turn);
    match (c.waiting, turn) {
        (None, Turn::ReadAhead) => {},
        (None, Turn::ReadEnded(end)) => {
            lemma_read(c, end);
            lemma_next(with_read(c, end), Deferred::Nothing);
            assert(d == stepped(
                with_read(c, end),
                playback::pending_next(with_read(c, end).model, Deferred::Nothing),
                with_read(c, end).model.buffered.len() > 0,
            ));
        },
        (None, Turn::Command(ActorCommand::NextFrame)) => {
            if !c.model.paused && c.model.track is Some {
                if c.model.buffered.len() > 0 {
                    lemma_give(c);
                    assert(d == stepped(c, playback::frame_next(c.model), true));
                } else if !c.model.reading {
                    lemma_next(c, Deferred::NextFrame);
                    assert(d == stepped(
                        c,
                        playback::pending_next(c.model, Deferred::NextFrame),
                        false,
                    ));
                }
            }
        },
        (None, Turn::Command(ActorCommand::Seek(position))) => {
            if !c.model.reading {
                lemma_next(c, Deferred::Seek { position });
            }
        },
        (None, Turn::Command(_)) => {},
        (Some(ActorStage::Settle { command }), Turn::Reply(ActorReply::Read(end))) => {
            let e = with_read(c, end);
            lemma_read(c, end);
            lemma_next(e, command);
            assert(d == stepped(
                e,
                playback::pending_next(e.model, command),
                e.model.buffered.len() > 0,
            ));
        },
        (Some(ActorStage::Answer { command }), Turn::Reply(_)) => {
            let e = Course { waiting: None, ..c };
            assert(sound(e));
            lemma_next(e, command);
            assert(d == stepped(
                e,
                playback::pending_next(e.model, command),
                e.model.buffered.len() > 0,
            ));
        },
        (Some(ActorStage::Read), Turn::Reply(ActorReply::FrameRead(end))) => {
            lemma_direct(c, end);
        },
        (Some(ActorStage::Finish), Turn::Reply(_)) => {
            lemma_finish(c, turn);
        },
        (Some(ActorStage::Seek), Turn::Reply(_)) => {
            lemma_seek(c, turn);
        },
        _ => {},
    }
}

/// What is read for a request is delivered at once.
proof fn lemma_direct(c: Course, end: SessionEnd<BufferedFrame>)
    requires
        sound(c),
        may_come(c, Turn::Reply(ActorReply::FrameRead(end))),
    ensures
        sound(turned(c, Turn::Reply(ActorReply::FrameRead(end)))),
{
    let d = turned(c, Turn::Reply(ActorReply::FrameRead(end)));
    let n = c.given.len() as int;
    let read = playback::read_result(end);
    assert(c.waiting == Some(ActorStage::Read));
    assert(taken(c) == n);
    assert(c.reads.skip(n).len() == 0);
    assert(c.reads.len() == n);
    assert(d.reads == c.reads.push(read));
    assert(d.reads.skip(n + 1) =~= Seq::empty());
    assert(d.reads.take(n) =~= c.reads.take(n));
    lemma_one_more(d.reads, n);
    assert forall|k: int| 0 <= k < d.given.len() implies stands_for(
        #[trigger] d.given[k],
        d.reads[k],
        frames_in(d.reads.take(k)),
    ) by {
        assert(d.reads.take(k) =~= c.reads.take(k));
        if k < n {
            assert(d.given[k] == c.given[k]);
        }
    }
    assert forall|k: int| 0 <= k < d.given.len() - 1 implies !tells_end(#[trigger] d.given[k]) by {
        assert(d.given[k] == c.given[k]);
        if k == n - 1 {
            assert(c.given.last() == c.given[k]);
        }
    }
    assert(taken(d) == n + 1);
    assert(d.model.buffered =~= d.reads.skip(n + 1));
}

/// The end of the source ends the track once its bytes were looked after.
proof fn lemma_finish(c: Course, turn: Turn)
    requires
        sound(c),
        may_come(c, turn),
        c.waiting == Some(ActorStage::Finish),
    ensures
        sound(turned(c, turn)),
{
    let d = turned(c, turn);
    let n = c.given.len() as int;
    assert(c.reads.skip(n + 1).len() == 0);
    assert(c.reads.len() == n + 1);
    lemma_one_more(c.reads, n);
    assert(d.reads.skip(n + 1) =~= Seq::empty());
    assert forall|k: int| 0 <= k < d.given.len() implies stands_for(
        #[trigger] d.given[k],
        d.reads[k],
        frames_in(d.reads.take(k)),
    ) by {
        if k < n {
            assert(d.given[k] == c.given[k]);
        }
    }
    assert forall|k: int| 0 <= k < d.given.len() - 1 implies !tells_end(#[trigger] d.given[k]) by {
        assert(d.given[k] == c.given[k]);
        if k == n - 1 {
            assert(c.given.last() == c.given[k]);
        }
    }
}

/// A seek takes away what was not delivered, and nothing else.
proof fn lemma_seek(c: Course, turn: Turn)
    requires
        sound(c),
        may_come(c, turn),
        c.waiting == Some(ActorStage::Seek),
    ensures
        sound(turned(c, turn)),
{
    let d = turned(c, turn);
    let n = c.given.len() as int;
    assert(taken(c) == n);
    assert(c.reads.take(n).skip(n) =~= Seq::empty());
    assert(c.reads.take(n).take(n) =~= c.reads.take(n));
    assert forall|k: int| 0 <= k < d.given.len() implies stands_for(
        #[trigger] d.given[k],
        d.reads[k],
        frames_in(d.reads.take(k)),
    ) by {
        assert(d.reads.take(k) =~= c.reads.take(k));
    }
}

proof fn lemma_run(c: Course, turns: Seq<Turn>)
    requires
        sound(c),
        may_run(c, turns),
    ensures
        sound(after(c, turns)),
    decreases turns.len(),
{
    if turns.len() > 0 {
        lemma_run(c, turns.drop_last());
        lemma_turn(after(c, turns.drop_last()), turns.last());
    }
}

/// From the start of a track on, whatever reads, pauses, seeks, filter changes
/// and requests follow each other: everything that the source gave is delivered
/// once and in its order, and what was not delivered yet waits in that order; a
/// seek drops what waits, and nothing else. Frames are numbered from zero
/// without a gap, across seeks too. A failure or the end of the source comes
/// behind every frame that was read before it, and the end comes last.
pub proof fn a_playback_delivers_what_was_read(
    m: ActorModel,
    track: MediaTrack,
    kind: SessionKind,
    mode: ProcessingMode,
    turns: Seq<Turn>,
)
    requires
        !m.reading,
        may_run(opening(m, track, kind, mode), turns),
    ensures
        follows_reads(after(opening(m, track, kind, mode), turns)),
        frames_wait_first(after(opening(m, track, kind, mode), turns)),
        ends_last(after(opening(m, track, kind, mode), turns)),
{
    let c = opening(m, track, kind, mode);
    assert(c.reads.skip(0) =~= c.model.buffered);
    assert(c.reads.take(0).len() == 0);
    assert(sound(c));
    lemma_run(c, turns);
}

/// A request for a frame that stands for nothing that the source gave changes
/// nothing: a player that is paused or plays nothing answers as at an end, and
/// keeps what waits.
pub proof fn idle_requests_change_nothing(c: Course)
    requires
        c.waiting is None,
        c.model.paused || c.model.track is None,
    ensures
        turned(c, Turn::Command(ActorCommand::NextFrame)) == c,
        turn_result(c, Turn::Command(ActorCommand::NextFrame)).1 == ActorStep::Done(
            ActorAnswer::Frame(Ok(FrameAnswer::Ended)),
        ),
{
}

/// Whether what a turn delivered was the end of the source.
pub open spec fn takes_end(before: Course, now: Course) -> bool {
    before.given.len() < now.given.len() && is_end(now.reads[before.given.len() as int])
}

/// The end of the source, and nothing else, ends the track: it is told as
/// finished, at the moment at which the end is delivered. Where no more events
/// fit, the request is refused and the track stays.
pub proof fn the_end_is_told(
    m: ActorModel,
    track: MediaTrack,
    kind: SessionKind,
    mode: ProcessingMode,
    turns: Seq<Turn>,
    turn: Turn,
)
    requires
        !m.reading,
        may_run(opening(m, track, kind, mode), turns.push(turn)),
    ensures
        ({
            let before = after(opening(m, track, kind, mode), turns);
            let now = turned(before, turn);
            &&& before.model.track == Some(track) || before.model.track is None
            &&& before.model.track is Some && now.model.track is None ==> takes_end(before, now)
            &&& takes_end(before, now) ==> if before.model.events.len() != PLAYER_EVENT_CAPACITY {
                &&& now.given == before.given.push(Ok(FrameAnswer::Ended))
                &&& now.model.track is None
                &&& now.model.events == before.model.events.push(
                    MediaEvent::TrackEnd { track, reason: TrackEndReason::Finished },
                )
            } else {
                &&& now.given == before.given.push(Err(source::overloaded_fault()))
                &&& now.model.track is Some
                &&& now.model.events == before.model.events
            }
        }),
{
    let c = opening(m, track, kind, mode);
    assert(turns.push(turn).drop_last() =~= turns);
    assert(c.reads.skip(0) =~= c.model.buffered);
    assert(c.reads.take(0).len() == 0);
    assert(sound(c));
    lemma_run(c, turns);
    lemma_same_track(c, turns);
    let before = after(c, turns);
    lemma_turn(before, turn);
}

/// No other track plays in between.
proof fn lemma_same_track(c: Course, turns: Seq<Turn>)
    requires
        sound(c),
        may_run(c, turns),
    ensures
        after(c, turns).model.track == c.model.track || after(c, turns).model.track is None,
    decreases turns.len(),
{
    if turns.len() > 0 {
        lemma_same_track(c, turns.drop_last());
        lemma_run(c, turns.drop_last());
    }
}

} // verus!
