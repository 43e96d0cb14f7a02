//! What an update makes of a player, told by what the update asks for.

use crate::filters::FilterConfiguration;
use crate::json;
use crate::media::{MediaEvent, MediaTrack, PlayerError, PlayerSnapshot, TrackEndReason};
use crate::player;
use crate::player::{ActiveTrack, Player, PlayerState, TrackRequest};
use crate::protocol::{PatchField, PlayerUpdate};
use crate::update;
use crate::update::{Draining, Move, Need, Reply, Request, Stage, UpdateRun, UpdateStep};
use vstd::prelude::*;

verus! {

/// Where an update stands once the media player did what it was asked last, as
/// long as that is to play, to seek or to pause.
pub open spec fn obeyed(outcome: (PlayerState, Move)) -> (PlayerState, Move) {
    match outcome.1 {
        Move::Ask(run, need) => if need is PlayMedia || need is Seek || need is Pause {
            update::moved(outcome.0, run, Reply::Media(Ok(())))
        } else {
            outcome
        },
        _ => outcome,
    }
}

/// Where an update stands once it has a track and the media player does
/// everything that is asked of it for that track.
pub open spec fn obeyed_to_the_end(outcome: (PlayerState, Move)) -> (PlayerState, Move) {
    obeyed(obeyed(obeyed(outcome)))
}

/// Whether a track plays as an update asks for it: from the position that it
/// gives, or from the start; paused where it says so; up to the end that it
/// gives, or to its own; with the data that it gives.
pub open spec fn plays_as_asked(
    before: PlayerState,
    after: PlayerState,
    request: Request,
    track: MediaTrack,
) -> bool {
    &&& after.track == Some(
        ActiveTrack {
            media: track,
            user_data: match request.change {
                Ok(change) => change.user_data,
                Err(_) => None,
            },
        },
    )
    &&& after.position_ms == match request.update.position {
        PatchField::Value(position) => if position > 0 {
            position as int
        } else {
            0
        },
        _ => 0,
    }
    &&& after.paused == (request.update.paused == PatchField::Value(true))
    &&& match request.update.end_time {
        PatchField::Value(end_time) => end_time >= 0 ==> after.end_time_ms == Some(end_time as u64),
        _ => after.end_time_ms is None,
    }
    &&& after.volume == before.volume
    &&& after.filters == before.filters
    &&& after.voice == before.voice
    &&& after.voice_connection == before.voice_connection
    &&& after.has_media == before.has_media
}

/// A track that an update had decoded or loaded plays as the update asks: on a
/// player with a media player once that did what it was asked, on one without at
/// once.
pub proof fn a_track_plays_as_it_was_asked_for(
    state: PlayerState,
    run: UpdateRun,
    track: MediaTrack,
    reply: Reply,
)
    requires
        run.stage is Decode && reply == Reply::Decoded(Ok(track)) || run.stage is Load && reply
            == Reply::Loaded(Ok(crate::media::LoadOutcome::Track(track))),
        json::retainable(*track.plugin_info, run.request.policy),
        state.audio_generation < u64::MAX,
    ensures
        ({
            let (after, m) = obeyed_to_the_end(update::moved(state, run, reply));
            &&& plays_as_asked(state, after, run.request, track)
            &&& state.has_media ==> (m matches Move::Ask(_, need) && need is NextEvent)
        }),
{
    let rest = UpdateRun { stage: Stage::VoiceConnect, ..run };
    let first = update::moved(state, run, reply);
    assert(first == update::play(state, rest, track));
    if state.has_media {
        lemma_after_play(state, rest, track);
        assert(obeyed(first) == update::after_play(state, rest, track));
    } else {
        lemma_played(state, rest, track);
        assert(first == update::played(state, rest, track));
        lemma_obeyed_stays(first);
    }
}

/// Whether a track plays as asked, and nothing more is asked of it.
spec fn plays(state: PlayerState, run: UpdateRun, track: MediaTrack, o: (PlayerState, Move)) -> bool {
    &&& plays_as_asked(state, o.0, run.request, track)
    &&& state.has_media ==> (o.1 matches Move::Ask(_, need) && need is NextEvent)
    &&& !(o.1 matches Move::Ask(_, need) && (need is PlayMedia || need is Seek || need is Pause))
}

proof fn lemma_obeyed_stays(o: (PlayerState, Move))
    requires
        !(o.1 matches Move::Ask(_, need) && (need is PlayMedia || need is Seek || need is Pause)),
    ensures
        obeyed(o) == o,
{
}

proof fn lemma_played(state: PlayerState, run: UpdateRun, track: MediaTrack)
    ensures
        plays(state, run, track, update::played(state, run, track)),
{
}

proof fn lemma_after_play_seek(state: PlayerState, run: UpdateRun, track: MediaTrack)
    requires
        state.has_media,
    ensures
        plays(state, run, track, obeyed(update::after_play_seek(state, run, track))),
{
    lemma_played(state, UpdateRun { stage: Stage::VoiceConnect, ..run }, track);
    lemma_played(state, run, track);
    lemma_obeyed_stays(update::played(state, run, track));
}

proof fn lemma_after_play(state: PlayerState, run: UpdateRun, track: MediaTrack)
    requires
        state.has_media,
    ensures
        plays(state, run, track, obeyed(obeyed(update::after_play(state, run, track)))),
{
    lemma_after_play_seek(state, UpdateRun { stage: Stage::VoiceConnect, ..run }, track);
    lemma_after_play_seek(state, run, track);
    lemma_obeyed_stays(obeyed(update::after_play_seek(state, run, track)));
}

/// What a media player is asked for a track: to play it, then to go to the
/// position that the update gives, where that lies behind the start, then to
/// pause, where the update says so.
pub proof fn a_track_is_sought_and_paused_as_asked(
    state: PlayerState,
    run: UpdateRun,
    track: MediaTrack,
)
    ensures
        state.has_media && json::retainable(*track.plugin_info, run.request.policy) ==> ({
            let outcome = update::moved(
                state,
                UpdateRun { stage: Stage::Decode, ..run },
                Reply::Decoded(Ok(track)),
            );
            outcome.0 == state && (outcome.1 matches Move::Ask(_, need) && need
                == Need::PlayMedia(track))
        }),
        ({
            let played = update::moved(
                state,
                UpdateRun { stage: Stage::Play { track }, ..run },
                Reply::Media(Ok(())),
            );
            match run.request.update.position {
                PatchField::Value(position) => if position > 0 {
                    played.1 matches Move::Ask(_, need) && need == Need::Seek(position as u64)
                } else {
                    !(played.1 matches Move::Ask(_, need) && need is Seek)
                },
                _ => !(played.1 matches Move::Ask(_, need) && need is Seek),
            }
        }),
        ({
            let sought = update::moved(
                state,
                UpdateRun { stage: Stage::PlaySeek { track }, ..run },
                Reply::Media(Ok(())),
            );
            if run.request.update.paused == PatchField::Value(true) {
                sought.1 matches Move::Ask(_, need) && need == Need::Pause(true)
            } else {
                !(sought.1 matches Move::Ask(_, need) && need is Pause)
            }
        }),
{
}

/// A track whose plugin data is too large is not played.
pub proof fn an_oversized_track_is_not_played(
    state: PlayerState,
    run: UpdateRun,
    track: MediaTrack,
)
    requires
        !json::retainable(*track.plugin_info, run.request.policy),
    ensures
        update::moved(
            state,
            UpdateRun { stage: Stage::Decode, ..run },
            Reply::Decoded(Ok(track)),
        ) == (
            state,
            Move::End(Err(PlayerError::Media("source pluginInfo exceeds resource limits"))),
        ),
        update::moved(
            state,
            UpdateRun { stage: Stage::Load, ..run },
            Reply::Loaded(Ok(crate::media::LoadOutcome::Track(track))),
        ) == (
            state,
            Move::End(Err(PlayerError::Media("source pluginInfo exceeds resource limits"))),
        ),
{
}

/// Only a single track that was found is played: a playlist or a search, and
/// nothing at all, are refused with the reason.
pub proof fn only_a_track_is_played(
    state: PlayerState,
    run: UpdateRun,
    outcome: crate::media::LoadOutcome,
)
    requires
        run.stage is Load,
        !(outcome is Track),
    ensures
        update::moved(state, run, Reply::Loaded(Ok(outcome))) == (
            state,
            Move::End(
                Err(
                    PlayerError::Invalid(
                        if outcome is NoMatches {
                            "No matches found for identifier"
                        } else {
                            "Cannot play a playlist or search result"
                        },
                    ),
                ),
            ),
        ),
{
}

/// What an update asks of the track, by its members: a text to decode, an
/// identifier to load, an end of playback where the text is null, or nothing.
/// The members of `track` stand before the deprecated ones.
pub proof fn the_asked_track_is_the_one_given(update: PlayerUpdate)
    ensures
        update.track matches PatchField::Value(track) ==> ({
            &&& track.encoded is Value && track.identifier is Omitted ==> asks(update, TrackRequest::Encoded(track.encoded->Value_0))
            &&& track.encoded is Null && track.identifier is Omitted ==> asks(
                update,
                TrackRequest::Stop,
            )
            &&& track.encoded is Omitted && track.identifier is Value ==> asks(update, TrackRequest::Identifier(track.identifier->Value_0))
            &&& track.encoded is Omitted && track.identifier is Omitted ==> asks(
                update,
                TrackRequest::Omitted,
            )
            &&& player::track_change(update) matches Ok(change) ==> change.user_data
                == match track.user_data {
                PatchField::Value(data) => Some(data),
                _ => None,
            }
        }),
        update.track is Omitted ==> ({
            &&& update.encoded_track is Value && update.identifier is Omitted ==> asks(
                update,
                TrackRequest::Encoded(update.encoded_track->Value_0),
            )
            &&& update.encoded_track is Null && update.identifier is Omitted ==> asks(
                update,
                TrackRequest::Stop,
            )
            &&& update.encoded_track is Omitted && update.identifier is Value ==> asks(
                update,
                TrackRequest::Identifier(update.identifier->Value_0),
            )
            &&& update.encoded_track is Omitted && update.identifier is Omitted ==> asks(
                update,
                TrackRequest::Omitted,
            )
            &&& player::track_change(update) matches Ok(change) ==> change.user_data is None
        }),
{
}

/// Whether an update asks this of the track.
pub open spec fn asks(update: PlayerUpdate, request: TrackRequest) -> bool {
    player::track_change(update) matches Ok(change) && change.request == request
}

/// Whether an update leaves the filters and the volume as they are, and the
/// voice connection.
pub open spec fn is_about_track_only(request: Request) -> bool {
    request.update.volume !is Value && request.update.filters !is Value && request.update.voice
        !is Value
}

/// The first thing that is needed for a track, on a player that may replace what
/// plays: a text is decoded and an identifier loaded, each exactly as given,
/// behind the permits that this takes; an end of playback stops the media
/// player.
pub proof fn a_track_is_fetched_as_given(
    state: PlayerState,
    run: UpdateRun,
    guild_id: Seq<char>,
    user_id: Seq<char>,
)
    requires
        !state.gone(),
        state.has_media,
        is_about_track_only(run.request),
        run.request.has_adapter,
        !(run.request.no_replace && state.track is Some),
        run.request.change is Ok,
    ensures
        ({
            let change = run.request.change->Ok_0.request;
            let (after, m) = update::started(state, run.request, true, guild_id, user_id);
            &&& change matches TrackRequest::Encoded(encoded) ==> after == state && if state.outbound {
                m matches Move::Ask(next, need) && need == Need::Decode(encoded) && next.stage
                    is Decode && next.request == run.request
            } else {
                m matches Move::Ask(next, need) && need is AcquireOutbound && next.stage is Permit
                    && next.request == run.request
            }
            &&& change is Identifier ==> after == state && (m matches Move::Ask(next, need) && need
                is AcquireLoad && next.stage is LoadPermit && next.request == run.request)
            &&& change is Stop ==> after == state && (m matches Move::Ask(next, need) && need
                is StopMedia && next.stage is Stop && next.request == run.request)
        }),
        ({
            let change = run.request.change->Ok_0.request;
            let permitted = |stage: Stage| update::moved(
                state,
                UpdateRun { stage, ..run },
                Reply::Permit(true),
            );
            &&& change matches TrackRequest::Encoded(encoded) ==> (permitted(Stage::Permit).1
                matches Move::Ask(_, need) && need == Need::Decode(encoded))
            &&& change matches TrackRequest::Identifier(identifier) ==> (permitted(
                Stage::LoadPermit,
            ).1 matches Move::Ask(_, need) && need == Need::Load(identifier))
        }),
{
}

/// Without a permit nothing is fetched, and the client is told of the overload.
pub proof fn nothing_is_fetched_without_a_permit(state: PlayerState, run: UpdateRun)
    requires
        run.stage is Permit || run.stage is LoadPermit,
    ensures
        update::moved(state, run, Reply::Permit(false)) == (
            state,
            Move::End(Err(PlayerError::Overloaded)),
        ),
{
}

/// Playback that was stopped leaves no track, and the next one starts afresh.
pub proof fn a_stop_leaves_no_track(state: PlayerState, run: UpdateRun)
    requires
        run.stage is Stop,
        state.has_media,
    ensures
        ({
            let (after, m) = update::moved(state, run, Reply::Media(Ok(())));
            &&& after.track is None && after.position_ms == 0 && after.end_time_ms is None
            &&& !after.paused && !after.outbound
            &&& after.volume == state.volume && after.filters == state.filters && after.voice
                == state.voice && after.voice_connection == state.voice_connection
            &&& m matches Move::Ask(_, need) && need is NextEvent
        }),
{
}

/// A volume as playback takes it: what was asked for, held between nothing and
/// ten times the volume of the source.
pub open spec fn held_volume(volume: i32) -> int {
    if volume < 0 {
        0
    } else if volume > 1000 {
        1000
    } else {
        volume as int
    }
}

/// An update of the volume or the filters tells playback both: the volume that
/// it gives or the one that stands, and the filters that it gives or those that
/// stand. Once playback took them they are the player's.
pub proof fn volume_and_filters_are_set_together(state: PlayerState, run: UpdateRun)
    requires
        run.request.update.volume is Value || run.request.update.filters is Value,
        run.request.change is Err,
        run.request.update.voice !is Value,
    ensures
        ({
            let volume = match run.request.update.volume {
                PatchField::Value(volume) => volume,
                _ => state.volume,
            };
            let (wire, configuration) = match run.request.normalized {
                Some((wire, configuration)) => (wire, configuration),
                None => (state.filters, state.filter_configuration),
            };
            let (after, _) = update::moved(
                state,
                UpdateRun { stage: Stage::Filters, ..run },
                Reply::Media(Ok(())),
            );
            &&& after.volume == volume
            &&& after.filters == wire
            &&& tells_playback(after.filter_configuration, configuration, volume)
            &&& after.track == state.track && after.paused == state.paused && after.position_ms
                == state.position_ms && after.end_time_ms == state.end_time_ms
        }),
        ({
            let (after, m) = update::moved(
                PlayerState { has_media: true, ..state },
                UpdateRun { stage: Stage::Create, ..run },
                Reply::Media(Ok(())),
            );
            let volume = match run.request.update.volume {
                PatchField::Value(volume) => volume,
                _ => state.volume,
            };
            let configuration = match run.request.normalized {
                Some((_, configuration)) => configuration,
                None => state.filter_configuration,
            };
            m matches Move::Ask(_, need) && (need matches Need::SetFilters(told) && tells_playback(
                told,
                configuration,
                volume,
            ))
        }),
{
}

/// Whether playback is told of filters, with the volume of the player.
pub open spec fn tells_playback(
    told: FilterConfiguration,
    filters: FilterConfiguration,
    volume: i32,
) -> bool {
    &&& told.player_volume matches Some(level) && level == held_volume(volume)
    &&& told.volume == filters.volume && told.equalizer == filters.equalizer
    &&& told.karaoke == filters.karaoke && told.timescale == filters.timescale
    &&& told.tremolo == filters.tremolo && told.vibrato == filters.vibrato
    &&& told.distortion == filters.distortion && told.rotation_hz == filters.rotation_hz
    &&& told.channel_mix == filters.channel_mix && told.low_pass_smoothing
        == filters.low_pass_smoothing
}

/// An update without a track pauses and seeks what plays as it says: the media
/// player is asked for exactly that, and the player keeps it once that is done.
pub proof fn what_plays_is_paused_and_sought_as_asked(
    state: PlayerState,
    run: UpdateRun,
    guild_id: Seq<char>,
    user_id: Seq<char>,
)
    requires
        !state.gone(),
        state.has_media,
        state.track is Some,
        is_about_track_only(run.request),
        run.request.change matches Ok(change) && change.request is Omitted,
    ensures
        ({
            let (after, m) = update::started(state, run.request, true, guild_id, user_id);
            &&& run.request.update.paused matches PatchField::Value(paused) ==> after == state && (m
                matches Move::Ask(next, need) && need == Need::Pause(paused))
            &&& run.request.update.paused !is Value ==> (run.request.update.position matches
                PatchField::Value(position) ==> after == state && (m matches Move::Ask(next, need)
                && need == Need::Seek(
                if position >= 0 {
                    position as u64
                } else {
                    0
                },
            )))
        }),
        ({
            let paused = update::moved(
                state,
                UpdateRun { stage: Stage::Pause { paused: true }, ..run },
                Reply::Media(Ok(())),
            ).0;
            let resumed = update::moved(
                state,
                UpdateRun { stage: Stage::Pause { paused: false }, ..run },
                Reply::Media(Ok(())),
            ).0;
            paused.paused && !resumed.paused
        }),
        forall|position: u64|
            (#[trigger] update::moved(
                state,
                UpdateRun { stage: Stage::Seek { position }, ..run },
                Reply::Media(Ok(())),
            )).0.position_ms == position,
{
}

/// An update without a track gives what plays its end and its data: an end that
/// is given is kept, a null takes the end away, and what is left out stays.
pub proof fn an_update_changes_the_end_and_the_data(
    state: PlayerState,
    run: UpdateRun,
    position: u64,
)
    requires
        run.request.change matches Ok(change) && change.request is Omitted,
        state.track is Some,
    ensures
        ({
            let (after, _) = update::moved(
                state,
                UpdateRun { stage: Stage::Seek { position }, ..run },
                Reply::Media(Ok(())),
            );
            &&& match run.request.update.end_time {
                PatchField::Omitted => after.end_time_ms == state.end_time_ms,
                PatchField::Null => after.end_time_ms is None,
                PatchField::Value(end_time) => end_time >= 0 ==> after.end_time_ms == Some(
                    end_time as u64,
                ),
            }
            &&& after.track matches Some(track) && track.media == state.track->0.media
                && track.user_data == if run.request.change->Ok_0.user_data is Some {
                run.request.change->Ok_0.user_data
            } else {
                state.track->0.user_data
            }
        }),
{
}

/// Audio is started over the voice connection exactly where a track plays, is
/// not paused, and there is a media player to play it; otherwise it is stopped.
/// Without a connection nothing is done.
pub proof fn audio_runs_where_something_plays(state: PlayerState, run: UpdateRun)
    requires
        run.request.update.voice !is Value,
        run.request.update.paused is Value || run.request.update.position is Value
            || run.request.update.filters is Value || run.request.update.volume is Value
            || run.replace_allowed,
        state.audio_generation < u64::MAX,
    ensures
        ({
            let (after, m) = update::refresh(state, run);
            match state.voice_connection {
                Some(connection) => if state.track is Some && !state.paused && state.has_media {
                    m matches Move::Ask(_, need) && need == Need::SetAudio {
                        connection,
                        generation: (state.audio_generation + 1) as u64,
                    }
                } else {
                    m matches Move::Ask(_, need) && need == Need::StopAudio(connection)
                },
                None => !(m matches Move::Ask(_, need) && (need is SetAudio || need is StopAudio)),
            }
        }),
{
}

/// Once everything was asked, the player is what its media player tells: its
/// position, whether it is paused, and no track where the media player has none
/// and rests.
pub proof fn the_media_player_has_the_last_word(state: PlayerState, snapshot: PlayerSnapshot)
    ensures
        ({
            let after = player::with_snapshot(state, snapshot);
            let rests = snapshot.status is Idle || snapshot.status is Stopped;
            &&& after.position_ms == snapshot.position_ms
            &&& after.paused == (snapshot.status is Paused)
            &&& snapshot.track is None && rests ==> after.track is None && !after.outbound
            &&& snapshot.track is Some || !rests ==> after.track == state.track && after.outbound
                == state.outbound
            &&& after.volume == state.volume && after.filters == state.filters && after.end_time_ms
                == state.end_time_ms && after.voice == state.voice
        }),
{
}

/// An event is told as it came, unless a reason is imposed on the end of a
/// track; the end of a track that was replaced goes with the data of that track,
/// and another event with the data of the one that plays.
pub proof fn events_are_told_with_their_data(
    event: MediaEvent,
    imposed: Option<TrackEndReason>,
    draining: Draining,
)
    ensures
        ({
            let (told, data) = update::drained_event(event, imposed, draining);
            &&& !(event is TrackEnd) ==> told == event && data == draining.user_data
            &&& event matches MediaEvent::TrackEnd { track, reason } ==> {
                &&& imposed is None ==> told == event
                &&& imposed matches Some(given) ==> told == (MediaEvent::TrackEnd {
                    track,
                    reason: given,
                })
                &&& imposed is None && !(reason is Replaced) ==> data == draining.user_data
                &&& imposed is None && reason is Replaced && draining.replaced is Some ==> data
                    == draining.replaced->0
            }
        }),
{
}

/// What an update came to is what the player is left with: while it needs
/// something nothing is shown, at its end what others see follows the state, and
/// the client is told where playback stands where it is to be told.
pub proof fn an_update_is_shown_at_its_end(
    before: Player,
    after: Player,
    outcome: (PlayerState, Move),
    step: UpdateStep,
    time_ms: u64,
)
    requires
        update::concluded(before, after, outcome, step, time_ms),
    ensures
        after.guild_id == before.guild_id,
        after.execution_key == before.execution_key,
        outcome.1 matches Move::Ask(run, need) ==> after.state == outcome.0 && after.cache
            == before.cache && step == UpdateStep::Ask(run, need),
        outcome.1 matches Move::End(result) ==> after.state == outcome.0 && after.cache
            == before.cache && step == UpdateStep::Done(result),
        outcome.1 is Finish && (outcome.0.destroyed || outcome.0.cancelled) ==> step
            == UpdateStep::Done(Err(PlayerError::NotFound)) && after.cache == before.cache,
        outcome.1 matches Move::Finish(run, media, snapshot) ==> (!outcome.0.destroyed
            && !outcome.0.cancelled ==> {
            &&& after.cache.periodic_updates <==> after.state.track is Some
            &&& after.cache.stats.playing <==> after.state.track is Some && !after.state.paused
                && !after.state.destroyed
            &&& run.publish ==> step is Ask && step->Ask_1 is PublishUpdate
            &&& !run.publish ==> step == UpdateStep::Done(Ok(snapshot))
        }),
{
}

} // verus!
