//! What a player shows of itself, and what it accepts.

use crate::filters;
use crate::media;
use crate::media::{AdapterError, PlayerError, PlayerSnapshot};
use crate::player;
use crate::player::{PlayerCache, PlayerState, TrackRequest};
use crate::protocol::{PatchField, PlayerUpdate, VoiceState};
use crate::text;
use crate::voice;
use crate::voice::{MonitorAction, MonitorEvent, VoiceError, VoiceEvent, VoiceSnapshot};
use crate::wire;
use crate::wire_laws;
use vstd::prelude::*;

verus! {

/// The milliseconds of a round trip, and minus one where none is known.
pub open spec fn round_trip(snapshot: Option<VoiceSnapshot>) -> int {
    if snapshot is Some && snapshot->0.ping is Some && snapshot->0.ping->0.nanos
        < 9_223_372_036_854_775_808_000_000 {
        snapshot->0.ping->0.nanos as int / 1_000_000
    } else {
        -1
    }
}

/// Whether audio flows.
pub open spec fn flows(snapshot: Option<VoiceSnapshot>) -> bool {
    snapshot is Some && snapshot->0.phase is Connected
}

/// A player shows its guild, its track, its volume, whether it is paused, its
/// filters, its voice state and where playback stands.
pub proof fn a_player_shows_its_state(
    guild_id: Seq<char>,
    state: PlayerState,
    snapshot: Option<VoiceSnapshot>,
    time_ms: u64,
)
    ensures
        ({
            let shown = player::player_json(guild_id, state, snapshot, time_ms);
            &&& wire_laws::tells(shown, "guildId"@, wire::json_quoted(guild_id))
            &&& wire_laws::tells(
                shown,
                "paused"@,
                if state.paused {
                    "true"@
                } else {
                    "false"@
                },
            )
            &&& wire_laws::tells(shown, "filters"@, state.filters@)
            &&& wire_laws::tells(shown, "volume"@, text::signed_decimal(state.volume as int))
            &&& wire_laws::tells(shown, "voice"@, player::voice_json(state.voice))
            &&& state.track matches Some(track) ==> wire_laws::tells(
                shown,
                "track"@,
                media::track_json(track.media, state.position_ms, track.user_data),
            )
            &&& state.track is None ==> wire_laws::tells(shown, "track"@, "null"@)
            &&& wire_laws::tells(
                shown,
                "state"@,
                player::state_json(
                    time_ms,
                    state.position_ms,
                    flows(snapshot),
                    round_trip(snapshot),
                ),
            )
        }),
{
    broadcast use wire_laws::group_members;

}

/// Where playback stands is told with the time at which it was asked.
pub proof fn a_position_is_told(time_ms: u64, position_ms: u64, connected: bool, ping: int)
    ensures
        ({
            let shown = player::state_json(time_ms, position_ms, connected, ping);
            &&& wire_laws::tells(shown, "time"@, text::decimal(time_ms as nat))
            &&& wire_laws::tells(shown, "position"@, text::decimal(position_ms as nat))
            &&& wire_laws::tells(
                shown,
                "connected"@,
                if connected {
                    "true"@
                } else {
                    "false"@
                },
            )
            &&& wire_laws::tells(shown, "ping"@, text::signed_decimal(ping))
        }),
{
    broadcast use wire_laws::group_members;

}

/// A voice state is shown part by part.
pub proof fn a_voice_state_is_shown(voice: VoiceState)
    ensures
        ({
            let shown = player::voice_json(voice);
            &&& wire_laws::tells(shown, "token"@, wire::json_quoted(voice.token@))
            &&& wire_laws::tells(shown, "endpoint"@, wire::json_quoted(voice.endpoint@))
            &&& wire_laws::tells(shown, "sessionId"@, wire::json_quoted(voice.session_id@))
            &&& voice.channel_id matches Some(channel) ==> wire_laws::tells(
                shown,
                "channelId"@,
                wire::json_quoted(channel@),
            )
            &&& voice.channel_id is None ==> wire_laws::tells(shown, "channelId"@, "null"@)
        }),
{
    broadcast use wire_laws::group_members;

}

/// The message on where playback stands names the guild.
pub proof fn an_update_names_its_guild(guild_id: Seq<char>, state: Seq<char>)
    ensures
        wire_laws::tells(player::update_json(guild_id, state), "op"@, wire::json_quoted("playerUpdate"@)),
        wire_laws::tells(player::update_json(guild_id, state), "guildId"@, wire::json_quoted(guild_id)),
        wire_laws::tells(player::update_json(guild_id, state), "state"@, state),
{
    broadcast use wire_laws::group_members;

}

/// What others see of a player follows its state: it counts as playing where a
/// track plays that is not paused, its counters are those of its connection,
/// and they stay where there is none.
pub proof fn others_see_the_state(
    before: PlayerCache,
    after: PlayerCache,
    guild_id: Seq<char>,
    state: PlayerState,
    snapshot: Option<VoiceSnapshot>,
    time_ms: u64,
)
    requires
        player::cached(before, after, guild_id, state, snapshot, time_ms),
    ensures
        after.periodic_updates <==> state.track is Some,
        after.stats.playing <==> state.track is Some && !state.paused && !state.destroyed,
        snapshot matches Some(now) ==> after.stats.sent == now.counters.sent && after.stats.nulled
            == now.counters.nulled && after.stats.deficit == now.counters.deficit,
        snapshot is None ==> after.stats.sent == before.stats.sent && after.stats.nulled
            == before.stats.nulled && after.stats.deficit == before.stats.deficit,
        wire_laws::tells(after.update@, "guildId"@, wire::json_quoted(guild_id)),
        wire_laws::tells(
            after.update@,
            "state"@,
            player::state_json(time_ms, state.position_ms, flows(snapshot), round_trip(snapshot)),
        ),
{
    broadcast use wire_laws::group_members;

}

/// A player that was told nothing stands at zero and is not connected.
pub proof fn a_fresh_player_stands_at_zero(time_ms: u64)
    ensures
        ({
            let shown = player::default_state_json(time_ms);
            &&& wire_laws::tells(shown, "position"@, text::decimal(0))
            &&& wire_laws::tells(shown, "connected"@, "false"@)
            &&& wire_laws::tells(shown, "ping"@, text::signed_decimal(-1))
            &&& wire_laws::tells(shown, "time"@, text::decimal(time_ms as nat))
        }),
{
    a_position_is_told(time_ms, 0, false, -1);
}

/// What the media player tells of itself is taken over; at rest without a track
/// it ends what the player had.
pub proof fn a_snapshot_is_taken_over(state: PlayerState, snapshot: PlayerSnapshot)
    ensures
        ({
            let after = player::with_snapshot(state, snapshot);
            &&& after.position_ms == snapshot.position_ms
            &&& after.paused <==> snapshot.status is Paused
            &&& snapshot.track is Some || !(snapshot.status is Idle || snapshot.status is Stopped)
                ==> after.track == state.track && after.outbound == state.outbound
            &&& snapshot.track is None && (snapshot.status is Idle || snapshot.status is Stopped)
                ==> after.track is None && !after.outbound
            &&& after.volume == state.volume && after.end_time_ms == state.end_time_ms
            &&& after.filters == state.filters && after.voice == state.voice
            &&& after.filter_configuration == state.filter_configuration
            &&& after.voice_connection == state.voice_connection
            &&& after.has_media == state.has_media && after.destroyed == state.destroyed
            &&& after.cancelled == state.cancelled
            &&& after.audio_generation == state.audio_generation
            &&& after.deferred_audio == state.deferred_audio
        }),
{
}

/// Whether a text holds more than white space.
pub open spec fn says_something(s: Seq<char>) -> bool {
    exists|i: int| 0 <= i < s.len() && !text::is_space(#[trigger] s[i])
}

proof fn lemma_leading(s: Seq<char>)
    ensures
        !says_something(s) ==> text::without_leading(s).len() == 0,
        says_something(s) ==> text::without_leading(s).len() > 0 && !text::is_space(
            text::without_leading(s)[0],
        ),
    decreases s.len(),
{
    if s.len() > 0 && text::is_space(s[0]) {
        let rest = s.skip(1);
        lemma_leading(rest);
        if says_something(s) {
            let i = choose|i: int| 0 <= i < s.len() && !text::is_space(#[trigger] s[i]);
            assert(rest[i - 1] == s[i]);
        }
        if says_something(rest) {
            let i = choose|i: int| 0 <= i < rest.len() && !text::is_space(#[trigger] rest[i]);
            assert(s[i + 1] == rest[i]);
        }
    } else if s.len() > 0 {
        assert(!text::is_space(s[0]));
    }
}

proof fn lemma_trailing(s: Seq<char>)
    requires
        s.len() > 0,
        !text::is_space(s[0]),
    ensures
        text::without_trailing(s).len() > 0,
    decreases s.len(),
{
    if text::is_space(s.last()) {
        assert(s.len() > 1);
        lemma_trailing(s.drop_last());
    }
}

/// A text is blank exactly where it holds nothing but white space.
pub proof fn blank_texts_say_nothing(s: Seq<char>)
    ensures
        player::is_blank(s) <==> !says_something(s),
{
    lemma_leading(s);
    if says_something(s) {
        lemma_trailing(text::without_leading(s));
    }
}

/// An update is accepted exactly where it names its track one way, sets nothing
/// to null that must be set, has filters in their ranges, an end time above
/// zero and a whole voice state.
pub proof fn updates_are_accepted_where_they_are_whole(update: PlayerUpdate, ratio_supported: bool)
    ensures
        player::update_fault(update, ratio_supported) is None <==> {
            &&& update.track is Omitted || (update.encoded_track is Omitted && update.identifier
                is Omitted)
            &&& !(update.track is Null) && !(update.identifier is Null) && !(update.position is Null)
            &&& !(update.volume is Null) && !(update.paused is Null) && !(update.filters is Null)
            &&& !(update.voice is Null)
            &&& update.filters matches PatchField::Value(given) ==> filters::filters_fault(
                given,
                ratio_supported,
            ) is None
            &&& update.track matches PatchField::Value(track) ==> (track.encoded is Omitted
                || track.identifier is Omitted) && !(track.identifier is Null)
                && !(track.user_data is Null)
            &&& update.end_time matches PatchField::Value(end_time) ==> end_time > 0
            &&& update.voice matches PatchField::Value(voice) ==> says_something(voice.token@)
                && says_something(voice.endpoint@) && says_something(voice.session_id@)
                && voice.channel_id is Some && says_something(voice.channel_id->0@)
        },
{
    if update.voice is Value {
        let voice = update.voice->Value_0;
        blank_texts_say_nothing(voice.token@);
        blank_texts_say_nothing(voice.endpoint@);
        blank_texts_say_nothing(voice.session_id@);
        if voice.channel_id is Some {
            blank_texts_say_nothing(voice.channel_id->0@);
        }
    }
}

/// What stands against an update is told in words that name the member.
pub proof fn refused_updates_hear_why(update: PlayerUpdate, ratio_supported: bool)
    requires
        update.track is Omitted,
        update.filters is Omitted || update.filters is Null,
    ensures
        ({
            let fault = player::update_fault(update, ratio_supported);
            &&& update.identifier is Null ==> fault == Some("identifier must not be null")
            &&& !(update.identifier is Null) && update.position is Null ==> fault == Some(
                "position must not be null",
            )
            &&& !(update.identifier is Null) && !(update.position is Null) && update.volume is Null
                ==> fault == Some("volume must not be null")
            &&& !(update.identifier is Null) && !(update.position is Null) && !(update.volume
                is Null) && update.paused is Null ==> fault == Some("paused must not be null")
        }),
{
}

/// Whether an update is understood to ask this of the track.
pub open spec fn asks(update: PlayerUpdate, request: TrackRequest) -> bool {
    player::track_change(update) matches Ok(change) && change.request == request
}

/// The members of an update that ask for a track come from the track where it
/// is given, and from the older members otherwise.
pub proof fn the_track_comes_from_where_it_is_given(update: PlayerUpdate)
    ensures
        update.track matches PatchField::Value(track) ==> {
            &&& track.encoded matches PatchField::Value(encoded) ==> (track.identifier is Omitted
                ==> asks(update, TrackRequest::Encoded(encoded)))
            &&& track.identifier matches PatchField::Value(identifier) ==> (track.encoded is Omitted
                ==> asks(update, TrackRequest::Identifier(identifier)))
            &&& track.encoded is Null && track.identifier is Omitted ==> asks(update, TrackRequest::Stop)
            &&& track.encoded is Omitted && track.identifier is Omitted ==> asks(update, TrackRequest::Omitted)
            &&& player::track_change(update) matches Ok(change) ==> {
                &&& track.user_data matches PatchField::Value(data) ==> change.user_data == Some(
                    data,
                )
                &&& !(track.user_data is Value) ==> change.user_data is None
            }
        },
        update.track is Omitted ==> {
            &&& update.encoded_track matches PatchField::Value(encoded) ==> (update.identifier
                is Omitted ==> asks(update, TrackRequest::Encoded(encoded)))
            &&& update.identifier matches PatchField::Value(identifier) ==> (update.encoded_track
                is Omitted ==> asks(update, TrackRequest::Identifier(identifier)))
            &&& update.encoded_track is Null && update.identifier is Omitted
                ==> asks(update, TrackRequest::Stop)
            &&& player::track_change(update) matches Ok(change) ==> change.user_data is None
        },
{
}

/// The commands of a player run under a key that no other session or guild has.
pub proof fn keys_tell_players_apart(
    session: Seq<char>,
    guild: Seq<char>,
    other_session: Seq<char>,
    other_guild: Seq<char>,
)
    requires
        !session.contains('\0'),
        !other_session.contains('\0'),
        player::execution_key(session, guild) == player::execution_key(other_session, other_guild),
    ensures
        session == other_session,
        guild == other_guild,
{
    let key = player::execution_key(session, guild);
    assert(key[session.len() as int] == '\0');
    assert(key[other_session.len() as int] == '\0');
    if session.len() < other_session.len() {
        assert(other_session[session.len() as int] == '\0');
    }
    if other_session.len() < session.len() {
        assert(session[other_session.len() as int] == '\0');
    }
    assert(session =~= key.take(session.len() as int));
    assert(other_session =~= key.take(session.len() as int));
    assert(guild =~= key.skip(session.len() as int + 1));
    assert(other_guild =~= key.skip(session.len() as int + 1));
}

/// A voice failure keeps its words: what a client did wrong is told to it as
/// such, and only a full queue is told as one.
pub proof fn voice_failures_keep_their_words(error: VoiceError)
    ensures
        error.kind is Overloaded <==> voice::voice_fault(error) is Overloaded,
        error.kind is InvalidState <==> voice::voice_fault(error) == PlayerError::Invalid(
            error.message,
        ),
        !(error.kind is Overloaded) && !(error.kind is InvalidState) ==> voice::voice_fault(error)
            == PlayerError::Media(error.message),
        voice::is_deferred(error) <==> error.kind is NotReady,
{
}

/// A voice connection hears what kept playback from giving a frame.
pub proof fn missing_frames_are_explained(error: AdapterError)
    ensures
        voice::frame_fault(error).message@ == "Mantle frame production failed"@,
        error.kind is Cancelled <==> voice::frame_fault(error).kind is Cancelled,
        error.kind is Shutdown <==> voice::frame_fault(error).kind is Shutdown,
        error.kind is Overloaded <==> voice::frame_fault(error).kind is Overloaded,
        !(error.kind is Cancelled || error.kind is Shutdown || error.kind is Overloaded)
            ==> voice::frame_fault(error).kind is Protocol,
{
}

/// What is written behind a plus, where there is one.
pub open spec fn behind_plus(s: Seq<char>) -> Seq<char> {
    if s.len() > 0 && s[0] == '+' {
        s.skip(1)
    } else {
        s
    }
}

/// Whether a text is the number as it may be written: digits, with a plus at
/// most.
pub open spec fn writes_number(s: Seq<char>, number: u64) -> bool {
    &&& behind_plus(s).len() > 0
    &&& forall|i: int|
        0 <= i < behind_plus(s).len() ==> '0' <= #[trigger] behind_plus(s)[i] <= '9'
    &&& text::number_value(behind_plus(s)) == number
}

proof fn lemma_number(s: Seq<char>, number: u64)
    ensures
        writes_number(s, number) <==> voice::snowflake(s) == Some(number as int),
{
    assert(behind_plus(s) =~= text::unsigned_digits(s));
    if writes_number(s, number) {
        assert(text::all_digits(behind_plus(s)));
    }
    if voice::snowflake(s) is Some {
        assert forall|i: int| 0 <= i < behind_plus(s).len() implies '0'
            <= #[trigger] behind_plus(s)[i] <= '9' by {
            assert(text::is_digit(text::unsigned_digits(s)[i]));
        }
    }
}

/// A connection is opened with the numbers of its guild, its user and its
/// channel, each its own, and with the endpoint, the session and the token that
/// the voice state gives.
pub proof fn a_connection_is_opened_as_given(
    guild_id: Seq<char>,
    user_id: Seq<char>,
    voice: VoiceState,
    guild: u64,
    user: u64,
    channel: u64,
)
    ensures
        voice::connection_info(guild_id, user_id, voice) matches Ok(info) ==> {
            &&& writes_number(guild_id, info.guild_id)
            &&& writes_number(user_id, info.user_id)
            &&& voice.channel_id is Some && writes_number(voice.channel_id->0@, info.channel_id)
            &&& info.endpoint@ == voice.endpoint@
            &&& info.session_id@ == voice.session_id@
            &&& info.token@ == voice.token@
        },
        writes_number(guild_id, guild) && writes_number(user_id, user) && voice.channel_id is Some
            && writes_number(voice.channel_id->0@, channel) ==> voice::connection_info(
            guild_id,
            user_id,
            voice,
        ) is Ok,
        voice::snowflake(guild_id) is Some && voice::snowflake(user_id) is Some && voice.channel_id
            is None ==> voice::connection_info(guild_id, user_id, voice) == Err::<
            voice::VoiceConnectionInfo,
            PlayerError,
        >(PlayerError::Invalid("voice channel ID is required")),
{
    let info = voice::connection_info(guild_id, user_id, voice);
    lemma_number(guild_id, guild);
    lemma_number(user_id, user);
    if voice.channel_id is Some {
        lemma_number(voice.channel_id->0@, channel);
    }
    if info is Ok {
        lemma_number(guild_id, info->Ok_0.guild_id);
        lemma_number(user_id, info->Ok_0.user_id);
        lemma_number(voice.channel_id->0@, info->Ok_0.channel_id);
    }
}

/// A watch passes a close on with its code and its reason, unless fresh voice
/// information took over, and tells that audio may start when a connection
/// comes to be connected.
pub proof fn a_watch_tells_what_happens(connected: bool, event: MonitorEvent)
    ensures
        ({
            let (after, action) = voice::watched(connected, event);
            match event {
                MonitorEvent::Voice(VoiceEvent::Closed(close)) => if close.code == 0
                    && close.reason@ == "voice information replaced"@ {
                    after == connected && action is Wait
                } else {
                    action matches MonitorAction::Close(told) && told == close
                },
                MonitorEvent::Voice(VoiceEvent::PhaseChanged(phase)) => {
                    &&& after <==> phase is Connected
                    &&& action is Ready <==> phase is Connected && !connected
                    &&& action is Ready || action is Wait
                },
                MonitorEvent::Voice(VoiceEvent::SourceFailed(_)) => after == connected && action
                    is Wait,
                MonitorEvent::Ended => action is Stop,
            }
        }),
{
}

/// A new player plays nothing, at full volume, with no filter and no voice.
pub proof fn a_new_player_is_at_rest(state: PlayerState)
    requires
        call_ensures(PlayerState::new, (), state),
    ensures
        state.track is None && state.position_ms == 0 && state.volume == 100 && !state.paused,
        state.end_time_ms is None && state.voice_connection is None,
        !state.has_media && !state.outbound && !state.destroyed && !state.cancelled,
        state.filters@ == "{}"@,
        state.filter_configuration.volume is None && state.filter_configuration.timescale is None,
        state.voice.token@.len() == 0 && state.voice.channel_id is None,
{
}

} // verus!
