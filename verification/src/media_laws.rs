//! What clients read in the texts of tracks, load results and events.

use crate::json;
use crate::json::JsonObject;
use crate::media;
use crate::media::{
    AdapterError, LoadOutcome, MediaEvent, MediaTrack, PlayerError, PlaylistInfo, TrackEndReason,
    TrackMetadata, UserData,
};
use crate::text;
use crate::wire;
use crate::wire_laws;
use vstd::prelude::*;

verus! {

/// A text, or null where there is none.
pub open spec fn text_or_null(text: Option<String>) -> Seq<char> {
    match text {
        Some(text) => wire::json_quoted(text@),
        None => "null"@,
    }
}

/// A truth value by its name.
pub open spec fn truth(value: bool) -> Seq<char> {
    if value {
        "true"@
    } else {
        "false"@
    }
}

/// A track's description has each thing that is known of the track under its
/// own name.
pub proof fn a_description_tells_the_track(metadata: TrackMetadata, position_ms: u64)
    ensures
        ({
            let info = media::info_json(metadata, position_ms);
            &&& wire_laws::tells(info, "identifier"@, wire::json_quoted(metadata.identifier@))
            &&& wire_laws::tells(info, "title"@, wire::json_quoted(metadata.title@))
            &&& wire_laws::tells(info, "author"@, wire::json_quoted(metadata.author@))
            &&& wire_laws::tells(info, "length"@, text::decimal(metadata.duration_ms as nat))
            &&& wire_laws::tells(info, "position"@, text::decimal(position_ms as nat))
            &&& wire_laws::tells(info, "isSeekable"@, truth(metadata.seekable))
            &&& wire_laws::tells(info, "isStream"@, truth(metadata.stream))
            &&& wire_laws::tells(info, "sourceName"@, wire::json_quoted(metadata.source_name@))
            &&& wire_laws::tells(info, "uri"@, text_or_null(metadata.uri))
            &&& wire_laws::tells(info, "artworkUrl"@, text_or_null(metadata.artwork_url))
            &&& wire_laws::tells(info, "isrc"@, text_or_null(metadata.isrc))
        }),
{
    broadcast use wire_laws::group_members;

}

/// Tracks that differ only in their author, or only in their title, have
/// different descriptions.
pub proof fn descriptions_tell_tracks_apart(
    metadata: TrackMetadata,
    author: String,
    title: String,
    position_ms: u64,
)
    ensures
        author@ != metadata.author@ ==> media::info_json(
            TrackMetadata { author, ..metadata },
            position_ms,
        ) != media::info_json(metadata, position_ms),
        title@ != metadata.title@ ==> media::info_json(
            TrackMetadata { title, ..metadata },
            position_ms,
        ) != media::info_json(metadata, position_ms),
{
    lemma_author_apart(metadata, author, position_ms);
    lemma_title_apart(metadata, title, position_ms);
}

/// The members behind the author.
spec fn behind_author(metadata: TrackMetadata, position_ms: u64) -> Seq<char> {
    let m = seq!['x'];
    let m = wire::with_member(m, "identifier"@, wire::json_quoted(metadata.identifier@));
    let m = wire::with_member(m, "isSeekable"@, wire::json_bool(metadata.seekable));
    let m = wire::with_member(m, "isStream"@, wire::json_bool(metadata.stream));
    let m = wire::with_member(m, "isrc"@, wire::json_optional(metadata.isrc));
    let m = wire::with_member(m, "length"@, text::decimal(metadata.duration_ms as nat));
    let m = wire::with_member(m, "position"@, text::decimal(position_ms as nat));
    let m = wire::with_member(m, "sourceName"@, wire::json_quoted(metadata.source_name@));
    let m = wire::with_member(m, "title"@, wire::json_quoted(metadata.title@));
    let m = wire::with_member(m, "uri"@, wire::json_optional(metadata.uri));
    m.skip(1)
}

/// What comes behind a member does not depend on it.
proof fn lemma_behind(members: Seq<char>, rest: Seq<char>, name: Seq<char>, value: Seq<char>)
    requires
        members.len() > 0,
    ensures
        wire::with_member(members + rest, name, value) == members + (wire::with_member(
            seq!['x'] + rest,
            name,
            value,
        )).skip(1),
{
    assert(wire::with_member(members + rest, name, value) =~= members + (wire::with_member(
        seq!['x'] + rest,
        name,
        value,
    )).skip(1));
}

/// Objects that differ in one string differ.
proof fn lemma_apart(
    head: Seq<char>,
    name: Seq<char>,
    a: Seq<char>,
    b: Seq<char>,
    rest: Seq<char>,
    open: Seq<char>,
    close: Seq<char>,
)
    requires
        open + (wire::with_member(head, name, wire::json_quoted(a)) + rest) + close == open + (
        wire::with_member(head, name, wire::json_quoted(b)) + rest) + close,
    ensures
        a == b,
{
    let x = open + (wire::with_member(head, name, wire::json_quoted(a)) + rest) + close;
    let y = open + (wire::with_member(head, name, wire::json_quoted(b)) + rest) + close;
    let start = open + (if head.len() == 0 {
        head
    } else {
        head + ","@
    }) + "\""@ + name + "\":"@;
    let n = start.len() as int;
    assert(x =~= start + (wire::json_quoted(a) + (rest + close)));
    assert(y =~= start + (wire::json_quoted(b) + (rest + close)));
    assert(x.skip(n) =~= wire::json_quoted(a) + (rest + close));
    assert(y.skip(n) =~= wire::json_quoted(b) + (rest + close));
    wire_laws::strings_are_read_back(a, b, rest + close, rest + close);
}

proof fn lemma_author_apart(metadata: TrackMetadata, author: String, position_ms: u64)
    ensures
        author@ != metadata.author@ ==> media::info_json(
            TrackMetadata { author, ..metadata },
            position_ms,
        ) != media::info_json(metadata, position_ms),
{
    let other = TrackMetadata { author, ..metadata };
    let head = wire::with_member(
        Seq::empty(),
        "artworkUrl"@,
        wire::json_optional(metadata.artwork_url),
    );
    lemma_split_at_author(metadata, position_ms);
    lemma_split_at_author(other, position_ms);
    if media::info_json(other, position_ms) == media::info_json(metadata, position_ms) {
        lemma_apart(
            head,
            "author"@,
            author@,
            metadata.author@,
            behind_author(metadata, position_ms),
            "{"@,
            "}"@,
        );
    }
}

proof fn lemma_split_at_author(metadata: TrackMetadata, position_ms: u64)
    ensures
        ({
            let head = wire::with_member(
                Seq::empty(),
                "artworkUrl"@,
                wire::json_optional(metadata.artwork_url),
            );
            media::info_json(metadata, position_ms) == "{"@ + (wire::with_member(
                head,
                "author"@,
                wire::json_quoted(metadata.author@),
            ) + behind_author(metadata, position_ms)) + "}"@
        }),
{
    let head = wire::with_member(
        Seq::empty(),
        "artworkUrl"@,
        wire::json_optional(metadata.artwork_url),
    );
    let m = wire::with_member(head, "author"@, wire::json_quoted(metadata.author@));
    let x = seq!['x'];
    let e = Seq::<char>::empty();
    assert(m + e =~= m);
    assert(x + e =~= x);
    let (k1, v1) = ("identifier"@, wire::json_quoted(metadata.identifier@));
    let (k2, v2) = ("isSeekable"@, wire::json_bool(metadata.seekable));
    let (k3, v3) = ("isStream"@, wire::json_bool(metadata.stream));
    let (k4, v4) = ("isrc"@, wire::json_optional(metadata.isrc));
    let (k5, v5) = ("length"@, text::decimal(metadata.duration_ms as nat));
    let (k6, v6) = ("position"@, text::decimal(position_ms as nat));
    let (k7, v7) = ("sourceName"@, wire::json_quoted(metadata.source_name@));
    let (k8, v8) = ("title"@, wire::json_quoted(metadata.title@));
    let (k9, v9) = ("uri"@, wire::json_optional(metadata.uri));
    lemma_step(m, x, e, k1, v1);
    let r1 = wire::with_member(x, k1, v1).skip(1);
    lemma_step(m, x, r1, k2, v2);
    let r2 = wire::with_member(x + r1, k2, v2).skip(1);
    lemma_step(m, x, r2, k3, v3);
    let r3 = wire::with_member(x + r2, k3, v3).skip(1);
    lemma_step(m, x, r3, k4, v4);
    let r4 = wire::with_member(x + r3, k4, v4).skip(1);
    lemma_step(m, x, r4, k5, v5);
    let r5 = wire::with_member(x + r4, k5, v5).skip(1);
    lemma_step(m, x, r5, k6, v6);
    let r6 = wire::with_member(x + r5, k6, v6).skip(1);
    lemma_step(m, x, r6, k7, v7);
    let r7 = wire::with_member(x + r6, k7, v7).skip(1);
    lemma_step(m, x, r7, k8, v8);
    let r8 = wire::with_member(x + r7, k8, v8).skip(1);
    lemma_step(m, x, r8, k9, v9);
    let r9 = wire::with_member(x + r8, k9, v9).skip(1);
    assert(behind_author(metadata, position_ms) == r9);
}

/// A member behind `x` and one behind `m` are the same member.
proof fn lemma_step(m: Seq<char>, x: Seq<char>, rest: Seq<char>, name: Seq<char>, value: Seq<char>)
    requires
        m.len() > 0,
        x == seq!['x'],
    ensures
        ({
            let next = wire::with_member(x + rest, name, value).skip(1);
            &&& wire::with_member(m + rest, name, value) == m + next
            &&& wire::with_member(x + rest, name, value) == x + next
        }),
{
    lemma_behind(m, rest, name, value);
    lemma_behind(x, rest, name, value);
}

proof fn lemma_title_apart(metadata: TrackMetadata, title: String, position_ms: u64)
    ensures
        title@ != metadata.title@ ==> media::info_json(
            TrackMetadata { title, ..metadata },
            position_ms,
        ) != media::info_json(metadata, position_ms),
{
    let other = TrackMetadata { title, ..metadata };
    let m = Seq::<char>::empty();
    let m = wire::with_member(m, "artworkUrl"@, wire::json_optional(metadata.artwork_url));
    let m = wire::with_member(m, "author"@, wire::json_quoted(metadata.author@));
    let m = wire::with_member(m, "identifier"@, wire::json_quoted(metadata.identifier@));
    let m = wire::with_member(m, "isSeekable"@, wire::json_bool(metadata.seekable));
    let m = wire::with_member(m, "isStream"@, wire::json_bool(metadata.stream));
    let m = wire::with_member(m, "isrc"@, wire::json_optional(metadata.isrc));
    let m = wire::with_member(m, "length"@, text::decimal(metadata.duration_ms as nat));
    let m = wire::with_member(m, "position"@, text::decimal(position_ms as nat));
    let m = wire::with_member(m, "sourceName"@, wire::json_quoted(metadata.source_name@));
    let rest = ","@ + "\""@ + "uri"@ + "\":"@ + wire::json_optional(metadata.uri);
    lemma_uri_behind(m, metadata.title@, metadata.uri);
    lemma_uri_behind(m, title@, metadata.uri);
    if media::info_json(other, position_ms) == media::info_json(metadata, position_ms) {
        lemma_apart(m, "title"@, title@, metadata.title@, rest, "{"@, "}"@);
    }
}

proof fn lemma_uri_behind(m: Seq<char>, title: Seq<char>, uri: Option<String>)
    ensures
        wire::with_member(
            wire::with_member(m, "title"@, wire::json_quoted(title)),
            "uri"@,
            wire::json_optional(uri),
        ) == wire::with_member(m, "title"@, wire::json_quoted(title)) + (","@ + "\""@ + "uri"@
            + "\":"@ + wire::json_optional(uri)),
{
    let head = wire::with_member(m, "title"@, wire::json_quoted(title));
    assert(wire::with_member(head, "uri"@, wire::json_optional(uri)) =~= head + (","@ + "\""@
        + "uri"@ + "\":"@ + wire::json_optional(uri)));
}

/// A track has its text, its description, and what plugins and clients keep
/// with it under their names; a client that keeps nothing keeps an empty object.
pub proof fn a_track_tells_its_parts(track: MediaTrack, position_ms: u64, user_data: UserData)
    ensures
        ({
            let shown = media::track_json(track, position_ms, user_data);
            &&& wire_laws::tells(shown, "encoded"@, wire::json_quoted(track.encoded@))
            &&& wire_laws::tells(shown, "info"@, media::info_json(track.metadata, position_ms))
            &&& wire_laws::tells(shown, "pluginInfo"@, json::object_text(*track.plugin_info))
            &&& wire_laws::tells(
                shown,
                "userData"@,
                match user_data {
                    Some(data) => json::object_text(*data),
                    None => seq!['{', '}'],
                },
            )
        }),
{
    broadcast use wire_laws::group_members;

    reveal_strlit("{");
    reveal_strlit("}");
    assert("{"@ + Seq::<char>::empty() + "}"@ =~= seq!['{', '}']);
}

/// The texts of tracks as loads give them: at their start, with nothing that a
/// client keeps.
pub open spec fn fresh_tracks(tracks: Seq<MediaTrack>) -> Seq<Seq<char>> {
    tracks.map_values(|track: MediaTrack| media::track_json(track, 0, None))
}

proof fn lemma_track_text(track: MediaTrack)
    ensures
        media::track_json(track, 0, None).len() > 0,
{
    reveal_strlit("{");
}

proof fn lemma_fresh_texts(tracks: Seq<MediaTrack>)
    ensures
        forall|i: int|
            0 <= i < fresh_tracks(tracks).len() ==> (#[trigger] fresh_tracks(tracks)[i]).len() > 0,
{
    assert forall|i: int| 0 <= i < fresh_tracks(tracks).len() implies (#[trigger] fresh_tracks(
        tracks,
    )[i]).len() > 0 by {
        lemma_track_text(tracks[i]);
    }
}

proof fn lemma_fresh(tracks: Seq<MediaTrack>)
    requires
        tracks.len() > 0,
    ensures
        fresh_tracks(tracks) == fresh_tracks(tracks.drop_last()).push(
            media::track_json(tracks.last(), 0, None),
        ),
{
    assert(fresh_tracks(tracks) =~= fresh_tracks(tracks.drop_last()).push(
        media::track_json(tracks.last(), 0, None),
    ));
}

proof fn lemma_loaded(tracks: Seq<MediaTrack>)
    ensures
        media::loaded_tracks(tracks) == wire_laws::joined(fresh_tracks(tracks)),
    decreases tracks.len(),
{
    if tracks.len() > 0 {
        let front = tracks.drop_last();
        lemma_loaded(front);
        lemma_fresh(tracks);
        lemma_fresh_texts(front);
        wire_laws::items_join(fresh_tracks(front), media::track_json(tracks.last(), 0, None));
    }
}

/// The answer to a load says what was found and holds it: a track, the tracks
/// of a search or a playlist in their order, or nothing. Each stands at its
/// start.
pub proof fn a_load_is_answered_with_what_it_found(outcome: LoadOutcome)
    ensures
        ({
            let shown = media::load_result_json(outcome);
            match outcome {
                LoadOutcome::Track(track) => wire_laws::tells(
                    shown,
                    "loadType"@,
                    wire::json_quoted("track"@),
                ) && wire_laws::tells(shown, "data"@, media::track_json(track, 0, None)),
                LoadOutcome::Search(tracks) => wire_laws::tells(
                    shown,
                    "loadType"@,
                    wire::json_quoted("search"@),
                ) && wire_laws::tells(
                    shown,
                    "data"@,
                    wire_laws::array_of(fresh_tracks(tracks@)),
                ),
                LoadOutcome::Playlist { info, plugin_info, tracks } => wire_laws::tells(
                    shown,
                    "loadType"@,
                    wire::json_quoted("playlist"@),
                ) && wire_laws::tells(
                    shown,
                    "data"@,
                    media::playlist_json(info, *plugin_info, tracks@),
                ),
                LoadOutcome::NoMatches => wire_laws::tells(
                    shown,
                    "loadType"@,
                    wire::json_quoted("empty"@),
                ) && wire_laws::tells(shown, "data"@, "null"@),
            }
        }),
{
    broadcast use wire_laws::group_members;

    if let LoadOutcome::Search(tracks) = outcome {
        lemma_loaded(tracks@);
        wire_laws::brackets_make_arrays(fresh_tracks(tracks@));
    }
}

/// A playlist has its name, the place of the selected track, or minus one where
/// none is, and its tracks in their order.
pub proof fn a_playlist_tells_its_tracks(
    info: PlaylistInfo,
    plugin_info: JsonObject,
    tracks: Seq<MediaTrack>,
)
    ensures
        ({
            let shown = media::playlist_json(info, plugin_info, tracks);
            exists|about: Seq<char>|
                {
                    &&& #[trigger] wire_laws::tells(shown, "info"@, about)
                    &&& wire_laws::tells(about, "name"@, wire::json_quoted(info.name@))
                    &&& match info.selected_track {
                        Some(index) => index <= i64::MAX ==> wire_laws::tells(
                            about,
                            "selectedTrack"@,
                            text::decimal(index as nat),
                        ),
                        None => wire_laws::tells(about, "selectedTrack"@, seq!['-', '1']),
                    }
                }
        }),
        ({
            let shown = media::playlist_json(info, plugin_info, tracks);
            &&& wire_laws::tells(shown, "pluginInfo"@, json::object_text(plugin_info))
            &&& wire_laws::tells(shown, "tracks"@, wire_laws::array_of(fresh_tracks(tracks)))
        }),
{
    lemma_loaded(tracks);
    wire_laws::brackets_make_arrays(fresh_tracks(tracks));
    let about = about_playlist(info);
    lemma_about_playlist(info);
    lemma_playlist_parts(info, plugin_info, tracks);
    assert(wire_laws::tells(media::playlist_json(info, plugin_info, tracks), "info"@, about));
}

spec fn about_playlist(info: PlaylistInfo) -> Seq<char> {
    let m = wire::with_member(Seq::empty(), "name"@, wire::json_quoted(info.name@));
    wire::braces(
        wire::with_member(
            m,
            "selectedTrack"@,
            text::signed_decimal(media::selected_json(info.selected_track)),
        ),
    )
}

proof fn lemma_about_playlist(info: PlaylistInfo)
    ensures
        wire_laws::tells(about_playlist(info), "name"@, wire::json_quoted(info.name@)),
        match info.selected_track {
            Some(index) => index <= i64::MAX ==> wire_laws::tells(
                about_playlist(info),
                "selectedTrack"@,
                text::decimal(index as nat),
            ),
            None => wire_laws::tells(about_playlist(info), "selectedTrack"@, seq!['-', '1']),
        },
{
    broadcast use wire_laws::group_members;

    assert(text::decimal(1) =~= seq!['1']);
    assert(text::signed_decimal(-1) =~= seq!['-', '1']);
}

proof fn lemma_playlist_parts(
    info: PlaylistInfo,
    plugin_info: JsonObject,
    tracks: Seq<MediaTrack>,
)
    ensures
        ({
            let shown = media::playlist_json(info, plugin_info, tracks);
            &&& wire_laws::tells(shown, "info"@, about_playlist(info))
            &&& wire_laws::tells(shown, "pluginInfo"@, json::object_text(plugin_info))
            &&& wire_laws::tells(
                shown,
                "tracks"@,
                wire::brackets(media::loaded_tracks(tracks)),
            )
        }),
{
    broadcast use wire_laws::group_members;

}

/// Whether a text is an event of a guild about a track, which stands at its
/// start, with what the client keeps with it.
pub open spec fn is_event_of(
    shown: Seq<char>,
    kind: Seq<char>,
    guild_id: Seq<char>,
    track: MediaTrack,
    user_data: UserData,
) -> bool {
    &&& wire_laws::tells(shown, "op"@, wire::json_quoted("event"@))
    &&& wire_laws::tells(shown, "type"@, wire::json_quoted(kind))
    &&& wire_laws::tells(shown, "guildId"@, wire::json_quoted(guild_id))
    &&& wire_laws::tells(shown, "track"@, media::track_json(track, 0, user_data))
}

/// An event says what happened to which track of which guild, and with it why
/// the track ended, what went wrong, or how long nothing came.
pub proof fn an_event_tells_what_happened(
    guild_id: Seq<char>,
    event: MediaEvent,
    user_data: UserData,
)
    ensures
        ({
            let shown = media::event_json(guild_id, event, user_data);
            match event {
                MediaEvent::TrackStart(track) => is_event_of(
                    shown,
                    "TrackStartEvent"@,
                    guild_id,
                    track,
                    user_data,
                ),
                MediaEvent::TrackEnd { track, reason } => is_event_of(
                    shown,
                    "TrackEndEvent"@,
                    guild_id,
                    track,
                    user_data,
                ) && wire_laws::tells(
                    shown,
                    "reason"@,
                    wire::json_quoted(
                        match reason {
                            TrackEndReason::Finished => "finished"@,
                            TrackEndReason::LoadFailed => "loadFailed"@,
                            TrackEndReason::Stopped => "stopped"@,
                            TrackEndReason::Replaced => "replaced"@,
                            TrackEndReason::Cleanup => "cleanup"@,
                        },
                    ),
                ),
                MediaEvent::TrackError { track, message } => is_event_of(
                    shown,
                    "TrackExceptionEvent"@,
                    guild_id,
                    track,
                    user_data,
                ) && tells_exception(shown, message@),
                MediaEvent::TrackStuck { track, threshold_ms } => is_event_of(
                    shown,
                    "TrackStuckEvent"@,
                    guild_id,
                    track,
                    user_data,
                ) && wire_laws::tells(shown, "thresholdMs"@, text::decimal(threshold_ms as nat)),
            }
        }),
{
    broadcast use wire_laws::group_members;

    if let MediaEvent::TrackError { track, message } = event {
        a_failure_tells_what_went_wrong(guild_id, track, message@, user_data);
    }
}

/// Whether a text has an exception that says what went wrong, and that it is a
/// fault of the server.
pub open spec fn tells_exception(shown: Seq<char>, message: Seq<char>) -> bool {
    exists|exception: Seq<char>|
        {
            &&& #[trigger] wire_laws::tells(shown, "exception"@, exception)
            &&& wire_laws::tells(exception, "message"@, wire::json_quoted(message))
            &&& wire_laws::tells(exception, "severity"@, wire::json_quoted("fault"@))
            &&& wire_laws::tells(exception, "cause"@, wire::json_quoted(message))
            &&& wire_laws::tells(exception, "causeStackTrace"@, wire::json_quoted(message))
        }
}

/// A track that failed while it played is told with what went wrong.
pub proof fn a_failure_tells_what_went_wrong(
    guild_id: Seq<char>,
    track: MediaTrack,
    message: Seq<char>,
    user_data: UserData,
)
    ensures
        is_event_of(
            media::failure_json(guild_id, track, message, user_data),
            "TrackExceptionEvent"@,
            guild_id,
            track,
            user_data,
        ),
        tells_exception(media::failure_json(guild_id, track, message, user_data), message),
{
    broadcast use wire_laws::group_members;

    let shown = media::failure_json(guild_id, track, message, user_data);
    assert(wire_laws::tells(shown, "exception"@, media::exception_json(message)));
}

/// A refusal of the adapter keeps its words, but for an overload; what the
/// client got wrong is told apart from what the server could not do.
pub proof fn adapter_refusals_keep_their_words(error: AdapterError)
    ensures
        error.kind is InvalidTrack || error.kind is LoadFailed ==> media::adapter_fault(error)
            == PlayerError::Invalid(error.message),
        error.kind is Overloaded ==> media::adapter_fault(error) == PlayerError::Overloaded,
        error.kind is InvalidOperation || error.kind is Cancelled || error.kind is Shutdown
            ==> media::adapter_fault(error) == PlayerError::Media(error.message),
{
}

} // verus!
