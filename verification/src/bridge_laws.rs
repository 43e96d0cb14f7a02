//! What voice connections and sources are answered with.

use crate::bridge;
use crate::bridge::{
    Backend, Bridge, CloseReason, Connection, ConnectionPhase, ConnectionReport, ErrorKind,
    NextEvent, Operation, ProducerEvent, ProducerStage, Standing, Wake,
};
use crate::media::{LoadOutcome, MediaTrack, TrackMetadata};
use crate::source;
use crate::source::{
    DecodedItem, OpenNeed, OpenReply, OpenStage, OpenStep, RouteOutcome, Sending, SessionKind,
    SourceAnswer, SourceItem, SourceTrack, TrackInfo, YoutubeErrorKind, YoutubePlaybackErrorKind,
};
use crate::media::AdapterError;
use crate::voice::{VoiceError, VoiceEvent, VoicePhase};
use vstd::prelude::*;

verus! {

/// A connection counts as reconnecting exactly while it is being resumed,
/// reconnected or waits for fresh voice information, and as closed exactly
/// where it closed, failed or is something unknown.
pub proof fn phases_are_told(phase: ConnectionPhase)
    ensures
        ({
            let told = bridge::phase_of(phase);
            &&& told is ConnectingGateway <==> phase is Connecting
            &&& told is WaitingReady <==> phase is Handshaking
            &&& told is DiscoveringUdp <==> phase is EstablishingTransport
            &&& told is PreparingDave <==> phase is EstablishingDave
            &&& told is Connected <==> phase is Connected
            &&& told is Reconnecting <==> phase is Resuming || phase is Reconnecting || phase
                is NeedsFreshVoiceInfo
            &&& told is Closing <==> phase is Closing
            &&& told is Closed <==> phase is Closed || phase is Failed || phase is Other
        }),
{
}

/// A close carries the code of the other side where it gave one; a clean one is
/// told as 1000, and another as zero. Only the other side closes remotely.
pub proof fn closes_are_told(reason: CloseReason)
    ensures
        ({
            let (code, words, by_remote) = bridge::close_of(reason);
            &&& reason matches CloseReason::RemoteCode(given) ==> code == given
            &&& reason is ExplicitShutdown || reason is CleanRemote ==> code == 1000
            &&& reason is VoiceInfoReplaced || reason is TerminalFailure || reason is Other ==> code
                == 0
            &&& by_remote <==> reason is CleanRemote || reason is RemoteCode
            &&& reason is VoiceInfoReplaced <==> words == "voice information replaced"@
            &&& reason is ExplicitShutdown ==> words == "explicit shutdown"@
            &&& reason is CleanRemote ==> words == "clean remote close"@
            &&& reason is RemoteCode ==> words == "remote voice close"@
            &&& reason is TerminalFailure ==> words == "terminal voice failure"@
            &&& reason is Other ==> words == "voice connection closed"@
        }),
{
    reveal_strlit("voice information replaced");
    reveal_strlit("explicit shutdown");
    reveal_strlit("clean remote close");
    reveal_strlit("remote voice close");
    reveal_strlit("terminal voice failure");
    reveal_strlit("voice connection closed");
    assert("voice information replaced"@.len() == 26);
}

/// Audio has to wait exactly where it starts before its keys or its transport
/// are there; a full queue, a shutdown and a wrong configuration are told apart
/// from a broken protocol and a failed connection.
pub proof fn voice_failures_are_told_apart(operation: Operation, kind: ErrorKind)
    ensures
        ({
            let told = bridge::failure_of(operation, kind);
            let waits = operation is StartAudio && (kind is DaveRequired || kind is EndpointOrTls);
            &&& told.kind is NotReady <==> waits
            &&& told.kind is Shutdown <==> kind is Shutdown
            &&& told.kind is Overloaded <==> kind is ResourceLimit || kind is Overloaded
            &&& told.kind is InvalidState <==> kind is InvalidConfiguration || kind
                is InvalidVoiceInfo || kind is RuntimeUnavailable || kind is Superseded
            &&& told.kind is Protocol <==> !waits && (kind is GatewayProtocol || kind
                is UnsupportedTransport || kind is TransportCrypto || kind is DaveRequired || kind
                is DaveUnsupported || kind is DaveTransition || kind is FrameSourceContract)
            &&& !(operation is StartAudio) ==> told.message@ == "Oto voice operation failed"@
            &&& operation is StartAudio && kind is DaveRequired ==> told.message@
                == "Oto DAVE setup is not ready for audio"@
            &&& operation is StartAudio && kind is EndpointOrTls ==> told.message@
                == "Oto transport is not ready for audio"@
            &&& operation is StartAudio && kind is NeedsFreshVoiceInfo ==> told.message@
                == "Oto requires fresh voice information before audio can start"@
        }),
{
}

/// A connection is opened exactly where the backend runs, nobody gave up, and
/// there is room both for it and for its opening.
pub proof fn connections_are_opened_where_there_is_room(backend: Backend, cancelled: bool)
    ensures
        ({
            let fault = bridge::connect_fault(backend, cancelled);
            &&& fault is None <==> !backend.shutting_down && !cancelled && backend.connection_slots
                > 0 && backend.connect_slots > 0
            &&& backend.shutting_down ==> fault is Some && fault->0.kind is Shutdown
            &&& !backend.shutting_down && cancelled ==> fault is Some && fault->0.kind is Cancelled
            &&& !backend.shutting_down && !cancelled && backend.connection_slots == 0 ==> fault
                is Some && fault->0.kind is Overloaded && fault->0.message@
                == "voice connection capacity reached"@
            &&& !backend.shutting_down && !cancelled && backend.connection_slots > 0
                && backend.connect_slots == 0 ==> fault is Some && fault->0.kind is Overloaded
                && fault->0.message@ == "voice connection admission is busy"@
        }),
{
}

/// Audio is attached exactly where the connection is open, nobody gave up and no
/// other change of it is under way.
pub proof fn audio_is_attached_to_open_connections(connection: Connection, cancelled: bool)
    ensures
        ({
            let fault = bridge::attach_fault(connection, cancelled);
            &&& fault is None <==> !cancelled && !connection.closed && !(connection.audio is Closed)
                && !(connection.audio is Busy)
            &&& cancelled ==> fault is Some && fault->0.kind is Cancelled
            &&& !cancelled && (connection.closed || connection.audio is Closed) ==> fault is Some
                && fault->0.kind is Shutdown
            &&& !cancelled && !connection.closed && connection.audio is Busy ==> fault is Some
                && fault->0.kind is Overloaded
        }),
{
}

/// A connection that is held is one that was held and still lives.
pub proof fn live_connections_are_held(connections: Seq<u64>, live: Seq<u64>, number: u64)
    ensures
        bridge::held(connections, live).contains(number) <==> connections.contains(number)
            && live.contains(number),
    decreases connections.len(),
{
    if connections.len() > 0 {
        let front = connections.drop_last();
        live_connections_are_held(front, live, number);
        let before = bridge::held(front, live);
        let all = bridge::held(connections, live);
        if front.contains(number) {
            let i = choose|i: int| 0 <= i < front.len() && front[i] == number;
            assert(connections[i] == number);
        }
        if connections.last() == number {
            assert(connections[connections.len() - 1] == number);
        }
        if connections.contains(number) && connections.last() != number {
            let i = choose|i: int| 0 <= i < connections.len() && connections[i] == number;
            assert(front[i] == number);
        }
        assert(bridge::listed_in(live, connections.last()) <==> live.contains(connections.last()));
        if bridge::listed_in(live, connections.last()) {
            if before.contains(number) {
                let i = choose|i: int| 0 <= i < before.len() && before[i] == number;
                assert(all[i] == number);
            }
            if connections.last() == number {
                assert(all[before.len() as int] == number);
            }
            if all.contains(number) && number != connections.last() {
                let i = choose|i: int| 0 <= i < all.len() && all[i] == number;
                assert(before[i] == number);
            }
        }
    }
}

/// A shutdown reports the failure that came first, and none where none did.
pub proof fn the_first_failure_is_reported(results: Seq<Result<(), VoiceError>>, k: int)
    ensures
        0 <= k < results.len() && results[k] is Err && (forall|i: int|
            0 <= i < k ==> #[trigger] results[i] is Ok) ==> bridge::first_failure(results)
            == results[k],
        (forall|i: int| 0 <= i < results.len() ==> #[trigger] results[i] is Ok)
            ==> bridge::first_failure(results) is Ok,
    decreases results.len(),
{
    if results.len() > 0 {
        let front = results.drop_last();
        the_first_failure_is_reported(front, k);
        assert forall|i: int| 0 <= i < front.len() implies #[trigger] front[i] == results[i] by {}
        if 0 <= k < results.len() && results[k] is Err && (forall|i: int|
            0 <= i < k ==> #[trigger] results[i] is Ok) {
            if k == front.len() {
                assert forall|i: int| 0 <= i < front.len() implies #[trigger] front[i] is Ok by {
                    assert(results[i] is Ok);
                }
            } else {
                assert(front[k] == results[k]);
                assert forall|i: int| 0 <= i < k implies #[trigger] front[i] is Ok by {
                    assert(results[i] is Ok);
                }
            }
        }
        if forall|i: int| 0 <= i < results.len() ==> #[trigger] results[i] is Ok {
            assert forall|i: int| 0 <= i < front.len() implies #[trigger] front[i] is Ok by {
                assert(results[i] is Ok);
            }
            assert(results[results.len() - 1] is Ok);
        }
    }
}

/// What a connection reports is passed on as it is: a change of phase, a close
/// and a failure that cannot be mended; others are waited past.
pub proof fn reports_are_passed_on(r: NextEvent, wake: Wake)
    requires
        bridge::is_woken_event(r, wake),
    ensures
        wake is Cancelled ==> r is Fail && r->Fail_0.kind is Cancelled,
        wake matches Wake::Report(ConnectionReport::Failure { recoverable }) ==> (recoverable <==> r
            is Again),
        wake matches Wake::Report(ConnectionReport::Closed(reason)) ==> (reason matches
            CloseReason::RemoteCode(code) ==> (r matches NextEvent::Give(VoiceEvent::Closed(close))
            && close.code == code && close.by_remote)),
        wake matches Wake::Report(ConnectionReport::StateChanged(phase)) ==> (phase is Connected ==>
            r == NextEvent::Give(VoiceEvent::PhaseChanged(VoicePhase::Connected))),
        wake == Wake::Report(ConnectionReport::Ended) ==> r is Ended,
        wake == Wake::Report(ConnectionReport::Lagged) ==> r is Fail && r->Fail_0.kind is Overloaded,
{
}

/// A failed sender is told before a failed source, and either before anything
/// new.
pub proof fn standing_failures_come_first(r: NextEvent, standing: Standing)
    requires
        bridge::is_standing_event(r, standing),
    ensures
        standing.sender_failure is Some <==> r matches NextEvent::Give(VoiceEvent::Closed(_)),
        standing.sender_failure is None ==> (standing.source_failure matches Some(error) ==> r
            == NextEvent::Give(VoiceEvent::SourceFailed(error))),
        standing.sender_failure is None && standing.source_failure is None ==> r is Again,
{
}

/// Frames are taken one after another: one is asked for once the one before was
/// used, until the source ends or fails, which is kept.
pub proof fn frames_are_taken_in_turn(bridge_state: Bridge, error: VoiceError)
    ensures
        bridge::produced(bridge_state, ProducerStage::Source, ProducerEvent::Frame).1 == Some(
            ProducerStage::Send,
        ),
        bridge::produced(bridge_state, ProducerStage::Send, ProducerEvent::Sent).1 == Some(
            ProducerStage::Consumption,
        ),
        bridge_state.state is Running <==> bridge::produced(
            bridge_state,
            ProducerStage::Consumption,
            ProducerEvent::Consumed,
        ).1 == Some(ProducerStage::Source),
        ({
            let (after, next) = bridge::produced(
                bridge_state,
                ProducerStage::Source,
                ProducerEvent::End,
            );
            next is None && after.state is Ended && after.failure == bridge_state.failure
        }),
        ({
            let (after, next) = bridge::produced(
                bridge_state,
                ProducerStage::Source,
                ProducerEvent::Failure(error),
            );
            next is None && after.state is Failed && after.failure == Some(error)
        }),
{
}

/// A request is taken exactly where the adapter runs, nobody gave up and the
/// queue has room; otherwise it hears which of them it was.
pub proof fn requests_are_taken_where_there_is_room(shut_down: bool, cancelled: bool, sending: Sending)
    ensures
        source::request_fault(shut_down, cancelled, sending) is Ok <==> !shut_down && !cancelled
            && sending is Sent,
        source::request_fault(shut_down, cancelled, sending) matches Err(error) ==> {
            &&& shut_down ==> error.kind is Shutdown
            &&& !shut_down && cancelled ==> error.kind is Cancelled
            &&& !shut_down && !cancelled && sending is Full ==> error.kind is Overloaded
            &&& !shut_down && !cancelled && sending is Closed ==> error.kind is Shutdown
        },
        source::tokens_fault(shut_down, cancelled) is Ok <==> !shut_down && !cancelled,
        source::tokens_fault(shut_down, cancelled) matches Err(error) ==> (error.kind is Cancelled
            <==> cancelled) && (error.kind is Shutdown <==> !cancelled),
{
}

/// A track keeps what its source tells of it, in whole milliseconds, and can be
/// sought exactly where it is no stream.
pub proof fn tracks_keep_what_their_source_tells(
    metadata: TrackMetadata,
    info: TrackInfo,
    name: Seq<char>,
)
    requires
        source::is_metadata_of(metadata, info, name),
    ensures
        metadata.title@ == info.title@,
        metadata.author@ == info.author@,
        metadata.identifier@ == info.identifier@,
        metadata.source_name@ == name,
        metadata.uri == info.uri,
        metadata.artwork_url == info.artwork_url,
        metadata.isrc == info.isrc,
        metadata.stream <==> info.is_stream,
        metadata.seekable <==> !info.is_stream,
        info.duration.nanos < 1_000_000_000_000_000_000_000_000 ==> metadata.duration_ms
            == info.duration.nanos / 1_000_000,
{
}

/// A source is told what is known of a track, its length in milliseconds.
pub proof fn sources_are_told_what_is_known(metadata: TrackMetadata)
    ensures
        ({
            let info = source::info_of(metadata);
            &&& info.title == metadata.title && info.author == metadata.author
            &&& info.identifier == metadata.identifier && info.is_stream == metadata.stream
            &&& info.uri == metadata.uri && info.artwork_url == metadata.artwork_url
            &&& info.isrc == metadata.isrc
            &&& info.duration.nanos == metadata.duration_ms * 1_000_000
        }),
{
}

/// What a source found is answered as what it is: one track, what a search
/// found, or a playlist with its name and its chosen track, each track in its
/// place.
pub proof fn findings_are_answered_as_they_are(
    r: Result<LoadOutcome, AdapterError>,
    item: SourceItem,
    i: int,
)
    requires
        source::is_outcome_of(r, item),
    ensures
        item matches SourceItem::Track(found) ==> (r is Ok <==> found.serialized is Some) && (r
            matches Ok(LoadOutcome::Track(track)) ==> is_found(track, found)),
        item matches SourceItem::Playlist { name, selected_track, is_search_result, tracks } ==> {
            &&& r matches Ok(LoadOutcome::Search(made)) ==> is_search_result && made@.len()
                == tracks@.len() && (0 <= i < made@.len() ==> is_found(made@[i], tracks@[i]))
            &&& r matches Ok(LoadOutcome::Playlist { info, tracks: made, .. }) ==> !is_search_result
                && info.name@ == name@ && info.selected_track == selected_track && made@.len()
                == tracks@.len() && (0 <= i < made@.len() ==> is_found(made@[i], tracks@[i]))
            &&& r is Ok ==> (r->Ok_0 is Search || r->Ok_0 is Playlist)
        },
{
}

/// Whether a track is one that a source found.
pub open spec fn is_found(track: MediaTrack, found: SourceTrack) -> bool {
    &&& track.metadata.title@ == found.info.title@
    &&& track.metadata.author@ == found.info.author@
    &&& track.metadata.identifier@ == found.info.identifier@
    &&& track.metadata.source_name@ == "youtube"@
    &&& track.metadata.stream == found.info.is_stream
    &&& found.serialized is Some
    &&& crate::encoding::standard_base64_bytes(track.encoded@) == Some(found.serialized->0@)
}

/// What became of a load is reported to the route: found or failed, and nothing
/// where neither is known.
pub proof fn loads_are_reported(answer: SourceAnswer)
    ensures
        source::load_report(answer) == Some(RouteOutcome::SourceSuccess) <==> answer is Found,
        source::load_report(answer) == Some(RouteOutcome::SourceFailure) <==> answer is Failed,
        !(answer is Found) && !(answer is Failed) ==> source::load_report(answer) is None,
{
}

/// A failure of the source is told apart where the route has to know: too many
/// requests, nothing there, or anything else. Only one who gave up hears that.
pub proof fn source_failures_are_told_apart(kind: YoutubeErrorKind, playback: YoutubePlaybackErrorKind)
    ensures
        source::source_outcome(kind) is SourceRateLimited <==> kind is RateLimited,
        source::source_outcome(kind) is SourceUnavailable <==> kind is Unavailable || kind
            is LoginRequired,
        source::source_outcome(kind) is SourceSuccess ==> false,
        source::source_fault(kind).kind is Cancelled <==> kind is Cancelled,
        !(kind is Cancelled) ==> source::source_fault(kind).kind is LoadFailed,
        playback matches YoutubePlaybackErrorKind::Source(inner) ==> source::playback_outcome(
            playback,
        ) == source::source_outcome(inner) && (source::playback_fault(playback).kind is Cancelled
            <==> inner is Cancelled),
        !(playback is Source) ==> source::playback_outcome(playback) is SourceFailure,
        playback is Cancelled ==> source::playback_fault(playback).kind is Cancelled,
        playback is InvalidOptions || playback is IncompatibleFormat ==> source::playback_fault(
            playback,
        ).kind is InvalidOperation,
{
}

/// A track is opened by its identifier, live where its formats are, and what
/// came of it is reported to the route.
pub proof fn tracks_are_opened_as_they_are(
    identifier: String,
    item: DecodedItem,
    live: bool,
    routed: bool,
    staging: u64,
    kind: SessionKind,
)
    ensures
        item matches DecodedItem::Known { playable, .. } ==> (playable == Some(identifier) ==>
            source::open_moved(OpenStage::Deserialize, OpenReply::Item(item), routed, staging)
            == OpenStep::Ask(OpenStage::Discover, OpenNeed::Discover(identifier))),
        !(item is Known) ==> (source::open_moved(
            OpenStage::Deserialize,
            OpenReply::Item(item),
            routed,
            staging,
        ) matches OpenStep::Done { report, result } && report is None && result is Err
            && result->Err_0.kind is InvalidTrack),
        source::open_moved(OpenStage::Discover, OpenReply::Formats(Ok(live)), routed, staging) == (
        if live {
            OpenStep::Ask(OpenStage::Open(SessionKind::Live), OpenNeed::OpenLive { routed })
        } else {
            OpenStep::Ask(
                OpenStage::Open(SessionKind::Finite),
                OpenNeed::OpenFinite { routed, staging_max_bytes: staging },
            )
        }),
        source::open_moved(OpenStage::Open(kind), OpenReply::Opened(Ok(())), routed, staging) == (
        OpenStep::Done { report: Some(RouteOutcome::SourceSuccess), result: Ok(kind) }),
{
}

} // verus!
