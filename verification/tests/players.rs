use std::sync::Arc;

use crust_node::commands::{closed_value, resume_destroy, Step};
use crust_node::config::FilterConfig;
use crust_node::filters::{
    disabled_filter_names, filter_chain, normalize_filters, speed_only, validate_filters,
    FilterConfiguration, FilterStage, FilterTexts,
};
use crust_node::ieee::{Real32, Real64};
use crust_node::json::{Json, JsonPolicy};
use crust_node::media::{
    AdapterError, AdapterErrorKind, LoadOutcome, MediaEvent, MediaTrack, PlayerError,
    PlayerSnapshot, PlayerStatus, TrackEndReason, TrackMetadata,
};
use crust_node::player::{
    apply_mantle_snapshot, default_player_state, map_publish_error, normalized_track,
    player_value, send_result, validate_update, Player, PlayerState, TrackRequest,
};
use crust_node::protocol::{
    value, values_only, ChannelMix, Distortion, EqualizerBand, Filters, Karaoke, LowPass,
    PatchField, PlayerUpdate, PlayerUpdateTrack, Rotation, Timescale, Tremolo, VoiceState,
};
use crust_node::session::{PublishError, SessionPlayer};
use crust_node::span::Span;
use crust_node::stats::SessionPlayerStats;
use crust_node::text_map::TextMap;
use crust_node::update::{prepare_update, Need, Reply, Request, UpdateStep};
use crust_node::voice::{
    VoiceClose, VoiceCounters, VoiceError, VoiceErrorKind, VoicePhase, VoiceSnapshot,
};
use serde_json::Value;

fn policy() -> JsonPolicy {
    JsonPolicy { max_retained_bytes: 64, max_depth: 4, max_elements: 8 }
}

fn real32(value: f32) -> Real32 {
    Real32 { bits: value.to_bits() }
}

fn real64(value: f64) -> Real64 {
    Real64 { bits: value.to_bits() }
}

fn texts() -> FilterTexts {
    FilterTexts {
        volume: "1.5".to_owned(),
        equalizer: "[]".to_owned(),
        karaoke: "{}".to_owned(),
        timescale: "{}".to_owned(),
        tremolo: "{}".to_owned(),
        vibrato: "{}".to_owned(),
        distortion: "{}".to_owned(),
        rotation: "{}".to_owned(),
        channel_mix: "{}".to_owned(),
        low_pass: "{}".to_owned(),
    }
}

fn track(encoded: &str) -> MediaTrack {
    MediaTrack {
        encoded: encoded.to_owned(),
        metadata: TrackMetadata {
            identifier: "id".to_owned(),
            title: "title".to_owned(),
            author: "author".to_owned(),
            duration_ms: 1_000,
            seekable: true,
            stream: false,
            source_name: "fixture".to_owned(),
            uri: None,
            artwork_url: None,
            isrc: None,
        },
        plugin_info: Arc::new(TextMap::new()),
    }
}

fn voice() -> VoiceState {
    VoiceState {
        token: "token".to_owned(),
        endpoint: "localhost:1".to_owned(),
        session_id: "session".to_owned(),
        channel_id: Some("3".to_owned()),
    }
}

fn encoded(text: &str) -> PlayerUpdate {
    PlayerUpdate {
        track: PatchField::Value(PlayerUpdateTrack {
            encoded: PatchField::Value(text.to_owned()),
            ..PlayerUpdateTrack::default()
        }),
        ..PlayerUpdate::default()
    }
}

fn request(update: PlayerUpdate, no_replace: bool) -> Request {
    prepare_update(update, no_replace, true, policy(), &texts(), true).ok().unwrap()
}

fn player() -> Player {
    Player::new("session", "7".to_owned(), 0)
}

#[test]
fn a_new_player_has_sent_nothing_and_knows_no_voice() {
    let player = player();
    let stats = SessionPlayerStats { playing: false, sent: 0, nulled: 0, deficit: 0 };
    assert_eq!(player.cache.stats, stats);
    assert!(player.state.end_time_ms.is_none());
    assert!(player.state.voice.token.is_empty() && player.state.voice.endpoint.is_empty());
    assert!(player.state.voice.session_id.is_empty());
    assert!(player.state.voice.channel_id.is_none());
    assert!(player.state.filter_configuration.player_volume.is_none());
}

/// What the world around a player did.
#[derive(Default)]
struct World {
    connected: bool,
    refuse_audio: bool,
    refuse_permit: bool,
    refuse_play: bool,
    done: Vec<&'static str>,
}

fn voice_snapshot(phase: VoicePhase) -> VoiceSnapshot {
    VoiceSnapshot {
        phase,
        channel_id: Some(3),
        ping: Some(Span::from_millis(9)),
        counters: VoiceCounters { sent: 5, nulled: 1, deficit: 0 },
    }
}

impl World {
    fn perform(&mut self, need: Need) -> Reply {
        match need {
            Need::ConnectVoice(_) => {
                self.done.push("connect");
                Reply::Connected(Ok(11))
            }
            Need::UpdateVoice { .. } => {
                self.done.push("update voice");
                Reply::Voice(Ok(()))
            }
            Need::CreatePlayer => {
                self.done.push("create");
                Reply::Media(Ok(()))
            }
            Need::SetFilters(_) => {
                self.done.push("filters");
                Reply::Media(Ok(()))
            }
            Need::Pause(_) => {
                self.done.push("pause");
                Reply::Media(Ok(()))
            }
            Need::Seek(_) => {
                self.done.push("seek");
                Reply::Media(Ok(()))
            }
            Need::StopMedia => {
                self.done.push("stop");
                Reply::Media(Ok(()))
            }
            Need::PlayMedia(_) => {
                self.done.push("play");
                if self.refuse_play {
                    Reply::Media(Err(AdapterError {
                        kind: AdapterErrorKind::LoadFailed,
                        message: "no media",
                    }))
                } else {
                    Reply::Media(Ok(()))
                }
            }
            Need::NextEvent => Reply::Event(Ok(None)),
            Need::PublishEvent { .. } => Reply::Published(Ok(())),
            Need::AcquireOutbound | Need::AcquireLoad => {
                self.done.push("permit");
                Reply::Permit(!self.refuse_permit)
            }
            Need::Decode(text) => Reply::Decoded(Ok(track(&text))),
            Need::Load(text) => Reply::Loaded(Ok(LoadOutcome::Track(track(&text)))),
            Need::StartMonitor(_) | Need::StopMonitor => {
                self.done.push("monitor");
                Reply::Started
            }
            Need::SetAudio { .. } => {
                self.done.push("audio");
                if self.refuse_audio {
                    Reply::Voice(Err(VoiceError {
                        kind: VoiceErrorKind::NotReady,
                        message: "not yet",
                    }))
                } else {
                    Reply::Voice(Ok(()))
                }
            }
            Need::StopAudio(_) => {
                self.done.push("stop audio");
                Reply::Voice(Ok(()))
            }
            Need::SnapshotMedia => Reply::MediaSnapshot(Ok(PlayerSnapshot {
                status: PlayerStatus::Playing,
                track: Some(track("QAAA")),
                position_ms: 40,
            })),
            Need::SnapshotVoice(_) => Reply::VoiceSnapshot(Ok(voice_snapshot(if self.connected {
                VoicePhase::Connected
            } else {
                VoicePhase::WaitingReady
            }))),
            Need::PublishUpdate => {
                self.done.push("publish");
                Reply::Published(Ok(()))
            }
            Need::PublishFailure { .. } | Need::PublishClosed(_) => {
                self.done.push("tell");
                Reply::Published(Ok(()))
            }
            Need::ShutdownVoice(_) => {
                self.done.push("shut voice");
                Reply::Voice(Ok(()))
            }
            Need::ShutdownMedia => {
                self.done.push("shut media");
                Reply::Media(Ok(()))
            }
        }
    }

    fn update(
        &mut self,
        player: &mut Player,
        request: Request,
    ) -> Result<Option<VoiceSnapshot>, PlayerError> {
        let mut step = player.begin_update(request, true, "2", 0);
        loop {
            match step {
                UpdateStep::Ask(run, need) => {
                    let reply = self.perform(need);
                    step = player.resume_update(run, reply, 0);
                }
                UpdateStep::Done(result) => return result,
            }
        }
    }
}

#[test]
fn a_track_is_decoded_and_played() {
    let mut world = World::default();
    let mut player = player();
    assert!(world.update(&mut player, request(encoded("QAAA"), false)).is_ok());
    assert!(player.state.has_media);
    assert!(player.state.outbound);
    assert_eq!(player.state.track.as_ref().unwrap().media.encoded, "QAAA");
    assert_eq!(world.done, vec!["create", "permit", "play", "publish"]);
    assert_eq!(player.state.position_ms, 40);
}

#[test]
fn a_track_is_not_replaced_where_that_was_asked() {
    let mut world = World::default();
    let mut player = player();
    world.update(&mut player, request(encoded("QAAA"), false)).unwrap();
    world.done.clear();
    world.update(&mut player, request(encoded("QBBB"), true)).unwrap();
    assert!(!world.done.contains(&"play"));
    assert_eq!(player.state.track.as_ref().unwrap().media.encoded, "QAAA");
    world.update(&mut player, request(encoded("QBBB"), false)).unwrap();
    assert_eq!(player.state.track.as_ref().unwrap().media.encoded, "QBBB");
}

#[test]
fn no_replace_leaves_what_plays_alone_to_the_end() {
    let mut world = World { connected: true, ..World::default() };
    let mut player = player();
    world.update(&mut player, request(encoded("QAAA"), false)).unwrap();
    world.done.clear();
    let mut update = encoded("QBBB");
    update.voice = PatchField::Value(voice());
    update.volume = PatchField::Value(50);
    update.paused = PatchField::Value(true);
    update.position = PatchField::Value(9_000);
    update.end_time = PatchField::Value(10_000);
    world.update(&mut player, request(update, true)).unwrap();
    assert_eq!(world.done, vec!["connect", "filters", "monitor", "audio"]);
    assert_eq!(player.state.track.as_ref().unwrap().media.encoded, "QAAA");
    assert!(!player.state.paused);
    assert_eq!(player.state.position_ms, 40);
    assert_eq!(player.state.end_time_ms, None);
    let stop = PlayerUpdate {
        track: PatchField::Value(PlayerUpdateTrack {
            encoded: PatchField::Null,
            ..PlayerUpdateTrack::default()
        }),
        ..PlayerUpdate::default()
    };
    world.update(&mut player, request(stop, true)).unwrap();
    assert!(!world.done.contains(&"stop"));
    assert!(player.state.track.is_some());
}

#[test]
fn a_refused_permit_plays_nothing() {
    let mut world = World { refuse_permit: true, ..World::default() };
    let mut player = player();
    assert_eq!(
        world.update(&mut player, request(encoded("QAAA"), false)).err(),
        Some(PlayerError::Overloaded)
    );
    assert!(player.state.track.is_none());
    assert!(!player.state.outbound);
}

#[test]
fn a_refused_track_is_told() {
    let mut world = World { refuse_play: true, ..World::default() };
    let mut player = player();
    assert_eq!(
        world.update(&mut player, request(encoded("QAAA"), false)).err(),
        Some(PlayerError::Invalid("no media"))
    );
    assert!(player.state.track.is_none());
}

#[test]
fn a_gone_player_is_not_updated() {
    let mut world = World::default();
    let mut player = player();
    player.state.destroyed = true;
    assert_eq!(
        world.update(&mut player, request(encoded("QAAA"), false)).err(),
        Some(PlayerError::NotFound)
    );
    assert!(player.state.track.is_none());
}

#[test]
fn audio_starts_with_voice_and_track() {
    let mut world = World { connected: true, ..World::default() };
    let mut player = player();
    let mut update = encoded("QAAA");
    update.voice = PatchField::Value(voice());
    let result = world.update(&mut player, request(update, false)).ok().unwrap();
    assert!(result.is_some());
    assert_eq!(player.state.voice_connection, Some(11));
    assert!(world.done.contains(&"audio"));
    assert!(!player.state.deferred_audio);
    assert_eq!(player.state.audio_generation, 1);
    assert!(player.wants_periodic_updates());
    assert_eq!(player.stats().sent, 5);
}

#[test]
fn audio_that_is_not_ready_waits() {
    let mut world = World { refuse_audio: true, ..World::default() };
    let mut player = player();
    let mut update = encoded("QAAA");
    update.voice = PatchField::Value(voice());
    assert!(world.update(&mut player, request(update, false)).is_ok());
    assert!(player.state.deferred_audio);
    let generation = player.begin_voice_ready(11).ok().unwrap();
    assert!(generation.is_some());
    assert_eq!(player.end_voice_ready(Ok(())), Ok(()));
    assert!(!player.state.deferred_audio);
    assert_eq!(player.begin_voice_ready(11), Ok(None));
}

#[test]
fn a_stale_close_does_nothing() {
    let mut player = player();
    player.state.voice_connection = Some(11);
    let close = VoiceClose { code: 4_014, reason: "gone".to_owned(), by_remote: true };
    assert!(matches!(player.begin_voice_closed(10, close), Step::Done(Ok(()))));
    assert_eq!(player.state.voice_connection, Some(11));
}

#[test]
fn a_close_ends_the_connection() {
    let mut world = World::default();
    let mut player = player();
    player.state.voice_connection = Some(11);
    let close = VoiceClose { code: 4_014, reason: "gone".to_owned(), by_remote: true };
    let mut step = player.begin_voice_closed(11, close);
    loop {
        match step {
            Step::Ask(run, need) => {
                let reply = world.perform(need);
                step = player.resume_voice_closed(run, reply, 0);
            }
            Step::Done(result) => {
                assert!(result.is_ok());
                break;
            }
        }
    }
    assert_eq!(player.state.voice_connection, None);
    let close = VoiceClose { code: 4_014, reason: "gone".to_owned(), by_remote: true };
    let told: Value = serde_json::from_str(&closed_value("7", &close)).unwrap();
    assert_eq!(told["type"], "WebSocketClosedEvent");
    assert_eq!(told["code"], 4_014);
    assert_eq!(told["byRemote"], true);
}

#[test]
fn a_source_of_another_generation_is_ignored() {
    let player = player();
    assert!(matches!(player.begin_terminal(5, None), Step::Done(Ok(()))));
}

#[test]
fn a_player_is_destroyed_once_only() {
    let mut world = World::default();
    let mut player = player();
    let mut update = encoded("QAAA");
    update.voice = PatchField::Value(voice());
    world.update(&mut player, request(update, false)).unwrap();
    world.done.clear();
    let mut step = player.begin_destroy(true);
    loop {
        match step {
            Step::Ask(run, need) => {
                let reply = world.perform(need);
                step = resume_destroy(run, reply);
            }
            Step::Done(result) => {
                assert!(result.is_ok());
                break;
            }
        }
    }
    assert!(player.state.destroyed);
    assert!(world.done.contains(&"shut voice"));
    assert!(world.done.contains(&"shut media"));
    assert!(matches!(player.begin_destroy(true), Step::Done(_)));
    assert!(player.shutdown());
    assert!(!player.shutdown());
}

#[test]
fn updates_are_checked_before_anything_is_done() {
    let refused = |update: PlayerUpdate| validate_update(&update, true).err();
    let mut both = encoded("QAAA");
    both.encoded_track = PatchField::Null;
    assert_eq!(
        refused(both),
        Some(PlayerError::Invalid("Cannot specify both track and encodedTrack/identifier"))
    );
    let update = PlayerUpdate { paused: PatchField::Null, ..PlayerUpdate::default() };
    assert_eq!(refused(update), Some(PlayerError::Invalid("paused must not be null")));
    let update = PlayerUpdate { end_time: PatchField::Value(0), ..PlayerUpdate::default() };
    assert_eq!(refused(update), Some(PlayerError::Invalid("End time must be greater than 0")));
    let mut empty = voice();
    empty.token = String::new();
    let update = PlayerUpdate { voice: PatchField::Value(empty), ..PlayerUpdate::default() };
    assert!(refused(update).is_some());
    assert_eq!(refused(PlayerUpdate::default()), None);
}

#[test]
fn updates_ask_for_one_track() {
    let change = normalized_track(&encoded("QAAA")).ok().unwrap();
    assert!(matches!(change.request, TrackRequest::Encoded(text) if text == "QAAA"));
    let stop = PlayerUpdate { encoded_track: PatchField::Null, ..PlayerUpdate::default() };
    let change = normalized_track(&stop).ok().unwrap();
    assert!(matches!(change.request, TrackRequest::Stop));
    let change = normalized_track(&PlayerUpdate::default()).ok().unwrap();
    assert!(matches!(change.request, TrackRequest::Omitted));
    let both = PlayerUpdate {
        encoded_track: PatchField::Value("QAAA".to_owned()),
        identifier: PatchField::Value("id".to_owned()),
        ..PlayerUpdate::default()
    };
    assert!(normalized_track(&both).is_err());
}

#[test]
fn identifiers_are_loaded() {
    let mut world = World::default();
    let mut player = player();
    let update = PlayerUpdate {
        identifier: PatchField::Value("search term".to_owned()),
        ..PlayerUpdate::default()
    };
    assert!(world.update(&mut player, request(update, false)).is_ok());
    assert_eq!(player.state.track.as_ref().unwrap().media.encoded, "search term");
}

#[test]
fn user_data_is_carried() {
    let mut world = World::default();
    let mut player = player();
    let mut data = TextMap::new();
    data.insert("k".to_owned(), Json::Bool(true));
    let update = PlayerUpdate {
        track: PatchField::Value(PlayerUpdateTrack {
            encoded: PatchField::Value("QAAA".to_owned()),
            identifier: PatchField::Omitted,
            user_data: PatchField::Value(Arc::new(data)),
        }),
        ..PlayerUpdate::default()
    };
    world.update(&mut player, request(update, false)).unwrap();
    let value: Value =
        serde_json::from_str(&player_value("7", &player.state, &None, 5)).unwrap();
    assert_eq!(value["track"]["userData"]["k"], true);
    assert_eq!(value["guildId"], "7");
    assert_eq!(value["state"]["position"], 40);
    assert_eq!(value["state"]["time"], 5);
    assert_eq!(value["state"]["ping"], -1);
}

#[test]
fn positions_pauses_and_volumes_are_taken() {
    let mut world = World::default();
    let mut player = player();
    world.update(&mut player, request(encoded("QAAA"), false)).unwrap();
    world.done.clear();
    let update = PlayerUpdate {
        position: PatchField::Value(-5),
        paused: PatchField::Value(true),
        volume: PatchField::Value(2_000),
        end_time: PatchField::Value(900),
        ..PlayerUpdate::default()
    };
    world.update(&mut player, request(update, false)).unwrap();
    assert!(world.done.contains(&"filters"));
    assert!(world.done.contains(&"pause"));
    assert!(world.done.contains(&"seek"));
    assert_eq!(player.state.volume, 2_000);
    assert_eq!(player.state.filter_configuration.player_volume, Some(1_000));
    assert_eq!(player.state.end_time_ms, Some(900));
}

#[test]
fn snapshots_settle_the_state() {
    let mut state = PlayerState::new();
    state.outbound = true;
    let at_rest = PlayerSnapshot { status: PlayerStatus::Stopped, track: None, position_ms: 3 };
    apply_mantle_snapshot(&mut state, &at_rest);
    assert_eq!(state.position_ms, 3);
    assert!(!state.outbound);
    let initial: Value = serde_json::from_str(&default_player_state(8)).unwrap();
    assert_eq!(initial["time"], 8);
    assert_eq!(initial["connected"], false);
}

#[test]
fn a_snapshot_is_taken_through_the_media_player() {
    let mut world = World::default();
    let mut player = player();
    world.update(&mut player, request(encoded("QAAA"), false)).unwrap();
    let mut step = player.begin_snapshot(policy(), 0);
    loop {
        match step {
            UpdateStep::Ask(run, need) => {
                let reply = world.perform(need);
                step = player.resume_update(run, reply, 0);
            }
            UpdateStep::Done(result) => {
                assert!(matches!(result, Ok(None)));
                break;
            }
        }
    }
    assert_eq!(player.guild_id(), "7");
    assert!(player.snapshot().contains("\"position\":40"));
}

#[test]
fn sends_fail_for_their_reasons() {
    assert_eq!(send_result(false, false, false), None);
    assert_eq!(send_result(false, true, false), Some(PlayerError::Overloaded));
    assert!(send_result(true, false, false).is_some());
    assert!(send_result(false, false, true).is_some());
    let full = PublishError::Full("x".to_owned());
    assert_eq!(map_publish_error(&full), PlayerError::Overloaded);
}

#[test]
fn events_of_a_replaced_track_end_it() {
    let ended = MediaEvent::TrackEnd { track: track("QA"), reason: TrackEndReason::Stopped };
    let draining = crust_node::update::Draining { user_data: None, replaced: Some(None) };
    let (event, data) =
        crust_node::update::drain_event(ended, Some(TrackEndReason::Replaced), &draining);
    assert!(matches!(
        event,
        MediaEvent::TrackEnd { reason: TrackEndReason::Replaced, .. }
    ));
    assert!(data.is_none());
}

#[test]
fn patch_fields_tell_what_was_given() {
    let omitted: PatchField<u8> = PatchField::default();
    assert!(omitted.is_omitted());
    assert!(PatchField::<u8>::Null.is_null());
    assert!(PatchField::Value(1_u8).is_value());
    assert_eq!(value(&PatchField::Value(1_u8)), Some(1));
    assert_eq!(value(&PatchField::<u8>::Null), None);
    assert_eq!(values_only(&PatchField::<u8>::Null), PatchField::Omitted);
    assert_eq!(values_only(&PatchField::Value(2_u8)), PatchField::Value(2));
}

#[test]
fn filter_defaults_are_those_of_the_protocol() {
    let karaoke = Karaoke::default();
    assert_eq!(karaoke.level, real32(1.0));
    assert_eq!(karaoke.mono_level, real32(1.0));
    assert_eq!(karaoke.filter_band, real32(220.0));
    assert_eq!(karaoke.filter_width, real32(100.0));
    assert_eq!(Timescale::default().pitch, real64(1.0));
    assert_eq!(Tremolo::default().frequency, real32(2.0));
    assert_eq!(Tremolo::default().depth, real32(0.5));
    assert_eq!(Rotation::default().rotation_hz, real64(0.0));
    assert_eq!(Distortion::default().scale, real32(1.0));
    assert_eq!(ChannelMix::default().left_to_left, real32(1.0));
    assert_eq!(ChannelMix::default().left_to_right, real32(0.0));
    assert_eq!(LowPass::default().smoothing, real32(20.0));
}

#[test]
fn filters_are_held_to_their_ranges() {
    let refused = |filters: Filters| validate_filters(&filters, true).err();
    let volume = |value: f32| Filters {
        volume: PatchField::Value(real32(value)),
        ..Filters::default()
    };
    assert_eq!(refused(volume(5.0)), None);
    assert_eq!(refused(volume(0.0)), None);
    assert!(refused(volume(5.1)).is_some());
    assert!(refused(volume(-0.1)).is_some());
    assert!(refused(volume(f32::NAN)).is_some());
    let band = |band: i32| Filters {
        equalizer: PatchField::Value(vec![EqualizerBand { band, gain: real32(0.25) }]),
        ..Filters::default()
    };
    assert_eq!(refused(band(14)), None);
    assert_eq!(
        refused(band(15)),
        Some(PlayerError::Invalid("equalizer band must be between 0 and 14"))
    );
    let vibrato = |frequency: f32| Filters {
        vibrato: PatchField::Value(Tremolo { frequency: real32(frequency), depth: real32(0.5) }),
        ..Filters::default()
    };
    assert_eq!(refused(vibrato(14.0)), None);
    assert_eq!(
        refused(vibrato(14.5)),
        Some(PlayerError::Invalid("vibrato frequency must not exceed 14"))
    );
    let slow = Filters {
        timescale: PatchField::Value(Timescale {
            speed: real64(0.0),
            pitch: real64(1.0),
            rate: real64(1.0),
        }),
        ..Filters::default()
    };
    assert!(refused(slow).is_some());
    let nulled = Filters { equalizer: PatchField::Null, ..Filters::default() };
    assert_eq!(
        refused(nulled),
        Some(PlayerError::Invalid("equalizer filter must not be null"))
    );
}

#[test]
fn disabled_filters_are_named() {
    let filters = Filters {
        volume: PatchField::Value(real32(1.0)),
        karaoke: PatchField::Value(Karaoke::default()),
        ..Filters::default()
    };
    let mut enabled = FilterConfig::default();
    assert!(disabled_filter_names(&filters, &enabled).is_empty());
    enabled.karaoke = false;
    enabled.rotation = false;
    assert_eq!(disabled_filter_names(&filters, &enabled), vec!["karaoke"]);
}

#[test]
fn filters_become_a_chain() {
    let filters = Filters {
        volume: PatchField::Value(real32(1.5)),
        low_pass: PatchField::Value(LowPass { smoothing: real32(10.0) }),
        ..Filters::default()
    };
    let (text, configuration) = normalize_filters(&filters, true, &texts()).ok().unwrap();
    let written: Value = serde_json::from_str(&text).unwrap();
    assert_eq!(written["volume"], 1.5);
    assert_eq!(configuration.volume, Some(real32(1.5)));
    let chain = filter_chain(&configuration);
    assert!(matches!(chain[0], FilterStage::Volume(volume) if volume == real32(1.5)));
    assert!(matches!(chain[1], FilterStage::LowPass(_)));
    assert_eq!(chain.len(), 2);
    assert!(filter_chain(&FilterConfiguration::default()).is_empty());
    let speed = Timescale { speed: real64(1.5), pitch: real64(1.0), rate: real64(1.0) };
    assert!(speed_only(&speed));
    let pitch = Timescale { speed: real64(1.5), pitch: real64(1.1), rate: real64(1.0) };
    assert!(!speed_only(&pitch));
}

#[test]
fn floats_are_compared_by_their_bits() {
    assert!(real32(-0.0).le(real32(0.0)));
    assert!(real32(0.0).le(real32(-0.0)));
    assert!(!real32(f32::NAN).le(real32(1.0)));
    assert!(real32(-2.0).lt(real32(-1.0)));
    assert!(real32(f32::NAN).ne(real32(f32::NAN)));
    assert!(!real32(0.0).ne(real32(-0.0)));
    assert!(real64(f64::NAN).ne(real64(1.0)));
    assert!(real64(0.0).is_not_positive());
    assert!(!real64(0.1).is_not_positive());
}
