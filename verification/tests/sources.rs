use crust_node::config::Address;
use crust_node::filters::check_karaoke;
use crust_node::ieee::Real32;
use crust_node::media::{AdapterErrorKind, LoadOutcome};
use crust_node::protocol::Karaoke;
use crust_node::shard::{shard_index, Completion, LoadAdmission, Shard};
use crust_node::source::{
    begin_open, cancelled, check_request, check_tokens, decode_media_track, decode_track,
    encode_track, info_to_metadata, load_answered, loaded_outcome, map_playback_error,
    map_playback_source_outcome, map_youtube_error, map_youtube_source_outcome, metadata_to_info,
    resume_open, shutdown, CrustOutboundRoutePolicy, DecodedItem, MantleAdapterOptions, OpenNeed,
    OpenReply, OpenStage, OpenStep, OutboundRouteOutcome, RouteEntry, RouteOutcome, Sending,
    SessionKind, SourceAnswer, SourceItem, SourceTrack, TrackInfo, YoutubeErrorKind,
    YoutubePlaybackErrorKind,
};
use crust_node::span::Span;
use crust_node::stretch::{
    FinishStep, Hops, StepSource, Stretch, FINISH_ROUNDS, HOP, HOP_FRAMES, INPUT_CAPACITY,
    OUTPUT_SAMPLES, SEARCH, WINDOW,
};
use crust_node::text::{
    after_prefix, bytes_in, comma_list, decimal_text, eq_ignore_case, is_before, joined, lines,
    parse_bool, parse_i32, parse_i64, parse_u16, parse_u64, parse_u8, signed_decimal_text, split,
    trim, words, Cut,
};

fn info(title: &str) -> TrackInfo {
    TrackInfo {
        title: title.to_owned(),
        author: "author".to_owned(),
        duration: Span::from_millis(1_500),
        identifier: "id".to_owned(),
        is_stream: false,
        uri: Some("https://example.invalid/".to_owned()),
        artwork_url: None,
        isrc: None,
    }
}

fn source_track(title: &str, serialized: Option<Vec<u8>>) -> SourceTrack {
    SourceTrack { info: info(title), serialized }
}

#[test]
fn metadata_survives_its_source() {
    let metadata = info_to_metadata(&info("title"), "youtube");
    assert_eq!(metadata.duration_ms, 1_500);
    assert!(metadata.seekable);
    assert_eq!(metadata.source_name, "youtube");
    let back = metadata_to_info(&metadata);
    assert_eq!(back.title, "title");
    assert_eq!(back.duration, Span::from_millis(1_500));
    assert_eq!(back.uri, metadata.uri);
}

#[test]
fn tracks_are_kept_as_base64() {
    let text = encode_track(&Some(vec![0, 255, 16])).ok().unwrap();
    assert_eq!(text, "AP8Q");
    assert_eq!(decode_track("AP8Q").ok(), Some(vec![0, 255, 16]));
    assert_eq!(decode_track("AP8").err().unwrap().kind, AdapterErrorKind::InvalidTrack);
    assert_eq!(encode_track(&Some(vec![1])).ok().unwrap(), "AQ==");
    assert!(encode_track(&None).is_err());
    for bytes in [vec![], vec![0], vec![0, 0], vec![251, 239], vec![255, 254, 253, 252]] {
        let text = encode_track(&Some(bytes.clone())).ok().unwrap();
        assert_eq!(decode_track(&text).ok(), Some(bytes));
    }
    assert_eq!(encode_track(&Some(vec![251, 255])).ok().unwrap(), "+/8=");
    for refused in ["AR==", "AQ", "AQ=", "AQ===", "A===", "A Q=", "AQ==AQ==", "-_8=", "\u{e9}"] {
        assert!(decode_track(refused).is_err());
    }
}

#[test]
fn a_kept_track_is_known_by_its_source() {
    let nowhere =
        DecodedItem::Known { info: info("title"), source_name: None, playable: None };
    assert!(decode_media_track("AP8Q".to_owned(), nowhere).is_err());
    let source_name = Some("youtube".to_owned());
    let item = DecodedItem::Known { info: info("title"), source_name, playable: None };
    let track = decode_media_track("AP8Q".to_owned(), item).ok().unwrap();
    assert_eq!(track.encoded, "AP8Q");
    assert_eq!(track.metadata.title, "title");
    assert!(decode_media_track("AP8Q".to_owned(), DecodedItem::Unknown).is_err());
}

#[test]
fn loads_become_outcomes() {
    let single = SourceItem::Track(source_track("one", Some(vec![1])));
    assert!(matches!(loaded_outcome(single), Ok(LoadOutcome::Track(track)) if track.encoded == "AQ=="));
    let search = SourceItem::Playlist {
        name: "found".to_owned(),
        selected_track: None,
        is_search_result: true,
        tracks: vec![source_track("one", Some(vec![1])), source_track("two", Some(vec![2]))],
    };
    assert!(matches!(loaded_outcome(search), Ok(LoadOutcome::Search(tracks)) if tracks.len() == 2));
    let list = SourceItem::Playlist {
        name: "list".to_owned(),
        selected_track: Some(1),
        is_search_result: false,
        tracks: vec![source_track("one", Some(vec![1]))],
    };
    assert!(matches!(
        loaded_outcome(list),
        Ok(LoadOutcome::Playlist { info, .. }) if info.name == "list"
    ));
    let unkept = SourceItem::Track(source_track("one", None));
    assert!(loaded_outcome(unkept).is_err());
}

#[test]
fn answers_are_reported_to_the_planner() {
    let found = SourceAnswer::Found(SourceItem::Track(source_track("one", Some(vec![1]))));
    let (report, result) = load_answered(found);
    assert_eq!(report, Some(RouteOutcome::SourceSuccess));
    assert!(result.is_ok());
    let (report, result) = load_answered(SourceAnswer::Failed);
    assert_eq!(report, Some(RouteOutcome::SourceFailure));
    assert!(result.is_err());
    let (report, result) = load_answered(SourceAnswer::Nothing { cancelled: true });
    assert_eq!(report, None);
    assert_eq!(result.err(), Some(cancelled()));
    let (_, result) = load_answered(SourceAnswer::Nothing { cancelled: false });
    assert!(matches!(result, Ok(LoadOutcome::NoMatches)));
    let (_, result) = load_answered(SourceAnswer::Shutdown);
    assert_eq!(result.err(), Some(shutdown()));
}

#[test]
fn source_errors_are_mapped() {
    assert_eq!(
        map_youtube_source_outcome(YoutubeErrorKind::RateLimited),
        RouteOutcome::SourceRateLimited
    );
    assert_eq!(
        map_youtube_source_outcome(YoutubeErrorKind::LoginRequired),
        RouteOutcome::SourceUnavailable
    );
    assert_eq!(
        map_playback_source_outcome(YoutubePlaybackErrorKind::Source(
            YoutubeErrorKind::Unavailable
        )),
        RouteOutcome::SourceUnavailable
    );
    assert_eq!(map_youtube_error(YoutubeErrorKind::Cancelled).kind, AdapterErrorKind::Cancelled);
    assert_eq!(
        map_playback_error(YoutubePlaybackErrorKind::Cancelled).kind,
        AdapterErrorKind::Cancelled
    );
}

#[test]
fn routes_are_reported_once() {
    let route = RouteEntry { identity: 1, local_address: Address::V6(1) };
    let mut policy = CrustOutboundRoutePolicy::new();
    policy.begin_operation();
    assert_eq!(policy.report_source(RouteOutcome::SourceSuccess), None);
    assert_eq!(policy.select_route(Some(route)), Some(route));
    assert_eq!(policy.select_route(None), None);
    assert_eq!(
        policy.report_source(RouteOutcome::SourceFailure),
        Some((route, RouteOutcome::SourceFailure))
    );
    assert_eq!(policy.report_source(RouteOutcome::SourceFailure), None);
    assert_eq!(
        CrustOutboundRoutePolicy::report_outcome(route, OutboundRouteOutcome::Timeout),
        (route, RouteOutcome::Timeout)
    );
}

#[test]
fn a_track_is_opened_step_by_step() {
    let (stage, bytes) = match begin_open("AP8Q", false) {
        OpenStep::Ask(stage, OpenNeed::Deserialize(bytes)) => (stage, bytes),
        _ => panic!("the bytes are read first"),
    };
    assert_eq!(bytes, vec![0, 255, 16]);
    let item = DecodedItem::Known {
        info: info("title"),
        source_name: Some("youtube".to_owned()),
        playable: Some("id".to_owned()),
    };
    let stage = match resume_open(stage, OpenReply::Item(item), false, 0) {
        OpenStep::Ask(stage, OpenNeed::Discover(identifier)) => {
            assert_eq!(identifier, "id");
            stage
        }
        _ => panic!("the formats are looked up"),
    };
    let stage = match resume_open(stage, OpenReply::Formats(Ok(false)), true, 64) {
        OpenStep::Ask(stage, OpenNeed::OpenFinite { routed, staging_max_bytes }) => {
            assert!(routed);
            assert_eq!(staging_max_bytes, 64);
            stage
        }
        _ => panic!("a finite track is opened"),
    };
    match resume_open(stage, OpenReply::Opened(Ok(())), true, 64) {
        OpenStep::Done { report, result } => {
            assert_eq!(report, Some(RouteOutcome::SourceSuccess));
            assert_eq!(result, Ok(SessionKind::Finite));
        }
        _ => panic!("the track is open"),
    }
    let list = DecodedItem::Known { info: info("title"), source_name: None, playable: None };
    assert!(matches!(
        resume_open(OpenStage::Deserialize, OpenReply::Item(list), false, 0),
        OpenStep::Done { report: None, result: Err(_) }
    ));
    assert!(matches!(
        begin_open("not base64!", false),
        OpenStep::Done { result: Err(_), .. }
    ));
    assert!(matches!(
        begin_open("AP8Q", true),
        OpenStep::Done { result: Err(error), .. } if error == cancelled()
    ));
    assert!(matches!(
        resume_open(
            OpenStage::Discover,
            OpenReply::Formats(Err(YoutubeErrorKind::RateLimited)),
            false,
            0
        ),
        OpenStep::Done { report: Some(RouteOutcome::SourceRateLimited), .. }
    ));
}

#[test]
fn requests_fail_for_their_reasons() {
    assert_eq!(check_tokens(false, false), Ok(()));
    assert_eq!(check_tokens(true, false), Err(shutdown()));
    assert_eq!(check_tokens(false, true), Err(cancelled()));
    assert_eq!(check_request(false, false, Sending::Sent), Ok(()));
    assert_eq!(
        check_request(false, false, Sending::Full).err().unwrap().kind,
        AdapterErrorKind::Overloaded
    );
    assert!(check_request(false, false, Sending::Closed).is_err());
    let mut options = MantleAdapterOptions::default();
    assert!(options.check().is_ok());
    options.staging_max_bytes = 64 * 1024 * 1024;
    assert!(options.check().is_ok());
    options.staging_max_bytes += 1;
    assert_eq!(options.check().err().unwrap().message, "source staging ceiling exceeds 64 MiB");
}

#[test]
fn commands_of_a_player_run_one_after_another() {
    let mut shard = Shard::new(4);
    assert!(shard.submit("a".to_owned(), 1));
    assert!(!shard.submit("a".to_owned(), 2));
    assert!(shard.submit("b".to_owned(), 3));
    assert!(!shard.submit("a".to_owned(), 4));
    assert_eq!(shard.complete("a"), Completion::Run(2));
    assert_eq!(shard.complete("b"), Completion::Idle { stop: false });
    assert_eq!(shard.complete("a"), Completion::Run(4));
    assert_eq!(shard.complete("a"), Completion::Idle { stop: false });
    assert!(shard.close());
}

#[test]
fn a_closed_shard_stops_when_it_is_idle() {
    let mut shard = Shard::new(1);
    assert!(shard.submit("a".to_owned(), 1));
    assert!(shard.may_receive());
    assert!(!shard.submit("a".to_owned(), 2));
    assert!(!shard.may_receive());
    assert!(!shard.close());
    assert_eq!(shard.complete("a"), Completion::Run(2));
    assert_eq!(shard.complete("a"), Completion::Idle { stop: true });
    let mut shard = Shard::new(4);
    shard.submit("a".to_owned(), 1);
    shard.submit("a".to_owned(), 2);
    let waiting = shard.cancel();
    assert_eq!(waiting.len(), 1);
    assert_eq!(waiting[0].command, 2);
    assert!(shard_index(u64::MAX, 7) < 7);
}

#[test]
fn loads_hold_all_their_permits_or_none() {
    let mut slots = LoadAdmission { loads: 1, source_requests: 1, outbound_connections: 1 };
    assert!(slots.try_acquire());
    assert!(!slots.try_acquire());
    assert!(!slots.try_acquire_outbound());
    slots.release_load(true);
    assert_eq!(slots.loads, 1);
    assert_eq!(slots.outbound_connections, 0);
    assert!(!slots.try_acquire());
    assert_eq!(slots.loads, 1);
    slots.release_outbound();
    assert!(slots.try_acquire_outbound());
}

#[test]
fn permits_are_settled_once_a_command_has_ended() {
    // Load, held, outbound; then what is held from now on, and how many permits
    // for outbound connections come back.
    let cases = [
        (false, false, false, false, 0),
        (false, false, true, false, 0),
        (false, true, false, false, 1),
        (false, true, true, true, 0),
        (true, false, false, false, 1),
        (true, false, true, true, 0),
        (true, true, false, false, 2),
        (true, true, true, true, 1),
    ];
    for (load, held, outbound, holds, returned) in cases {
        let mut slots = LoadAdmission { loads: 3, source_requests: 4, outbound_connections: 5 };
        assert_eq!(slots.settle(load, held, outbound), holds);
        assert_eq!(slots.loads, 3 + usize::from(load));
        assert_eq!(slots.source_requests, 4 + usize::from(load));
        assert_eq!(slots.outbound_connections, 5 + returned);
    }
}

#[test]
fn a_stretch_keeps_inside_its_input() {
    let mut stretch = Stretch::new();
    assert_eq!(stretch.plan(0, None), None);
    let taken = stretch.append(2 * WINDOW as usize, true);
    assert_eq!(taken, 2 * WINDOW as usize);
    let plan = stretch.plan(0, None).unwrap();
    assert_eq!(plan.frames, HOP);
    assert!(matches!(plan.source, StepSource::First(0)));
    stretch.advance(0, plan.frames);
    assert_eq!(stretch.produced_frames, HOP);
    assert_eq!(stretch.drain(100), (0, 100));
    assert_eq!(stretch.drain(OUTPUT_SAMPLES), (100, OUTPUT_SAMPLES - 100));
    let filled = stretch.append(4 * INPUT_CAPACITY, true);
    assert_eq!(filled / 2 + WINDOW as usize, INPUT_CAPACITY);
    assert_eq!(stretch.append(2, true), 0);
}

#[test]
fn texts_are_taken_apart() {
    assert_eq!(trim("  a b\t"), "a b");
    assert_eq!(comma_list("a, ,b,"), vec!["a".to_owned(), "b".to_owned()]);
    assert_eq!(words(" x  y "), vec!["x".to_owned(), "y".to_owned()]);
    assert_eq!(lines("a\r\nb\n"), vec!["a".to_owned(), "b".to_owned()]);
    assert_eq!(split("a:b:", Cut::At(':')).len(), 3);
    assert_eq!(after_prefix("VmRSS: 1", "VmRSS:"), Some(" 1".to_owned()));
    assert_eq!(after_prefix("Vm", "VmRSS:"), None);
    assert!(eq_ignore_case("High", "HIGH"));
    assert!(!eq_ignore_case("High", "HIGHER"));
    assert!(is_before("a", "b"));
    assert!(is_before("Z", "a"));
    assert!(!is_before("a", "a"));
    assert_eq!(joined("a", "b"), "ab");
    assert_eq!(bytes_in("ä"), 2);
}

#[test]
fn numbers_are_read_and_written() {
    assert_eq!(parse_u64("18446744073709551615"), Some(u64::MAX));
    assert_eq!(parse_u64("18446744073709551616"), None);
    assert_eq!(parse_u64("+5"), Some(5));
    assert_eq!(parse_u64(""), None);
    assert_eq!(parse_u16("65536"), None);
    assert_eq!(parse_u8("255"), Some(255));
    assert_eq!(parse_i64("-9223372036854775808"), Some(i64::MIN));
    assert_eq!(parse_i32("-2147483649"), None);
    assert_eq!(parse_bool("true"), Some(true));
    assert_eq!(parse_bool("True"), None);
    assert_eq!(decimal_text(0), "0");
    assert_eq!(decimal_text(u64::MAX), "18446744073709551615");
    assert_eq!(signed_decimal_text(i64::MIN), "-9223372036854775808");
}

#[test]
fn a_full_stretch_takes_no_more() {
    let mut stretch = Stretch::new();
    assert_eq!(stretch.accept(2 * INPUT_CAPACITY + 10), Ok(2 * INPUT_CAPACITY));
    assert_eq!(stretch.accept(10), Err(INPUT_CAPACITY + 5));
    assert_eq!(stretch.accept(0), Ok(0));
}

#[test]
fn a_stretch_is_padded_towards_its_end() {
    let mut stretch = Stretch::new();
    let most = (WINDOW + SEARCH) as usize;
    assert_eq!(stretch.finish_round(true, 10, 0), FinishStep::Give);
    assert_eq!(stretch.finish_round(false, 0, 0), FinishStep::Ended);
    assert_eq!(stretch.finish_round(false, 10, 0), FinishStep::Pad { start: 0, frames: most });
    assert_eq!(
        stretch.finish_round(false, 10, FINISH_ROUNDS),
        FinishStep::Full { required: 2 * most }
    );
    assert_eq!(stretch.input_frames, most);
}

#[test]
fn hops_take_input_once_their_output_was_given() {
    let mut hops = Hops::new();
    assert_eq!(hops.take(100), (0, 100, false));
    assert_eq!(hops.take(2 * HOP_FRAMES), (100, 2 * HOP_FRAMES - 100, true));
    hops.generated(3);
    assert_eq!(hops.take(4), (0, 0, false));
    assert_eq!(hops.drain(3), (0, 2));
    assert_eq!(hops.drain(100), (2, 4));
    assert_eq!(hops.take(4), (0, 4, false));
    assert!(hops.finish());
    assert!(!hops.finish());
}

#[test]
fn karaoke_parameters_are_in_range() {
    let highest = Real32 { bits: 24_000.0f32.to_bits() };
    let level = |level: f32| Karaoke { level: Real32 { bits: level.to_bits() }, ..Karaoke::default() };
    assert_eq!(check_karaoke(&level(0.5), highest), Ok(()));
    assert_eq!(check_karaoke(&level(-0.0), highest), Ok(()));
    for bad in [1.5, -0.5, f32::NAN, f32::INFINITY] {
        assert_eq!(check_karaoke(&level(bad), highest), Err("invalid karaoke parameters"));
    }
    let band = Karaoke {
        filter_band: Real32 { bits: 24_001.0f32.to_bits() },
        ..Karaoke::default()
    };
    assert_eq!(check_karaoke(&band, highest), Err("invalid karaoke parameters"));
}
