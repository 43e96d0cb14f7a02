use crust_node::bridge::{
    cancelled_error, collect_shutdowns, connection_snapshot, map_close, map_oto_error, map_phase,
    overloaded_error, shutdown_error, standing_event, woken_event, AudioSlot, Backend, Bridge,
    BridgeState, Channel, CloseReason, ConnectEnd, Connection, ConnectionPhase, ConnectionReport,
    ErrorKind, FrameStatus, NextEvent, Operation, ProducerEvent, ProducerStage, ShutdownAudio,
    Standing, StopBegin, Wake,
};
use crust_node::media::{AdapterError, AdapterErrorKind, PlayerError};
use crust_node::protocol::VoiceState;
use crust_node::span::Span;
use crust_node::voice::{
    connected_now, is_deferred_voice_audio_error, map_adapter_voice_error, map_voice_error,
    ping_ms, voice_connection_info, watch, MonitorAction, MonitorEvent, VoiceClose, VoiceCounters,
    VoiceError, VoiceErrorKind, VoiceEvent, VoicePhase, VoiceSnapshot,
};

fn protocol(message: &'static str) -> VoiceError {
    VoiceError { kind: VoiceErrorKind::Protocol, message }
}

fn snapshot(phase: VoicePhase, ping: Option<Span>) -> Option<VoiceSnapshot> {
    Some(VoiceSnapshot {
        phase,
        channel_id: Some(1),
        ping,
        counters: VoiceCounters { sent: 0, nulled: 0, deficit: 0 },
    })
}

fn voice(channel_id: Option<&str>) -> VoiceState {
    VoiceState {
        token: "token".to_owned(),
        endpoint: "localhost:1".to_owned(),
        session_id: "session".to_owned(),
        channel_id: channel_id.map(str::to_owned),
    }
}

#[test]
fn consumption_permit_is_retained_and_replaces_the_producer_waker() {
    let mut bridge = Bridge::new();
    bridge.frame_consumed();
    assert!(bridge.poll_consumed());
    assert!(!bridge.poll_consumed());
    assert!(!bridge.poll_consumed());
    bridge.frame_consumed();
    assert!(bridge.poll_consumed());
    assert!(!bridge.poll_consumed());
}

#[test]
fn bridge_is_capacity_one_and_pulls_again_only_after_consumption() {
    let mut bridge = Bridge::new();
    let mut polls = 1;
    let mut stage = bridge.produce(ProducerStage::Source, ProducerEvent::Frame).unwrap();
    assert_eq!(stage, ProducerStage::Send);
    stage = bridge.produce(stage, ProducerEvent::Sent).unwrap();
    assert_eq!(stage, ProducerStage::Consumption);
    assert!(!bridge.poll_consumed());
    let mut output = [9_u8; 4];
    assert_eq!(
        bridge.poll_frame(Channel::Frame { payload: &[1, 2] }, &mut output),
        FrameStatus::Frame { len: 2 }
    );
    assert_eq!(output, [1, 2, 9, 9]);
    assert!(bridge.poll_consumed());
    stage = bridge.produce(stage, ProducerEvent::Consumed).unwrap();
    if stage == ProducerStage::Source {
        polls += 1;
    }
    assert_eq!(polls, 2);
    assert_eq!(bridge.poll_frame(Channel::Empty, &mut output), FrameStatus::Pending);
    assert_eq!(output, [1, 2, 9, 9]);
}

#[test]
fn source_failure_is_retained_for_typed_event_delivery() {
    let mut bridge = Bridge::new();
    let failure = ProducerEvent::Failure(protocol("synthetic source failure"));
    assert_eq!(bridge.produce(ProducerStage::Source, failure), None);
    assert_eq!(bridge.poll_frame(Channel::Closed, &mut [0; 16]), FrameStatus::Ended);
    let failure = bridge.take_failure().unwrap();
    assert_eq!(failure.kind, VoiceErrorKind::Protocol);
    assert_eq!(failure.message, "synthetic source failure");
    assert_eq!(bridge.take_failure(), None);
}

#[test]
fn undersized_oto_output_fails_instead_of_emitting_an_empty_frame() {
    let mut bridge = Bridge::new();
    let mut output = [9_u8; 2];
    assert_eq!(
        bridge.poll_frame(Channel::Frame { payload: &[1, 2, 3, 4] }, &mut output),
        FrameStatus::Ended
    );
    assert_eq!(output, [9, 9]);
    assert_eq!(bridge.take_failure().unwrap().kind, VoiceErrorKind::Protocol);
}

#[test]
fn a_finished_source_is_not_asked_again() {
    let mut bridge = Bridge::new();
    assert_eq!(bridge.produce(ProducerStage::Source, ProducerEvent::End), None);
    assert_eq!(bridge.state, BridgeState::Ended);
    assert_eq!(bridge.produce(ProducerStage::Consumption, ProducerEvent::Consumed), None);
    let mut bridge = Bridge::new();
    assert_eq!(bridge.produce(ProducerStage::Send, ProducerEvent::Gone), None);
    assert_eq!(bridge.produce(ProducerStage::Consumption, ProducerEvent::Cancelled), None);
}

#[test]
fn phases_and_closes_are_mapped() {
    assert_eq!(map_phase(ConnectionPhase::Connected), VoicePhase::Connected);
    assert_eq!(map_phase(ConnectionPhase::NeedsFreshVoiceInfo), VoicePhase::Reconnecting);
    assert_eq!(map_phase(ConnectionPhase::Failed), VoicePhase::Closed);
    let close = map_close(CloseReason::RemoteCode(4_014));
    assert_eq!(close.code, 4_014);
    assert!(close.by_remote);
    let close = map_close(CloseReason::ExplicitShutdown);
    assert_eq!(close.code, 1_000);
    assert!(!close.by_remote);
}

#[test]
fn only_audio_that_waits_is_deferred() {
    let early = map_oto_error(Operation::StartAudio, ErrorKind::DaveRequired);
    assert!(is_deferred_voice_audio_error(&early));
    let other = map_oto_error(Operation::Other, ErrorKind::DaveRequired);
    assert!(!is_deferred_voice_audio_error(&other));
    let overloaded = map_oto_error(Operation::Other, ErrorKind::Overloaded);
    assert_eq!(overloaded.kind, VoiceErrorKind::Overloaded);
}

#[test]
fn a_backend_bounds_its_connections() {
    let mut backend = Backend::new(1, 1);
    assert!(backend.begin_connect(false).is_ok());
    assert_eq!(backend.begin_connect(false).err().unwrap().kind, VoiceErrorKind::Overloaded);
    assert!(backend.end_connect(ConnectEnd::Connected).is_ok());
    assert!(backend.register(7, &vec![]).is_ok());
    assert_eq!(backend.begin_connect(false).err().unwrap().kind, VoiceErrorKind::Overloaded);
    backend.release();
    assert!(backend.begin_connect(false).is_ok());
    let failed = ConnectEnd::Failed { operation: Operation::Other, kind: ErrorKind::SendIo };
    assert!(backend.end_connect(failed).is_err());
    assert!(backend.begin_connect(false).is_ok());
    assert!(backend.end_connect(ConnectEnd::Cancelled).is_err());
    assert_eq!(backend.begin_connect(true), Err(cancelled_error()));
}

#[test]
fn a_shut_down_backend_connects_nothing() {
    let mut backend = Backend::new(2, 2);
    assert!(backend.begin_connect(false).is_ok());
    assert!(backend.end_connect(ConnectEnd::Connected).is_ok());
    assert!(backend.register(3, &vec![]).is_ok());
    assert_eq!(backend.shutdown(&vec![3]), vec![3]);
    assert_eq!(backend.begin_connect(false), Err(shutdown_error()));
    assert_eq!(backend.register(4, &vec![3]), Err(shutdown_error()));
}

#[test]
fn shutdowns_tell_their_first_failure() {
    assert_eq!(collect_shutdowns(&vec![Ok(()), Ok(())]), Ok(()));
    let first = overloaded_error("first");
    let second = overloaded_error("second");
    assert_eq!(collect_shutdowns(&vec![Ok(()), Err(first), Err(second)]), Err(first));
    assert_eq!(collect_shutdowns(&vec![]), Ok(()));
}

#[test]
fn audio_is_attached_one_at_a_time() {
    let mut connection = Connection::new(5);
    assert_eq!(connection.begin_source(false), Ok(None));
    assert!(connection.begin_source(false).is_err());
    assert_eq!(connection.end_source(None, 1, Ok(())), Ok(()));
    assert_eq!(connection.audio, AudioSlot::Attached(1));
    assert_eq!(connection.begin_source(false), Ok(Some(1)));
    let refused = Err((Operation::StartAudio, ErrorKind::SendIo));
    assert!(connection.end_source(Some(1), 2, refused).is_err());
    match connection.begin_stop() {
        StopBegin::Stop(_) => {
            assert_eq!(connection.end_stop(Ok(())), Ok(()));
        }
        StopBegin::Done(result) => assert!(result.is_ok()),
    }
    assert_eq!(connection.begin_stop(), StopBegin::Done(Ok(())));
    assert_eq!(connection.audio, AudioSlot::Idle);
}

#[test]
fn a_closed_connection_takes_no_audio() {
    let mut connection = Connection::new(5);
    assert_eq!(connection.begin_source(false), Ok(None));
    assert_eq!(connection.end_source(None, 9, Ok(())), Ok(()));
    assert!(connection.begin_shutdown());
    assert!(!connection.begin_shutdown());
    assert_eq!(connection.shutdown_audio(), ShutdownAudio::Stop(9));
    assert_eq!(connection.end_shutdown(Ok(())), Ok(()));
    assert!(connection.begin_source(false).is_err());
    assert!(connection.begin_update(false).is_err());
}

#[test]
fn an_update_moves_the_channel_where_it_succeeds() {
    let mut connection = Connection::new(5);
    assert_eq!(connection.begin_update(false), Ok(()));
    let refused = Err((Operation::Other, ErrorKind::InvalidVoiceInfo));
    assert!(connection.end_update(6, refused).is_err());
    assert_eq!(connection.channel_id, 5);
    assert_eq!(connection.end_update(6, Ok(())), Ok(()));
    assert_eq!(connection.channel_id, 6);
    assert_eq!(connection.begin_update(true), Err(cancelled_error()));
}

#[test]
fn failures_that_stand_come_before_reports() {
    let failed = Standing { sender_failure: None, source_failure: Some(protocol("gone")) };
    assert!(matches!(
        standing_event(failed),
        NextEvent::Give(VoiceEvent::SourceFailed(error)) if error == protocol("gone")
    ));
    let nothing = Standing { sender_failure: None, source_failure: None };
    assert!(matches!(standing_event(nothing), NextEvent::Again));
    let report = ConnectionReport::StateChanged(ConnectionPhase::Connected);
    assert!(matches!(
        woken_event(Wake::Report(report)),
        NextEvent::Give(VoiceEvent::PhaseChanged(VoicePhase::Connected))
    ));
    assert!(matches!(woken_event(Wake::Changed), NextEvent::Again));
    assert!(matches!(
        woken_event(Wake::Report(ConnectionReport::Closed(CloseReason::CleanRemote))),
        NextEvent::Give(VoiceEvent::Closed(_))
    ));
    assert!(matches!(woken_event(Wake::Report(ConnectionReport::Ended)), NextEvent::Ended));
}

#[test]
fn readiness_is_told_once() {
    let connected = || MonitorEvent::Voice(VoiceEvent::PhaseChanged(VoicePhase::Connected));
    let (state, action) = watch(false, connected());
    assert!(state);
    assert!(matches!(action, MonitorAction::Ready));
    let (state, action) = watch(state, connected());
    assert!(state);
    assert!(matches!(action, MonitorAction::Wait));
    let closed = VoiceEvent::Closed(VoiceClose {
        code: 4_014,
        reason: "gone".to_owned(),
        by_remote: true,
    });
    let (_, action) = watch(state, MonitorEvent::Voice(closed));
    assert!(matches!(action, MonitorAction::Close(close) if close.code == 4_014));
    assert!(matches!(watch(true, MonitorEvent::Ended).1, MonitorAction::Stop));
}

#[test]
fn pings_are_told_in_milliseconds() {
    assert_eq!(ping_ms(&None), -1);
    assert_eq!(ping_ms(&snapshot(VoicePhase::Connected, None)), -1);
    assert_eq!(ping_ms(&snapshot(VoicePhase::Connected, Some(Span::from_millis(42)))), 42);
    assert!(connected_now(&snapshot(VoicePhase::Connected, None)));
    assert!(!connected_now(&snapshot(VoicePhase::Reconnecting, None)));
    assert!(!connected_now(&None));
}

#[test]
fn connections_need_whole_numbers() {
    let info = voice_connection_info("1", "2", &voice(Some("3"))).ok().unwrap();
    assert_eq!((info.guild_id, info.user_id, info.channel_id), (1, 2, 3));
    assert_eq!(info.endpoint, "localhost:1");
    assert!(voice_connection_info("x", "2", &voice(Some("3"))).is_err());
    assert!(voice_connection_info("1", "x", &voice(Some("3"))).is_err());
    assert!(voice_connection_info("1", "2", &voice(Some("x"))).is_err());
}

#[test]
fn voice_errors_become_player_errors() {
    let of = |kind| map_voice_error(VoiceError { kind, message: "told" });
    assert_eq!(of(VoiceErrorKind::Overloaded), PlayerError::Overloaded);
    assert_eq!(of(VoiceErrorKind::Protocol), PlayerError::Media("told"));
    let error = AdapterError { kind: AdapterErrorKind::Shutdown, message: "told" };
    assert_eq!(map_adapter_voice_error(error).kind, VoiceErrorKind::Shutdown);
}

#[test]
fn a_snapshot_counts_the_frames_of_its_audio() {
    let connection = Connection::new(42);
    let counters = VoiceCounters { sent: 3, nulled: 2, deficit: 1 };
    let ping = Some(Span::from_millis(12));
    let snapshot =
        connection_snapshot(&connection, ConnectionPhase::Connected, ping, Some(counters));
    assert_eq!(snapshot.phase, VoicePhase::Connected);
    assert_eq!(snapshot.channel_id, Some(42));
    assert_eq!(snapshot.ping, ping);
    assert_eq!(snapshot.counters, counters);
    let silent = connection_snapshot(&connection, ConnectionPhase::Closing, None, None);
    assert_eq!(silent.phase, VoicePhase::Closing);
    assert_eq!(silent.counters, VoiceCounters { sent: 0, nulled: 0, deficit: 0 });
}
