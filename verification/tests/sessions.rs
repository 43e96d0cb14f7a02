use crust_node::session::{
    AttachError, AttachedSession, Effect, IdentityDraw, IdentityStep, PlayerAdmissionError,
    PrepareError, PreparedSession, PublishError, SessionClock, SessionHandle, SessionPlayer,
    SessionRegistry, SessionSettings, SessionSettingsUpdate, SystemSessionClock, UpdateError,
};
use crust_node::span::Span;
use crust_node::stats::{FrameStats, SessionCounts, SessionPlayerStats};

struct FakePlayer {
    guild_id: String,
    sent: u64,
}

impl SessionPlayer for FakePlayer {
    fn guild_id(&self) -> String {
        self.guild_id.clone()
    }

    fn wants_periodic_updates(&self) -> bool {
        true
    }

    fn stats(&self) -> SessionPlayerStats {
        SessionPlayerStats { playing: self.sent > 0, sent: self.sent, nulled: 0, deficit: 0 }
    }

    fn snapshot(&self) -> String {
        r#"{"op":"playerUpdate","guildId":"7"}"#.to_owned()
    }
}

fn fake() -> FakePlayer {
    FakePlayer { guild_id: "7".to_owned(), sent: 0 }
}

fn start() -> Span {
    Span::zero()
}

fn registry() -> SessionRegistry<FakePlayer> {
    SessionRegistry::new(2, 1, 1, 1, 2)
}

#[test]
fn a_new_registry_counts_from_nothing() {
    let mut registry = registry();
    assert_eq!(registry.next_serial, 0);
    assert_eq!(registry.player_count, 0);
    let prepared = prepare(&mut registry, start(), "one", None);
    let connection = attach(&mut registry, prepared);
    assert_eq!(handle_of(&registry, &connection).serial, 0);
    assert_eq!(registry.next_serial, 1);
}

fn resumable(timeout_seconds: Option<i64>) -> SessionSettingsUpdate {
    SessionSettingsUpdate { resuming: Some(true), timeout_seconds }
}

fn stopped_players(registry: &mut SessionRegistry<FakePlayer>) -> usize {
    registry
        .take_effects()
        .into_iter()
        .filter(|effect| matches!(effect, Effect::ShutDownPlayer(_)))
        .count()
}

fn prepare(
    registry: &mut SessionRegistry<FakePlayer>,
    now: Span,
    user: &str,
    requested: Option<&str>,
) -> PreparedSession {
    match registry.prepare(now, user, None, requested) {
        Ok(prepared) => prepared,
        Err(error) => panic!("not prepared: {error:?}"),
    }
}

fn attach(
    registry: &mut SessionRegistry<FakePlayer>,
    prepared: PreparedSession,
) -> AttachedSession {
    match registry.attach(prepared) {
        Ok(attached) => attached,
        Err(AttachError) => panic!("not attached"),
    }
}

fn handle_of(
    registry: &SessionRegistry<FakePlayer>,
    attached: &AttachedSession,
) -> SessionHandle {
    registry.handle(attached).unwrap()
}

#[test]
fn creation_update_resume_and_player_survival_are_owned() {
    let mut registry = registry();
    let prepared = registry.prepare(start(), "user", Some("client"), None).ok().unwrap();
    let id = prepared.id().to_owned();
    assert!(!prepared.resumed());
    let connection = attach(&mut registry, prepared);
    let handle = handle_of(&registry, &connection);
    assert_eq!(handle.user_id(), "user");
    assert_eq!(handle.client_name(), Some("client"));
    assert_eq!(
        registry.update_settings(start(), &id, SessionSettingsUpdate::default()),
        Ok(SessionSettings { resuming: false, timeout_seconds: 60 })
    );
    registry
        .update_settings(
            start(),
            &id,
            SessionSettingsUpdate { resuming: Some(true), timeout_seconds: Some(15) },
        )
        .unwrap();
    assert_eq!(registry.get_or_add_player(&id, "7", fake()), Ok(true));
    registry.disconnect(start(), connection);
    assert_eq!(stopped_players(&mut registry), 0);
    assert_eq!(registry.counts(start()).resumable, 1);

    let resumed = prepare(&mut registry, start(), "user", Some(&id));
    assert!(resumed.resumed());
    assert_eq!(resumed.id(), id);
    let mut resumed = attach(&mut registry, resumed);
    assert_eq!(resumed.take_initial_state().len(), 1);
    registry
        .update_settings(
            start(),
            &id,
            SessionSettingsUpdate { resuming: Some(false), timeout_seconds: None },
        )
        .unwrap();
    registry.disconnect(start(), resumed);
    assert_eq!(stopped_players(&mut registry), 1);
    assert!(registry.session(&id).is_none());
}

#[test]
fn expiry_cross_user_and_simultaneous_attempts_cannot_steal_a_session() {
    let mut registry = registry();
    let first = prepare(&mut registry, start(), "owner", None);
    let id = first.id().to_owned();
    let first = attach(&mut registry, first);
    registry.update_settings(start(), &id, resumable(Some(1))).unwrap();
    registry.get_or_add_player(&id, "7", fake()).unwrap();
    registry.disconnect(start(), first);

    let attacker = prepare(&mut registry, start(), "attacker", Some(&id));
    assert!(!attacker.resumed());
    assert_ne!(attacker.id(), id);
    registry.abandon(start(), attacker);

    let owner = prepare(&mut registry, start(), "owner", Some(&id));
    assert!(owner.resumed());
    let simultaneous = prepare(&mut registry, start(), "owner", Some(&id));
    assert!(!simultaneous.resumed());
    assert_ne!(simultaneous.id(), id);
    registry.abandon(start(), simultaneous);
    registry.abandon(start(), owner);

    registry.cleanup_expired(Span::from_secs(2));
    assert!(registry.session(&id).is_none());
    assert_eq!(stopped_players(&mut registry), 1);
}

#[test]
fn per_session_player_admission_recovers_without_consuming_global_capacity() {
    let mut registry: SessionRegistry<FakePlayer> = SessionRegistry::new(2, 2, 1, 1, 2);
    let first = prepare(&mut registry, start(), "one", None);
    let first_id = first.id().to_owned();
    let first = attach(&mut registry, first);
    let second = prepare(&mut registry, start(), "two", None);
    let second_id = second.id().to_owned();
    let _second = attach(&mut registry, second);

    registry.get_or_add_player(&first_id, "1", fake()).unwrap();
    assert!(matches!(
        registry.get_or_add_player(&first_id, "2", fake()),
        Err(PlayerAdmissionError::SessionFull)
    ));
    registry.get_or_add_player(&second_id, "3", fake()).unwrap();
    assert_eq!(registry.counts(start()).players, 2);

    registry.remove_player(&first_id, "1").unwrap();
    registry.get_or_add_player(&first_id, "2", fake()).unwrap();
    assert_eq!(registry.counts(start()).players, 2);
    registry.disconnect(start(), first);
}

#[test]
fn session_debug_representations_never_disclose_session_ids() {
    let mut registry = registry();
    let prepared = prepare(&mut registry, start(), "user", None);
    let id = prepared.id().to_owned();
    assert!(!prepared.debug_text().contains(&id));
    let attached = attach(&mut registry, prepared);
    assert!(!attached.debug_text().contains(&id));
    assert!(!handle_of(&registry, &attached).debug_text().contains(&id));
}

#[test]
fn showing_a_registry_keeps_what_is_to_be_done() {
    let mut registry = registry();
    let prepared = prepare(&mut registry, start(), "user", None);
    let id = prepared.id().to_owned();
    let attached = attach(&mut registry, prepared);
    registry.get_or_add_player(&id, "7", fake()).unwrap();
    registry.update_settings(start(), &id, resumable(Some(1))).unwrap();
    registry.disconnect(start(), attached);
    let shown = |connected, resumable, players| {
        format!(
            "SessionRegistry {{ counts: SessionCounts {{ connected: {connected}, \
             resumable: {resumable}, players: {players} }}, .. }}"
        )
    };
    assert_eq!(registry.debug_text(start()), shown(0, 1, 1));
    assert_eq!(registry.debug_text(Span::from_secs(2)), shown(0, 0, 0));
    assert_eq!(registry.next_serial, 1);
    assert_eq!(stopped_players(&mut registry), 1);
}

#[test]
fn thousand_slow_session_backlogs_saturate_at_fixed_bounds_and_recover() {
    const SESSIONS: usize = 1_024;
    let mut registry: SessionRegistry<FakePlayer> = SessionRegistry::new(SESSIONS, 1, 1, 64, 1);
    let mut attached = Vec::with_capacity(SESSIONS);
    for index in 0..SESSIONS {
        let prepared = prepare(&mut registry, start(), &format!("user-{index}"), None);
        let connection = attach(&mut registry, prepared);
        let handle = handle_of(&registry, &connection);
        assert!(registry.publish_critical(&handle, "one".to_owned()).is_ok());
        assert!(matches!(
            registry.publish_critical(&handle, "two".to_owned()),
            Err(PublishError::Full(_))
        ));
        attached.push(connection);
    }
    assert_eq!(
        registry.prepare(start(), "overflow", None, None).err(),
        Some(PrepareError::Full)
    );

    registry.disconnect(start(), attached.pop().unwrap());
    assert!(registry.prepare(start(), "recovered", None, None).is_ok());
}

#[test]
fn critical_backlog_is_bounded_and_state_updates_coalesce() {
    let mut registry = registry();
    let prepared = prepare(&mut registry, start(), "user", None);
    let id = prepared.id().to_owned();
    let connection = attach(&mut registry, prepared);
    registry.update_settings(start(), &id, resumable(None)).unwrap();
    let handle = handle_of(&registry, &connection);
    registry.disconnect(start(), connection);
    assert_eq!(registry.publish_stats(&handle, "old".to_owned()), Ok(false));
    assert_eq!(registry.publish_stats(&handle, "new".to_owned()), Ok(true));
    assert!(registry.publish_critical(&handle, "one".to_owned()).is_ok());
    assert!(registry.publish_critical(&handle, "two".to_owned()).is_ok());
    let resumed = prepare(&mut registry, start(), "user", Some(&id));
    let mut resumed = attach(&mut registry, resumed);
    assert_eq!(resumed.take_initial_critical(), vec!["one".to_owned(), "two".to_owned()]);
    assert_eq!(resumed.take_initial_state(), vec!["new".to_owned()]);
    registry.disconnect(start(), resumed);
    assert!(registry.publish_critical(&handle, "one".to_owned()).is_ok());
    assert!(registry.publish_critical(&handle, "two".to_owned()).is_ok());
    assert!(matches!(
        registry.publish_critical(&handle, "three".to_owned()),
        Err(PublishError::Full(_))
    ));
    assert!(registry.publish_stats(&handle, "old".to_owned()).is_err());
}

#[test]
fn acknowledged_critical_publish_waits_for_websocket_delivery() {
    let mut registry = registry();
    let prepared = prepare(&mut registry, start(), "user", None);
    let connection = attach(&mut registry, prepared);
    let handle = handle_of(&registry, &connection);
    assert_eq!(
        registry.publish_critical_message(&handle, "track-start".to_owned(), Some(5)),
        Ok(true)
    );
    let message = registry.next_critical(&connection).unwrap();
    assert_eq!(message.payload, "track-start");
    assert_eq!(message.delivered, Some(5));
    assert!(registry.next_critical(&connection).is_none());
}

#[test]
fn concurrent_resume_admission_is_bounded_without_mutating_the_second_session() {
    let mut registry: SessionRegistry<FakePlayer> = SessionRegistry::new(3, 1, 1, 1, 2);
    let mut ids = Vec::new();
    for user in ["one", "two"] {
        let prepared = prepare(&mut registry, start(), user, None);
        let id = prepared.id().to_owned();
        let connection = attach(&mut registry, prepared);
        registry.update_settings(start(), &id, resumable(None)).unwrap();
        registry.disconnect(start(), connection);
        ids.push((user, id));
    }

    let first = prepare(&mut registry, start(), ids[0].0, Some(&ids[0].1));
    assert!(first.resumed());
    assert_eq!(
        registry.prepare(start(), ids[1].0, None, Some(&ids[1].1)).err(),
        Some(PrepareError::ResumeOverloaded)
    );
    registry.abandon(start(), first);
    assert!(prepare(&mut registry, start(), ids[1].0, Some(&ids[1].1)).resumed());
}

#[test]
fn shutdown_invalidates_an_in_flight_handshake_without_panicking() {
    let mut registry = registry();
    let prepared = prepare(&mut registry, start(), "user", None);
    registry.shutdown();
    assert!(registry.attach(prepared).is_err());
    assert_eq!(
        registry.prepare(start(), "user", None, None).err(),
        Some(PrepareError::ShuttingDown)
    );
    assert_eq!(
        registry.counts(start()),
        SessionCounts { connected: 0, resumable: 0, players: 0 }
    );
}

#[test]
fn a_resumed_session_is_not_resumed_twice() {
    let mut registry = registry();
    let prepared = prepare(&mut registry, start(), "user", None);
    let id = prepared.id().to_owned();
    let connection = attach(&mut registry, prepared);
    registry.update_settings(start(), &id, resumable(None)).unwrap();
    registry.disconnect(start(), connection);
    let resumed = prepare(&mut registry, start(), "user", Some(&id));
    let _connection = attach(&mut registry, resumed);
    let other = prepare(&mut registry, start(), "user", Some(&id));
    assert!(!other.resumed());
    assert_ne!(other.id(), id);
}

#[test]
fn an_abandoned_resume_falls_back_to_its_deadline() {
    let mut registry = registry();
    let prepared = prepare(&mut registry, start(), "user", None);
    let id = prepared.id().to_owned();
    let connection = attach(&mut registry, prepared);
    registry.update_settings(start(), &id, resumable(Some(10))).unwrap();
    registry.disconnect(Span::from_secs(1), connection);
    let resumed = prepare(&mut registry, Span::from_secs(5), "user", Some(&id));
    registry.abandon(Span::from_secs(10), resumed);
    assert_eq!(registry.counts(Span::from_secs(10)).resumable, 1);
    let resumed = prepare(&mut registry, Span::from_secs(10), "user", Some(&id));
    assert!(resumed.resumed());
    registry.abandon(Span::from_secs(11), resumed);
    assert!(registry.session(&id).is_none());
}

#[test]
fn a_session_waits_no_longer_than_its_timeout() {
    let mut registry = registry();
    let prepared = prepare(&mut registry, start(), "user", None);
    let id = prepared.id().to_owned();
    let connection = attach(&mut registry, prepared);
    registry.update_settings(start(), &id, resumable(Some(15))).unwrap();
    registry.disconnect(Span::from_secs(2), connection);
    registry.cleanup_expired(Span { nanos: 16_999_999_999 });
    assert!(registry.session(&id).is_some());
    registry.cleanup_expired(Span::from_secs(17));
    assert!(registry.session(&id).is_none());
}

#[test]
fn an_overflowing_backlog_loses_the_session() {
    let mut registry = registry();
    let prepared = prepare(&mut registry, start(), "user", None);
    let id = prepared.id().to_owned();
    let connection = attach(&mut registry, prepared);
    registry.update_settings(start(), &id, resumable(None)).unwrap();
    let handle = handle_of(&registry, &connection);
    registry.get_or_add_player(&id, "7", fake()).unwrap();
    registry.disconnect(start(), connection);
    for payload in ["one", "two"] {
        registry.publish_critical(&handle, payload.to_owned()).unwrap();
    }
    assert_eq!(
        registry.publish_critical(&handle, "three".to_owned()),
        Err(PublishError::Full("three".to_owned()))
    );
    assert_eq!(
        registry.publish_critical(&handle, "four".to_owned()),
        Err(PublishError::Disconnected("four".to_owned()))
    );
    registry.cleanup_expired(start());
    assert!(registry.session(&id).is_none());
    assert_eq!(stopped_players(&mut registry), 1);
}

#[test]
fn updates_of_one_guild_replace_each_other() {
    let mut registry: SessionRegistry<FakePlayer> = SessionRegistry::new(1, 2, 2, 1, 2);
    let prepared = prepare(&mut registry, start(), "user", None);
    let id = prepared.id().to_owned();
    let connection = attach(&mut registry, prepared);
    let handle = handle_of(&registry, &connection);
    assert_eq!(
        registry.publish_player_update(&handle, "7", "a0".to_owned()),
        Err(PublishError::Disconnected("a0".to_owned()))
    );
    registry.get_or_add_player(&id, "7", fake()).unwrap();
    registry.get_or_add_player(&id, "8", fake()).unwrap();
    assert_eq!(registry.publish_player_update(&handle, "8", "b1".to_owned()), Ok(false));
    assert_eq!(registry.publish_player_update(&handle, "7", "a1".to_owned()), Ok(false));
    assert_eq!(registry.publish_player_update(&handle, "7", "a2".to_owned()), Ok(true));
    assert_eq!(registry.publish_stats(&handle, "stats".to_owned()), Ok(false));
    assert_eq!(
        registry.take_coalesced(&handle),
        vec!["a2".to_owned(), "b1".to_owned(), "stats".to_owned()]
    );
    assert!(registry.take_coalesced(&handle).is_empty());
}

#[test]
fn unknown_sessions_are_refused() {
    let mut registry = registry();
    assert_eq!(
        registry.update_settings(start(), "nobody", SessionSettingsUpdate::default()),
        Err(UpdateError::NotFound)
    );
    assert_eq!(
        registry.get_or_add_player("nobody", "7", fake()),
        Err(PlayerAdmissionError::SessionNotFound)
    );
    assert_eq!(
        registry.remove_player("nobody", "7"),
        Err(PlayerAdmissionError::SessionNotFound)
    );
    assert!(registry.session("nobody").is_none());
}

#[test]
fn players_are_bounded_over_all_sessions() {
    let mut registry: SessionRegistry<FakePlayer> = SessionRegistry::new(2, 1, 1, 1, 2);
    let one = prepare(&mut registry, start(), "one", None);
    let two = prepare(&mut registry, start(), "two", None);
    let one_id = one.id().to_owned();
    let two_id = two.id().to_owned();
    assert_eq!(
        registry.get_or_add_player(&one_id, "1", fake()),
        Err(PlayerAdmissionError::SessionNotFound)
    );
    let _one = attach(&mut registry, one);
    let _two = attach(&mut registry, two);
    assert_eq!(registry.get_or_add_player(&one_id, "1", fake()), Ok(true));
    assert_eq!(registry.get_or_add_player(&one_id, "1", fake()), Ok(false));
    assert_eq!(
        registry.get_or_add_player(&two_id, "2", fake()),
        Err(PlayerAdmissionError::Full)
    );
    assert!(registry.has_player(&one_id, "1"));
    assert_eq!(registry.guilds(&one_id), vec!["1".to_owned()]);
    assert!(registry.guilds(&two_id).is_empty());
}

#[test]
fn identifiers_are_drawn_at_random_and_never_twice() {
    let mut registry: SessionRegistry<FakePlayer> = SessionRegistry::new(64, 1, 1, 1, 1);
    let mut seen: Vec<String> = Vec::new();
    for _ in 0..64 {
        let prepared = prepare(&mut registry, start(), "user", None);
        assert_eq!(prepared.id().len(), 16);
        assert!(prepared
            .id()
            .chars()
            .all(|c| c.is_ascii_alphanumeric() || c == '-' || c == '_'));
        assert!(!seen.iter().any(|id| id == prepared.id()));
        seen.push(prepared.id().to_owned());
    }
}

#[test]
fn a_draw_becomes_an_identifier() {
    let registry = registry();
    assert!(matches!(registry.candidate_id(None), IdentityStep::Failed));
    match registry.candidate_id(Some([0xff; 12])) {
        IdentityStep::Free(id) => assert_eq!(id, "________________"),
        _ => panic!("the draw is free"),
    }
    match registry.candidate_id(Some([0, 16, 131, 16, 81, 135, 32, 146, 139, 48, 211, 143])) {
        IdentityStep::Free(id) => assert_eq!(id, "ABCDEFGHIJKLMNOP"),
        _ => panic!("the draw is free"),
    }
}

#[test]
fn a_taken_draw_is_drawn_again_up_to_a_limit() {
    let mut registry = registry();
    let prepared = prepare(&mut registry, start(), "user", None);
    attach(&mut registry, prepared);
    registry.sessions[0].id = "________________".to_owned();
    let taken = Some([0xff; 12]);
    assert!(matches!(registry.draw_identity(0, None), IdentityDraw::Failed));
    assert!(matches!(registry.draw_identity(0, taken), IdentityDraw::Again));
    assert!(matches!(registry.draw_identity(14, taken), IdentityDraw::Again));
    assert!(matches!(registry.draw_identity(15, taken), IdentityDraw::Failed));
    match registry.draw_identity(15, Some([0; 12])) {
        IdentityDraw::Found(id) => assert_eq!(id, "AAAAAAAAAAAAAAAA"),
        _ => panic!("the draw is free"),
    }
    assert_ne!(registry.unique_session_id().ok().unwrap(), "________________");
}

#[test]
fn the_latest_of_each_kind_is_handed_out_once() {
    let mut registry: SessionRegistry<FakePlayer> = SessionRegistry::new(2, 3, 3, 1, 2);
    let prepared = prepare(&mut registry, start(), "user", None);
    let id = prepared.id().to_owned();
    let connection = attach(&mut registry, prepared);
    let handle = handle_of(&registry, &connection);
    for guild in ["3", "1", "2"] {
        let player = FakePlayer { guild_id: guild.to_owned(), ..fake() };
        registry.get_or_add_player(&id, guild, player).unwrap();
    }
    let update = |registry: &mut SessionRegistry<FakePlayer>, guild: &str, payload: &str| {
        registry.publish_player_update(&handle, guild, payload.to_owned()).is_ok()
    };
    assert!(update(&mut registry, "3", "c1"));
    assert!(registry.publish_stats(&handle, "s1".to_owned()).is_ok());
    assert!(update(&mut registry, "1", "a1"));
    assert!(update(&mut registry, "3", "c2"));
    assert!(!update(&mut registry, "9", "none"));
    assert!(registry.publish_stats(&handle, "s2".to_owned()).is_ok());
    assert!(update(&mut registry, "1", "a2"));
    assert_eq!(
        registry.take_coalesced(&handle),
        vec!["a2".to_owned(), "c2".to_owned(), "s2".to_owned()]
    );
    assert!(registry.take_coalesced(&handle).is_empty());
}

#[test]
fn frame_windows_belong_to_the_session() {
    let mut registry = registry();
    let prepared = prepare(&mut registry, start(), "user", None);
    let id = prepared.id().to_owned();
    let connection = attach(&mut registry, prepared);
    let handle = handle_of(&registry, &connection);
    let player = FakePlayer { guild_id: "7".to_owned(), sent: 30 };
    registry.get_or_add_player(&id, "7", player).unwrap();
    assert_eq!(registry.frame_stats(&handle), None);
    assert_eq!(
        registry.frame_stats(&handle),
        Some(FrameStats { sent: 0, nulled: 0, deficit: 0 })
    );
    assert_eq!(registry.player_stats(start()).len(), 1);
    assert_eq!(registry.session_player_stats(&handle)[0].1.sent, 30);
}

#[test]
fn a_closed_output_takes_nothing_more() {
    let mut registry = registry();
    let prepared = prepare(&mut registry, start(), "user", None);
    let connection = attach(&mut registry, prepared);
    let handle = handle_of(&registry, &connection);
    registry.publish_critical(&handle, "one".to_owned()).unwrap();
    registry.close_output(&connection);
    assert!(registry.publish_critical(&handle, "two".to_owned()).is_err());
}

#[test]
fn the_system_clock_runs_forward() {
    for clock in [SystemSessionClock::new(), SystemSessionClock::default()] {
        let earlier = clock.now();
        let mut later = clock.now();
        while later.nanos == earlier.nanos {
            later = clock.now();
        }
        assert!(earlier.nanos < later.nanos);
        assert!(later.nanos < 3_600_000_000_000);
    }
}
