//! What goes over a WebSocket: the opening messages, and then whatever the
//! session, its players, the clock and the client bring.

use crate::session::CriticalMessage;
use crate::text_map::TextMap;
use crate::wire;
use crate::wire::{object, put_bool, put_text};
use vstd::prelude::*;

verus! {

/// The first message of a connection.
pub open spec fn ready_json(resumed: bool, session_id: Seq<char>) -> Seq<char> {
    let m = wire::with_member(Seq::empty(), "op"@, wire::json_quoted("ready"@));
    let m = wire::with_member(m, "resumed"@, wire::json_bool(resumed));
    wire::braces(wire::with_member(m, "sessionId"@, wire::json_quoted(session_id)))
}

pub fn ready_value(resumed: bool, session_id: &str) -> (r: String)
    ensures
        r@ == ready_json(resumed, session_id@),
{
    let mut m = String::new();
    put_text(&mut m, "op", "ready");
    put_bool(&mut m, "resumed", resumed);
    put_text(&mut m, "sessionId", session_id);
    object(m.as_str())
}

/// What is sent when a connection opens.
pub enum Opening {
    Text(String),
    /// The statistics as they are when it is their turn.
    Statistics,
}

/// What a connection opens with: it is told that it is ready, then what was
/// kept back for it, then where its players stand. One that was not resumed
/// is told the statistics after that.
pub fn opening_messages(
    resumed: bool,
    session_id: &str,
    critical: Vec<String>,
    state: Vec<String>,
) -> (r: Vec<Opening>)
    ensures
        r@.len() > 0,
        r@[0] matches Opening::Text(ready) && ready@ == ready_json(resumed, session_id@),
        r@.skip(1) == (critical@ + state@).map_values(|text: String| Opening::Text(text)) + (
        if resumed {
            Seq::empty()
        } else {
            seq![Opening::Statistics]
        }),
{
    let ghost told = (critical@ + state@).map_values(|text: String| Opening::Text(text));
    let mut rest = critical;
    let mut state = state;
    rest.append(&mut state);
    let mut out: Vec<Opening> = Vec::new();
    out.push(Opening::Text(ready_value(resumed, session_id)));
    let ghost ready = out@[0];
    while rest.len() > 0
        invariant
            out@ + rest@.map_values(|text: String| Opening::Text(text)) == seq![ready] + told,
        decreases rest@.len(),
    {
        let ghost before = rest@;
        let ghost sent = out@;
        let text: String = rest.remove(0);
        out.push(Opening::Text(text));
        assert(out@ + rest@.map_values(|text: String| Opening::Text(text)) =~= sent
            + before.map_values(|text: String| Opening::Text(text)));
    }
    assert(out@ =~= seq![ready] + told);
    if !resumed {
        out.push(Opening::Statistics);
    }
    assert(out@ =~= seq![ready] + told + (if resumed {
        Seq::empty()
    } else {
        seq![Opening::Statistics]
    }));
    out
}

/// What comes from the client.
pub enum Incoming {
    Text,
    Binary,
    Ping(Vec<u8>),
    Pong,
    Close,
    /// The stream ended or failed.
    Ended,
}

/// A player at the time of its periodic update.
pub struct PlayerWish {
    pub guild_id: String,
    pub wants_update: bool,
}

/// What a connection waits for.
pub enum SocketEvent {
    /// A message that must not be lost, or the end of them.
    Outgoing(Option<CriticalMessage>),
    /// Messages of which only the latest counts.
    Coalesced(Vec<String>),
    UpdateTick(Vec<PlayerWish>),
    StatsTick,
    /// A player told where it stands.
    Refreshed { guild_id: String, payload: String },
    Cancelled,
    Incoming(Incoming),
}

/// What a connection does.
pub enum SocketAction {
    Wait,
    /// Send a message, and then tell whom it concerns that it went out.
    Send(CriticalMessage),
    SendAll(Vec<String>),
    Refresh(Vec<String>),
    PublishStats,
    PublishUpdate { guild_id: String, payload: String },
    Pong(Vec<u8>),
    /// Tell the client that the connection closes, and end.
    Close,
    End,
}

/// The guilds of players that are to be asked where they stand: those that
/// want it and are not being asked already.
pub open spec fn due_guilds(wishes: Seq<PlayerWish>, refreshing: Set<Seq<char>>) -> Seq<Seq<char>>
    decreases wishes.len(),
{
    if wishes.len() == 0 {
        Seq::empty()
    } else {
        let before = due_guilds(wishes.drop_last(), refreshing);
        let guild = wishes.last().guild_id@;
        if wishes.last().wants_update && !refreshing.contains(guild) && !before.contains(guild) {
            before.push(guild)
        } else {
            before
        }
    }
}

/// A connection: the guilds whose players are being asked where they stand.
pub struct SocketLoop {
    pub refreshing: TextMap<()>,
}

/// The guilds that are being asked.
pub open spec fn asked(socket: SocketLoop) -> Set<Seq<char>> {
    socket.refreshing@.dom()
}

impl SocketLoop {
    pub open spec fn wf(&self) -> bool {
        self.refreshing.wf()
    }

    pub fn new() -> (r: SocketLoop)
        ensures
            r.wf(),
            asked(r) == Set::<Seq<char>>::empty(),
    {
        let r = SocketLoop { refreshing: TextMap::new() };
        assert(asked(r) =~= Set::<Seq<char>>::empty());
        r
    }

    fn refresh(&mut self, wishes: Vec<PlayerWish>) -> (r: Vec<String>)
        requires
            old(self).wf(),
        ensures
            final(self).wf(),
            crate::text::texts(r@) == due_guilds(wishes@, asked(*old(self))),
            asked(*final(self)) == asked(*old(self)).union(
                due_guilds(wishes@, asked(*old(self))).to_set(),
            ),
    {
        let mut out: Vec<String> = Vec::new();
        let mut i: usize = 0;
        let ghost start = asked(*self);
        assert(Seq::<Seq<char>>::empty().to_set() =~= Set::<Seq<char>>::empty());
        assert(wishes@.take(0) =~= Seq::<PlayerWish>::empty());
        assert(asked(*self) =~= start.union(due_guilds(wishes@.take(0), start).to_set()));
        assert(crate::text::texts(out@) =~= due_guilds(wishes@.take(0), start));
        while i < wishes.len()
            invariant
                self.wf(),
                i <= wishes@.len(),
                start == asked(*old(self)),
                crate::text::texts(out@) == due_guilds(wishes@.take(i as int), start),
                asked(*self) == start.union(due_guilds(wishes@.take(i as int), start).to_set()),
            decreases wishes@.len() - i,
        {
            let ghost before = due_guilds(wishes@.take(i as int), start);
            let ghost guild = wishes@[i as int].guild_id@;
            proof {
                assert(wishes@.take(i + 1).drop_last() =~= wishes@.take(i as int));
                assert(wishes@.take(i + 1).last() == wishes@[i as int]);
                assert(before.to_set().contains(guild) == before.contains(guild));
            }
            if wishes[i].wants_update && !self.refreshing.contains_key(wishes[i].guild_id.as_str()) {
                self.refreshing.insert(wishes[i].guild_id.clone(), ());
                out.push(wishes[i].guild_id.clone());
                proof {
                    let after = due_guilds(wishes@.take(i + 1), start);
                    assert(after == before.push(guild));
                    assert(after.to_set() =~= before.to_set().insert(guild)) by {
                        assert forall|g: Seq<char>| after.to_set().contains(g)
                            == before.to_set().insert(guild).contains(g) by {
                            if after.contains(g) {
                                let k = choose|k: int| 0 <= k < after.len() && after[k] == g;
                                if k < before.len() {
                                    assert(before[k] == g);
                                }
                            }
                            if before.contains(g) {
                                let k = choose|k: int| 0 <= k < before.len() && before[k] == g;
                                assert(after[k] == g);
                            }
                            assert(after[before.len() as int] == guild);
                        }
                    }
                    assert(asked(*self) =~= start.union(after.to_set()));
                    assert(crate::text::texts(out@) =~= after);
                }
            }
            i = i + 1;
        }
        assert(wishes@.take(i as int) =~= wishes@);
        out
    }

    /// One step of a connection.
    pub fn step(&mut self, event: SocketEvent) -> (r: SocketAction)
        requires
            old(self).wf(),
        ensures
            final(self).wf(),
            match event {
                SocketEvent::UpdateTick(wishes) => {
                    &&& asked(*final(self)) == asked(*old(self)).union(
                        due_guilds(wishes@, asked(*old(self))).to_set(),
                    )
                    &&& r matches SocketAction::Refresh(guilds) && crate::text::texts(guilds@)
                        == due_guilds(wishes@, asked(*old(self)))
                },
                SocketEvent::Refreshed { guild_id, payload } => {
                    &&& asked(*final(self)) == asked(*old(self)).remove(guild_id@)
                    &&& r == SocketAction::PublishUpdate { guild_id, payload }
                },
                _ => *final(self) == *old(self) && r == calm_action(event),
            },
    {
        match event {
            SocketEvent::Outgoing(None) => SocketAction::End,
            SocketEvent::Outgoing(Some(message)) => SocketAction::Send(message),
            SocketEvent::Coalesced(payloads) => SocketAction::SendAll(payloads),
            SocketEvent::UpdateTick(wishes) => SocketAction::Refresh(self.refresh(wishes)),
            SocketEvent::StatsTick => SocketAction::PublishStats,
            SocketEvent::Refreshed { guild_id, payload } => {
                self.refreshing.remove(guild_id.as_str());
                assert(asked(*self) =~= asked(*old(self)).remove(guild_id@));
                SocketAction::PublishUpdate { guild_id, payload }
            },
            SocketEvent::Cancelled => SocketAction::Close,
            SocketEvent::Incoming(incoming) => match incoming {
                Incoming::Text => SocketAction::Wait,
                Incoming::Pong => SocketAction::Wait,
                Incoming::Ping(payload) => SocketAction::Pong(payload),
                Incoming::Binary => SocketAction::End,
                Incoming::Close => SocketAction::End,
                Incoming::Ended => SocketAction::End,
            },
        }
    }
}

/// What an event leads to that no player is asked about.
pub open spec fn calm_action(event: SocketEvent) -> SocketAction {
    match event {
        SocketEvent::Outgoing(None) => SocketAction::End,
        SocketEvent::Outgoing(Some(message)) => SocketAction::Send(message),
        SocketEvent::Coalesced(payloads) => SocketAction::SendAll(payloads),
        SocketEvent::StatsTick => SocketAction::PublishStats,
        SocketEvent::Cancelled => SocketAction::Close,
        SocketEvent::Incoming(Incoming::Ping(payload)) => SocketAction::Pong(payload),
        SocketEvent::Incoming(Incoming::Text) => SocketAction::Wait,
        SocketEvent::Incoming(Incoming::Pong) => SocketAction::Wait,
        _ => SocketAction::End,
    }
}

/// How an action came out.
#[derive(Clone, Copy, Debug, PartialEq, Eq, Structural)]
pub enum Carried {
    Out,
    Failed,
}

/// Whether the connection goes on after an action: it ends where something
/// could not be sent or the statistics found no session, and never for an
/// update that came too late.
pub open spec fn goes_on(action: SocketAction, carried: Carried) -> bool {
    match action {
        SocketAction::End => false,
        SocketAction::Close => false,
        SocketAction::PublishUpdate { .. } => true,
        SocketAction::Wait => true,
        SocketAction::Refresh(_) => true,
        _ => carried is Out,
    }
}

pub fn continues(action: &SocketAction, carried: Carried) -> (r: bool)
    ensures
        r == goes_on(*action, carried),
{
    match action {
        SocketAction::End => false,
        SocketAction::Close => false,
        SocketAction::PublishUpdate { .. } => true,
        SocketAction::Wait => true,
        SocketAction::Refresh(_) => true,
        _ => match carried {
            Carried::Out => true,
            Carried::Failed => false,
        },
    }
}

/// A player is asked where it stands once at a time: whoever is due was not
/// being asked, and is due once.
pub proof fn players_are_asked_once_at_a_time(
    wishes: Seq<PlayerWish>,
    refreshing: Set<Seq<char>>,
    i: int,
    j: int,
)
    requires
        0 <= i < due_guilds(wishes, refreshing).len(),
    ensures
        !refreshing.contains(due_guilds(wishes, refreshing)[i]),
        0 <= j < i ==> due_guilds(wishes, refreshing)[j] != due_guilds(wishes, refreshing)[i],
    decreases wishes.len(),
{
    let before = due_guilds(wishes.drop_last(), refreshing);
    if i < before.len() {
        players_are_asked_once_at_a_time(wishes.drop_last(), refreshing, i, j);
    } else if 0 <= j < i {
        assert(before.contains(before[j]));
    }
}

} // verus!
