//! How the commands of many players share one worker: those of one player run
//! one by one, in the order in which they came.

use crate::text::same_text;
use crate::text_map::TextMap;
use vstd::prelude::*;

verus! {

/// A command that waits for others of its player. Commands are told apart by
/// numbers.
pub struct Waiting {
    pub key: String,
    pub command: u64,
}

/// The commands of a worker.
pub struct Shard {
    /// The keys under which a command runs.
    pub active: TextMap<()>,
    /// The commands that wait, in the order in which they came.
    pub waiting: Vec<Waiting>,
    pub receiving: bool,
    pub max_queued: usize,
}

/// What follows the end of a command.
#[derive(Clone, Copy, Debug, PartialEq, Eq, Structural)]
pub enum Completion {
    /// The next command of the same player runs.
    Run(u64),
    /// The player has no more commands.
    Idle {
        /// Whether the worker ends.
        stop: bool,
    },
}

/// The place of the first command that waits under a key, or their number.
pub open spec fn first_waiting(waiting: Seq<Waiting>, key: Seq<char>) -> int
    decreases waiting.len(),
{
    if waiting.len() == 0 {
        0
    } else if waiting[0].key@ == key {
        0
    } else {
        1 + first_waiting(waiting.skip(1), key)
    }
}

/// Whether a command under a key runs as soon as it comes.
pub open spec fn runs_at_once(active: Set<Seq<char>>, key: Seq<char>) -> bool {
    !active.contains(key)
}

/// Whether a command waits under a key.
pub open spec fn waits(waiting: Seq<Waiting>, key: Seq<char>) -> bool {
    first_waiting(waiting, key) < waiting.len()
}

/// The commands that wait under a key, in the order in which they came.
pub open spec fn line(waiting: Seq<Waiting>, key: Seq<char>) -> Seq<u64>
    decreases waiting.len(),
{
    if waiting.len() == 0 {
        Seq::empty()
    } else if waiting.last().key@ == key {
        line(waiting.drop_last(), key).push(waiting.last().command)
    } else {
        line(waiting.drop_last(), key)
    }
}

proof fn first_waiting_found(waiting: Seq<Waiting>, key: Seq<char>, i: int)
    requires
        0 <= i <= waiting.len(),
        forall|k: int| 0 <= k < i ==> (#[trigger] waiting[k]).key@ != key,
        i == waiting.len() || waiting[i].key@ == key,
    ensures
        first_waiting(waiting, key) == i,
    decreases waiting.len(),
{
    if waiting.len() > 0 && i > 0 {
        let rest = waiting.skip(1);
        assert(waiting[0].key@ != key);
        assert forall|k: int| 0 <= k < i - 1 implies (#[trigger] rest[k]).key@ != key by {
            assert(rest[k] == waiting[k + 1]);
        }
        if i < waiting.len() {
            assert(rest[i - 1] == waiting[i]);
        }
        first_waiting_found(rest, key, i - 1);
    }
}

impl Shard {
    /// Whether the commands that wait do so for one that runs.
    pub open spec fn wf(&self) -> bool {
        &&& self.active.wf()
        &&& forall|i: int|
            0 <= i < self.waiting@.len() ==> self.active@.dom().contains(
                (#[trigger] self.waiting@[i]).key@,
            )
    }

    pub fn new(max_queued: usize) -> (r: Shard)
        ensures
            r.wf(),
            r.active@.dom() == Set::<Seq<char>>::empty(),
            r.waiting@.len() == 0,
            r.receiving,
            r.max_queued == max_queued,
    {
        let r = Shard {
            active: TextMap::new(),
            waiting: Vec::new(),
            receiving: true,
            max_queued,
        };
        assert(r.active@.dom() =~= Set::<Seq<char>>::empty());
        r
    }

    /// Whether another ordinary command is taken.
    pub fn may_receive(&self) -> (r: bool)
        ensures
            r == (self.receiving && self.waiting@.len() < self.max_queued),
    {
        self.receiving && self.waiting.len() < self.max_queued
    }

    /// Takes a command. The result says whether it runs at once.
    pub fn submit(&mut self, key: String, command: u64) -> (r: bool)
        requires
            old(self).wf(),
        ensures
            final(self).wf(),
            r == runs_at_once(old(self).active@.dom(), key@),
            final(self).active@.dom() == old(self).active@.dom().insert(key@),
            final(self).waiting@ == if r {
                old(self).waiting@
            } else {
                old(self).waiting@.push(Waiting { key, command })
            },
            final(self).receiving == old(self).receiving,
            final(self).max_queued == old(self).max_queued,
    {
        if self.active.contains_key(key.as_str()) {
            assert(self.active@.dom() =~= self.active@.dom().insert(key@));
            self.waiting.push(Waiting { key, command });
            false
        } else {
            self.active.insert(key, ());
            assert(self.active@.dom() =~= old(self).active@.dom().insert(key@));
            true
        }
    }

    fn find_waiting(&self, key: &str) -> (r: usize)
        ensures
            r == first_waiting(self.waiting@, key@),
            r <= self.waiting@.len(),
            r < self.waiting@.len() ==> self.waiting@[r as int].key@ == key@,
            forall|k: int| 0 <= k < r ==> (#[trigger] self.waiting@[k]).key@ != key@,
    {
        let mut i: usize = 0;
        while i < self.waiting.len() && !same_text(self.waiting[i].key.as_str(), key)
            invariant
                i <= self.waiting@.len(),
                forall|k: int| 0 <= k < i ==> (#[trigger] self.waiting@[k]).key@ != key@,
            decreases self.waiting@.len() - i,
        {
            i = i + 1;
        }
        proof {
            first_waiting_found(self.waiting@, key@, i as int);
        }
        i
    }

    /// Takes the end of the command that ran under a key.
    pub fn complete(&mut self, key: &str) -> (r: Completion)
        requires
            old(self).wf(),
        ensures
            final(self).wf(),
            final(self).receiving == old(self).receiving,
            final(self).max_queued == old(self).max_queued,
            waits(old(self).waiting@, key@) ==> {
                let at = first_waiting(old(self).waiting@, key@);
                &&& r == Completion::Run(old(self).waiting@[at].command)
                &&& final(self).waiting@ == old(self).waiting@.remove(at)
                &&& final(self).active@ == old(self).active@
            },
            !waits(old(self).waiting@, key@) ==> {
                &&& final(self).waiting@ == old(self).waiting@
                &&& final(self).active@ == old(self).active@.remove(key@)
                &&& r == Completion::Idle {
                    stop: !old(self).receiving && final(self).active.entries@.len() == 0,
                }
            },
    {
        let at: usize = self.find_waiting(key);
        if at < self.waiting.len() {
            let next: Waiting = self.waiting.remove(at);
            proof {
                let before = old(self).waiting@;
                assert forall|i: int| 0 <= i < self.waiting@.len() implies self.active@.dom().contains(
                    (#[trigger] self.waiting@[i]).key@,
                ) by {
                    if i < at {
                        assert(self.waiting@[i] == before[i]);
                    } else {
                        assert(self.waiting@[i] == before[i + 1]);
                    }
                }
            }
            Completion::Run(next.command)
        } else {
            self.active.remove(key);
            Completion::Idle { stop: !self.receiving && self.active.len() == 0 }
        }
    }

    /// Takes no more commands. The result says whether the worker ends.
    pub fn close(&mut self) -> (r: bool)
        ensures
            !final(self).receiving,
            final(self).active == old(self).active,
            final(self).waiting == old(self).waiting,
            final(self).max_queued == old(self).max_queued,
            r == (old(self).active.entries@.len() == 0),
    {
        self.receiving = false;
        self.active.len() == 0
    }

    /// Ends the worker: the commands that wait are handed out to be refused.
    pub fn cancel(self) -> (r: Vec<Waiting>)
        ensures
            r == self.waiting,
    {
        self.waiting
    }
}

/// A command that runs keeps others of its player from running, and none of
/// another player.
pub proof fn one_command_runs_per_player(active: Set<Seq<char>>, key: Seq<char>, other: Seq<char>)
    ensures
        !runs_at_once(active.insert(key), key),
        other != key ==> runs_at_once(active.insert(key), other) == runs_at_once(active, other),
{
}

/// A command joins the end of its player's line, and of no other.
pub proof fn commands_line_up(waiting: Seq<Waiting>, fresh: Waiting, key: Seq<char>)
    ensures
        line(waiting.push(fresh), key) == if fresh.key@ == key {
            line(waiting, key).push(fresh.command)
        } else {
            line(waiting, key)
        },
{
    assert(waiting.push(fresh).drop_last() =~= waiting);
}

/// The next command of a player is the one that waited longest, and the others
/// keep their order.
pub proof fn commands_run_in_order(waiting: Seq<Waiting>, key: Seq<char>, other: Seq<char>)
    requires
        waits(waiting, key),
    ensures
        ({
            let at = first_waiting(waiting, key);
            &&& line(waiting, key).len() > 0
            &&& line(waiting, key)[0] == waiting[at].command
            &&& line(waiting.remove(at), key) == line(waiting, key).skip(1)
            &&& other != key ==> line(waiting.remove(at), other) == line(waiting, other)
        }),
    decreases waiting.len(),
{
    let at = first_waiting(waiting, key);
    first_waiting_is_first(waiting, key);
    let shorter = waiting.drop_last();
    if at == waiting.len() - 1 {
        assert(waiting.remove(at) =~= shorter);
        nothing_waits(shorter, key);
        assert(line(waiting, key).skip(1) =~= line(shorter, key));
    } else {
        first_waiting_found(shorter, key, at);
        commands_run_in_order(shorter, key, other);
        assert(waiting.remove(at).drop_last() =~= shorter.remove(at));
        assert(waiting.remove(at).last() == waiting.last());
        if waiting.last().key@ == key {
            assert(line(waiting, key).skip(1) =~= line(shorter, key).skip(1).push(
                waiting.last().command,
            ));
        }
    }
}

proof fn first_waiting_is_first(waiting: Seq<Waiting>, key: Seq<char>)
    ensures
        0 <= first_waiting(waiting, key) <= waiting.len(),
        forall|k: int|
            0 <= k < first_waiting(waiting, key) ==> (#[trigger] waiting[k]).key@ != key,
        waits(waiting, key) ==> waiting[first_waiting(waiting, key)].key@ == key,
    decreases waiting.len(),
{
    if waiting.len() > 0 && waiting[0].key@ != key {
        let rest = waiting.skip(1);
        first_waiting_is_first(rest, key);
        assert forall|k: int| 0 <= k < first_waiting(waiting, key) implies (
        #[trigger] waiting[k]).key@ != key by {
            if k > 0 {
                assert(rest[k - 1] == waiting[k]);
            }
        }
    }
}

proof fn nothing_waits(waiting: Seq<Waiting>, key: Seq<char>)
    requires
        forall|k: int| 0 <= k < waiting.len() ==> (#[trigger] waiting[k]).key@ != key,
    ensures
        line(waiting, key).len() == 0,
    decreases waiting.len(),
{
    if waiting.len() > 0 {
        nothing_waits(waiting.drop_last(), key);
    }
}

/// Ordinary commands do not fill the line beyond its bound.
pub proof fn ordinary_commands_are_bounded(waiting: Seq<Waiting>, fresh: Waiting, max_queued: usize)
    requires
        waiting.len() < max_queued,
    ensures
        waiting.push(fresh).len() <= max_queued,
{
}

/// The permits that are left.
#[derive(Clone, Copy, Debug, PartialEq, Eq, Structural)]
pub struct LoadAdmission {
    pub loads: usize,
    pub source_requests: usize,
    pub outbound_connections: usize,
}

impl LoadAdmission {
    /// Takes one permit of each kind, or none at all.
    pub fn try_acquire(&mut self) -> (r: bool)
        ensures
            r == (old(self).loads > 0 && old(self).source_requests > 0 && old(
                self,
            ).outbound_connections > 0),
            r ==> *final(self) == (LoadAdmission {
                loads: (old(self).loads - 1) as usize,
                source_requests: (old(self).source_requests - 1) as usize,
                outbound_connections: (old(self).outbound_connections - 1) as usize,
            }),
            !r ==> *final(self) == *old(self),
    {
        if self.loads > 0 && self.source_requests > 0 && self.outbound_connections > 0 {
            self.loads = self.loads - 1;
            self.source_requests = self.source_requests - 1;
            self.outbound_connections = self.outbound_connections - 1;
            true
        } else {
            false
        }
    }

    /// Takes the permit for an outbound connection.
    pub fn try_acquire_outbound(&mut self) -> (r: bool)
        ensures
            r == (old(self).outbound_connections > 0),
            *final(self) == if r {
                LoadAdmission {
                    outbound_connections: (old(self).outbound_connections - 1) as usize,
                    ..*old(self)
                }
            } else {
                *old(self)
            },
    {
        if self.outbound_connections > 0 {
            self.outbound_connections = self.outbound_connections - 1;
            true
        } else {
            false
        }
    }

    /// Gives the permit for an outbound connection back.
    pub fn release_outbound(&mut self)
        requires
            old(self).outbound_connections < usize::MAX,
        ensures
            *final(self) == (LoadAdmission {
                outbound_connections: (old(self).outbound_connections + 1) as usize,
                ..*old(self)
            }),
    {
        self.outbound_connections = self.outbound_connections + 1;
    }

    /// Gives the permits of a load back; that for the outbound connection only
    /// where no player kept it.
    pub fn release_load(&mut self, keeps_outbound: bool)
        requires
            old(self).loads < usize::MAX,
            old(self).source_requests < usize::MAX,
            !keeps_outbound ==> old(self).outbound_connections < usize::MAX,
        ensures
            *final(self) == (LoadAdmission {
                loads: (old(self).loads + 1) as usize,
                source_requests: (old(self).source_requests + 1) as usize,
                outbound_connections: if keeps_outbound {
                    old(self).outbound_connections
                } else {
                    (old(self).outbound_connections + 1) as usize
                },
            }),
    {
        self.loads = self.loads + 1;
        self.source_requests = self.source_requests + 1;
        if !keeps_outbound {
            self.outbound_connections = self.outbound_connections + 1;
        }
    }

    /// Gives back the permits that a player no longer needs once a command has
    /// ended: those of a load that it took, and the one for an outbound
    /// connection that it held where it has no such connection. A player whose
    /// load made its first outbound connection keeps that permit. The result
    /// says whether it holds one from now on.
    pub fn settle(&mut self, load: bool, held: bool, outbound: bool) -> (r: bool)
        requires
            load ==> old(self).loads < usize::MAX && old(self).source_requests < usize::MAX,
            old(self).outbound_connections + outbound_returned(load, held, outbound) <= usize::MAX,
        ensures
            r == (outbound && (held || load)),
            *final(self) == (LoadAdmission {
                loads: if load {
                    (old(self).loads + 1) as usize
                } else {
                    old(self).loads
                },
                source_requests: if load {
                    (old(self).source_requests + 1) as usize
                } else {
                    old(self).source_requests
                },
                outbound_connections: (old(self).outbound_connections + outbound_returned(
                    load,
                    held,
                    outbound,
                )) as usize,
            }),
    {
        let keeps: bool = load && outbound && !held;
        if load {
            self.release_load(keeps);
        }
        if held && !outbound {
            self.release_outbound();
        }
        outbound && (held || keeps)
    }
}

/// How many permits for outbound connections a player gives back: all that its
/// load and it hold, but for the one that its connection needs.
pub open spec fn outbound_returned(load: bool, held: bool, outbound: bool) -> int {
    let holds = (if load {
        1int
    } else {
        0
    }) + (if held {
        1int
    } else {
        0
    });
    if outbound && holds > 0 {
        holds - 1
    } else {
        holds
    }
}

/// The worker of a player, by the hash of its session and guild.
pub fn shard_index(hash: u64, shards: usize) -> (r: usize)
    requires
        shards > 0,
    ensures
        r < shards,
        r == (if hash <= usize::MAX {
            hash as int
        } else {
            usize::MAX as int
        }) % (shards as int),
{
    let held: usize = if hash <= usize::MAX as u64 {
        hash as usize
    } else {
        usize::MAX
    };
    held % shards
}

} // verus!
