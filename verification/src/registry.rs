//! The server's registry of agents, fed by heartbeats and WebSocket
//! connections, and the answers that the HTTP API gives from it.
use vstd::prelude::*;
use crate::keyed::KeyedList;

verus! {

/// Seconds after the last heartbeat during which an agent counts as online.
pub const AGENT_TIMEOUT_SECS: u64 = 120;

/// What the server knows of one agent.
#[derive(Debug, Clone)]
pub struct AgentInfo {
    pub id: String,
    pub hostname: String,
    pub platform: String,
    pub version: String,
    pub uptime: u64,
    pub status: String,
    pub last_seen: u64,
}

/// The plain values of an agent's record.
pub struct AgentView {
    pub id: Seq<char>,
    pub hostname: Seq<char>,
    pub platform: Seq<char>,
    pub version: Seq<char>,
    pub uptime: u64,
    pub status: Seq<char>,
    pub last_seen: u64,
}

impl AgentInfo {
    pub open spec fn view(&self) -> AgentView {
        AgentView {
            id: self.id@,
            hostname: self.hostname@,
            platform: self.platform@,
            version: self.version@,
            uptime: self.uptime,
            status: self.status@,
            last_seen: self.last_seen,
        }
    }
}

/// What a heartbeat tells of its agent; `agent_id` is absent when the
/// heartbeat did not carry one.
#[derive(Debug, Clone)]
pub struct HeartbeatReport {
    pub agent_id: Option<String>,
    pub hostname: String,
    pub platform: String,
    pub version: String,
    pub uptime: u64,
}

/// The identifier under which a heartbeat is recorded.
pub open spec fn reported_id(agent_id: Option<String>) -> Seq<char> {
    match agent_id {
        Some(id) => id@,
        None => "unknown"@,
    }
}

/// The record that a heartbeat leaves, received at `now`.
pub open spec fn heartbeat_record(hb: HeartbeatReport, now: u64) -> AgentView {
    AgentView {
        id: reported_id(hb.agent_id),
        hostname: hb.hostname@,
        platform: hb.platform@,
        version: hb.version@,
        uptime: hb.uptime,
        status: "online"@,
        last_seen: now,
    }
}

/// The record that a new WebSocket connection or registration leaves, at
/// `now`: hostname and platform "unknown", version "1.0.0".
pub open spec fn connection_record(agent_id: Seq<char>, now: u64) -> AgentView {
    AgentView {
        id: agent_id,
        hostname: "unknown"@,
        platform: "unknown"@,
        version: "1.0.0"@,
        uptime: 0,
        status: "connected"@,
        last_seen: now,
    }
}

/// Whether an agent seen last at `last_seen` counts as online at `now`.
pub open spec fn spec_is_online(now: u64, last_seen: u64) -> bool {
    now - last_seen < AGENT_TIMEOUT_SECS
}

/// An agent's state as the API reports it.
#[derive(Debug, Clone, Copy, PartialEq, Eq, Structural)]
pub enum AgentStatus {
    Online,
    Offline,
}

/// Whether an agent seen last at `last_seen` is online at `now`.
pub fn calculate_status(now: u64, last_seen: u64) -> (s: AgentStatus)
    requires
        last_seen <= now,
    ensures
        s == (if spec_is_online(now as u64, last_seen as u64) {
            AgentStatus::Online
        } else {
            AgentStatus::Offline
        }),
{
    if now - last_seen < AGENT_TIMEOUT_SECS {
        AgentStatus::Online
    } else {
        AgentStatus::Offline
    }
}

/// One line of the agent listing.
#[derive(Debug, Clone)]
pub struct AgentSummary {
    pub id: String,
    pub hostname: String,
    pub platform: String,
    pub version: String,
    pub status: AgentStatus,
    pub last_seen: u64,
    pub seconds_ago: u64,
}

/// The agent listing with its counts.
#[derive(Debug, Clone)]
pub struct AgentListing {
    pub agents: Vec<AgentSummary>,
    pub count: usize,
    pub online_count: usize,
    pub offline_count: usize,
}

/// How the API answers a command for an agent.
#[derive(Debug, Clone, Copy, PartialEq, Eq, Structural)]
pub enum CommandRoute {
    /// The request names no command.
    BadRequest,
    /// No agent of that identifier is registered.
    AgentNotFound,
    /// The agent is registered; commands travel over its WebSocket.
    UseWebSocket,
}

pub struct AgentRegistry {
    agents: KeyedList<AgentInfo>,
}

impl AgentRegistry {
    /// The records of the registered agents, by identifier.
    pub closed spec fn view(&self) -> Map<Seq<char>, AgentView> {
        self.agents.view().map_values(|a: AgentInfo| a.view())
    }

    /// Every record is filed under its own identifier.
    pub closed spec fn wf(&self) -> bool {
        &&& self.agents.wf()
        &&& forall|k: Seq<char>| #[trigger] self.agents.view().dom().contains(k)
            ==> self.agents.view()[k].id@ == k
    }

    /// Whether every agent was last seen no later than `now`.
    pub open spec fn seen_by(&self, now: u64) -> bool {
        forall|k: Seq<char>| #[trigger] self.view().dom().contains(k) ==> self.view()[k].last_seen <= now
    }

    /// A registry with no agent.
    pub fn new() -> (r: Self)
        ensures
            r.wf(),
            r.view() == Map::<Seq<char>, AgentView>::empty(),
    {
        let r = AgentRegistry { agents: KeyedList::new() };
        assert(r.view() =~= Map::<Seq<char>, AgentView>::empty());
        r
    }

    /// The number of registered agents.
    pub fn count(&self) -> (n: usize)
        requires
            self.wf(),
        ensures
            self.view().dom().finite(),
            n == self.view().dom().len(),
    {
        let n = self.agents.len();
        assert(self.view().dom() =~= self.agents.view().dom());
        n
    }

    /// Whether `agent_id` is registered.
    pub fn contains(&self, agent_id: &str) -> (b: bool)
        requires
            self.wf(),
        ensures
            b == self.view().dom().contains(agent_id@),
    {
        self.agents.contains(agent_id)
    }

    /// The record of `agent_id`, if registered.
    pub fn get(&self, agent_id: &str) -> (r: Option<&AgentInfo>)
        requires
            self.wf(),
        ensures
            match r {
                Some(a) => self.view().dom().contains(agent_id@) && a.view() == self.view()[agent_id@],
                None => !self.view().dom().contains(agent_id@),
            },
    {
        self.agents.get(agent_id)
    }

    fn put(&mut self, info: AgentInfo)
        requires
            old(self).wf(),
        ensures
            final(self).wf(),
            final(self).view() == old(self).view().insert(info.id@, info.view()),
    {
        let ghost before = self.agents.view();
        let id = info.id.clone();
        let ghost iv = info.view();
        self.agents.insert(id, info);
        proof {
            assert(self.view() =~= before.map_values(|a: AgentInfo| a.view()).insert(iv.id, iv));
        }
    }

    /// Records a heartbeat received at `now`: the agent it names (or
    /// `unknown` when it names none) is registered, or its record replaced.
    pub fn record_heartbeat(&mut self, hb: HeartbeatReport, now: u64)
        requires
            old(self).wf(),
        ensures
            final(self).wf(),
            final(self).view() == old(self).view().insert(reported_id(hb.agent_id), heartbeat_record(hb, now)),
    {
        let ghost h = hb;
        let id = match hb.agent_id {
            Some(id) => id,
            None => "unknown".to_owned(),
        };
        proof {
            reveal_strlit("unknown");
        }
        let info = AgentInfo {
            id,
            hostname: hb.hostname,
            platform: hb.platform,
            version: hb.version,
            uptime: hb.uptime,
            status: "online".to_owned(),
            last_seen: now,
        };
        self.put(info);
    }

    /// Records a WebSocket connection, or a registration over one, of
    /// `agent_id` at `now`.
    pub fn register_connection(&mut self, agent_id: String, now: u64)
        requires
            old(self).wf(),
        ensures
            final(self).wf(),
            final(self).view() == old(self).view().insert(agent_id@, connection_record(agent_id@, now)),
    {
        let info = AgentInfo {
            id: agent_id,
            hostname: "unknown".to_owned(),
            platform: "unknown".to_owned(),
            version: "1.0.0".to_owned(),
            uptime: 0,
            status: "connected".to_owned(),
            last_seen: now,
        };
        self.put(info);
    }

    /// Forgets `agent_id`; tells whether it was registered.
    pub fn remove(&mut self, agent_id: &str) -> (was_there: bool)
        requires
            old(self).wf(),
        ensures
            final(self).wf(),
            final(self).view() == old(self).view().remove(agent_id@),
            was_there == old(self).view().dom().contains(agent_id@),
    {
        let ghost before = self.agents.view();
        let r = self.agents.remove(agent_id);
        proof {
            assert(self.view() =~= before.map_values(|a: AgentInfo| a.view()).remove(agent_id@));
        }
        r.is_some()
    }

    /// How a command for `agent_id` is answered; `names_command` tells
    /// whether the request carried a command.
    pub fn route_command(&self, agent_id: &str, names_command: bool) -> (r: CommandRoute)
        requires
            self.wf(),
        ensures
            r == (if !names_command {
                CommandRoute::BadRequest
            } else if !self.view().dom().contains(agent_id@) {
                CommandRoute::AgentNotFound
            } else {
                CommandRoute::UseWebSocket
            }),
    {
        if !names_command {
            CommandRoute::BadRequest
        } else if !self.agents.contains(agent_id) {
            CommandRoute::AgentNotFound
        } else {
            CommandRoute::UseWebSocket
        }
    }

    /// Whether no agent was last seen after `now`.
    pub fn all_seen_by(&self, now: u64) -> (b: bool)
        requires
            self.wf(),
        ensures
            b == self.seen_by(now),
    {
        let ids = self.agents.keys();
        let n = ids.len();
        let mut i: usize = 0;
        while i < n
            invariant
                self.wf(),
                n == ids@.len(),
                i <= n,
                crate::keyed::key_views(ids@).to_set() == self.agents.view().dom(),
                forall|j: int| 0 <= j < i ==> #[trigger] self.view()[ids@[j]@].last_seen <= now,
            decreases n - i,
        {
            let a = self.agents.get(ids[i].as_str());
            proof {
                assert(crate::keyed::key_views(ids@)[i as int] == ids@[i as int]@);
                assert(crate::keyed::key_views(ids@).to_set().contains(ids@[i as int]@));
            }
            match a {
                Some(info) => {
                    if info.last_seen > now {
                        proof {
                            assert(self.view().dom().contains(ids@[i as int]@));
                            assert(self.view()[ids@[i as int]@].last_seen > now);
                        }
                        return false;
                    }
                    proof {
                        assert(self.view()[ids@[i as int]@].last_seen <= now);
                    }
                },
                None => {},
            }
            i = i + 1;
        }
        proof {
            assert forall|k: Seq<char>| #[trigger] self.view().dom().contains(k) implies self.view()[k].last_seen <= now by {
                assert(crate::keyed::key_views(ids@).to_set().contains(k));
                let j = choose|j: int| 0 <= j < n && crate::keyed::key_views(ids@)[j] == k;
                assert(self.view()[ids@[j]@].last_seen <= now);
            }
        }
        true
    }

    /// The listing of every agent at `now`, with how many are online and
    /// how many offline.
    pub fn list_agents(&self, now: u64) -> (l: AgentListing)
        requires
            self.wf(),
            self.seen_by(now),
        ensures
            self.view().dom().finite(),
            l.count == self.view().dom().len(),
            l.agents@.len() == l.count,
            l.online_count == crate::forensic::count_where(l.agents@, |s: AgentSummary| s.status == AgentStatus::Online),
            l.online_count + l.offline_count == l.count,
            forall|i: int| 0 <= i < l.agents@.len() ==> {
                let s = #[trigger] l.agents@[i];
                &&& self.view().dom().contains(s.id@)
                &&& s.hostname@ == self.view()[s.id@].hostname
                &&& s.platform@ == self.view()[s.id@].platform
                &&& s.version@ == self.view()[s.id@].version
                &&& s.last_seen == self.view()[s.id@].last_seen
                &&& s.seconds_ago == now - self.view()[s.id@].last_seen
                &&& s.status == (if spec_is_online(now, s.last_seen) { AgentStatus::Online } else { AgentStatus::Offline })
            },
            forall|k: Seq<char>| #[trigger] self.view().dom().contains(k) ==>
                exists|i: int| 0 <= i < l.agents@.len() && #[trigger] l.agents@[i].id@ == k,
    {
        let ids = self.agents.keys();
        proof {
            assert(self.view().dom() =~= self.agents.view().dom());
        }
        let n = ids.len();
        let mut out: Vec<AgentSummary> = Vec::new();
        let mut online: usize = 0;
        let mut offline: usize = 0;
        let mut i: usize = 0;
        while i < n
            invariant
                self.wf(),
                self.seen_by(now),
                n == ids@.len(),
                i <= n,
                crate::keyed::key_views(ids@).to_set() == self.agents.view().dom(),
                out@.len() == i,
                online + offline == i,
                online == crate::forensic::count_where(out@, |s: AgentSummary| s.status == AgentStatus::Online),
                forall|j: int| 0 <= j < i ==> (#[trigger] out@[j]).id@ == ids@[j]@,
                forall|j: int| 0 <= j < i ==> {
                    let s = #[trigger] out@[j];
                    &&& self.view().dom().contains(s.id@)
                    &&& s.hostname@ == self.view()[s.id@].hostname
                    &&& s.platform@ == self.view()[s.id@].platform
                    &&& s.version@ == self.view()[s.id@].version
                    &&& s.last_seen == self.view()[s.id@].last_seen
                    &&& s.seconds_ago == now - self.view()[s.id@].last_seen
                    &&& s.status == (if spec_is_online(now, s.last_seen) { AgentStatus::Online } else { AgentStatus::Offline })
                },
            decreases n - i,
        {
            proof {
                assert(crate::keyed::key_views(ids@)[i as int] == ids@[i as int]@);
                assert(crate::keyed::key_views(ids@).to_set().contains(ids@[i as int]@));
            }
            let a = self.agents.get(ids[i].as_str());
            match a {
                Some(info) => {
                    proof {
                        assert(self.view().dom().contains(ids@[i as int]@));
                    }
                    let status = calculate_status(now, info.last_seen);
                    if status == AgentStatus::Online {
                        online = online + 1;
                    } else {
                        offline = offline + 1;
                    }
                    let s = AgentSummary {
                        id: ids[i].clone(),
                        hostname: info.hostname.clone(),
                        platform: info.platform.clone(),
                        version: info.version.clone(),
                        status,
                        last_seen: info.last_seen,
                        seconds_ago: now - info.last_seen,
                    };
                    let ghost prev = out@;
                    out.push(s);
                    proof {
                        assert(out@.drop_last() =~= prev);
                    }
                },
                None => {
                    proof {
                        assert(false);
                    }
                },
            }
            i = i + 1;
        }
        let count = self.count();
        proof {
            assert(count == n);
            assert forall|k: Seq<char>| #[trigger] self.view().dom().contains(k) implies
                exists|i: int| 0 <= i < out@.len() && #[trigger] out@[i].id@ == k by {
                assert(crate::keyed::key_views(ids@).to_set().contains(k));
                let j = choose|j: int| 0 <= j < n && crate::keyed::key_views(ids@)[j] == k;
                assert(out@[j].id@ == k);
            }
        }
        AgentListing { agents: out, count, online_count: online, offline_count: offline }
    }
}

/// A heartbeat registers its agent: right after it, the agent is listed
/// with the values the heartbeat carried.
pub proof fn law_heartbeat_registers(agents: Map<Seq<char>, AgentView>, hb: HeartbeatReport, now: u64)
    ensures
        agents.insert(reported_id(hb.agent_id), heartbeat_record(hb, now)).dom().contains(
            reported_id(hb.agent_id),
        ),
        agents.insert(reported_id(hb.agent_id), heartbeat_record(hb, now))[reported_id(hb.agent_id)]
            == heartbeat_record(hb, now),
{
}

/// An agent whose heartbeat has just been recorded is listed online: the
/// record keeps the time it arrived, and no time has passed since.
pub proof fn law_fresh_heartbeat_is_online(agents: Map<Seq<char>, AgentView>, hb: HeartbeatReport, now: u64)
    ensures
        ({
            let after = agents.insert(reported_id(hb.agent_id), heartbeat_record(hb, now));
            &&& after[reported_id(hb.agent_id)].last_seen == now
            &&& spec_is_online(now, after[reported_id(hb.agent_id)].last_seen)
        }),
{
}

/// A repeated heartbeat of a registered agent does not change how many
/// agents are registered; a heartbeat of a new agent adds exactly one.
pub proof fn law_heartbeat_count(agents: Map<Seq<char>, AgentView>, hb: HeartbeatReport, now: u64)
    requires
        agents.dom().finite(),
    ensures
        agents.insert(reported_id(hb.agent_id), heartbeat_record(hb, now)).dom().len() == (if agents.dom().contains(
            reported_id(hb.agent_id),
        ) {
            agents.dom().len()
        } else {
            agents.dom().len() + 1
        }),
{
}

/// Heartbeats of other agents leave an agent's record alone.
pub proof fn law_heartbeat_is_local(agents: Map<Seq<char>, AgentView>, hb: HeartbeatReport, now: u64, other: Seq<char>)
    requires
        other != reported_id(hb.agent_id),
    ensures
        agents.insert(reported_id(hb.agent_id), heartbeat_record(hb, now)).dom().contains(other)
            == agents.dom().contains(other),
        agents.dom().contains(other) ==> agents.insert(reported_id(hb.agent_id), heartbeat_record(hb, now))[other]
            == agents[other],
{
}

} // verus!
