//! The server's table of agents connected over WebSocket and of the commands
//! that wait for a reply.
//!
//! The sockets themselves and the reply channels stay with the caller: the
//! manager decides, and the caller performs the sends.  A reply handle of
//! any type `R` is parked under the command's identifier until the reply
//! arrives.  Times are plain millisecond counts of a monotonic clock.
use vstd::prelude::*;
use crate::keyed::KeyedList;
use crate::protocol::{Command, CommandRequest};

verus! {

/// The abstract state of a manager: the last activity of every connected
/// agent, and the reply handle of every command that waits for a reply.
pub struct WsModel<R> {
    pub agents: Map<Seq<char>, u64>,
    pub pending: Map<Seq<char>, R>,
}

/// `now - then`, or 0 when `then` lies after `now`.
pub open spec fn elapsed(now: u64, then: u64) -> u64 {
    if now >= then { (now - then) as u64 } else { 0 }
}

/// Whether an agent last active at `last` is still active at `now`.
pub open spec fn is_active(now: u64, last: u64, timeout: u64) -> bool {
    elapsed(now, last) <= timeout
}

/// The model after an agent registers at `now`.
pub open spec fn model_register<R>(m: WsModel<R>, agent_id: Seq<char>, now: u64) -> WsModel<R> {
    WsModel { agents: m.agents.insert(agent_id, now), pending: m.pending }
}

/// The model after an agent is removed.
pub open spec fn model_remove<R>(m: WsModel<R>, agent_id: Seq<char>) -> WsModel<R> {
    WsModel { agents: m.agents.remove(agent_id), pending: m.pending }
}

/// Whether a command for `agent_id` can be sent.
pub open spec fn model_can_send<R>(m: WsModel<R>, agent_id: Seq<char>) -> bool {
    m.agents.dom().contains(agent_id)
}

/// The model after a command `command_id` is sent to a connected agent and
/// its reply handle parked.
pub open spec fn model_send<R>(m: WsModel<R>, command_id: Seq<char>, reply: R) -> WsModel<R> {
    WsModel { agents: m.agents, pending: m.pending.insert(command_id, reply) }
}

/// The model after a reply for `command_id` arrives.
pub open spec fn model_respond<R>(m: WsModel<R>, command_id: Seq<char>) -> WsModel<R> {
    WsModel { agents: m.agents, pending: m.pending.remove(command_id) }
}

/// The reply handle that a reply for `command_id` reaches, if any.
pub open spec fn model_waiter<R>(m: WsModel<R>, command_id: Seq<char>) -> Option<R> {
    if m.pending.dom().contains(command_id) {
        Some(m.pending[command_id])
    } else {
        None
    }
}

/// The model after inactive agents are dropped at `now`.
pub open spec fn model_cleanup<R>(m: WsModel<R>, now: u64, timeout: u64) -> WsModel<R> {
    WsModel {
        agents: m.agents.restrict(m.agents.dom().filter(|k: Seq<char>| is_active(now, m.agents[k], timeout))),
        pending: m.pending,
    }
}

/// The error text for a command to an agent that is not connected.
pub open spec fn not_connected_message(agent_id: Seq<char>) -> Seq<char> {
    "Agent "@ + agent_id + " not connected"@
}

pub struct WebSocketManager<R> {
    agents: KeyedList<u64>,
    pending_responses: KeyedList<R>,
}

impl<R> WebSocketManager<R> {
    pub closed spec fn view(&self) -> WsModel<R> {
        WsModel { agents: self.agents.view(), pending: self.pending_responses.view() }
    }

    /// The internal tables are consistent.
    pub closed spec fn wf(&self) -> bool {
        self.agents.wf() && self.pending_responses.wf()
    }

    /// A manager with no agent and no pending command.
    pub fn new() -> (m: Self)
        ensures
            m.wf(),
            m.view().agents == Map::<Seq<char>, u64>::empty(),
            m.view().pending == Map::<Seq<char>, R>::empty(),
    {
        WebSocketManager { agents: KeyedList::new(), pending_responses: KeyedList::new() }
    }

    /// Records that `agent_id` connected at `now`; a second registration of
    /// the same agent replaces the first.
    pub fn register_agent(&mut self, agent_id: String, now: u64)
        requires
            old(self).wf(),
        ensures
            final(self).wf(),
            final(self).view() == model_register(old(self).view(), agent_id@, now),
    {
        self.agents.insert(agent_id, now);
    }

    /// Forgets `agent_id`; tells whether it was connected.
    pub fn remove_agent(&mut self, agent_id: &str) -> (was_connected: bool)
        requires
            old(self).wf(),
        ensures
            final(self).wf(),
            final(self).view() == model_remove(old(self).view(), agent_id@),
            was_connected == old(self).view().agents.dom().contains(agent_id@),
    {
        self.agents.remove(agent_id).is_some()
    }

    /// Prepares `command` for `agent_id`: when the agent is connected, draws
    /// a random version-4 UUID as the command identifier (it is not checked
    /// against those already waiting; one that is replaces that entry),
    /// parks `reply` under it and returns the request to send; otherwise
    /// returns the error text and changes nothing.
    pub fn send_and_wait(&mut self, agent_id: &str, command: Command, reply: R) -> (r: Result<
        CommandRequest,
        String,
    >)
        requires
            old(self).wf(),
        ensures
            final(self).wf(),
            r is Ok <==> model_can_send(old(self).view(), agent_id@),
            match r {
                Ok(req) => {
                    &&& crate::ids::is_uuid_v4_text(req.command_id@)
                    &&& req.command == command
                    &&& final(self).view() == model_send(old(self).view(), req.command_id@, reply)
                },
                Err(msg) => {
                    &&& msg@ == not_connected_message(agent_id@)
                    &&& final(self).view() == old(self).view()
                },
            },
    {
        if self.agents.contains(agent_id) {
            let command_id = crate::ids::new_uuid_text();
            self.pending_responses.insert(command_id.clone(), reply);
            Ok(CommandRequest { command_id, command })
        } else {
            Err(crate::text::concat3("Agent ", agent_id, " not connected"))
        }
    }

    /// Records that something was sent to `agent_id` at `now`.
    pub fn mark_activity(&mut self, agent_id: &str, now: u64)
        requires
            old(self).wf(),
        ensures
            final(self).wf(),
            final(self).view() == (if old(self).view().agents.dom().contains(agent_id@) {
                model_register(old(self).view(), agent_id@, now)
            } else {
                old(self).view()
            }),
    {
        if self.agents.contains(agent_id) {
            self.agents.insert(agent_id.to_owned(), now);
        }
    }

    /// A reply for `command_id` arrived: hands back the parked reply handle,
    /// if any, and forgets it, so that each command is answered at most once.
    pub fn handle_response(&mut self, command_id: &str) -> (waiter: Option<R>)
        requires
            old(self).wf(),
        ensures
            final(self).wf(),
            waiter == model_waiter(old(self).view(), command_id@),
            final(self).view() == model_respond(old(self).view(), command_id@),
    {
        self.pending_responses.remove(command_id)
    }

    /// The identifiers of the connected agents, each once.
    pub fn get_connected_agents(&self) -> (ids: Vec<String>)
        requires
            self.wf(),
        ensures
            crate::keyed::key_views(ids@).no_duplicates(),
            crate::keyed::key_views(ids@).to_set() == self.view().agents.dom(),
    {
        self.agents.keys()
    }

    /// The number of connected agents.
    pub fn connected_count(&self) -> (n: usize)
        requires
            self.wf(),
        ensures
            self.view().agents.dom().finite(),
            n == self.view().agents.dom().len(),
    {
        self.agents.len()
    }

    /// Drops every agent whose last activity lies more than `timeout` before
    /// `now`, and hands back their identifiers.
    pub fn cleanup_inactive(&mut self, now: u64, timeout: u64) -> (removed: Vec<String>)
        requires
            old(self).wf(),
        ensures
            final(self).wf(),
            final(self).view() == model_cleanup(old(self).view(), now, timeout),
            crate::keyed::key_views(removed@).to_set() == old(self).view().agents.dom().filter(
                |k: Seq<char>| !is_active(now, old(self).view().agents[k], timeout),
            ),
    {
        let ghost before = self.view();
        let bound = now.saturating_sub(timeout);
        let removed = self.agents.retain_at_least(bound);
        proof {
            assert forall|last: u64| is_active(now, last, timeout) <==> last >= bound by {}
            assert(self.view().agents =~= model_cleanup(before, now, timeout).agents);
            assert(crate::keyed::key_views(removed@).to_set() =~= before.agents.dom().filter(
                |k: Seq<char>| !is_active(now, before.agents[k], timeout),
            ));
        }
        removed
    }
}

/// An agent that has just registered is connected.
pub proof fn law_registered_agent_is_connected<R>(m: WsModel<R>, agent_id: Seq<char>, now: u64)
    ensures
        model_can_send(model_register(m, agent_id, now), agent_id),
{
}

/// An agent that has been removed cannot be sent commands.
pub proof fn law_removed_agent_is_not_connected<R>(m: WsModel<R>, agent_id: Seq<char>)
    ensures
        !model_can_send(model_remove(m, agent_id), agent_id),
{
}

/// The reply to a command that was sent reaches the handle parked for it,
/// and a second reply under the same identifier reaches nobody.
pub proof fn law_reply_delivered_once<R>(m: WsModel<R>, command_id: Seq<char>, reply: R)
    ensures
        model_waiter(model_send(m, command_id, reply), command_id) == Some(reply),
        model_waiter(model_respond(model_send(m, command_id, reply), command_id), command_id)
            == None::<R>,
{
}

/// A reply for an unknown command reaches nobody and changes nothing.
pub proof fn law_unknown_reply_is_ignored<R>(m: WsModel<R>, command_id: Seq<char>)
    requires
        !m.pending.dom().contains(command_id),
    ensures
        model_waiter(m, command_id) == None::<R>,
        model_respond(m, command_id) == m,
{
    assert(m.pending.remove(command_id) =~= m.pending);
}

/// Sending a command and delivering another command's reply do not touch
/// each other's waiters.
pub proof fn law_replies_are_independent<R>(m: WsModel<R>, c1: Seq<char>, c2: Seq<char>, reply: R)
    requires
        c1 != c2,
    ensures
        model_waiter(model_send(m, c1, reply), c2) == model_waiter(m, c2),
        model_waiter(model_respond(m, c1), c2) == model_waiter(m, c2),
{
}

/// Cleaning up keeps exactly the agents active within the timeout, keeps
/// their activity times, and leaves the waiting commands alone; an agent
/// registered at `now` survives a cleanup at `now` whatever the timeout.
pub proof fn law_cleanup_keeps_active<R>(m: WsModel<R>, now: u64, timeout: u64, agent_id: Seq<char>)
    ensures
        model_cleanup(m, now, timeout).agents.dom().contains(agent_id) <==> (
            m.agents.dom().contains(agent_id) && is_active(now, m.agents[agent_id], timeout)),
        model_cleanup(m, now, timeout).agents.dom().contains(agent_id)
            ==> model_cleanup(m, now, timeout).agents[agent_id] == m.agents[agent_id],
        model_cleanup(m, now, timeout).pending == m.pending,
        model_cleanup(model_register(m, agent_id, now), now, timeout).agents.dom().contains(agent_id),
{
}

} // verus!
