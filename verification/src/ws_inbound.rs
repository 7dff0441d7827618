//! What the server does with each frame an agent's WebSocket delivers: the
//! decision is taken here, from the frame and the manager's state; sending
//! and receiving stay with the caller, which performs the step returned.
use vstd::prelude::*;
use crate::frames::{parse_binary_reply, BinaryReply};
use crate::text::str_eq;
use crate::ws_manager::{model_register, model_respond, model_send, model_waiter, WebSocketManager, WsModel};

verus! {

/// Whether `text` is a JSON document, as `serde_json::from_str::<Value>`
/// reads it.
pub uninterp spec fn is_json(text: Seq<char>) -> bool;

/// The string that the JSON object `text` holds under `key`: `None` where
/// `text` is no JSON, is no object, lacks the key, or holds no string there.
pub uninterp spec fn json_str_field(text: Seq<char>, key: Seq<char>) -> Option<Seq<char>>;

/// The characters of an optional string.
pub open spec fn opt_text(o: Option<String>) -> Option<Seq<char>> {
    match o {
        Some(s) => Some(s@),
        None => None,
    }
}

/// `serde_json::from_str::<serde_json::Value>(text).is_ok()`; its result is
/// named [`is_json`] of the text.
#[verifier::external_body]
pub(crate) fn parses_as_json(text: &str) -> (b: bool)
    ensures
        b == is_json(text@),
{
    serde_json::from_str::<serde_json::Value>(text).is_ok()
}

/// The string field `key` of the JSON document `text`, read with
/// `serde_json::from_str::<Value>`, `Value::get` and `Value::as_str`; the
/// result is named [`json_str_field`] of the text and the key.
#[verifier::external_body]
pub(crate) fn json_string_field(text: &str, key: &str) -> (r: Option<String>)
    ensures
        opt_text(r) == json_str_field(text@, key@),
{
    match serde_json::from_str::<serde_json::Value>(text) {
        Ok(v) => match v.get(key) {
            Some(x) => match x.as_str() {
                Some(s) => Some(s.to_owned()),
                None => None,
            },
            None => None,
        },
        Err(_) => None,
    }
}

/// The compact JSON text of the object that holds each pair's string under
/// its key, as `serde_json` writes a `Value::Object` of `Value::String`s.
pub uninterp spec fn json_object_text(pairs: Seq<(Seq<char>, Seq<char>)>) -> Seq<char>;

/// The characters of each key and value.
pub open spec fn pair_views(pairs: Seq<(String, String)>) -> Seq<(Seq<char>, Seq<char>)> {
    pairs.map_values(|p: (String, String)| (p.0@, p.1@))
}

/// Whether no pair of `pairs` other than the `i`-th has its key.
pub open spec fn key_unique(pairs: Seq<(String, String)>, i: int) -> bool {
    forall|j: int| 0 <= j < pairs.len() && j != i ==> pairs[j].0@ != pairs[i].0@
}

/// A `serde_json::Map` of the pairs (`Map::insert` of each key with
/// `Value::String` of its value), written by `Display` of
/// `Value::Object`; the text is named [`json_object_text`] of the pairs.
/// Read back with `serde_json::from_str`, `Value::get` and `Value::as_str`,
/// the text holds each pair's value under a key that no other pair has.
/// What it holds under a key that two pairs share is left unsaid.
#[verifier::external_body]
pub(crate) fn object_text(pairs: &Vec<(String, String)>) -> (r: String)
    ensures
        r@ == json_object_text(pair_views(pairs@)),
        forall|i: int|
            0 <= i < pairs@.len() && key_unique(pairs@, i) ==> json_str_field(r@, (#[trigger] pairs@[i]).0@)
                == Some(pairs@[i].1@),
{
    let mut m = serde_json::Map::new();
    for (k, v) in pairs.iter() {
        m.insert(k.clone(), serde_json::Value::String(v.clone()));
    }
    serde_json::Value::Object(m).to_string()
}

/// What the caller read off one frame of the agent's socket.  For a text
/// frame, `reply` holds the command identifier of the text read as a
/// command response, where it reads as one.
pub enum AgentFrame {
    Text { text: String, reply: Option<Option<String>> },
    Binary(Vec<u8>),
    Ping,
    Pong,
    Close,
    Error,
}

/// What the caller does after a frame.
pub enum AgentStep<R> {
    /// Keep reading.
    Continue,
    /// The agent registered under this identifier; hand it the socket's
    /// sending half and stop reading.
    Registered(String),
    /// Hand the parsed command response to this waiter, if any, and keep
    /// reading.
    DeliverJson(Option<R>),
    /// Hand this binary reply to the waiter, if any, and keep reading.
    DeliverBinary(Option<R>, BinaryReply),
    /// Stop reading and leave the handler at once.
    Abort,
    /// Stop reading.
    Stop,
}

/// The step for a text frame, and the manager afterwards.
pub open spec fn text_step<R>(
    m: WsModel<R>,
    text: Seq<char>,
    reply: Option<Option<Seq<char>>>,
    now: u64,
) -> (WsModel<R>, int) {
    let ty = json_str_field(text, "type"@);
    if ty == Some("register"@) {
        match json_str_field(text, "agent_id"@) {
            Some(id) => (model_register(m, id, now), 1),
            None => (m, 0),
        }
    } else if ty == Some("command_response"@) {
        match reply {
            Some(Some(id)) => (model_respond(m, id), 2),
            Some(None) => (m, 4),
            None => (m, 0),
        }
    } else {
        (m, 0)
    }
}

/// A number for each kind of step: 0 continue, 1 registered, 2 deliver a
/// JSON reply, 3 deliver a binary reply, 4 abort, 5 stop.
pub open spec fn step_kind<R>(s: AgentStep<R>) -> int {
    match s {
        AgentStep::Continue => 0,
        AgentStep::Registered(_) => 1,
        AgentStep::DeliverJson(_) => 2,
        AgentStep::DeliverBinary(_, _) => 3,
        AgentStep::Abort => 4,
        AgentStep::Stop => 5,
    }
}

/// Decides what to do with one frame from an agent's socket, updating the
/// manager: a `register` text with an agent identifier registers the agent
/// and ends the reading; a `command_response` text hands the response to
/// the command's waiter, or ends the handler where it names no command; a
/// binary frame whose first 36 bytes are a command identifier hands the
/// rest to that command's waiter; a ping, a close or an error ends the
/// reading; anything else is passed over.
pub fn on_agent_frame<R>(m: &mut WebSocketManager<R>, frame: AgentFrame, now: u64) -> (s: AgentStep<R>)
    requires
        old(m).wf(),
    ensures
        final(m).wf(),
        match frame {
            AgentFrame::Text { text, reply } => {
                let (after, kind) = text_step(old(m).view(), text@, match reply {
                    Some(Some(id)) => Some(Some(id@)),
                    Some(None) => Some(None),
                    None => None,
                }, now);
                &&& final(m).view() == after
                &&& step_kind(s) == kind
                &&& (s matches AgentStep::Registered(id) ==> Some(id@) == json_str_field(text@, "agent_id"@))
                &&& (s matches AgentStep::DeliverJson(w) ==> reply matches Some(Some(id)) && w == model_waiter(old(m).view(), id@))
            },
            AgentFrame::Binary(data) => match parse_binary_reply_spec(data@) {
                Some(id) => {
                    &&& final(m).view() == model_respond(old(m).view(), id)
                    &&& s matches AgentStep::DeliverBinary(w, b) && w == model_waiter(old(m).view(), id)
                        && b.command_id@ == id && b.data@ == data@.skip(36)
                },
                None => final(m).view() == old(m).view() && s is Continue,
            },
            AgentFrame::Pong => final(m).view() == old(m).view() && s is Continue,
            _ => final(m).view() == old(m).view() && s is Stop,
        },
{
    match frame {
        AgentFrame::Text { text, reply } => {
            let ty = json_string_field(text.as_str(), "type");
            let is_register = match &ty {
                Some(t) => str_eq(t.as_str(), "register"),
                None => false,
            };
            let is_response = match &ty {
                Some(t) => str_eq(t.as_str(), "command_response"),
                None => false,
            };
            proof {
                reveal_strlit("register");
                reveal_strlit("command_response");
            }
            if is_register {
                match json_string_field(text.as_str(), "agent_id") {
                    Some(id) => {
                        m.register_agent(id.clone(), now);
                        AgentStep::Registered(id)
                    },
                    None => AgentStep::Continue,
                }
            } else if is_response {
                match reply {
                    Some(Some(id)) => {
                        let w = m.handle_response(id.as_str());
                        AgentStep::DeliverJson(w)
                    },
                    Some(None) => AgentStep::Abort,
                    None => AgentStep::Continue,
                }
            } else {
                AgentStep::Continue
            }
        },
        AgentFrame::Binary(data) => match parse_binary_reply(data.as_slice()) {
            Some(b) => {
                let w = m.handle_response(b.command_id.as_str());
                AgentStep::DeliverBinary(w, b)
            },
            None => AgentStep::Continue,
        },
        AgentFrame::Pong => AgentStep::Continue,
        _ => AgentStep::Stop,
    }
}

/// A binary reply that an agent sends for a command the server sent it,
/// headed by the command's identifier, reaches the handle parked for that
/// command: the frame is read back as that identifier and data, and the
/// handle is handed out.
pub proof fn law_binary_reply_reaches_sender<R>(m: WsModel<R>, command_id: Seq<char>, reply: R, data: Seq<u8>)
    requires
        crate::ids::is_uuid_v4_text(command_id),
    ensures
        parse_binary_reply_spec(vstd::utf8::encode_utf8(command_id) + data) == Some(command_id),
        model_waiter(model_send(m, command_id, reply), command_id) == Some(reply),
{
    crate::frames::law_command_id_reply_round_trip(command_id, data);
}

/// The command identifier that heads a binary frame, where it has one.
pub open spec fn parse_binary_reply_spec(frame: Seq<u8>) -> Option<Seq<char>> {
    if frame.len() >= 36 && vstd::utf8::valid_utf8(frame.take(36)) {
        Some(vstd::utf8::decode_utf8(frame.take(36)))
    } else {
        None
    }
}


/// What the server answers to a text frame on a freshly opened socket.
pub enum SocketReply {
    /// The text is no JSON: nothing is answered.
    Ignore,
    /// A registration that names an agent: the agent is recorded.
    Register(String),
    /// A command for a connected agent: it is forwarded, under the given
    /// command identifier where the message carries one.
    Forward { target: String, command: String, command_id: Option<String> },
    /// A command for an agent that is not connected: this error is sent.
    Refuse(String),
    /// JSON without a string `type`: it is echoed back.
    Echo,
}

/// The reply's kind: 0 ignore, 1 register, 2 forward, 3 refuse, 4 echo.
pub open spec fn reply_kind(r: SocketReply) -> int {
    match r {
        SocketReply::Ignore => 0,
        SocketReply::Register(_) => 1,
        SocketReply::Forward { .. } => 2,
        SocketReply::Refuse(_) => 3,
        SocketReply::Echo => 4,
    }
}

/// The kind of reply that `text` earns, given the agents connected.
pub open spec fn socket_reply_kind(connected: Seq<Seq<char>>, text: Seq<char>) -> int {
    if !is_json(text) {
        0
    } else {
        match json_str_field(text, "type"@) {
            None => 4,
            Some(t) => if t == "register"@ {
                if json_str_field(text, "agent_id"@) is Some {
                    1
                } else {
                    0
                }
            } else {
                match (json_str_field(text, "agent_id"@), json_str_field(text, "command"@)) {
                    (Some(target), Some(_)) => if connected.contains(target) {
                        2
                    } else {
                        3
                    },
                    _ => 0,
                }
            },
        }
    }
}

/// Decides the answer to a text frame: JSON without a string `type` is
/// echoed; a `register` message with an `agent_id` records that agent; a
/// message with a target `agent_id` and a `command` is forwarded where the
/// target is connected and refused with "Agent {id} not connected" where
/// it is not; anything else is passed over.
pub fn socket_reply(connected: &Vec<String>, text: &str) -> (r: SocketReply)
    ensures
        reply_kind(r) == socket_reply_kind(crate::forensic::strs(connected@), text@),
        r matches SocketReply::Register(id) ==> Some(id@) == json_str_field(text@, "agent_id"@),
        r matches SocketReply::Forward { target, command, command_id } ==> {
            &&& Some(target@) == json_str_field(text@, "agent_id"@)
            &&& Some(command@) == json_str_field(text@, "command"@)
            &&& opt_text(command_id) == json_str_field(text@, "command_id"@)
        },
        r matches SocketReply::Refuse(msg) ==> json_str_field(text@, "agent_id"@) matches Some(t)
            && msg@ == crate::ws_manager::not_connected_message(t),
{
    proof {
        reveal_strlit("register");
    }
    if !parses_as_json(text) {
        return SocketReply::Ignore;
    }
    match json_string_field(text, "type") {
        None => SocketReply::Echo,
        Some(t) => {
            if str_eq(t.as_str(), "register") {
                match json_string_field(text, "agent_id") {
                    Some(id) => SocketReply::Register(id),
                    None => SocketReply::Ignore,
                }
            } else {
                match (json_string_field(text, "agent_id"), json_string_field(text, "command")) {
                    (Some(target), Some(command)) => {
                        if crate::forensic::listed(connected, target.as_str()) {
                            let command_id = json_string_field(text, "command_id");
                            SocketReply::Forward { target, command, command_id }
                        } else {
                            let msg = crate::text::concat3("Agent ", target.as_str(), " not connected");
                            SocketReply::Refuse(msg)
                        }
                    },
                    _ => SocketReply::Ignore,
                }
            }
        },
    }
}

/// The string that the JSON object `text` holds under `params.key`: `None`
/// where there is no such string.
pub uninterp spec fn json_param_field(text: Seq<char>, key: Seq<char>) -> Option<Seq<char>>;

/// The string field `key` of the `params` object of the JSON document
/// `text`, read with `serde_json::from_str::<Value>`, `Value::get` and
/// `Value::as_str`; the result is named [`json_param_field`].
#[verifier::external_body]
pub(crate) fn json_param_string(text: &str, key: &str) -> (r: Option<String>)
    ensures
        opt_text(r) == json_param_field(text@, key@),
{
    match serde_json::from_str::<serde_json::Value>(text) {
        Ok(v) => match v.get("params") {
            Some(p) => match p.get(key) {
                Some(x) => match x.as_str() {
                    Some(s) => Some(s.to_owned()),
                    None => None,
                },
                None => None,
            },
            None => None,
        },
        Err(_) => None,
    }
}
} // verus!
