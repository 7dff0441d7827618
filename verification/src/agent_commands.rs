//! How the agents answer what reaches them: the command a message carries,
//! the answer it earns, and when the periodic reports are due.
use vstd::prelude::*;
use crate::text::{concat, str_eq};
use crate::ws_inbound::{json_param_field, json_param_string, json_str_field, json_string_field, opt_text};

verus! {

/// Where a command arrived, which decides the commands understood.
#[derive(Clone, Copy, Debug, PartialEq, Eq, Structural)]
pub enum Channel {
    /// The broker subject of the full agent.
    Broker,
    /// The WebSocket of the full agent.
    Socket,
    /// The WebSocket of the simple agent.
    SimpleSocket,
}

/// What the agent does for a command.
#[derive(Clone, Debug)]
pub enum AgentAction {
    /// Answers `{"pong": "true"}`.
    Ping,
    /// Answers who the agent is.
    Info,
    /// Gathers and answers the system's figures.
    SystemInfo,
    /// Answers the process list.
    Processes,
    /// Runs the platform's forensic collector and answers its report.
    ForensicData,
    /// Answers "Executed: {cmd}" with exit code 0.
    Exec(String),
    /// Answers "File content of {path} would be displayed here".
    GetFile(String),
    /// Answers failure with "Unknown command: {name}".
    Unknown(String),
}

/// Whether `channel` understands the command named `name`.
pub open spec fn understood(channel: Channel, name: Seq<char>) -> bool {
    match channel {
        Channel::SimpleSocket => name == "ping"@ || name == "info"@,
        Channel::Socket => name == "ping"@ || name == "info"@ || name == "get_system_info"@ || name
            == "get_processes"@ || name == "get_forensic_data"@ || name == "exec"@ || name == "get_file"@,
        Channel::Broker => name == "ping"@ || name == "get_system_info"@ || name == "get_processes"@
            || name == "get_forensic_data"@ || name == "exec"@ || name == "get_file"@,
    }
}

/// The action for the command `name` on `channel`, where `param` is the
/// message's `params.cmd` for "exec" and `params.path` for "get_file".
pub open spec fn action_for(channel: Channel, name: Seq<char>, param: Option<Seq<char>>) -> AgentActionView {
    if !understood(channel, name) {
        AgentActionView::Unknown(name)
    } else if name == "ping"@ {
        AgentActionView::Ping
    } else if name == "info"@ {
        AgentActionView::Info
    } else if name == "get_system_info"@ {
        AgentActionView::SystemInfo
    } else if name == "get_processes"@ {
        AgentActionView::Processes
    } else if name == "get_forensic_data"@ {
        AgentActionView::ForensicData
    } else if name == "exec"@ {
        AgentActionView::Exec(
            match param {
                Some(p) => p,
                None => Seq::empty(),
            },
        )
    } else {
        AgentActionView::GetFile(
            match param {
                Some(p) => p,
                None => Seq::empty(),
            },
        )
    }
}

/// The names of the commands, which tell themselves apart.
proof fn lemma_command_names()
    ensures
        "ping"@.len() == 4 && "ping"@[0] == 'p',
        "info"@.len() == 4 && "info"@[0] == 'i',
        "exec"@.len() == 4 && "exec"@[0] == 'e',
        "get_file"@.len() == 8,
        "get_processes"@.len() == 13,
        "get_system_info"@.len() == 15,
        "get_forensic_data"@.len() == 17,
{
    reveal_strlit("ping");
    reveal_strlit("info");
    reveal_strlit("exec");
    reveal_strlit("get_file");
    reveal_strlit("get_processes");
    reveal_strlit("get_system_info");
    reveal_strlit("get_forensic_data");
}

/// Each command gets the action of its own name, whatever the order in
/// which the names are tried: "ping" answers a pong on every channel;
/// "info" tells who the agent is on both sockets; on the full agent's
/// socket and broker, "get_system_info" gives the system's figures,
/// "get_processes" the process list, "get_forensic_data" the forensic
/// report, "exec" runs its parameter and "get_file" reads its parameter
/// (the empty text where the message has none); any other name is
/// answered as unknown, with that name.
pub proof fn law_each_command_gets_its_action(channel: Channel, name: Seq<char>, param: Option<Seq<char>>)
    ensures
        name == "ping"@ ==> action_for(channel, name, param) is Ping,
        name == "info"@ && channel != Channel::Broker ==> action_for(channel, name, param) is Info,
        name == "get_system_info"@ && channel != Channel::SimpleSocket ==> action_for(channel, name, param) is SystemInfo,
        name == "get_processes"@ && channel != Channel::SimpleSocket ==> action_for(channel, name, param) is Processes,
        name == "get_forensic_data"@ && channel != Channel::SimpleSocket ==> action_for(channel, name, param) is ForensicData,
        name == "exec"@ && channel != Channel::SimpleSocket ==> action_for(channel, name, param) == AgentActionView::Exec(
            match param {
                Some(p) => p,
                None => Seq::empty(),
            },
        ),
        name == "get_file"@ && channel != Channel::SimpleSocket ==> action_for(channel, name, param) == AgentActionView::GetFile(
            match param {
                Some(p) => p,
                None => Seq::empty(),
            },
        ),
        !(name == "ping"@ || (name == "info"@ && channel != Channel::Broker) || (channel != Channel::SimpleSocket && (
        name == "get_system_info"@ || name == "get_processes"@ || name == "get_forensic_data"@ || name == "exec"@
            || name == "get_file"@))) ==> action_for(channel, name, param) == AgentActionView::Unknown(name),
{
    lemma_command_names();
}

/// Two different commands that a channel understands never get the same
/// action.
pub proof fn law_distinct_commands_distinct_actions(
    channel: Channel,
    n1: Seq<char>,
    n2: Seq<char>,
    p1: Option<Seq<char>>,
    p2: Option<Seq<char>>,
)
    requires
        n1 != n2,
        !(action_for(channel, n1, p1) is Unknown),
        !(action_for(channel, n2, p2) is Unknown),
    ensures
        action_for(channel, n1, p1) != action_for(channel, n2, p2),
{
    law_each_command_gets_its_action(channel, n1, p1);
    law_each_command_gets_its_action(channel, n2, p2);
}

/// The plain values of an action.
pub enum AgentActionView {
    Ping,
    Info,
    SystemInfo,
    Processes,
    ForensicData,
    Exec(Seq<char>),
    GetFile(Seq<char>),
    Unknown(Seq<char>),
}

impl View for AgentAction {
    type V = AgentActionView;

    open spec fn view(&self) -> AgentActionView {
        match self {
            AgentAction::Ping => AgentActionView::Ping,
            AgentAction::Info => AgentActionView::Info,
            AgentAction::SystemInfo => AgentActionView::SystemInfo,
            AgentAction::Processes => AgentActionView::Processes,
            AgentAction::ForensicData => AgentActionView::ForensicData,
            AgentAction::Exec(c) => AgentActionView::Exec(c@),
            AgentAction::GetFile(p) => AgentActionView::GetFile(p@),
            AgentAction::Unknown(n) => AgentActionView::Unknown(n@),
        }
    }
}

/// The action for the command `name` on `channel`, with the message's
/// parameter for "exec" or "get_file".
pub fn command_action(channel: Channel, name: &str, param: Option<String>) -> (a: AgentAction)
    ensures
        a@ == action_for(channel, name@, opt_text(param)),
{
    proof {
        reveal_strlit("ping");
        reveal_strlit("info");
        reveal_strlit("get_system_info");
        reveal_strlit("get_processes");
        reveal_strlit("get_forensic_data");
        reveal_strlit("exec");
        reveal_strlit("get_file");
    }
    let is_ping = str_eq(name, "ping");
    let is_info = str_eq(name, "info");
    let is_sys = str_eq(name, "get_system_info");
    let is_proc = str_eq(name, "get_processes");
    let is_for = str_eq(name, "get_forensic_data");
    let is_exec = str_eq(name, "exec");
    let is_file = str_eq(name, "get_file");
    let known = match channel {
        Channel::SimpleSocket => is_ping || is_info,
        Channel::Socket => is_ping || is_info || is_sys || is_proc || is_for || is_exec || is_file,
        Channel::Broker => is_ping || is_sys || is_proc || is_for || is_exec || is_file,
    };
    let p = match param {
        Some(p) => p,
        None => String::new(),
    };
    if !known {
        AgentAction::Unknown(name.to_owned())
    } else if is_ping {
        AgentAction::Ping
    } else if is_info {
        AgentAction::Info
    } else if is_sys {
        AgentAction::SystemInfo
    } else if is_proc {
        AgentAction::Processes
    } else if is_for {
        AgentAction::ForensicData
    } else if is_exec {
        AgentAction::Exec(p)
    } else {
        AgentAction::GetFile(p)
    }
}

/// The action a broker message asks for: `None` where it carries no
/// string `command`.
pub fn broker_message_action(payload: &str) -> (a: Option<AgentAction>)
    ensures
        match json_str_field(payload@, "command"@) {
            Some(name) => a matches Some(x) && x@ == action_for(
                Channel::Broker,
                name,
                if name == "exec"@ {
                    json_param_field(payload@, "cmd"@)
                } else {
                    json_param_field(payload@, "path"@)
                },
            ),
            None => a is None,
        },
{
    match json_string_field(payload, "command") {
        Some(name) => {
            let param = if str_eq(name.as_str(), "exec") {
                json_param_string(payload, "cmd")
            } else {
                json_param_string(payload, "path")
            };
            Some(command_action(Channel::Broker, name.as_str(), param))
        },
        None => None,
    }
}

/// What a message on an agent's socket calls for.
#[derive(Clone, Debug)]
pub enum SocketMessage {
    /// A command, to be answered as the action says.
    Command(AgentAction),
    /// A ping, to be answered with a pong.
    Ping,
    /// Anything else: nothing is answered.
    Ignore,
}

/// The meaning of a socket message on `channel`: a `command` message with
/// a string `command` is a command, a `ping` message a ping, anything else
/// is passed over.
pub fn socket_message(channel: Channel, text: &str) -> (m: SocketMessage)
    ensures
        match json_str_field(text@, "type"@) {
            Some(t) => if t == "command"@ {
                match json_str_field(text@, "command"@) {
                    Some(name) => m matches SocketMessage::Command(a) && a@ == action_for(
                        channel,
                        name,
                        if name == "exec"@ {
                            json_param_field(text@, "cmd"@)
                        } else {
                            json_param_field(text@, "path"@)
                        },
                    ),
                    None => m is Ignore,
                }
            } else if t == "ping"@ {
                m is Ping
            } else {
                m is Ignore
            },
            None => m is Ignore,
        },
{
    proof {
        reveal_strlit("command");
        reveal_strlit("ping");
    }
    match json_string_field(text, "type") {
        Some(t) => {
            if str_eq(t.as_str(), "command") {
                match json_string_field(text, "command") {
                    Some(name) => {
                        let param = if str_eq(name.as_str(), "exec") {
                            json_param_string(text, "cmd")
                        } else {
                            json_param_string(text, "path")
                        };
                        SocketMessage::Command(command_action(channel, name.as_str(), param))
                    },
                    None => SocketMessage::Ignore,
                }
            } else if str_eq(t.as_str(), "ping") {
                SocketMessage::Ping
            } else {
                SocketMessage::Ignore
            }
        },
        None => SocketMessage::Ignore,
    }
}

impl AgentAction {
    /// The output an "exec" command answers.
    pub fn exec_output(cmd: &str) -> (r: String)
        ensures
            r@ == "Executed: "@ + cmd@,
    {
        concat("Executed: ", cmd)
    }

    /// The content a "get_file" command answers.
    pub fn file_content_text(path: &str) -> (r: String)
        ensures
            r@ == "File content of "@ + path@ + " would be displayed here"@,
    {
        crate::text::concat3("File content of ", path, " would be displayed here")
    }

    /// The error an unknown command answers.
    pub fn unknown_error(name: &str) -> (r: String)
        ensures
            r@ == "Unknown command: "@ + name@,
    {
        concat("Unknown command: ", name)
    }

    /// Whether the answer reports success: all but unknown commands do.
    pub fn succeeds(&self) -> (b: bool)
        ensures
            b == !(self is Unknown),
    {
        match self {
            AgentAction::Unknown(_) => false,
            _ => true,
        }
    }
}

/// What is due at a heartbeat tick.
pub struct TickDue {
    pub metrics: bool,
    pub plugin_data: bool,
}

/// The heartbeat counter after a tick, and what is due: metrics every
/// second tick, plugin data every tenth.
pub fn heartbeat_tick(counter: u64) -> (r: (u64, TickDue))
    requires
        counter < u64::MAX,
    ensures
        r.0 == counter + 1,
        r.1.metrics == ((counter + 1) % 2 == 0),
        r.1.plugin_data == ((counter + 1) % 2 == 0 && (counter + 1) % 10 == 0),
{
    let c = counter + 1;
    let metrics = c % 2 == 0;
    let plugin_data = metrics && c % 10 == 0;
    (c, TickDue { metrics, plugin_data })
}

/// Plugin data is only ever due together with metrics.
pub proof fn law_plugin_data_comes_with_metrics(counter: u64)
    requires
        counter < u64::MAX,
    ensures
        ((counter + 1) % 10 == 0) ==> ((counter + 1) % 2 == 0),
{
}

/// The agent's file configuration, each value optional.
#[derive(Clone, Debug)]
pub struct AgentFileConfig {
    pub ws_url: Option<String>,
    pub broker_url: Option<String>,
    pub server_url: Option<String>,
    pub interval: Option<u64>,
    pub agent_id: Option<String>,
    pub log_level: Option<String>,
    pub log_dir: Option<String>,
}

/// Whether `c` holds the agent's default configuration.
pub open spec fn is_default(c: AgentFileConfig) -> bool {
    &&& opt_text(c.ws_url) == Some("ws://localhost:8080/ws"@)
    &&& opt_text(c.broker_url) == Some("nats://localhost:4222"@)
    &&& opt_text(c.server_url) == Some("http://localhost:8080"@)
    &&& c.interval == Some(30u64)
    &&& opt_text(c.agent_id) == Some("unix-agent-001"@)
    &&& opt_text(c.log_level) == Some("info"@)
    &&& opt_text(c.log_dir) == Some("logs"@)
}

impl AgentFileConfig {
    /// The configuration the agent uses without a file.
    pub fn defaults() -> (c: AgentFileConfig)
        ensures
            is_default(c),
    {
        AgentFileConfig {
            ws_url: Some("ws://localhost:8080/ws".to_owned()),
            broker_url: Some("nats://localhost:4222".to_owned()),
            server_url: Some("http://localhost:8080".to_owned()),
            interval: Some(30),
            agent_id: Some("unix-agent-001".to_owned()),
            log_level: Some("info".to_owned()),
            log_dir: Some("logs".to_owned()),
        }
    }

    /// The configuration from what the file gave: the defaults where it
    /// could not be read or parsed; otherwise its values, with the socket
    /// and broker addresses defaulted where missing.
    pub fn with_defaults(parsed: Option<AgentFileConfig>) -> (c: AgentFileConfig)
        ensures
            match parsed {
                None => is_default(c),
                Some(p) => {
                    &&& opt_text(c.ws_url) == (if p.ws_url is None {
                        Some("ws://localhost:8080/ws"@)
                    } else {
                        opt_text(p.ws_url)
                    })
                    &&& opt_text(c.broker_url) == (if p.broker_url is None {
                        Some("nats://localhost:4222"@)
                    } else {
                        opt_text(p.broker_url)
                    })
                    &&& c.server_url == p.server_url
                    &&& c.interval == p.interval
                    &&& c.agent_id == p.agent_id
                    &&& c.log_level == p.log_level
                    &&& c.log_dir == p.log_dir
                },
            },
    {
        match parsed {
            None => Self::defaults(),
            Some(p) => {
                let mut c = p;
                if c.ws_url.is_none() {
                    c.ws_url = Some("ws://localhost:8080/ws".to_owned());
                }
                if c.broker_url.is_none() {
                    c.broker_url = Some("nats://localhost:4222".to_owned());
                }
                c
            },
        }
    }
}

} // verus!
