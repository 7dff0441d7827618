//! The messages that agents and the server exchange, and the broker
//! subjects they travel on.
use vstd::prelude::*;
use crate::text::{concat, concat4};

verus! {

/// A depth of a directory scan.
pub type DepthLevel = u32;

/// A command that the server sends to an agent.
#[derive(Debug, Clone)]
pub enum Command {
    GetProcesses,
    Exec { cmd: String },
    GetFile { path: String },
    GetSystemInfo,
    GetDirectoryInfoData { path: String, include_subdirs: bool, show_hidden: bool, max_depth: DepthLevel },
    GetPluginRegistry,
    GetEventData { path: String },
    GetWatchersData,
    GetFileReaderData { path: String },
    GetSensorData,
    GetCameraData,
    GetProcessingResults,
    GetVideoFrame,
}

/// A command together with the identifier under which its reply comes back.
#[derive(Debug, Clone)]
pub struct CommandRequest {
    pub command_id: String,
    pub command: Command,
}

/// The kinds of events that the agent reports.
#[derive(Debug, Clone, Copy, PartialEq, Eq, Structural)]
pub enum EventType {
    PluginLoaded,
    PluginUnloaded,
    PluginError,
    CommandExecuted,
    SystemAlert,
    NetworkEvent,
    FileSystemEvent,
}

/// The state of a plugin.
#[derive(Debug, Clone)]
pub enum PluginStatus {
    Loaded,
    Running,
    Stopped,
    Error(String),
}

/// Where an agent reports to, how often, and under which identifier.
#[derive(Debug, Clone)]
pub struct AgentConfig {
    pub server_url: String,
    pub ws_url: String,
    pub interval: u64,
    pub agent_id: String,
}

/// The result of a directory scan.
#[derive(Debug, Clone)]
pub struct DirectoryInfoData {
    pub path: String,
    pub total_files: u64,
    pub total_directories: u64,
    pub total_size_bytes: u64,
    pub hidden_files: u64,
    pub hidden_directories: u64,
    pub scan_timestamp: u64,
    pub scan_progress: u8,
}

/// What a file watcher saw on one path.
#[derive(Debug, Clone)]
pub struct EventData {
    pub path: String,
    pub events_count: u64,
    pub buffer_usage: u8,
    pub last_event: String,
    pub timestamp: u64,
}

/// The state of the file watchers.
#[derive(Debug, Clone)]
pub struct WatchersData {
    pub active_watchers: u32,
    pub total_notifications: u64,
    pub cpu_usage: u8,
    pub memory_usage_kb: u64,
}

/// A file as read by the agent.
#[derive(Debug, Clone)]
pub struct FileReaderData {
    pub path: String,
    pub content: String,
    pub size: u64,
    pub encoding: String,
}

/// The state of a camera.
#[derive(Debug, Clone)]
pub struct CameraData {
    pub camera_id: String,
    pub resolution: String,
    pub frame_rate: u32,
    pub timestamp: u64,
}

/// The subject on which an agent receives its commands.
pub fn command_topic(agent_id: &str) -> (t: String)
    ensures
        t@ == "commands."@ + agent_id@,
{
    concat("commands.", agent_id)
}

/// The subject on which an agent publishes its heartbeats.
pub fn heartbeat_topic(agent_id: &str) -> (t: String)
    ensures
        t@ == "heartbeat."@ + agent_id@,
{
    concat("heartbeat.", agent_id)
}

/// The subject on which the server acknowledges a heartbeat.
pub fn heartbeat_ack_topic(agent_id: &str) -> (t: String)
    ensures
        t@ == "heartbeat_ack."@ + agent_id@,
{
    concat("heartbeat_ack.", agent_id)
}

/// The subject of the reply of one agent to one command.
pub fn response_topic(agent_id: &str, command_id: &str) -> (t: String)
    ensures
        t@ == "responses."@ + agent_id@ + "."@ + command_id@,
{
    concat4("responses.", agent_id, ".", command_id)
}

/// The subscription that catches every reply of one agent.
pub fn response_subscription(agent_id: &str) -> (t: String)
    ensures
        t@ == "responses."@ + agent_id@ + ".*"@,
{
    crate::text::concat3("responses.", agent_id, ".*")
}

/// The subject of an event that one plugin of one agent emits.
pub fn event_topic(agent_id: &str, plugin: &str) -> (t: String)
    ensures
        t@ == "events."@ + agent_id@ + "."@ + plugin@,
{
    concat4("events.", agent_id, ".", plugin)
}

/// The subject on which an agent answers a metrics request.
pub fn metrics_response_topic(agent_id: &str) -> (t: String)
    ensures
        t@ == "metrics_response."@ + agent_id@,
{
    concat("metrics_response.", agent_id)
}

/// The subject on which the simple agent listens for commands.
pub fn agent_command_topic(agent_id: &str) -> (t: String)
    ensures
        t@ == "agent."@ + agent_id@ + ".commands"@,
{
    crate::text::concat3("agent.", agent_id, ".commands")
}

/// The subject on which the simple agent publishes its replies.
pub fn agent_response_topic(agent_id: &str) -> (t: String)
    ensures
        t@ == "agent."@ + agent_id@ + ".responses"@,
{
    crate::text::concat3("agent.", agent_id, ".responses")
}


/// Seconds between two heartbeats, unless configured otherwise.
pub const DEFAULT_HEARTBEAT_SEC: u64 = 30;

impl Default for AgentConfig {
    /// The local server's addresses, the default heartbeat interval, and a
    /// randomly drawn agent identifier.
    fn default() -> (c: AgentConfig)
        ensures
            c.server_url@ == "http://localhost:8080"@,
            c.ws_url@ == "ws://localhost:8080/ws"@,
            c.interval == DEFAULT_HEARTBEAT_SEC,
            crate::ids::is_uuid_v4_text(c.agent_id@),
    {
        AgentConfig {
            server_url: "http://localhost:8080".to_owned(),
            ws_url: "ws://localhost:8080/ws".to_owned(),
            interval: DEFAULT_HEARTBEAT_SEC,
            agent_id: crate::ids::new_uuid_text(),
        }
    }
}
} // verus!
