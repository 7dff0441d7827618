//! What the agent reports to the HTTP API: the plugins it announces when
//! it registers, where its reports go, and the whole-number counters of its
//! metrics and plugin reports, drawn at random within fixed ranges.
use vstd::prelude::*;
use crate::text::concat;

verus! {

/// The plugins an agent announces when it registers.
pub open spec fn announced() -> Seq<Seq<char>> {
    seq!["system_monitor"@, "network_scanner"@, "process_manager"@, "file_watcher"@]
}

/// The plugins an agent announces when it registers, in order.
pub fn announced_plugins() -> (r: Vec<String>)
    ensures
        r@.map_values(|s: String| s@) == announced(),
{
    let mut r: Vec<String> = Vec::new();
    r.push("system_monitor".to_owned());
    r.push("network_scanner".to_owned());
    r.push("process_manager".to_owned());
    r.push("file_watcher".to_owned());
    assert(r@.map_values(|s: String| s@) =~= announced());
    r
}

/// Where an agent registers.
pub fn register_url() -> (r: &'static str)
    ensures
        r@ == "http://localhost:5000/api/register"@,
{
    "http://localhost:5000/api/register"
}

/// Where an agent sends its metrics.
pub fn update_url() -> (r: &'static str)
    ensures
        r@ == "http://localhost:5000/api/update"@,
{
    "http://localhost:5000/api/update"
}

/// Where agent `agent_id` sends its plugin reports.
pub fn plugin_data_url(agent_id: &str) -> (r: String)
    ensures
        r@ == "http://localhost:5000/api/plugins/"@ + agent_id@,
{
    concat("http://localhost:5000/api/plugins/", agent_id)
}

/// A random `u32`: `rand::random::<u32>()`.  Any value may come out, so
/// nothing is stated of it.
#[verifier::external_body]
fn random_u32() -> u32 {
    rand::random::<u32>()
}

/// A random `u64`: `rand::random::<u64>()`.  Any value may come out, so
/// nothing is stated of it.
#[verifier::external_body]
fn random_u64() -> u64 {
    rand::random::<u64>()
}

/// The whole-number counters of a metrics report.
#[derive(Clone, Copy, Debug, PartialEq, Eq, Structural)]
pub struct MetricCounters {
    pub processes_running: u32,
    pub uptime_seconds: u32,
}

/// The counters for two random draws: 100 and the first draw modulo 50
/// processes, 3600 and the second draw modulo 7200 seconds.
pub fn metric_counters_from(processes: u32, uptime: u32) -> (c: MetricCounters)
    ensures
        c.processes_running == processes % 50 + 100,
        c.uptime_seconds == 3600 + uptime % 7200,
{
    MetricCounters { processes_running: processes % 50 + 100, uptime_seconds: 3600 + uptime % 7200 }
}

/// Random counters for a metrics report: between 100 and 149 processes,
/// between one and three hours up.
pub fn metric_counters() -> (c: MetricCounters)
    ensures
        100 <= c.processes_running < 150,
        3600 <= c.uptime_seconds < 10800,
{
    let p = random_u32();
    let u = random_u32();
    metric_counters_from(p, u)
}

/// The whole-number counters of a plugin report.
#[derive(Clone, Copy, Debug, PartialEq, Eq, Structural)]
pub struct PluginCounters {
    pub fan_speed: u32,
    pub active_connections: u32,
    pub packets_sent: u64,
    pub packets_received: u64,
    pub total_processes: u32,
    pub active_processes: u32,
    pub memory_usage_mb: u32,
}

/// The counters for the random draws, each brought into its range: fan
/// speed from 2000, connections from 10, packets below 10000, processes
/// from 50 and active ones from 20, memory from 1000 megabytes.
pub fn plugin_counters_from(
    fan: u32,
    connections: u32,
    sent: u64,
    received: u64,
    total: u32,
    active: u32,
    memory: u32,
) -> (c: PluginCounters)
    ensures
        c.fan_speed == 2000 + fan % 1000,
        c.active_connections == connections % 50 + 10,
        c.packets_sent == sent % 10000,
        c.packets_received == received % 10000,
        c.total_processes == total % 200 + 50,
        c.active_processes == active % 100 + 20,
        c.memory_usage_mb == memory % 4000 + 1000,
{
    PluginCounters {
        fan_speed: 2000 + fan % 1000,
        active_connections: connections % 50 + 10,
        packets_sent: sent % 10000,
        packets_received: received % 10000,
        total_processes: total % 200 + 50,
        active_processes: active % 100 + 20,
        memory_usage_mb: memory % 4000 + 1000,
    }
}

/// Random counters for a plugin report, each within its range.
pub fn plugin_counters() -> (c: PluginCounters)
    ensures
        2000 <= c.fan_speed < 3000,
        10 <= c.active_connections < 60,
        c.packets_sent < 10000,
        c.packets_received < 10000,
        50 <= c.total_processes < 250,
        20 <= c.active_processes < 120,
        1000 <= c.memory_usage_mb < 5000,
{
    let fan = random_u32();
    let connections = random_u32();
    let sent = random_u64();
    let received = random_u64();
    let total = random_u32();
    let active = random_u32();
    let memory = random_u32();
    plugin_counters_from(fan, connections, sent, received, total, active, memory)
}

} // verus!
