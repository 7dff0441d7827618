use mini_msp::agent_commands::heartbeat_tick;
use mini_msp::ws_inbound::{on_agent_frame, AgentFrame, AgentStep};
use mini_msp::config::ConfigManager;
use mini_msp::frames::parse_binary_reply;
use mini_msp::orchestrator::{Orchestrator, PluginRecord};
use mini_msp::protocol::Command;
use mini_msp::registry::{AgentRegistry, AgentStatus, HeartbeatReport};
use mini_msp::ws_manager::WebSocketManager;

fn beat(id: &str, host: &str) -> HeartbeatReport {
    HeartbeatReport {
        agent_id: Some(id.to_string()),
        hostname: host.to_string(),
        platform: "linux".to_string(),
        version: "1".to_string(),
        uptime: 1,
    }
}

#[test]
fn repeated_heartbeats_count_once_and_stay_local() {
    let mut reg = AgentRegistry::new();
    reg.record_heartbeat(beat("a", "h1"), 10);
    reg.record_heartbeat(beat("b", "h2"), 11);
    reg.record_heartbeat(beat("a", "h3"), 12);
    assert_eq!(reg.count(), 2);
    assert_eq!(reg.get("a").unwrap().hostname, "h3");
    assert_eq!(reg.get("b").unwrap().hostname, "h2");
    assert_eq!(reg.get("b").unwrap().last_seen, 11);
}

#[test]
fn heartbeat_without_id_is_filed_as_unknown() {
    let mut reg = AgentRegistry::new();
    let mut hb = beat("x", "h");
    hb.agent_id = None;
    reg.record_heartbeat(hb, 5);
    assert!(reg.contains("unknown"));
}

#[test]
fn merging_is_idempotent() {
    let mut once = ConfigManager::load_with_defaults();
    let mut other = once.get_config().clone();
    other.agent.id = "merged".to_string();
    other.logging.level = "warn".to_string();
    once.merge(&other);
    let after_once = once.get_config().clone();
    once.merge(&other);
    let after_twice = once.get_config();
    assert_eq!(after_twice.agent.id, after_once.agent.id);
    assert_eq!(after_twice.logging.level, "warn");
    assert_eq!(after_twice.broker.url, after_once.broker.url);
}

#[test]
fn cleanup_keeps_the_active_and_the_pending() {
    let mut m: WebSocketManager<u8> = WebSocketManager::new();
    m.register_agent("old".to_string(), 10);
    m.register_agent("new".to_string(), 95);
    let req = m.send_and_wait("new", Command::GetWatchersData, 3).unwrap();
    let removed = m.cleanup_inactive(100, 30);
    assert_eq!(removed, vec!["old".to_string()]);
    assert_eq!(m.get_connected_agents(), vec!["new".to_string()]);
    assert_eq!(m.handle_response(&req.command_id), Some(3));
}

#[test]
fn replies_do_not_cross() {
    let mut m: WebSocketManager<u8> = WebSocketManager::new();
    m.register_agent("a".to_string(), 1);
    let r1 = m.send_and_wait("a", Command::GetProcesses, 1).unwrap();
    let r2 = m.send_and_wait("a", Command::GetSystemInfo, 2).unwrap();
    assert_ne!(r1.command_id, r2.command_id);
    assert_eq!(m.handle_response(&r2.command_id), Some(2));
    assert_eq!(m.handle_response("not-a-command"), None);
    assert_eq!(m.handle_response(&r1.command_id), Some(1));
}

#[test]
fn a_removed_agent_takes_no_command() {
    let mut m: WebSocketManager<u8> = WebSocketManager::new();
    m.register_agent("a".to_string(), 1);
    assert!(m.remove_agent("a"));
    assert!(!m.remove_agent("a"));
    assert!(m.send_and_wait("a", Command::GetProcesses, 1).is_err());
}

#[test]
fn plugins_are_loaded_once() {
    let mut o = Orchestrator::new();
    let r = PluginRecord { name: "p".to_string(), version: "1".to_string(), description: String::new() };
    o.plugin_loaded(r.clone());
    assert!(!o.should_load("p"));
    o.plugin_loaded(r);
    assert_eq!(o.plugin_count(), 1);
}

#[test]
fn plugin_data_only_with_metrics() {
    let mut c: u64 = 0;
    for _ in 0..40 {
        let (next, due) = heartbeat_tick(c);
        assert!(!due.plugin_data || due.metrics);
        c = next;
    }
    assert_eq!(c, 40);
}

#[test]
fn binary_reply_reads_back_command_id_and_data() {
    let mut m: WebSocketManager<u8> = WebSocketManager::new();
    m.register_agent("agent".to_string(), 1);
    let req = m.send_and_wait("agent", Command::GetProcesses, 0).unwrap();
    let mut frame = req.command_id.as_bytes().to_vec();
    frame.extend_from_slice(&[0xff, 0, 7]);
    let r = parse_binary_reply(&frame).unwrap();
    assert_eq!(r.command_id, req.command_id);
    assert_eq!(r.data, vec![0xff, 0, 7]);
    assert_eq!(m.handle_response(&r.command_id), Some(0));
}

#[test]
fn fresh_heartbeat_lists_online() {
    let mut reg = AgentRegistry::new();
    reg.record_heartbeat(beat("old", "h0"), 100);
    reg.record_heartbeat(beat("new", "h1"), 500);
    let l = reg.list_agents(500);
    assert_eq!(l.count, 2);
    assert_eq!(l.online_count, 1);
    assert_eq!(l.offline_count, 1);
    let n = l.agents.iter().find(|s| s.id == "new").unwrap();
    assert_eq!(n.seconds_ago, 0);
    assert_eq!(n.status, AgentStatus::Online);
}

#[test]
fn binary_reply_frame_reaches_sender_through_the_socket() {
    let mut m: WebSocketManager<u8> = WebSocketManager::new();
    m.register_agent("agent".to_string(), 1);
    let req = m.send_and_wait("agent", Command::GetSystemInfo, 9).unwrap();
    let mut frame = req.command_id.as_bytes().to_vec();
    frame.extend_from_slice(b"payload");
    match on_agent_frame(&mut m, AgentFrame::Binary(frame), 2) {
        AgentStep::DeliverBinary(w, b) => {
            assert_eq!(w, Some(9));
            assert_eq!(b.command_id, req.command_id);
            assert_eq!(b.data, b"payload".to_vec());
        }
        _ => panic!("expected a delivered binary reply"),
    }
    assert_eq!(m.handle_response(&req.command_id), None);
}
