use mini_msp::api_reports::{
    announced_plugins, metric_counters, metric_counters_from, plugin_counters, plugin_counters_from,
    plugin_data_url, register_url, update_url,
};
use mini_msp::agent_commands::{
    broker_message_action, command_action, heartbeat_tick, socket_message, AgentAction, AgentFileConfig, Channel,
    SocketMessage,
};
use mini_msp::config::{copy_config, validate_config, ConfigError, ConfigManager, EnvOverrides};
use mini_msp::forensic_linux_detailed::mode_candidate_paths;
use mini_msp::plugin_data::{PluginInfoData, PluginInfoSafe};
use mini_msp::connections::{
    ConnectionManager, HttpConnection, HttpConnectionFactory, WebSocketClient, WebSocketConnection,
    WebSocketConnectionFactory, WsMessage,
};
use mini_msp::os_report::{os_release_name, ps_rows, tasklist_rows, DiskInfo, OSReporter};
use mini_msp::plugins::{
    check_interface, is_plugin_library, plugin_name, InterfaceError, OsPlugin, PluginManager, PluginSlot,
    SystemInfoPlugin, AnswerBody,
};
use mini_msp::protocol::Command;

#[test]
fn broker_commands() {
    let a = broker_message_action(r#"{"command":"exec","params":{"cmd":"ls -l"}}"#).unwrap();
    assert!(matches!(&a, AgentAction::Exec(c) if c == "ls -l"));
    assert_eq!(AgentAction::exec_output("ls -l"), "Executed: ls -l");
    let f = broker_message_action(r#"{"command":"get_file","params":{"path":"/etc/hosts"}}"#).unwrap();
    assert!(matches!(&f, AgentAction::GetFile(p) if p == "/etc/hosts"));
    assert_eq!(
        AgentAction::file_content_text("/etc/hosts"),
        "File content of /etc/hosts would be displayed here"
    );
    let i = broker_message_action(r#"{"command":"info"}"#).unwrap();
    assert!(matches!(&i, AgentAction::Unknown(n) if n == "info"));
    assert!(!i.succeeds());
    assert_eq!(AgentAction::unknown_error("info"), "Unknown command: info");
    assert!(broker_message_action(r#"{"nothing":1}"#).is_none());
    let e = broker_message_action(r#"{"command":"exec"}"#).unwrap();
    assert!(matches!(&e, AgentAction::Exec(c) if c.is_empty()));
}

#[test]
fn socket_commands_per_agent() {
    assert!(matches!(command_action(Channel::SimpleSocket, "ping", None), AgentAction::Ping));
    assert!(matches!(command_action(Channel::SimpleSocket, "info", None), AgentAction::Info));
    assert!(matches!(command_action(Channel::SimpleSocket, "get_processes", None), AgentAction::Unknown(_)));
    assert!(matches!(command_action(Channel::Socket, "get_forensic_data", None), AgentAction::ForensicData));
    assert!(matches!(
        socket_message(Channel::Socket, r#"{"type":"command","command":"get_system_info"}"#),
        SocketMessage::Command(AgentAction::SystemInfo)
    ));
    assert!(matches!(socket_message(Channel::Socket, r#"{"type":"ping"}"#), SocketMessage::Ping));
    assert!(matches!(socket_message(Channel::Socket, r#"{"type":"other"}"#), SocketMessage::Ignore));
    assert!(matches!(socket_message(Channel::Socket, r#"{"type":"command"}"#), SocketMessage::Ignore));
}

#[test]
fn heartbeat_cadence() {
    let (c, due) = heartbeat_tick(0);
    assert_eq!(c, 1);
    assert!(!due.metrics && !due.plugin_data);
    let (_, due) = heartbeat_tick(1);
    assert!(due.metrics && !due.plugin_data);
    let (_, due) = heartbeat_tick(9);
    assert!(due.metrics && due.plugin_data);
}

#[test]
fn agent_file_config_defaults() {
    let d = AgentFileConfig::with_defaults(None);
    assert_eq!(d.ws_url.as_deref(), Some("ws://localhost:8080/ws"));
    assert_eq!(d.interval, Some(30));
    let mut p = AgentFileConfig::defaults();
    p.ws_url = None;
    p.broker_url = Some("nats://x:1".to_string());
    p.log_dir = None;
    let c = AgentFileConfig::with_defaults(Some(p));
    assert_eq!(c.ws_url.as_deref(), Some("ws://localhost:8080/ws"));
    assert_eq!(c.broker_url.as_deref(), Some("nats://x:1"));
    assert!(c.log_dir.is_none());
}

#[test]
fn standalone_config() {
    let m = ConfigManager::load_with_defaults();
    let c = m.get_config();
    assert_eq!(c.agent.id.len(), 36);
    assert_eq!(c.broker.url, "nats://localhost:4222");
    assert_eq!(c.logging.level, "info");
    assert!(validate_config(c).is_ok());
    let mut bad = c.clone();
    bad.logging.level = "loud".to_string();
    assert!(matches!(validate_config(&bad), Err(ConfigError::InvalidLogLevel(l)) if l == "loud"));
    let mut other = c.clone();
    other.broker.url = "nats://other:4222".to_string();
    let mut m2 = ConfigManager::load_with_defaults();
    m2.merge(&other);
    assert_eq!(m2.get_config().broker.url, "nats://other:4222");
    m2.get_config_mut().agent.heartbeat_interval = 5;
    assert_eq!(m2.get_config().agent.heartbeat_interval, 5);
}

#[test]
fn connections_states() {
    let mut c = WebSocketConnection::new();
    assert!(!c.is_connected());
    assert_eq!(c.send("x"), Err("WebSocket not connected".to_string()));
    let mut c = WebSocketConnectionFactory::connection_after(false);
    assert!(c.send("x").is_ok());
    assert!(c.receive().is_none());
    c.close();
    assert!(c.send("x").is_err());
    assert_eq!(c.connection_type(), "WebSocket");
    assert_eq!(WebSocketConnectionFactory.factory_name(), "WebSocketFactory");

    let f = HttpConnectionFactory::new("http://h:8080".to_string());
    let h: HttpConnection = f.connect("ignored");
    assert_eq!(h.message_url(), "http://h:8080/api/message");
    assert_eq!(h.messages_url(), "http://h:8080/api/messages");
    assert!(h.is_connected());
    assert_eq!(h.connection_type(), "HTTP");
    assert_eq!(f.factory_name(), "HTTPFactory");

    let mut m = ConnectionManager::new();
    assert_eq!(m.send("x"), Err("No active connection".to_string()));
    assert_eq!(m.connection_type(), None);
    m.set_connection(WebSocketConnectionFactory::connection_after(true));
    assert!(m.is_connected());
    m.close();
    assert!(!m.is_connected());

    let mut client = WebSocketClient::connect_outcome(false).client;
    assert_eq!(client.connection_type(), "WebSocket-Demo");
    assert!(client.send(&WsMessage { content: "hi".to_string() }).is_ok());
    client.close();
    assert!(client.send(&WsMessage { content: "hi".to_string() }).is_err());
    assert_eq!(WebSocketClient::connect_outcome(true).client.connection_type(), "WebSocket");
}

#[test]
fn plugin_answers() {
    let p = OsPlugin::new("network_monitor.cpp".to_string(), "src/x.cpp".to_string(), "linux".to_string());
    assert_eq!(p.name(), "network monitor");
    assert_eq!(p.version(), "1.0.0");
    let a = p.handle_command(&Command::GetProcesses);
    assert_eq!(a.command_id, "processes");
    assert_eq!(a.kind, "processes_response");
    let u = p.handle_command(&Command::GetWatchersData);
    assert_eq!(u.status, "error");
    assert!(matches!(u.body, AnswerBody::Error(ref m) if m == "Unsupported command"));

    let s = SystemInfoPlugin::new("sys_info.md".to_string(), "linux".to_string());
    assert_eq!(s.name, "system_info_plugin");
    let f = s.handle_command(&Command::GetFile { path: "sys_info.md".to_string() });
    assert_eq!(f.command_id, "file_content");
    let e = s.handle_command(&Command::GetFile { path: "/etc/passwd".to_string() });
    assert!(matches!(e.body, AnswerBody::Error(ref m) if m == "File not found: /etc/passwd"));
    assert_eq!(s.handle_command(&Command::GetSystemInfo).kind, "forensic_system_info");
}

#[test]
fn plugin_loading_and_routing() {
    assert!(is_plugin_library("so"));
    assert!(is_plugin_library("dylib"));
    assert!(!is_plugin_library("txt"));
    assert_eq!(plugin_name(None), "unknown");
    assert_eq!(plugin_name(Some(String::new())), "unnamed");
    assert_eq!(plugin_name(Some("sys".to_string())), "sys");
    assert!(check_interface(true, true, true).is_ok());
    let e = check_interface(true, false, false).unwrap_err();
    assert!(matches!(e, InterfaceError::NoInit));
    assert_eq!(e.message(), "Plugin has null init function");

    let mut m = PluginManager::new();
    assert!(!m.has_plugins());
    assert_eq!(
        m.route_command("ps", None),
        Err("No plugin available to handle command: ps".to_string())
    );
    m.add(PluginSlot { name: "a".to_string(), supports_json: false });
    m.add(PluginSlot { name: "b".to_string(), supports_json: true });
    m.add(PluginSlot { name: "a".to_string(), supports_json: true });
    assert_eq!(m.route_command("ps", None), Ok(1));
    assert_eq!(m.route_command("ps", Some("a")), Ok(2));
    assert_eq!(
        m.route_command("ps", Some("z")),
        Err("Plugin 'z' not found or doesn't support JSON".to_string())
    );
    assert_eq!(m.plugin_names(), vec!["a".to_string(), "b".to_string(), "a".to_string()]);
}

#[test]
fn os_report_parsers() {
    let release = "NAME=\"Ubuntu\"\nPRETTY_NAME=\"Ubuntu 22.04 LTS\"\n";
    assert_eq!(OSReporter::os_version_from_release(release), "Ubuntu 22.04 LTS");
    assert_eq!(OSReporter::os_version_from_release("NAME=x\n"), "Unknown");
    assert_eq!(os_release_name("NAME=x\n"), "Unknown Linux");
    assert_eq!(os_release_name("PRETTY_NAME\n"), "Unknown Linux");
    assert_eq!(os_release_name("PRETTY_NAME=\"Debian\"\n"), "Debian");

    let lscpu = "Architecture: x86_64\nCPU(s):  8\nModel name:   Intel Core i7\n";
    assert_eq!(OSReporter::cpu_model(lscpu), "Intel Core i7");
    assert_eq!(OSReporter::cpu_count(lscpu), 8);
    assert_eq!(OSReporter::cpu_count("CPU(s): many\n"), 4);
    assert_eq!(OSReporter::cpu_model(""), "Unknown");

    let meminfo = "MemTotal:       16384 kB\nMemFree: 1 kB\nMemAvailable:    8192 kB\n";
    assert_eq!(OSReporter::total_memory(meminfo), Ok(16384));
    assert_eq!(OSReporter::available_memory(meminfo), Ok(8192));
    assert_eq!(OSReporter::total_memory(""), Err("Could not parse memory".to_string()));

    let m = OSReporter::memory_info(16384, 8192);
    assert_eq!(m.used_mb, 8192);
    assert_eq!(m.used_mb + m.available_mb, m.total_mb);

    let gpus = OSReporter::gpus_from_lspci("00:02.0 VGA compatible controller: Intel UHD\n01:00.0 3D controller: NVIDIA\nnothing\n");
    assert_eq!(gpus.len(), 2);
    assert_eq!(gpus[0].name, "02.0 VGA compatible controller");
    assert_eq!(OSReporter::gpu_list(&gpus), "02.0 VGA compatible controller, 00.0 3D controller");

    let d = DiskInfo {
        mount_point: "/".to_string(),
        total_space: 500000000000,
        free_space: 200000000000,
        used_space: 300000000000,
        filesystem_type: "ext4".to_string(),
    };
    assert_eq!(OSReporter::disk_line(&d), "/: 279GB used / 465GB total");
}

#[test]
fn process_listings() {
    let ps = "  PID COMMAND\n    1 systemd\n   22 kworker/2:2\n  333 \n";
    let rows = ps_rows(ps);
    assert_eq!(rows.len(), 2);
    assert_eq!(rows[0].pid, "1");
    assert_eq!(rows[0].command, "systemd");
    assert_eq!(rows[1].command, "kworker/2:2");
    let tl = "\"System Idle Process\",\"0\",\"Services\"\n\"smss.exe\",\"412\"\nbad\n";
    let rows = tasklist_rows(tl);
    assert_eq!(rows.len(), 2);
    assert_eq!(rows[0].command, "System Idle Process");
    assert_eq!(rows[1].pid, "412");
}

#[test]
fn api_report_counters_stay_in_range() {
    assert_eq!(announced_plugins(), vec!["system_monitor", "network_scanner", "process_manager", "file_watcher"]);
    assert_eq!(register_url(), "http://localhost:5000/api/register");
    assert_eq!(update_url(), "http://localhost:5000/api/update");
    assert_eq!(plugin_data_url("a-1"), "http://localhost:5000/api/plugins/a-1");
    let m = metric_counters_from(123, 7300);
    assert_eq!(m.processes_running, 123);
    assert_eq!(m.uptime_seconds, 3700);
    let m = metric_counters_from(u32::MAX, u32::MAX);
    assert_eq!(m.processes_running, 145);
    assert_eq!(m.uptime_seconds, 3600 + 4294967295 % 7200);
    let p = plugin_counters_from(1999, 75, 123456, 9999, 450, 5, 4000);
    assert_eq!(p.fan_speed, 2999);
    assert_eq!(p.active_connections, 35);
    assert_eq!(p.packets_sent, 3456);
    assert_eq!(p.packets_received, 9999);
    assert_eq!(p.total_processes, 100);
    assert_eq!(p.active_processes, 25);
    assert_eq!(p.memory_usage_mb, 1000);
    for _ in 0..50 {
        let m = metric_counters();
        assert!((100..150).contains(&m.processes_running));
        assert!((3600..10800).contains(&m.uptime_seconds));
        let p = plugin_counters();
        assert!((2000..3000).contains(&p.fan_speed));
        assert!(p.packets_sent < 10000);
        assert!((1000..5000).contains(&p.memory_usage_mb));
    }
}

#[test]
fn config_from_environment_and_copies() {
    use_env_overrides();
}

fn use_env_overrides() {
    let env = EnvOverrides {
        agent_id: Some("agent-7".to_string()),
        broker_url: None,
        log_level: Some("debug".to_string()),
        enabled_plugins: Some(" system , net,".to_string()),
    };
    let m = ConfigManager::load_from_env(env);
    let c = m.get_config();
    assert_eq!(c.agent.id, "agent-7");
    assert_eq!(c.broker.url, "nats://localhost:4222");
    assert_eq!(c.logging.level, "debug");
    assert_eq!(c.plugins.enabled_plugins, vec!["system".to_string(), "net".to_string(), String::new()]);
    let none = ConfigManager::load_from_env(EnvOverrides {
        agent_id: None,
        broker_url: Some("nats://b:1".to_string()),
        log_level: None,
        enabled_plugins: None,
    });
    assert_eq!(none.get_config().agent.id.len(), 36);
    assert_eq!(none.get_config().broker.url, "nats://b:1");
    assert!(none.get_config().plugins.enabled_plugins.is_empty());
    let copy = copy_config(c);
    assert_eq!(copy.agent.id, c.agent.id);
    assert_eq!(copy.security.allowed_commands, c.security.allowed_commands);
    assert!(ConfigManager::from_config(copy).is_ok());
    let mut bad = c.clone();
    bad.agent.id = String::new();
    assert!(matches!(ConfigManager::from_config(bad), Err(ConfigError::EmptyAgentId)));
    let mut bad = c.clone();
    bad.broker.url = String::new();
    assert!(matches!(ConfigManager::from_config(bad), Err(ConfigError::EmptyBrokerUrl)));
    let mut bad = c.clone();
    bad.logging.format = "xml".to_string();
    assert!(matches!(ConfigManager::from_config(bad), Err(ConfigError::InvalidLogFormat(f)) if f == "xml"));
}

#[test]
fn plugin_descriptions_and_setuid_candidates() {
    let data = PluginInfoData::from_buffers(&[b'n' as i8, 0], &[b'1' as i8, 0], &[0i8]);
    let safe = PluginInfoSafe::from_data(&data);
    assert_eq!(safe.name, "n");
    assert_eq!(safe.version, "1");
    assert_eq!(safe.description, "");
    assert_eq!(
        mode_candidate_paths(),
        vec!["/usr/bin/sudo", "/bin/su", "/usr/bin/pkexec", "/usr/bin/passwd", "/bin/mount", "/bin/umount"]
    );
}

#[test]
fn routing_reads_the_requested_plugin_from_parameters() {
    assert_eq!(PluginManager::requested_plugin(Some("{\"plugin\":\"a\",\"x\":1}")), Some("a".to_string()));
    assert_eq!(PluginManager::requested_plugin(Some("{\"plugin\":3}")), None);
    assert_eq!(PluginManager::requested_plugin(Some("not json")), None);
    assert_eq!(PluginManager::requested_plugin(None), None);
    let mut m = PluginManager::new();
    m.add(PluginSlot { name: "a".to_string(), supports_json: false });
    m.add(PluginSlot { name: "b".to_string(), supports_json: true });
    m.add(PluginSlot { name: "a".to_string(), supports_json: true });
    assert_eq!(m.route_with_params("ps", None), Ok(1));
    assert_eq!(m.route_with_params("ps", Some("{}")), Ok(1));
    assert_eq!(m.route_with_params("ps", Some("{\"plugin\":\"a\"}")), Ok(2));
    assert_eq!(
        m.route_with_params("ps", Some("{\"plugin\":\"z\"}")),
        Err("Plugin 'z' not found or doesn't support JSON".to_string())
    );
}
