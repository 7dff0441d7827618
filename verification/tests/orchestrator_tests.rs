use mini_msp::config::ConfigManager;
use mini_msp::orchestrator::{command_name, EventDetail, Orchestrator, PluginRecord};
use mini_msp::os_report::{disk_csv, memory_csv, output_format, DiskInfo, OSReporter, OutputFormat};
use mini_msp::plugins::is_plugin_source;
use mini_msp::protocol::{AgentConfig, EventType};
use mini_msp::server_api::{get_hostname, get_os_info};
use mini_msp::system_info::{process_tree, table_size, Table};

fn record(name: &str) -> PluginRecord {
    PluginRecord { name: name.to_string(), version: "1.0".to_string(), description: "d".to_string() }
}

#[test]
fn plugins_load_once_and_unload() {
    let mut o = Orchestrator::new();
    assert_eq!(o.plugin_count(), 0);
    assert_eq!(o.command_target("ps"), Err("No plugin available to handle command: ps".to_string()));
    assert!(o.should_load("system_plugin"));
    let e = o.plugin_loaded(record("system_plugin"));
    assert_eq!(e.event_type, EventType::PluginLoaded);
    assert!(!o.should_load("system_plugin"));
    assert_eq!(o.plugin_count(), 1);
    assert_eq!(o.command_target("ps"), Ok("system_plugin".to_string()));
    assert!(o.metrics_source().is_ok());
    let f = o.plugin_failed("net", "boom".to_string());
    assert_eq!(f.event_type, EventType::PluginError);
    assert!(matches!(f.detail, EventDetail::Failed { ref error } if error == "boom"));
    assert_eq!(o.begin_unload("net"), Err("Plugin not found: net".to_string()));
    assert!(o.begin_unload("system_plugin").is_ok());
    assert!(o.finish_unload("system_plugin", false).is_none());
    assert_eq!(o.plugin_count(), 1);
    let u = o.finish_unload("system_plugin", true).unwrap();
    assert_eq!(u.event_type, EventType::PluginUnloaded);
    assert_eq!(o.plugin_count(), 0);
    assert_eq!(o.metrics_source(), Err("System plugin not available for metrics".to_string()));
}

#[test]
fn command_events() {
    let o = Orchestrator::new();
    let ok = o.command_executed("p", "ps", Ok(()), 12);
    assert!(matches!(ok.detail, EventDetail::Executed { success: true, error: None, execution_time_ms: 12, .. }));
    let bad = o.command_executed("p", "ps", Err("no".to_string()), 3);
    assert!(matches!(bad.detail, EventDetail::Executed { success: false, error: Some(ref e), .. } if e == "no"));
    assert_eq!(command_name(r#"{"command":"list"}"#), "list");
    assert_eq!(command_name(r#"{"other":1}"#), "unknown");
    assert_eq!(command_name("garbage"), "unknown");
}

#[test]
fn command_line_overrides() {
    let mut m = ConfigManager::load_with_defaults();
    m.apply_cli(Some("agent-7".to_string()), None, Some("debug".to_string()), Some("/tmp/a.log".to_string()));
    let c = m.get_config();
    assert_eq!(c.agent.id, "agent-7");
    assert_eq!(c.broker.url, "nats://localhost:4222");
    assert_eq!(c.logging.level, "debug");
    assert_eq!(c.logging.file.as_deref(), Some("/tmp/a.log"));
}

#[test]
fn process_tree_and_tables() {
    let ps = "  PID  PPID COMMAND\n    1     0 systemd\n  abc     1 bogus\n   42     1 sshd\n";
    let rows = process_tree(false, ps);
    assert_eq!(rows.len(), 2);
    assert_eq!(rows[0].pid, 1);
    assert_eq!(rows[0].name, "0 systemd");
    assert_eq!(rows[1].pid, 42);
    assert_eq!(rows[1].name, "1 sshd");
    let tl = "\"Image Name\",\"PID\"\n\"svchost.exe\",\"804\"\n\"x\",\"notanumber\"\n";
    let rows = process_tree(true, tl);
    assert_eq!(rows.len(), 1);
    assert_eq!(rows[0].pid, 804);
    assert_eq!(rows[0].name, "svchost.exe");

    let netstat = "tcp ESTABLISHED\ntcp LISTEN\nudp\n";
    assert_eq!(table_size(Table::Connections, false, netstat), 2);
    let many = "ESTABLISHED\n".repeat(12);
    assert_eq!(table_size(Table::Connections, false, &many), 10);
    assert_eq!(table_size(Table::Arp, false, "? (10.0.0.1) at aa\nnone\n"), 1);
    assert_eq!(table_size(Table::Arp, true, "10.0.0.1 aa dynamic\n"), 1);
    assert_eq!(table_size(Table::Routes, false, "default via x\n0.0.0.0 y\n10.1.2.0 z\n"), 2);
    assert_eq!(table_size(Table::Routes, true, "default via x\n0.0.0.0 y\n"), 1);
}

#[test]
fn report_formats_and_csv() {
    assert_eq!(output_format(None), Some(OutputFormat::Table));
    assert_eq!(output_format(Some("csv")), Some(OutputFormat::Csv));
    assert_eq!(output_format(Some("xml")), None);
    let d = DiskInfo {
        mount_point: "/".to_string(),
        total_space: 500000000000,
        free_space: 200000000000,
        used_space: 300000000000,
        filesystem_type: "ext4".to_string(),
    };
    assert_eq!(disk_csv(&d), "/,465,186,279,ext4");
    let m = OSReporter::memory_info(100, 40);
    assert_eq!(memory_csv(&m), "100,60,40,0,0");
}

#[test]
fn plugin_sources_and_platforms() {
    assert!(is_plugin_source(Some("cpp"), Some("src"), "linux"));
    assert!(!is_plugin_source(Some("cpp"), Some("linux"), "linux"));
    assert!(!is_plugin_source(Some("h"), Some("src"), "linux"));
    assert!(!is_plugin_source(None, None, "linux"));
    let i = get_os_info("linux", Some("6.1.0-13-amd64\n"));
    assert_eq!(i.name, "Linux");
    assert_eq!(i.icon, "🐧");
    assert_eq!(i.version, "6.1.0-13-amd64");
    assert_eq!(get_os_info("macos", None).version, "Unknown macOS");
    assert_eq!(get_os_info("windows", None).version, "Unknown Windows");
    let h = get_os_info("haiku", Some("r1"));
    assert_eq!(h.platform, "unknown");
    assert_eq!(h.version, "unknown");
    assert_eq!(get_hostname(Some(" box \n")), "box");
    assert_eq!(get_hostname(None), "unknown");
    let c = AgentConfig::default();
    assert_eq!(c.server_url, "http://localhost:8080");
    assert_eq!(c.interval, 30);
    assert_eq!(c.agent_id.len(), 36);
}

#[test]
fn listed_plugins_carry_their_records() {
    let mut o = Orchestrator::new();
    assert!(o.list_plugins().is_empty());
    o.plugin_loaded(PluginRecord { name: "a".to_string(), version: "1".to_string(), description: "first".to_string() });
    o.plugin_loaded(PluginRecord { name: "b".to_string(), version: "2".to_string(), description: "second".to_string() });
    let l = o.list_plugins();
    assert_eq!(l.len(), 2);
    let a = l.iter().find(|p| p.name == "a").unwrap();
    assert_eq!(a.version, "1");
    assert_eq!(a.description, "first");
    // Loading then unloading leaves the table as it was.
    o.plugin_loaded(record("c"));
    assert!(o.finish_unload("c", true).is_some());
    let l2 = o.list_plugins();
    assert_eq!(l2.len(), 2);
    assert!(l2.iter().all(|p| p.name != "c"));
    assert!(o.finish_unload("a", false).is_none());
    assert_eq!(o.list_plugins().len(), 2);
}

#[test]
fn command_reply_follows_the_handler() {
    let o = Orchestrator::new();
    let (ok, ev) = o.command_reply("sys", "ps", Ok("{\"n\":1}".to_string()), 7);
    assert!(ok.success);
    assert_eq!(ok.data, "{\"n\":1}");
    assert_eq!(ok.error, None);
    assert_eq!(ok.execution_time, 7);
    assert_eq!(ok.request_id.len(), 36);
    assert_eq!(&ok.request_id[14..15], "4");
    assert_eq!(ev.event_type, EventType::CommandExecuted);
    assert_eq!(ev.source, "sys");
    match ev.detail {
        EventDetail::Executed { command, success, error, execution_time_ms } => {
            assert_eq!(command, "ps");
            assert!(success);
            assert_eq!(error, None);
            assert_eq!(execution_time_ms, 7);
        }
        _ => panic!("wrong event"),
    }
    let (bad, ev) = o.command_reply("sys", "ps", Err("boom".to_string()), 3);
    assert!(!bad.success);
    assert_eq!(bad.data, "{}");
    assert_eq!(bad.error, Some("boom".to_string()));
    match ev.detail {
        EventDetail::Executed { success, error, .. } => {
            assert!(!success);
            assert_eq!(error, Some("boom".to_string()));
        }
        _ => panic!("wrong event"),
    }
}
