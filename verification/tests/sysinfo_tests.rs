use mini_msp::os_report::OSReporter;
use mini_msp::plugins::{OsPlugin, SystemInfoPlugin};
use mini_msp::sys_categories::{
    arp_for, categories, connections_for, dns_cache_at, firewall_state_for, hostname_for, interfaces_for,
    kernel_modules_for, mft_cache_at, mounts_for, os_version_for, platform_for, routes_for, services_for,
    startup_tasks_for, tree_for, uptime_for, Probe,
};
use mini_msp::system_info::get_memory_usage;

const NETSTAT: &str = "Proto Recv-Q Send-Q Local Foreign State\n\
tcp 0 0 127.0.0.1:631 0.0.0.0:* LISTEN\n\
tcp 0 0 10.0.0.2:5000 10.0.0.9:443 ESTABLISHED\n\
udp 0 0 0.0.0.0:68 0.0.0.0:*\n";

#[test]
fn names_and_versions_fall_back_per_system() {
    assert_eq!(hostname_for("linux", Some("  box-1\n")), "box-1");
    assert_eq!(hostname_for("linux", None), "Linux");
    assert_eq!(hostname_for("macos", None), "Mac");
    assert_eq!(hostname_for("windows", None), "Windows");
    assert_eq!(hostname_for("plan9", Some("x")), "Unknown");
    assert_eq!(os_version_for("linux", Some("NAME=x\nPRETTY_NAME=\"Debian 12\"\n")), "Debian 12");
    assert_eq!(os_version_for("linux", Some("NAME=x\n")), "Unknown Linux");
    assert_eq!(os_version_for("linux", None), "Unknown Linux");
    assert_eq!(os_version_for("macos", Some("14.2\n")), "14.2");
    assert_eq!(os_version_for("windows", None), "Unknown Windows");
    assert_eq!(os_version_for("freebsd", Some("13")), "Unknown");
    assert_eq!(platform_for("linux", Some("x86_64\n")), "x86_64");
    assert_eq!(platform_for("windows", None), "Unknown");
    assert_eq!(platform_for("freebsd", Some("amd64")), "Unknown");
    assert_eq!(uptime_for("linux", 4321), 4321);
    assert_eq!(uptime_for("macos", 4321), 3600);
    assert_eq!(uptime_for("windows", 0), 3600);
    assert_eq!(uptime_for("freebsd", 9), 0);
}

#[test]
fn network_tables_count_matching_lines() {
    let c = connections_for("linux", NETSTAT);
    assert_eq!(c.len(), 2);
    assert_eq!(c[0].protocol, "TCP");
    assert_eq!(c[1].remote_address, "192.168.1.1:443");
    assert_eq!(c[1].pid, 1234);
    assert_eq!(connections_for("freebsd", NETSTAT).len(), 0);
    let many = "ESTABLISHED\n".repeat(14);
    assert_eq!(connections_for("windows", &many).len(), 10);
    let arp = arp_for("macos", "? (10.0.0.1) at aa:bb on en0\nnothing here\n");
    assert_eq!(arp.len(), 1);
    assert_eq!(arp[0].interface, "en0");
    let warp = arp_for("windows", "  10.0.0.1  aa-bb  dynamic\n  10.0.0.2  cc-dd  static\n");
    assert_eq!(warp.len(), 1);
    assert_eq!(warp[0].interface, "Ethernet");
    let routes = routes_for("linux", "default via 10.0.0.1\n0.0.0.0 10.0.0.1\n192.168.5.0/24 dev eth0\n");
    assert_eq!(routes.len(), 2);
    assert_eq!(routes[0].gateway, "192.168.1.1");
    assert_eq!(routes_for("windows", "default\n").len(), 0);
    assert_eq!(interfaces_for("linux")[0].ip_addresses, vec!["192.168.1.100".to_string(), "fe80::1".to_string()]);
    assert_eq!(interfaces_for("windows")[0].name, "Ethernet");
    assert!(interfaces_for("freebsd").is_empty());
    assert_eq!(dns_cache_at(77)[0].timestamp, 77);
    assert_eq!(firewall_state_for("linux"), "Active");
    assert_eq!(firewall_state_for("macos"), "Enabled");
    assert_eq!(firewall_state_for("freebsd"), "Unknown");
}

#[test]
fn process_tree_entries_carry_clock_and_user() {
    let ps = "  PID  PPID COMM\n    1     0 init\n   42     1 sshd\n";
    let t = tree_for("linux", ps, 5000);
    assert_eq!(t.len(), 2);
    assert_eq!(t[1].pid, 42);
    assert_eq!(t[1].ppid, 1);
    assert_eq!(t[1].name, "1 sshd");
    assert_eq!(t[1].command_line, "1 sshd");
    assert_eq!(t[1].start_time, 5000);
    assert_eq!(t[1].user, "root");
    let w = tree_for("windows", "\"Image\",\"PID\"\n\"svchost.exe\",\"612\",\"Services\"\n", 9);
    assert_eq!(w.len(), 1);
    assert_eq!(w[0].name, "svchost.exe");
    assert_eq!(w[0].user, "SYSTEM");
    assert!(tree_for("freebsd", ps, 1).is_empty());
}

#[test]
fn per_system_tables() {
    assert_eq!(services_for("linux")[0].name, "systemd");
    assert_eq!(services_for("windows")[0].pid, Some(1234));
    assert!(services_for("freebsd").is_empty());
    assert_eq!(mounts_for("windows")[0].mount_point, "C:\\");
    assert_eq!(mounts_for("macos")[0].filesystem_type, "apfs");
    assert_eq!(startup_tasks_for("linux")[0].command, "/usr/bin/firefox");
    assert!(startup_tasks_for("freebsd").is_empty());
    let m = kernel_modules_for("linux", 10000);
    assert_eq!(m[0].name, "nvidia");
    assert_eq!(m[0].loaded_at, 6400);
    let mft = mft_cache_at(10000);
    assert_eq!(mft[0].creation_time, 8200);
    assert_eq!(mft[0].access_time, 9400);
}

#[test]
fn whole_picture_from_probe() {
    let p = Probe {
        os_type: "linux".to_string(),
        now: 100000,
        current_time: "2024-05-01T00:00:00+00:00".to_string(),
        linux_uptime: 77,
        hostname: Some("host\n".to_string()),
        os_version: None,
        platform: Some("aarch64".to_string()),
        netstat: NETSTAT.to_string(),
        arp: String::new(),
        routes: "default\n".to_string(),
        processes: "PID PPID COMM\n7 1 cron\n".to_string(),
    };
    let c = categories(&p);
    assert_eq!(c.identification_time.hostname, "host");
    assert_eq!(c.identification_time.uptime, 77);
    assert_eq!(c.identification_time.os_version, "Unknown Linux");
    assert_eq!(c.identification_time.hardware_platform, "aarch64");
    assert_eq!(c.network_state.active_connections.len(), 2);
    assert!(c.network_state.arp_table.is_empty());
    assert_eq!(c.network_state.routing_table.len(), 1);
    assert_eq!(c.processes_memory.process_tree.len(), 1);
    assert_eq!(c.logged_in_users.current_sessions[0].login_time, 96400);
    assert_eq!(c.file_system.kernel_modules[0].loaded_at, 96400);
    assert!(!c.ram_capture.dump_available);
}

#[test]
fn saved_plugins_read_back_with_defaults() {
    let p = OsPlugin::deserialize_box("{\"name\":\"net scan\",\"version\":\"2.1\",\"os_type\":\"linux\"}");
    assert_eq!(p.name, "net scan");
    assert_eq!(p.version, "2.1");
    assert_eq!(p.file_path, "unknown");
    assert_eq!(p.os_type, "linux");
    assert!(p.eq_box("net scan", "2.1"));
    assert!(!p.eq_box("net scan", "2.2"));
    let s = SystemInfoPlugin::deserialize_box("not json");
    assert_eq!(s.name, "unknown");
    assert_eq!(s.version, "1.0.0");
    assert_eq!(s.sys_info_path, "sys_info.md");
    let s2 = SystemInfoPlugin::deserialize_box("{\"sys_info_path\":\"/tmp/s.md\",\"version\":3}");
    assert_eq!(s2.sys_info_path, "/tmp/s.md");
    assert_eq!(s2.version, "1.0.0");
}

#[test]
fn memory_and_network_figures() {
    let m = OSReporter::get_memory_info("MemTotal: 8000 kB\nMemAvailable: 3000 kB\n").unwrap();
    assert_eq!(m.total_mb, 8000);
    assert_eq!(m.available_mb, 3000);
    assert_eq!(m.used_mb, 5000);
    assert_eq!(OSReporter::get_memory_info("MemTotal: 8000 kB\n").unwrap_err(), "Could not parse memory");
    let n = OSReporter::get_network_info("linux");
    assert_eq!(n.interfaces[0].name, "eth0");
    assert_eq!(n.active_connections[0].pid, Some(1234));
    assert!(OSReporter::get_network_info("macos").interfaces.is_empty());
    assert_eq!(get_memory_usage(), 8192);
}

#[test]
fn report_figures_per_system() {
    assert_eq!(OSReporter::os_type_name("windows"), "Windows");
    assert_eq!(OSReporter::os_type_name("macos"), "macOS");
    assert_eq!(OSReporter::os_type_name("haiku"), "Unknown");
    assert_eq!(OSReporter::os_version_for("linux", "PRETTY_NAME=\"Ubuntu 22.04\"\n"), "Ubuntu 22.04");
    assert_eq!(OSReporter::os_version_for("linux", "NAME=x\n"), "Unknown");
    assert_eq!(OSReporter::os_version_for("macos", " 14.1\n"), "14.1");
    assert_eq!(OSReporter::os_version_for("haiku", "r1"), "Unknown");
    assert_eq!(OSReporter::cpu_figures("windows", ""), ("Intel Processor".to_string(), 4, 8));
    assert_eq!(OSReporter::cpu_figures("linux", "Model name:   Xeon\nCPU(s):  16\n"), ("Xeon".to_string(), 16, 16));
    assert_eq!(OSReporter::cpu_figures("macos", ""), ("Unknown CPU".to_string(), 4, 4));
    assert_eq!(OSReporter::total_memory_for("windows", " 16384\r\n"), Ok(16384));
    assert_eq!(OSReporter::total_memory_for("windows", "n/a"), Ok(0));
    assert_eq!(OSReporter::total_memory_for("linux", "MemTotal: 2048 kB\n"), Ok(2048));
    assert_eq!(OSReporter::total_memory_for("linux", ""), Err("Could not parse memory".to_string()));
    assert_eq!(OSReporter::total_memory_for("macos", ""), Ok(8192));
    assert_eq!(OSReporter::available_memory_for("macos", ""), Ok(4096));
    assert_eq!(OSReporter::available_memory_for("linux", "MemAvailable: 512 kB\n"), Ok(512));
    let g = OSReporter::get_gpu_info("windows", "");
    assert_eq!(g[0].memory, 10737418240);
    let l = OSReporter::get_gpu_info("linux", "00:02.0 VGA compatible controller: Intel UHD\n00:1f.3 Audio device: Intel\n");
    assert_eq!(l.len(), 1);
    assert_eq!(l[0].name, "02.0 VGA compatible controller");
    assert!(OSReporter::get_gpu_info("macos", "VGA: x").is_empty());
    let d = OSReporter::get_disk_info("windows");
    assert_eq!(d[0].mount_point, "C:\\");
    assert_eq!(d[0].used_space, 300000000000);
    assert_eq!(OSReporter::get_disk_info("linux")[0].filesystem_type, "ext4");
    assert!(OSReporter::get_disk_info("macos").is_empty());
}

#[test]
fn saved_plugins_read_back() {
    let p = OsPlugin::new("net_scan.cpp".to_string(), "/opt/p/net_scan.cpp".to_string(), "linux".to_string());
    let text = p.serialize_box();
    assert!(text.contains("\"type\":\"OsPlugin\""));
    let q = OsPlugin::deserialize_box(&text);
    assert_eq!(q.name, "net scan");
    assert_eq!(q.version, "1.0.0");
    assert_eq!(q.file_path, "/opt/p/net_scan.cpp");
    assert_eq!(q.os_type, "linux");

    let mut s = SystemInfoPlugin::new("/tmp/\"odd\" path.md".to_string(), "windows".to_string());
    s.version = "2.5.1".to_string();
    let text = s.serialize_box();
    assert!(text.contains("\"type\":\"SystemInfoPlugin\""));
    let t = SystemInfoPlugin::deserialize_box(&text);
    assert_eq!(t.name, "system_info_plugin");
    assert_eq!(t.version, "2.5.1");
    assert_eq!(t.sys_info_path, "/tmp/\"odd\" path.md");
    assert_eq!(t.os_type, "windows");
}
