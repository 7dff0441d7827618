use mini_msp::forensic::{get_collector, CollectorKind, Extra, FdCount, GenericForensicCollector, Severity};
use mini_msp::forensic_linux::{linux_probe_paths, proc_pid, LinuxForensicCollector, LinuxSources, ProcRead};
use mini_msp::forensic_linux_detailed::{
    detail_probe_paths, HistoryFile, KeyFile, LinuxDetailSources, LinuxDetailedForensicCollector, ModeOf,
    ProcDetail,
};
use mini_msp::forensic_macos::MacOSForensicCollector;
use mini_msp::forensic_macos_detailed::{mac_probe_paths, MacDetailSources, MacOSDetailedForensicCollector};
use mini_msp::forensic_windows::WindowsForensicCollector;

fn empty_linux() -> LinuxSources {
    LinuxSources {
        modules: None,
        processes: None,
        existing: vec![],
        services: None,
        tcp: None,
        init_environ: None,
    }
}

#[test]
fn macos_report_lists_its_artifacts() {
    let r = MacOSForensicCollector.collect();
    assert_eq!(r.platform, "macos");
    assert_eq!(r.findings_count(), 18);
    assert_eq!(r.findings[0].title, "LaunchAgents (User)");
    assert_eq!(r.findings[1].severity, Severity::Critical);
    assert!(matches!(&r.findings[4].extra, Extra::Paths(p) if p.len() == 2));
    assert_eq!(r.findings[17].kind, "recent_items");
    assert_eq!(MacOSForensicCollector.platform(), "macos");
}

#[test]
fn windows_report_lists_its_artifacts() {
    let r = WindowsForensicCollector.collect();
    assert_eq!(r.platform, "windows");
    assert_eq!(r.findings.len(), 13);
    assert_eq!(r.findings[0].title, "Registry: HKLM\\SOFTWARE\\Microsoft\\Windows\\CurrentVersion\\Run");
    assert!(matches!(&r.findings[8].extra, Extra::WmiNamespace(n) if n == "root\\subscription"));
    assert_eq!(r.note.as_deref(), Some("Windows forensic artifacts - registry and file system locations"));
}

#[test]
fn generic_report_has_no_findings() {
    let r = GenericForensicCollector.collect("plan9");
    assert_eq!(r.platform, "plan9");
    assert!(r.findings.is_empty());
    assert_eq!(GenericForensicCollector.platform(), "generic");
}

#[test]
fn proc_names_give_pids() {
    assert_eq!(proc_pid("1234"), Some(1234));
    assert_eq!(proc_pid("self"), None);
    assert_eq!(proc_pid(""), Some(0));
    assert_eq!(proc_pid("99999999999"), Some(0));
}

#[test]
fn linux_modules_and_alerts() {
    let mut src = empty_linux();
    src.modules = Some("ext4 1000 2 - Live\nRootKitX 10 0\nshort 1\n".to_string());
    let r = LinuxForensicCollector.collect(&src);
    assert_eq!(r.platform, "linux");
    // Two module lines with three fields, then one alert for "rootkit".
    assert_eq!(r.findings.len(), 3);
    assert_eq!(r.findings[0].title, "Module: ext4");
    assert_eq!(r.findings[0].description, "Size: 1000, Used: 2");
    assert_eq!(r.findings[1].title, "Module: RootKitX");
    assert_eq!(r.findings[2].title, "Suspicious Module: RootKitX");
    assert_eq!(r.findings[2].description, "Contains suspicious keyword: rootkit");
    assert_eq!(r.findings[2].severity, Severity::Critical);
}

#[test]
fn linux_processes_cron_tcp_environ_suid() {
    let mut src = empty_linux();
    src.processes = Some(vec![
        ProcRead { pid: 1, cmdline: Some("/sbin/init\0splash\0".to_string()) },
        ProcRead { pid: 2, cmdline: Some("".to_string()) },
        ProcRead { pid: 3, cmdline: None },
    ]);
    src.existing = vec!["/etc/cron.d".to_string(), "/bin/su".to_string()];
    src.services = Some("UNIT LOAD\na.service\nb.service\n".to_string());
    src.tcp = Some("header\n 0: 00000000:0016 00000000:0000 0A x\n 1: 0100007F:1F90 0100007F:D2A4 01 y\n".to_string());
    src.init_environ = Some("HOME=/\0\0TERM=linux\0".to_string());
    let r = LinuxForensicCollector.collect(&src);
    let titles: Vec<&str> = r.findings.iter().map(|f| f.title.as_str()).collect();
    assert_eq!(
        titles,
        vec![
            "Running Processes: 1",
            "Cron location: /etc/cron.d",
            "Running Systemd Services",
            "Listening TCP Ports",
            "Init Process Environment",
            "SUID binary: /bin/su",
        ]
    );
    match &r.findings[0].extra {
        Extra::Processes(p) => {
            assert_eq!(p.len(), 1);
            assert_eq!(p[0].pid, 1);
            assert_eq!(p[0].cmd, "/sbin/init splash");
        },
        _ => panic!("processes finding without its list"),
    }
    assert_eq!(r.findings[2].description, "a.service, b.service");
    assert_eq!(r.findings[3].description, "1 listening ports found");
    assert_eq!(r.findings[4].description, "HOME=/, TERM=linux");
    assert_eq!(linux_probe_paths().len(), 6);
}

fn empty_detail() -> LinuxDetailSources {
    LinuxDetailSources {
        existing: vec![],
        passwd: None,
        home_keys: vec![],
        root_keys: None,
        nopasswd: None,
        histories: vec![],
        modes: vec![],
        home_files: vec![],
        ld_preload: None,
        modules: None,
        tcp: None,
        arp: None,
        interfaces: None,
        iptables: None,
        hosts: None,
        processes: None,
        init_environ: None,
        fd_counts: None,
        services: None,
        timers: None,
    }
}

#[test]
fn detailed_linux_always_counts_processes() {
    let r = LinuxDetailedForensicCollector.collect_detailed(&empty_detail());
    assert_eq!(r.variant.as_deref(), Some("detailed"));
    assert_eq!(r.findings.len(), 1);
    assert_eq!(r.findings[0].description, "0 processes currently running");
    assert_eq!(LinuxDetailedForensicCollector.platform(), "linux_detailed");
}

#[test]
fn detailed_linux_accounts() {
    let mut src = empty_detail();
    src.passwd = Some("# comment\nroot:x:0:0\n:x:1\nalice:x:1000\n".to_string());
    src.home_keys = vec![
        KeyFile { owner: "\"alice\"".to_string(), path: "/home/alice/.ssh/authorized_keys".to_string(), content: "ssh-rsa A\n# c\n\nssh-ed25519 B\n".to_string() },
        KeyFile { owner: "\"bob\"".to_string(), path: "/home/bob/.ssh/authorized_keys".to_string(), content: "# none\n".to_string() },
    ];
    src.root_keys = Some("ssh-rsa R\n".to_string());
    src.existing = vec!["/etc/sudoers".to_string()];
    src.nopasswd = Some("/etc/sudoers.d/x: bob ALL=(ALL) NOPASSWD: ALL\n".to_string());
    src.histories = vec![HistoryFile { owner: "\"alice\"".to_string(), file: ".bash_history".to_string() }];
    let r = LinuxDetailedForensicCollector.collect(&src);
    assert_eq!(r.findings[0].description, "Found 2 user accounts");
    match &r.findings[0].extra {
        Extra::Users(u) => assert_eq!(u, &vec!["root".to_string(), "alice".to_string()]),
        _ => panic!("passwd finding without users"),
    }
    assert_eq!(r.findings[1].title, "SSH authorized_keys for \"alice\"");
    assert_eq!(r.findings[1].description, "2 SSH keys configured");
    assert_eq!(r.findings[2].title, "Root SSH authorized_keys");
    assert_eq!(r.findings[3].title, "/etc/sudoers");
    assert_eq!(r.findings[4].kind, "nopasswd_sudo");
    assert_eq!(r.findings[5].title, "Shell history: \"alice\"/.bash_history");
}

#[test]
fn detailed_linux_files_network_processes_systemd() {
    let mut src = empty_detail();
    src.modes = vec![ModeOf { path: "/usr/bin/sudo".to_string(), mode: 0o104755 }, ModeOf { path: "/bin/mount".to_string(), mode: 0o102755 }];
    src.home_files = vec![".bashrc".to_string(), "notes".to_string(), ".ssh".to_string()];
    src.existing = vec!["/tmp".to_string(), "/run/systemd/system".to_string(), "/var/log/wtmp".to_string()];
    src.hosts = Some("127.0.0.1 localhost\n# c\n::1 localhost\n10.0.0.1 db\n\n".to_string());
    src.interfaces = Some(3);
    src.fd_counts = Some(vec![FdCount { pid: 7, open_fds: 150 }, FdCount { pid: 8, open_fds: 3 }]);
    src.timers = Some("NEXT LEFT\nx logrotate.timer\ny fstrim.timer\n".to_string());
    let r = LinuxDetailedForensicCollector.collect(&src);
    let titles: Vec<&str> = r.findings.iter().map(|f| f.title.as_str()).collect();
    assert_eq!(
        titles,
        vec![
            "SUID binary: /usr/bin/sudo",
            "SGID binary: /bin/mount",
            "Hidden files in home directories",
            "Temporary directory: /tmp",
            "Network interfaces",
            "/etc/hosts entries",
            "Login history (wtmp)",
            "Running processes",
            "Processes with many open file descriptors",
            "Systemd detected",
            "Systemd timers",
        ]
    );
    assert_eq!(r.findings[2].description, "Found 2 hidden files/directories");
    assert_eq!(r.findings[5].description, "1 custom host entries");
    assert_eq!(r.findings[10].description, "2 timer units configured");
    assert_eq!(detail_probe_paths().len(), 22);
}

fn empty_mac(home: &str) -> MacDetailSources {
    MacDetailSources {
        home: home.to_string(),
        existing: vec![],
        user_launch_agents: None,
        system_launch_agents: None,
        launch_daemons: None,
        extensions: None,
        system_extensions: None,
        periodic_daily: None,
        periodic_weekly: None,
        periodic_monthly: None,
        ssh_files: None,
        csrutil: None,
        spctl: None,
        ifconfig: None,
        arp: None,
        asl_logs: None,
        crash_reports: None,
        applications: None,
        user_applications: None,
    }
}

#[test]
fn detailed_macos_findings() {
    let mut src = empty_mac("/Users/a");
    src.user_launch_agents = Some(vec!["com.x.plist".to_string(), ".plist".to_string(), "readme".to_string()]);
    src.periodic_daily = Some(2);
    src.existing = vec!["/Users/a/.zsh_history".to_string(), "/Users/a/Library/Preferences/com.apple.dock.plist".to_string()];
    src.csrutil = Some("System Integrity Protection status: disabled.\n".to_string());
    src.ifconfig = Some("lo0: flags=8049<UP>\n\tinet 127.0.0.1\nen0: flags=8863<UP>\n".to_string());
    src.applications = Some(vec!["Safari.app".to_string(), "x".to_string()]);
    let r = MacOSDetailedForensicCollector.collect_detailed(&src);
    let titles: Vec<&str> = r.findings.iter().map(|f| f.title.as_str()).collect();
    assert_eq!(
        titles,
        vec![
            "User LaunchAgents",
            "Periodic scripts: /etc/periodic/daily",
            "Shell history: .zsh_history",
            "System Integrity Protection (SIP)",
            "Network Interfaces",
            "Unified Logging System",
            "System Applications",
            "Dock Configuration",
        ]
    );
    assert_eq!(r.findings[0].description, "1 .plist files in ~/Library/LaunchAgents");
    assert_eq!(r.findings[3].severity, Severity::Critical);
    assert_eq!(r.findings[3].description, "SIP is DISABLED - security risk");
    assert_eq!(r.findings[4].description, "Interfaces: [\"lo0\", \"en0\"]");
    assert_eq!(r.findings[6].description, "1 .app bundles in /Applications");
    assert_eq!(mac_probe_paths("/Users/a").len(), 17);
    assert_eq!(MacOSDetailedForensicCollector.platform(), "macos_detailed");
}

#[test]
fn collector_per_platform() {
    use_collectors();
}

fn use_collectors() {
    assert_eq!(get_collector("linux"), CollectorKind::LinuxDetailed);
    assert_eq!(get_collector("windows"), CollectorKind::Windows);
    assert_eq!(get_collector("macos"), CollectorKind::MacOSDetailed);
    assert_eq!(get_collector("freebsd"), CollectorKind::Generic);
}

#[test]
fn linux_finding_counts_stay_within_bounds() {
    let mut modules = String::new();
    for i in 0..30 {
        modules.push_str(&format!("mod{} 1024 0 - Live 0x0\n", i));
    }
    let mut procs = Vec::new();
    for i in 1..16 {
        procs.push(ProcRead { pid: i, cmdline: Some(format!("/bin/p{}", i)) });
    }
    let src = LinuxSources {
        modules: Some(modules),
        processes: Some(procs),
        existing: linux_probe_paths(),
        services: None,
        tcp: None,
        init_environ: None,
    };
    let r = LinuxForensicCollector.collect(&src);
    let count = |k: &str| r.findings.iter().filter(|f| f.kind == k).count();
    assert_eq!(count("kernel_module"), 20);
    assert_eq!(count("processes"), 1);
    assert_eq!(count("cron"), 3);
    assert_eq!(count("suid"), 3);
    let p = r.findings.iter().find(|f| f.kind == "processes").unwrap();
    match &p.extra {
        Extra::Processes(es) => assert_eq!(es.len(), 10),
        _ => panic!("processes finding without its list"),
    }
    assert_eq!(p.title, "Running Processes: 15");
}
