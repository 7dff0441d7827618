//! The detailed macOS collector: persistence, user artifacts, security,
//! network, logs and applications, decided from what was read.
use vstd::prelude::*;
use crate::forensic::{
    collect_some, count_where, finding, listed, only_if, plain, push_all, push_finding, push_if,
    strs, views, with_extra, number_then, Extra, ExtraView, Finding, FindingView, ForensicReport,
    Severity,
};
use crate::text::{
    concat, contains_str, contains_text, debug_list, debug_strings, decimal, ends_with,
    lines, lines_of, next_char, starts_with, trim, trimmed,
};

verus! {

/// What the detailed macOS collector reads off the machine.
#[derive(Clone, Debug)]
pub struct MacDetailSources {
    /// The user's home directory, or empty where `HOME` is not set.
    pub home: String,
    /// Which of [`mac_probe_paths`] exist.
    pub existing: Vec<String>,
    /// The entries of `~/Library/LaunchAgents`, if it could be listed.
    pub user_launch_agents: Option<Vec<String>>,
    /// The entries of `/Library/LaunchAgents`.
    pub system_launch_agents: Option<Vec<String>>,
    /// The entries of `/Library/LaunchDaemons`.
    pub launch_daemons: Option<Vec<String>>,
    /// How many entries `/Library/Extensions` has.
    pub extensions: Option<u64>,
    /// How many entries `/Library/SystemExtensions` has.
    pub system_extensions: Option<u64>,
    /// How many entries `/etc/periodic/daily` has.
    pub periodic_daily: Option<u64>,
    /// How many entries `/etc/periodic/weekly` has.
    pub periodic_weekly: Option<u64>,
    /// How many entries `/etc/periodic/monthly` has.
    pub periodic_monthly: Option<u64>,
    /// The entry names of `~/.ssh` that are valid text.
    pub ssh_files: Option<Vec<String>>,
    /// What `csrutil status` printed.
    pub csrutil: Option<String>,
    /// What `spctl --status` printed.
    pub spctl: Option<String>,
    /// What `ifconfig` printed.
    pub ifconfig: Option<String>,
    /// What `arp -a` printed.
    pub arp: Option<String>,
    /// How many entries `/var/log/asl` has.
    pub asl_logs: Option<u64>,
    /// How many entries `~/Library/Logs/DiagnosticReports` has.
    pub crash_reports: Option<u64>,
    /// The entries of `/Applications`.
    pub applications: Option<Vec<String>>,
    /// The entries of `~/Applications`.
    pub user_applications: Option<Vec<String>>,
}

/// Whether a file name has the extension that `dot_ext` (such as ".plist")
/// names, as `Path::extension` finds it: a name made of the dot and the
/// extension alone has none.
pub open spec fn has_ext(name: Seq<char>, dot_ext: Seq<char>) -> bool {
    ends_with(name, dot_ext) && name.len() > dot_ext.len()
}

pub open spec fn has_ext_fn(dot_ext: Seq<char>) -> spec_fn(Seq<char>) -> bool {
    |n: Seq<char>| has_ext(n, dot_ext)
}

/// How many of `names` have the extension `dot_ext`.
fn count_ext(names: &Vec<String>, dot_ext: &str) -> (n: u64)
    ensures
        n == count_where(strs(names@), has_ext_fn(dot_ext@)),
{
    let ghost nl = strs(names@);
    let mut n: u64 = 0;
    let mut i: usize = 0;
    while i < names.len()
        invariant
            nl == strs(names@),
            i <= names@.len(),
            n == count_where(nl.take(i as int), has_ext_fn(dot_ext@)),
            n <= i,
        decreases names@.len() - i,
    {
        proof {
            assert(nl.take(i + 1).drop_last() =~= nl.take(i as int));
            assert(nl[i as int] == names@[i as int]@);
        }
        let v = crate::text::chars_of(names[i].as_str());
        let d = crate::text::chars_of(dot_ext);
        if crate::text::chars_end_with(&v, dot_ext) && v.len() > d.len() {
            n = n + 1;
        }
        i = i + 1;
    }
    proof {
        assert(nl.take(nl.len() as int) =~= nl);
    }
    n
}

/// Whether `home` followed by `suffix` is among the existing paths.
fn exists_at(existing: &Vec<String>, home: &str, suffix: &str) -> (b: bool)
    ensures
        b == strs(existing@).contains(home@ + suffix@),
{
    let p = concat(home, suffix);
    listed(existing, p.as_str())
}

/// The paths whose existence the collector asks about, for the home
/// directory `home`.
pub open spec fn mac_probes(home: Seq<char>) -> Seq<Seq<char>> {
    seq![
        "/etc/crontab"@,
        home + "/Library/Application Support/com.apple.backgroundtaskmanagementagent"@,
        home + "/.bash_history"@,
        home + "/.zsh_history"@,
        home + "/.sh_history"@,
        home + "/Library/Preferences/com.apple.recentitems.plist"@,
        home + "/Library/Preferences/com.apple.LaunchServices.QuarantineEventsV2"@,
        home + "/Library/Application Support/Knowledge/knowledgeC.db"@,
        home + "/Library/Safari/History.db"@,
        home + "/Library/Messages/chat.db"@,
        "/Library/Application Support/com.apple.TCC/TCC.db"@,
        home + "/Library/Application Support/com.apple.TCC/TCC.db"@,
        "/Library/Apple/System/Library/CoreServices/XProtect.bundle"@,
        "/Library/Preferences/SystemConfiguration/com.apple.airport.preferences.plist"@,
        "/var/log/system.log"@,
        "/var/log/install.log"@,
        home + "/Library/Preferences/com.apple.dock.plist"@,
    ]
}

/// The paths whose existence the collector asks about; the caller passes
/// back those that exist.
pub fn mac_probe_paths(home: &str) -> (r: Vec<String>)
    ensures
        strs(r@) == mac_probes(home@),
{
    let mut v: Vec<String> = Vec::new();
    v.push("/etc/crontab".to_owned());
    v.push(concat(home, "/Library/Application Support/com.apple.backgroundtaskmanagementagent"));
    v.push(concat(home, "/.bash_history"));
    v.push(concat(home, "/.zsh_history"));
    v.push(concat(home, "/.sh_history"));
    v.push(concat(home, "/Library/Preferences/com.apple.recentitems.plist"));
    v.push(concat(home, "/Library/Preferences/com.apple.LaunchServices.QuarantineEventsV2"));
    v.push(concat(home, "/Library/Application Support/Knowledge/knowledgeC.db"));
    v.push(concat(home, "/Library/Safari/History.db"));
    v.push(concat(home, "/Library/Messages/chat.db"));
    v.push("/Library/Application Support/com.apple.TCC/TCC.db".to_owned());
    v.push(concat(home, "/Library/Application Support/com.apple.TCC/TCC.db"));
    v.push("/Library/Apple/System/Library/CoreServices/XProtect.bundle".to_owned());
    v.push("/Library/Preferences/SystemConfiguration/com.apple.airport.preferences.plist".to_owned());
    v.push("/var/log/system.log".to_owned());
    v.push("/var/log/install.log".to_owned());
    v.push(concat(home, "/Library/Preferences/com.apple.dock.plist"));
    assert(strs(v@) =~= mac_probes(home@));
    v
}

// ------------------------------------------------------------- persistence

/// A finding for a listed directory holding at least one file with the
/// extension `dot_ext`.
pub open spec fn plist_dir_part(
    names: Option<Vec<String>>,
    dot_ext: Seq<char>,
    severity: Severity,
    title: Seq<char>,
    where_: Seq<char>,
    kind: Seq<char>,
) -> Seq<FindingView> {
    match names {
        Some(n) => {
            let c = count_where(strs(n@), has_ext_fn(dot_ext));
            only_if(
                c > 0,
                plain("Persistence"@, severity, title, decimal(c) + " .plist files in "@ + where_, kind),
            )
        },
        None => Seq::empty(),
    }
}

/// A finding for a listed directory with at least one entry.
pub open spec fn count_part(
    count: Option<u64>,
    category: Seq<char>,
    severity: Severity,
    title: Seq<char>,
    words: Seq<char>,
    kind: Seq<char>,
) -> Seq<FindingView> {
    match count {
        Some(n) => only_if(n > 0, plain(category, severity, title, decimal(n as nat) + words, kind)),
        None => Seq::empty(),
    }
}

/// The persistence findings.
pub open spec fn mac_persistence_part(src: MacDetailSources) -> Seq<FindingView> {
    let e = strs(src.existing@);
    plist_dir_part(
        src.user_launch_agents,
        ".plist"@,
        Severity::Warning,
        "User LaunchAgents"@,
        "~/Library/LaunchAgents"@,
        "launchagents_user"@,
    ) + plist_dir_part(
        src.system_launch_agents,
        ".plist"@,
        Severity::Critical,
        "System LaunchAgents"@,
        "/Library/LaunchAgents"@,
        "launchagents_system"@,
    ) + plist_dir_part(
        src.launch_daemons,
        ".plist"@,
        Severity::Critical,
        "LaunchDaemons"@,
        "/Library/LaunchDaemons"@,
        "launchdaemons"@,
    ) + count_part(
        src.extensions,
        "Persistence"@,
        Severity::Critical,
        "Kernel Extensions (KEXTs)"@,
        " third-party kernel extensions"@,
        "kexts"@,
    ) + count_part(
        src.system_extensions,
        "Persistence"@,
        Severity::Warning,
        "System Extensions"@,
        " system extensions installed"@,
        "system_extensions"@,
    ) + only_if(
        e.contains("/etc/crontab"@),
        plain("Persistence"@, Severity::Warning, "/etc/crontab exists"@, "Legacy cron persistence"@, "cron"@),
    ) + count_part(
        src.periodic_daily,
        "Persistence"@,
        Severity::Info,
        "Periodic scripts: /etc/periodic/daily"@,
        " scripts configured"@,
        "periodic"@,
    ) + count_part(
        src.periodic_weekly,
        "Persistence"@,
        Severity::Info,
        "Periodic scripts: /etc/periodic/weekly"@,
        " scripts configured"@,
        "periodic"@,
    ) + count_part(
        src.periodic_monthly,
        "Persistence"@,
        Severity::Info,
        "Periodic scripts: /etc/periodic/monthly"@,
        " scripts configured"@,
        "periodic"@,
    ) + only_if(
        e.contains(src.home@ + "/Library/Application Support/com.apple.backgroundtaskmanagementagent"@),
        plain(
            "Persistence"@,
            Severity::Warning,
            "Login Items / Background Tasks"@,
            "Background task management database exists"@,
            "login_items"@,
        ),
    )
}

fn plist_dir(out: &mut Vec<Finding>, names: &Option<Vec<String>>, severity: Severity, title: &str, where_: &str, kind: &str)
    ensures
        views(final(out)@) == views(old(out)@) + plist_dir_part(*names, ".plist"@, severity, title@, where_@, kind@),
{
    match names {
        Some(n) => {
            let c = count_ext(n, ".plist");
            let desc = number_then(c, concat(" .plist files in ", where_).as_str());
            push_if(out, c > 0, finding("Persistence", severity, title.to_owned(), desc, kind, Extra::Plain));
            assert(desc@ =~= decimal(c as nat) + " .plist files in "@ + where_@);
        },
        None => {
            assert(views(out@) =~= views(out@) + Seq::<FindingView>::empty());
        },
    }
}

fn count_dir(out: &mut Vec<Finding>, count: Option<u64>, category: &str, severity: Severity, title: &str, words: &str, kind: &str)
    ensures
        views(final(out)@) == views(old(out)@) + count_part(count, category@, severity, title@, words@, kind@),
{
    match count {
        Some(n) => {
            push_if(out, n > 0, finding(category, severity, title.to_owned(), number_then(n, words), kind, Extra::Plain));
        },
        None => {
            assert(views(out@) =~= views(out@) + Seq::<FindingView>::empty());
        },
    }
}

fn collect_persistence(src: &MacDetailSources) -> (r: Vec<Finding>)
    ensures
        views(r@) == mac_persistence_part(*src),
{
    let mut out: Vec<Finding> = Vec::new();
    plist_dir(&mut out, &src.user_launch_agents, Severity::Warning, "User LaunchAgents", "~/Library/LaunchAgents", "launchagents_user");
    plist_dir(&mut out, &src.system_launch_agents, Severity::Critical, "System LaunchAgents", "/Library/LaunchAgents", "launchagents_system");
    plist_dir(&mut out, &src.launch_daemons, Severity::Critical, "LaunchDaemons", "/Library/LaunchDaemons", "launchdaemons");
    count_dir(&mut out, src.extensions, "Persistence", Severity::Critical, "Kernel Extensions (KEXTs)", " third-party kernel extensions", "kexts");
    count_dir(&mut out, src.system_extensions, "Persistence", Severity::Warning, "System Extensions", " system extensions installed", "system_extensions");
    let c = listed(&src.existing, "/etc/crontab");
    push_if(&mut out, c, finding("Persistence", Severity::Warning, "/etc/crontab exists".to_owned(), "Legacy cron persistence".to_owned(), "cron", Extra::Plain));
    count_dir(&mut out, src.periodic_daily, "Persistence", Severity::Info, "Periodic scripts: /etc/periodic/daily", " scripts configured", "periodic");
    count_dir(&mut out, src.periodic_weekly, "Persistence", Severity::Info, "Periodic scripts: /etc/periodic/weekly", " scripts configured", "periodic");
    count_dir(&mut out, src.periodic_monthly, "Persistence", Severity::Info, "Periodic scripts: /etc/periodic/monthly", " scripts configured", "periodic");
    let l = exists_at(&src.existing, src.home.as_str(), "/Library/Application Support/com.apple.backgroundtaskmanagementagent");
    push_if(&mut out, l, finding("Persistence", Severity::Warning, "Login Items / Background Tasks".to_owned(), "Background task management database exists".to_owned(), "login_items", Extra::Plain));
    assert(views(out@) =~= mac_persistence_part(*src));
    out
}

// ---------------------------------------------------------- user artifacts

pub open spec fn at_home(src: MacDetailSources, suffix: Seq<char>) -> bool {
    strs(src.existing@).contains(src.home@ + suffix)
}

pub open spec fn history_part(src: MacDetailSources, file: Seq<char>) -> Seq<FindingView> {
    only_if(
        at_home(src, "/"@ + file),
        plain("User Artifacts"@, Severity::Info, "Shell history: "@ + file, "Command history available"@, "shell_history"@),
    )
}

pub open spec fn home_file_part(
    src: MacDetailSources,
    suffix: Seq<char>,
    severity: Severity,
    title: Seq<char>,
    description: Seq<char>,
    kind: Seq<char>,
) -> Seq<FindingView> {
    only_if(at_home(src, suffix), plain("User Artifacts"@, severity, title, description, kind))
}

/// The user artifact findings.
pub open spec fn user_artifacts_part(src: MacDetailSources) -> Seq<FindingView> {
    history_part(src, ".bash_history"@) + history_part(src, ".zsh_history"@) + history_part(
        src,
        ".sh_history"@,
    ) + (match src.ssh_files {
        Some(f) => only_if(
            f@.len() > 0,
            plain(
                "User Artifacts"@,
                Severity::Warning,
                "SSH directory"@,
                "SSH files: "@ + debug_list(strs(f@)),
                "ssh"@,
            ),
        ),
        None => Seq::empty(),
    }) + home_file_part(
        src,
        "/Library/Preferences/com.apple.recentitems.plist"@,
        Severity::Info,
        "Recent Items"@,
        "Recent documents and applications history"@,
        "recent_items"@,
    ) + home_file_part(
        src,
        "/Library/Preferences/com.apple.LaunchServices.QuarantineEventsV2"@,
        Severity::Info,
        "Quarantine Database"@,
        "Downloaded files history (browser, email attachments)"@,
        "quarantine_db"@,
    ) + home_file_part(
        src,
        "/Library/Application Support/Knowledge/knowledgeC.db"@,
        Severity::Info,
        "KnowledgeC Database"@,
        "Application usage, device activity, geolocation history"@,
        "knowledgec"@,
    ) + home_file_part(
        src,
        "/Library/Safari/History.db"@,
        Severity::Info,
        "Safari History"@,
        "Browser history database"@,
        "safari_history"@,
    ) + home_file_part(
        src,
        "/Library/Messages/chat.db"@,
        Severity::Info,
        "Messages (iMessage/SMS)"@,
        "Message history database"@,
        "imessage"@,
    )
}

fn history(out: &mut Vec<Finding>, src: &MacDetailSources, file: &str)
    ensures
        views(final(out)@) == views(old(out)@) + history_part(*src, file@),
{
    let suffix = concat("/", file);
    let b = exists_at(&src.existing, src.home.as_str(), suffix.as_str());
    push_if(out, b, finding("User Artifacts", Severity::Info, concat("Shell history: ", file), "Command history available".to_owned(), "shell_history", Extra::Plain));
}

fn home_file(out: &mut Vec<Finding>, src: &MacDetailSources, suffix: &str, severity: Severity, title: &str, description: &str, kind: &str)
    ensures
        views(final(out)@) == views(old(out)@) + home_file_part(*src, suffix@, severity, title@, description@, kind@),
{
    let b = exists_at(&src.existing, src.home.as_str(), suffix);
    push_if(out, b, finding("User Artifacts", severity, title.to_owned(), description.to_owned(), kind, Extra::Plain));
}

fn collect_user_artifacts(src: &MacDetailSources) -> (r: Vec<Finding>)
    ensures
        views(r@) == user_artifacts_part(*src),
{
    let mut out: Vec<Finding> = Vec::new();
    history(&mut out, src, ".bash_history");
    history(&mut out, src, ".zsh_history");
    history(&mut out, src, ".sh_history");
    match &src.ssh_files {
        Some(f) => {
            let d = debug_strings(f);
            push_if(&mut out, f.len() > 0, finding("User Artifacts", Severity::Warning, "SSH directory".to_owned(), concat("SSH files: ", d.as_str()), "ssh", Extra::Plain));
        },
        None => {},
    }
    home_file(&mut out, src, "/Library/Preferences/com.apple.recentitems.plist", Severity::Info, "Recent Items", "Recent documents and applications history", "recent_items");
    home_file(&mut out, src, "/Library/Preferences/com.apple.LaunchServices.QuarantineEventsV2", Severity::Info, "Quarantine Database", "Downloaded files history (browser, email attachments)", "quarantine_db");
    home_file(&mut out, src, "/Library/Application Support/Knowledge/knowledgeC.db", Severity::Info, "KnowledgeC Database", "Application usage, device activity, geolocation history", "knowledgec");
    home_file(&mut out, src, "/Library/Safari/History.db", Severity::Info, "Safari History", "Browser history database", "safari_history");
    home_file(&mut out, src, "/Library/Messages/chat.db", Severity::Info, "Messages (iMessage/SMS)", "Message history database", "imessage");
    assert(views(out@) =~= user_artifacts_part(*src));
    out
}


// ---------------------------------------------------------------- security

/// The security findings.
pub open spec fn security_part(src: MacDetailSources) -> Seq<FindingView> {
    let e = strs(src.existing@);
    only_if(
        e.contains("/Library/Application Support/com.apple.TCC/TCC.db"@),
        plain(
            "Security"@,
            Severity::Warning,
            "TCC Database (System)"@,
            "App permissions for camera, microphone, disk access"@,
            "tcc_db"@,
        ),
    ) + only_if(
        at_home(src, "/Library/Application Support/com.apple.TCC/TCC.db"@),
        plain(
            "Security"@,
            Severity::Warning,
            "TCC Database (User)"@,
            "App permissions for camera, microphone, disk access"@,
            "tcc_db"@,
        ),
    ) + (match src.csrutil {
        Some(o) => {
            let enabled = contains_text(o@, "enabled"@);
            seq![
                with_extra(
                    "Security"@,
                    if enabled {
                        Severity::Info
                    } else {
                        Severity::Critical
                    },
                    "System Integrity Protection (SIP)"@,
                    if enabled {
                        "SIP is enabled"@
                    } else {
                        "SIP is DISABLED - security risk"@
                    },
                    "sip_status"@,
                    ExtraView::Enabled(enabled),
                ),
            ]
        },
        None => Seq::empty(),
    }) + (match src.spctl {
        Some(o) => seq![
            plain("Security"@, Severity::Info, "Gatekeeper Status"@, trim(o@), "gatekeeper"@),
        ],
        None => Seq::empty(),
    }) + only_if(
        e.contains("/Library/Apple/System/Library/CoreServices/XProtect.bundle"@),
        plain(
            "Security"@,
            Severity::Info,
            "XProtect"@,
            "Apple's malware signature database present"@,
            "xprotect"@,
        ),
    )
}

fn collect_security(src: &MacDetailSources) -> (r: Vec<Finding>)
    ensures
        views(r@) == security_part(*src),
{
    let mut out: Vec<Finding> = Vec::new();
    let s = listed(&src.existing, "/Library/Application Support/com.apple.TCC/TCC.db");
    push_if(&mut out, s, finding("Security", Severity::Warning, "TCC Database (System)".to_owned(), "App permissions for camera, microphone, disk access".to_owned(), "tcc_db", Extra::Plain));
    let u = exists_at(&src.existing, src.home.as_str(), "/Library/Application Support/com.apple.TCC/TCC.db");
    push_if(&mut out, u, finding("Security", Severity::Warning, "TCC Database (User)".to_owned(), "App permissions for camera, microphone, disk access".to_owned(), "tcc_db", Extra::Plain));
    match &src.csrutil {
        Some(o) => {
            let enabled = contains_str(o.as_str(), "enabled");
            let sev = if enabled { Severity::Info } else { Severity::Critical };
            let desc = if enabled { "SIP is enabled" } else { "SIP is DISABLED - security risk" };
            push_finding(&mut out, finding("Security", sev, "System Integrity Protection (SIP)".to_owned(), desc.to_owned(), "sip_status", Extra::Enabled(enabled)));
        },
        None => {},
    }
    match &src.spctl {
        Some(o) => {
            push_finding(&mut out, finding("Security", Severity::Info, "Gatekeeper Status".to_owned(), trimmed(o.as_str()), "gatekeeper", Extra::Plain));
        },
        None => {},
    }
    let x = listed(&src.existing, "/Library/Apple/System/Library/CoreServices/XProtect.bundle");
    push_if(&mut out, x, finding("Security", Severity::Info, "XProtect".to_owned(), "Apple's malware signature database present".to_owned(), "xprotect", Extra::Plain));
    assert(views(out@) =~= security_part(*src));
    out
}

// ----------------------------------------------------------------- network

/// The interface name that a line of `ifconfig` output opens with: the
/// text before the first colon of an unindented line that holds "flags".
pub open spec fn iface_name(l: Seq<char>) -> Option<Seq<char>> {
    if l.contains(':') && !starts_with(l, "\t"@) && contains_text(l, "flags"@) {
        let n = l.take(next_char(l, ':', 0));
        if n.len() > 0 {
            Some(n)
        } else {
            None
        }
    } else {
        None
    }
}

pub open spec fn iface_name_fn() -> spec_fn(Seq<char>) -> Option<Seq<char>> {
    |l: Seq<char>| iface_name(l)
}

/// The network findings.
pub open spec fn mac_network_part(src: MacDetailSources) -> Seq<FindingView> {
    only_if(
        strs(src.existing@).contains("/Library/Preferences/SystemConfiguration/com.apple.airport.preferences.plist"@),
        plain(
            "Network"@,
            Severity::Info,
            "WiFi Connection History"@,
            "Known WiFi networks and connection history"@,
            "wifi_history"@,
        ),
    ) + (match src.ifconfig {
        Some(o) => seq![
            plain(
                "Network"@,
                Severity::Info,
                "Network Interfaces"@,
                "Interfaces: "@ + debug_list(collect_some(lines(o@), iface_name_fn())),
                "interfaces"@,
            ),
        ],
        None => Seq::empty(),
    }) + (match src.arp {
        Some(o) => seq![
            plain("Network"@, Severity::Info, "ARP Cache"@, decimal(lines(o@).len()) + " ARP entries"@, "arp_cache"@),
        ],
        None => Seq::empty(),
    })
}

fn iface_names(o: &str) -> (r: Vec<String>)
    ensures
        strs(r@) == collect_some(lines(o@), iface_name_fn()),
{
    let ls = lines_of(o);
    let ghost ll = strs(ls@);
    let mut kept: Vec<String> = Vec::new();
    let mut i: usize = 0;
    while i < ls.len()
        invariant
            ll == strs(ls@),
            ll == lines(o@),
            i <= ls@.len(),
            strs(kept@) == collect_some(ll.take(i as int), iface_name_fn()),
        decreases ls@.len() - i,
    {
        proof {
            assert(ll.take(i + 1).drop_last() =~= ll.take(i as int));
            assert(ll[i as int] == ls@[i as int]@);
        }
        let l = ls[i].as_str();
        if crate::text::has_char(l, ':') && !crate::text::text_starts_with(l, "\t") && contains_str(l, "flags") {
            let n = crate::text::before_char(l, ':');
            if !n.as_str().is_empty() {
                kept.push(n);
            }
        }
        proof {
            assert(strs(kept@) =~= collect_some(ll.take(i + 1), iface_name_fn()));
        }
        i = i + 1;
    }
    proof {
        assert(ll.take(ll.len() as int) =~= ll);
    }
    kept
}

fn collect_network(src: &MacDetailSources) -> (r: Vec<Finding>)
    ensures
        views(r@) == mac_network_part(*src),
{
    let mut out: Vec<Finding> = Vec::new();
    let w = listed(&src.existing, "/Library/Preferences/SystemConfiguration/com.apple.airport.preferences.plist");
    push_if(&mut out, w, finding("Network", Severity::Info, "WiFi Connection History".to_owned(), "Known WiFi networks and connection history".to_owned(), "wifi_history", Extra::Plain));
    match &src.ifconfig {
        Some(o) => {
            let names = iface_names(o.as_str());
            let d = debug_strings(&names);
            push_finding(&mut out, finding("Network", Severity::Info, "Network Interfaces".to_owned(), concat("Interfaces: ", d.as_str()), "interfaces", Extra::Plain));
        },
        None => {},
    }
    match &src.arp {
        Some(o) => {
            let ls = lines_of(o.as_str());
            push_finding(&mut out, finding("Network", Severity::Info, "ARP Cache".to_owned(), number_then(ls.len() as u64, " ARP entries"), "arp_cache", Extra::Plain));
        },
        None => {},
    }
    assert(views(out@) =~= mac_network_part(*src));
    out
}

// -------------------------------------------------------------------- logs

/// The command that reads the unified log's recent errors.
pub open spec fn unified_log_command() -> Seq<char> {
    "log show --predicate 'eventMessage contains \"error\"' --last 1h"@
}

/// The log findings.
pub open spec fn mac_logs_part(src: MacDetailSources) -> Seq<FindingView> {
    let e = strs(src.existing@);
    seq![
        with_extra(
            "Logs"@,
            Severity::Info,
            "Unified Logging System"@,
            "Binary logs in /var/db/diagnostics/ - use 'log' command"@,
            "unified_log"@,
            ExtraView::Command(unified_log_command()),
        ),
    ] + only_if(
        e.contains("/var/log/system.log"@),
        plain("Logs"@, Severity::Info, "System Log"@, "Legacy syslog format"@, "system_log"@),
    ) + only_if(
        e.contains("/var/log/install.log"@),
        plain("Logs"@, Severity::Info, "Install Log"@, "Software installation history"@, "install_log"@),
    ) + count_part(src.asl_logs, "Logs"@, Severity::Info, "ASL Logs"@, " ASL log files"@, "asl_logs"@)
        + count_part(
        src.crash_reports,
        "Logs"@,
        Severity::Warning,
        "Crash Reports"@,
        " crash/diagnostic reports"@,
        "crash_reports"@,
    )
}

fn collect_logs(src: &MacDetailSources) -> (r: Vec<Finding>)
    ensures
        views(r@) == mac_logs_part(*src),
{
    let mut out: Vec<Finding> = Vec::new();
    push_finding(&mut out, finding("Logs", Severity::Info, "Unified Logging System".to_owned(), "Binary logs in /var/db/diagnostics/ - use 'log' command".to_owned(), "unified_log", Extra::Command("log show --predicate 'eventMessage contains \"error\"' --last 1h".to_owned())));
    let s = listed(&src.existing, "/var/log/system.log");
    push_if(&mut out, s, finding("Logs", Severity::Info, "System Log".to_owned(), "Legacy syslog format".to_owned(), "system_log", Extra::Plain));
    let i = listed(&src.existing, "/var/log/install.log");
    push_if(&mut out, i, finding("Logs", Severity::Info, "Install Log".to_owned(), "Software installation history".to_owned(), "install_log", Extra::Plain));
    count_dir(&mut out, src.asl_logs, "Logs", Severity::Info, "ASL Logs", " ASL log files", "asl_logs");
    count_dir(&mut out, src.crash_reports, "Logs", Severity::Warning, "Crash Reports", " crash/diagnostic reports", "crash_reports");
    assert(views(out@) =~= mac_logs_part(*src));
    out
}

// ------------------------------------------------------------ applications

/// The application findings.
pub open spec fn applications_part(src: MacDetailSources) -> Seq<FindingView> {
    (match src.applications {
        Some(n) => seq![
            plain(
                "Applications"@,
                Severity::Info,
                "System Applications"@,
                decimal(count_where(strs(n@), has_ext_fn(".app"@))) + " .app bundles in /Applications"@,
                "system_apps"@,
            ),
        ],
        None => Seq::empty(),
    }) + (match src.user_applications {
        Some(n) => {
            let c = count_where(strs(n@), has_ext_fn(".app"@));
            only_if(
                c > 0,
                plain(
                    "Applications"@,
                    Severity::Info,
                    "User Applications"@,
                    decimal(c) + " .app bundles in ~/Applications"@,
                    "user_apps"@,
                ),
            )
        },
        None => Seq::empty(),
    }) + only_if(
        at_home(src, "/Library/Preferences/com.apple.dock.plist"@),
        plain("Applications"@, Severity::Info, "Dock Configuration"@, "Applications in Dock"@, "dock"@),
    )
}

fn collect_applications(src: &MacDetailSources) -> (r: Vec<Finding>)
    ensures
        views(r@) == applications_part(*src),
{
    let mut out: Vec<Finding> = Vec::new();
    match &src.applications {
        Some(n) => {
            let c = count_ext(n, ".app");
            push_finding(&mut out, finding("Applications", Severity::Info, "System Applications".to_owned(), number_then(c, " .app bundles in /Applications"), "system_apps", Extra::Plain));
        },
        None => {},
    }
    match &src.user_applications {
        Some(n) => {
            let c = count_ext(n, ".app");
            push_if(&mut out, c > 0, finding("Applications", Severity::Info, "User Applications".to_owned(), number_then(c, " .app bundles in ~/Applications"), "user_apps", Extra::Plain));
        },
        None => {},
    }
    let d = exists_at(&src.existing, src.home.as_str(), "/Library/Preferences/com.apple.dock.plist");
    push_if(&mut out, d, finding("Applications", Severity::Info, "Dock Configuration".to_owned(), "Applications in Dock".to_owned(), "dock", Extra::Plain));
    assert(views(out@) =~= applications_part(*src));
    out
}

// ------------------------------------------------------------------ report

/// All detailed macOS findings, in the order the collector makes them.
pub open spec fn macos_detailed_findings(src: MacDetailSources) -> Seq<FindingView> {
    mac_persistence_part(src) + user_artifacts_part(src) + security_part(src) + mac_network_part(src)
        + mac_logs_part(src) + applications_part(src)
}

/// Gathers the detailed macOS findings from what was read off the machine.
pub struct MacOSDetailedForensicCollector;

impl MacOSDetailedForensicCollector {
    /// The detailed report: persistence, user artifacts, security, network,
    /// logs and applications, in that order.
    pub fn collect_detailed(&self, src: &MacDetailSources) -> (r: ForensicReport)
        ensures
            r@.platform == "macos"@,
            r@.variant == Some("detailed"@),
            r@.note is None,
            r@.findings == macos_detailed_findings(*src),
    {
        let mut out = collect_persistence(src);
        push_all(&mut out, collect_user_artifacts(src));
        push_all(&mut out, collect_security(src));
        push_all(&mut out, collect_network(src));
        push_all(&mut out, collect_logs(src));
        push_all(&mut out, collect_applications(src));
        ForensicReport {
            platform: "macos".to_owned(),
            variant: Some("detailed".to_owned()),
            note: None,
            findings: out,
        }
    }

    /// The collector's report: the detailed one.
    pub fn collect(&self, src: &MacDetailSources) -> (r: ForensicReport)
        ensures
            r@.platform == "macos"@,
            r@.variant == Some("detailed"@),
            r@.note is None,
            r@.findings == macos_detailed_findings(*src),
    {
        self.collect_detailed(src)
    }

    /// The platform this collector is for: "macos_detailed".
    pub fn platform(&self) -> (r: &'static str)
        ensures
            r@ == "macos_detailed"@,
    {
        "macos_detailed"
    }
}

} // verus!
