//! The detailed Linux collector: accounts and keys, file system, persistence,
//! network, logs, processes and systemd, decided from what was read.
use vstd::prelude::*;
use crate::forensic::{
    collect_some, concat_map, count_where, first_n, drop_n, finding, keep_first, listed,
    only_if, plain, push_all, push_finding, push_if, strs, views,
    with_extra, number_then, Extra, ExtraView, FdCount, Finding, FindingView,
    ForensicReport, ProcessStatus, ProcessStatusView, Severity,
};
use crate::forensic_linux::{cleaned_cmd, slice_strings};
use crate::text::{
    concat, concat3, contains_str, contains_text, debug_list, debug_strings, decimal, join_with,
    joined, lines, lines_of, next_char, pieces, split_at_char, starts_with, trim, trimmed,
    u64_to_text,
};

verus! {

/// An `authorized_keys` file found under a home directory.
#[derive(Clone, Debug)]
pub struct KeyFile {
    /// The home directory's name, as `{:?}` writes it.
    pub owner: String,
    /// The file's path.
    pub path: String,
    /// What the file holds.
    pub content: String,
}

/// A shell history file that exists.
#[derive(Clone, Debug)]
pub struct HistoryFile {
    /// The home directory's name, as `{:?}` writes it.
    pub owner: String,
    /// The history file's name.
    pub file: String,
}

/// The permission bits of a binary whose metadata could be read.
#[derive(Clone, Debug)]
pub struct ModeOf {
    pub path: String,
    pub mode: u32,
}

/// What a numbered `/proc` entry held.
#[derive(Clone, Debug)]
pub struct ProcDetail {
    pub pid: i32,
    pub cmdline: Option<String>,
    pub status: Option<String>,
}

/// What the detailed Linux collector reads off the machine.
#[derive(Clone, Debug)]
pub struct LinuxDetailSources {
    /// Which of [`detail_probe_paths`] exist.
    pub existing: Vec<String>,
    /// `/etc/passwd`.
    pub passwd: Option<String>,
    /// The readable `authorized_keys` files under `/home`.
    pub home_keys: Vec<KeyFile>,
    /// `/root/.ssh/authorized_keys`.
    pub root_keys: Option<String>,
    /// What `grep -r NOPASSWD /etc/sudoers.d/` printed.
    pub nopasswd: Option<String>,
    /// The shell history files under `/home` and `/root`.
    pub histories: Vec<HistoryFile>,
    /// The setuid candidates whose metadata could be read.
    pub modes: Vec<ModeOf>,
    /// The names of the files in each home directory.
    pub home_files: Vec<String>,
    /// What `env | grep LD_PRELOAD` printed.
    pub ld_preload: Option<String>,
    /// `/proc/modules`.
    pub modules: Option<String>,
    /// `/proc/net/tcp`.
    pub tcp: Option<String>,
    /// `/proc/net/arp`.
    pub arp: Option<String>,
    /// How many entries `/sys/class/net` has.
    pub interfaces: Option<u64>,
    /// What `iptables -L` printed.
    pub iptables: Option<String>,
    /// `/etc/hosts`.
    pub hosts: Option<String>,
    /// The numbered entries of `/proc`.
    pub processes: Option<Vec<ProcDetail>>,
    /// `/proc/1/environ`.
    pub init_environ: Option<String>,
    /// The open descriptor counts of the numbered `/proc` entries.
    pub fd_counts: Option<Vec<FdCount>>,
    /// What `systemctl list-units ... --no-legend` printed.
    pub services: Option<String>,
    /// What `systemctl list-timers --all` printed.
    pub timers: Option<String>,
}

// ---------------------------------------------------------------- accounts

/// The user name of a line of `/etc/passwd`: the text before its first
/// colon, for lines that are no comment and where it is not empty.
pub open spec fn passwd_user(l: Seq<char>) -> Option<Seq<char>> {
    if starts_with(l, "#"@) {
        None
    } else {
        let u = l.take(next_char(l, ':', 0));
        if u.len() > 0 {
            Some(u)
        } else {
            None
        }
    }
}

pub open spec fn passwd_user_fn() -> spec_fn(Seq<char>) -> Option<Seq<char>> {
    |l: Seq<char>| passwd_user(l)
}

/// A line of an `authorized_keys` file that holds a key.
pub open spec fn is_key_line(l: Seq<char>) -> bool {
    l.len() > 0 && !starts_with(l, "#"@)
}

pub open spec fn is_key_line_fn() -> spec_fn(Seq<char>) -> bool {
    |l: Seq<char>| is_key_line(l)
}

/// How many keys an `authorized_keys` file holds.
pub open spec fn key_count(content: Seq<char>) -> nat {
    count_where(lines(content), is_key_line_fn())
}

pub open spec fn home_key_finding(k: KeyFile) -> Seq<FindingView> {
    let n = key_count(k.content@);
    only_if(
        n > 0,
        with_extra(
            "Users & Authentication"@,
            Severity::Warning,
            "SSH authorized_keys for "@ + k.owner@,
            decimal(n) + " SSH keys configured"@,
            "ssh_keys"@,
            ExtraView::Path(k.path@),
        ),
    )
}

pub open spec fn history_finding(h: HistoryFile) -> Seq<FindingView> {
    seq![
        plain(
            "Users & Authentication"@,
            Severity::Info,
            "Shell history: "@ + h.owner@ + "/"@ + h.file@,
            "Command history file exists"@,
            "shell_history"@,
        ),
    ]
}

/// The account findings, in the order the collector makes them.
pub open spec fn auth_part(src: LinuxDetailSources) -> Seq<FindingView> {
    let existing = strs(src.existing@);
    (match src.passwd {
        Some(p) => {
            let users = collect_some(lines(p@), passwd_user_fn());
            seq![
                with_extra(
                    "Users & Authentication"@,
                    Severity::Info,
                    "/etc/passwd entries"@,
                    "Found "@ + decimal(users.len()) + " user accounts"@,
                    "passwd"@,
                    ExtraView::Users(users),
                ),
            ]
        },
        None => Seq::empty(),
    }) + concat_map(src.home_keys@, |k: KeyFile| home_key_finding(k)) + (match src.root_keys {
        Some(k) => only_if(
            key_count(k@) > 0,
            plain(
                "Users & Authentication"@,
                Severity::Critical,
                "Root SSH authorized_keys"@,
                decimal(key_count(k@)) + " SSH keys for root - potential security risk"@,
                "ssh_keys_root"@,
            ),
        ),
        None => Seq::empty(),
    }) + only_if(
        existing.contains("/etc/sudoers"@),
        plain(
            "Users & Authentication"@,
            Severity::Warning,
            "/etc/sudoers"@,
            "Sudo configuration file exists"@,
            "sudoers"@,
        ),
    ) + (match src.nopasswd {
        Some(o) => only_if(
            o@.len() > 0,
            with_extra(
                "Users & Authentication"@,
                Severity::Critical,
                "Passwordless sudo detected"@,
                "NOPASSWD entries found in sudoers"@,
                "nopasswd_sudo"@,
                ExtraView::Matches(lines(o@)),
            ),
        ),
        None => Seq::empty(),
    }) + concat_map(src.histories@, |h: HistoryFile| history_finding(h))
}

fn count_keys(content: &str) -> (n: u64)
    ensures
        n == key_count(content@),
{
    let ls = lines_of(content);
    let ghost ll = strs(ls@);
    let mut n: u64 = 0;
    let mut i: usize = 0;
    while i < ls.len()
        invariant
            ll == strs(ls@),
            ll == lines(content@),
            i <= ls@.len(),
            n == count_where(ll.take(i as int), is_key_line_fn()),
            n <= i,
        decreases ls@.len() - i,
    {
        proof {
            assert(ll.take(i + 1).drop_last() =~= ll.take(i as int));
            assert(ll[i as int] == ls@[i as int]@);
        }
        let l = ls[i].as_str();
        if !l.is_empty() && !crate::text::chars_start_with(&crate::text::chars_of(l), "#") {
            n = n + 1;
        }
        i = i + 1;
    }
    proof {
        assert(ll.take(ll.len() as int) =~= ll);
    }
    n
}

fn passwd_findings(p: &str) -> (r: Vec<Finding>)
    ensures
        views(r@) == seq![
            with_extra(
                "Users & Authentication"@,
                Severity::Info,
                "/etc/passwd entries"@,
                "Found "@ + decimal(collect_some(lines(p@), passwd_user_fn()).len()) + " user accounts"@,
                "passwd"@,
                ExtraView::Users(collect_some(lines(p@), passwd_user_fn())),
            ),
        ],
{
    let ls = lines_of(p);
    let ghost ll = strs(ls@);
    let mut users: Vec<String> = Vec::new();
    let mut i: usize = 0;
    while i < ls.len()
        invariant
            ll == strs(ls@),
            ll == lines(p@),
            i <= ls@.len(),
            strs(users@) == collect_some(ll.take(i as int), passwd_user_fn()),
        decreases ls@.len() - i,
    {
        let ghost before = strs(users@);
        let line = ls[i].as_str();
        let v = crate::text::chars_of(line);
        if !crate::text::chars_start_with(&v, "#") {
            let u = crate::text::before_char(line, ':');
            if !u.as_str().is_empty() {
                users.push(u);
            }
        }
        proof {
            assert(ll.take(i + 1).drop_last() =~= ll.take(i as int));
            assert(strs(users@) =~= collect_some(ll.take(i + 1), passwd_user_fn()));
        }
        i = i + 1;
    }
    proof {
        assert(ll.take(ll.len() as int) =~= ll);
    }
    let n = users.len();
    let desc = concat3("Found ", u64_to_text(n as u64).as_str(), " user accounts");
    let mut out: Vec<Finding> = Vec::new();
    push_finding(&mut out, finding("Users & Authentication", Severity::Info, "/etc/passwd entries".to_owned(), desc, "passwd", Extra::Users(users)));
    out
}

fn collect_auth_artifacts(src: &LinuxDetailSources) -> (r: Vec<Finding>)
    ensures
        views(r@) == auth_part(*src),
{
    let mut out: Vec<Finding> = Vec::new();
    match &src.passwd {
        Some(p) => push_all(&mut out, passwd_findings(p.as_str())),
        None => {},
    }
    let ghost base = views(out@);
    let mut i: usize = 0;
    while i < src.home_keys.len()
        invariant
            i <= src.home_keys@.len(),
            views(out@) == base + concat_map(src.home_keys@.take(i as int), |k: KeyFile| home_key_finding(k)),
        decreases src.home_keys@.len() - i,
    {
        let k = &src.home_keys[i];
        let n = count_keys(k.content.as_str());
        push_if(
            &mut out,
            n > 0,
            finding(
                "Users & Authentication",
                Severity::Warning,
                concat("SSH authorized_keys for ", k.owner.as_str()),
                number_then(n, " SSH keys configured"),
                "ssh_keys",
                Extra::Path(k.path.clone()),
            ),
        );
        proof {
            assert(src.home_keys@.take(i + 1).drop_last() =~= src.home_keys@.take(i as int));
        }
        i = i + 1;
    }
    proof {
        assert(src.home_keys@.take(src.home_keys@.len() as int) =~= src.home_keys@);
    }
    match &src.root_keys {
        Some(k) => {
            let n = count_keys(k.as_str());
            let mut one: Vec<Finding> = Vec::new();
            push_if(
                &mut one,
                n > 0,
                finding(
                    "Users & Authentication",
                    Severity::Critical,
                    "Root SSH authorized_keys".to_owned(),
                    number_then(n, " SSH keys for root - potential security risk"),
                    "ssh_keys_root",
                    Extra::Plain,
                ),
            );
            push_all(&mut out, one);
        },
        None => {},
    }
    let s = listed(&src.existing, "/etc/sudoers");
    push_if(
        &mut out,
        s,
        finding(
            "Users & Authentication",
            Severity::Warning,
            "/etc/sudoers".to_owned(),
            "Sudo configuration file exists".to_owned(),
            "sudoers",
            Extra::Plain,
        ),
    );
    match &src.nopasswd {
        Some(o) => {
            let m = lines_of(o.as_str());
            let mut one: Vec<Finding> = Vec::new();
            push_if(
                &mut one,
                !o.as_str().is_empty(),
                finding(
                    "Users & Authentication",
                    Severity::Critical,
                    "Passwordless sudo detected".to_owned(),
                    "NOPASSWD entries found in sudoers".to_owned(),
                    "nopasswd_sudo",
                    Extra::Matches(m),
                ),
            );
            push_all(&mut out, one);
        },
        None => {},
    }
    let ghost base2 = views(out@);
    let mut j: usize = 0;
    while j < src.histories.len()
        invariant
            j <= src.histories@.len(),
            views(out@) == base2 + concat_map(src.histories@.take(j as int), |h: HistoryFile| history_finding(h)),
        decreases src.histories@.len() - j,
    {
        let h = &src.histories[j];
        let title = crate::text::concat4("Shell history: ", h.owner.as_str(), "/", h.file.as_str());
        push_finding(
            &mut out,
            finding(
                "Users & Authentication",
                Severity::Info,
                title,
                "Command history file exists".to_owned(),
                "shell_history",
                Extra::Plain,
            ),
        );
        proof {
            assert(src.histories@.take(j + 1).drop_last() =~= src.histories@.take(j as int));
        }
        j = j + 1;
    }
    proof {
        assert(src.histories@.take(src.histories@.len() as int) =~= src.histories@);
    }
    assert(views(out@) =~= auth_part(*src));
    out
}


// ------------------------------------------------------------- file system

/// The setuid candidates whose permission bits are looked at.
pub open spec fn mode_candidates() -> Seq<Seq<char>> {
    seq!["/usr/bin/sudo"@, "/bin/su"@, "/usr/bin/pkexec"@, "/usr/bin/passwd"@, "/bin/mount"@, "/bin/umount"@]
}

/// The setuid candidates whose permission bits the collector looks at; the
/// caller passes back the bits of those whose metadata it could read.
pub fn mode_candidate_paths() -> (r: Vec<String>)
    ensures
        strs(r@) == mode_candidates(),
{
    let mut v: Vec<String> = Vec::new();
    v.push("/usr/bin/sudo".to_owned());
    v.push("/bin/su".to_owned());
    v.push("/usr/bin/pkexec".to_owned());
    v.push("/usr/bin/passwd".to_owned());
    v.push("/bin/mount".to_owned());
    v.push("/bin/umount".to_owned());
    assert(strs(v@) =~= mode_candidates());
    v
}

/// The findings for one binary's permission bits: setuid, then setgid.
pub open spec fn mode_findings(m: ModeOf) -> Seq<FindingView> {
    only_if(
        m.mode & 0o4000u32 != 0,
        plain(
            "File System"@,
            Severity::Warning,
            "SUID binary: "@ + m.path@,
            "SetUID bit set - potential privilege escalation vector"@,
            "suid_binary"@,
        ),
    ) + only_if(
        m.mode & 0o2000u32 != 0,
        plain("File System"@, Severity::Warning, "SGID binary: "@ + m.path@, "SetGID bit set"@, "sgid_binary"@),
    )
}

pub open spec fn is_hidden_fn() -> spec_fn(Seq<char>) -> bool {
    |n: Seq<char>| starts_with(n, "."@)
}

pub open spec fn temp_finding(existing: Seq<Seq<char>>, d: Seq<char>) -> Seq<FindingView> {
    only_if(
        existing.contains(d),
        plain("File System"@, Severity::Info, "Temporary directory: "@ + d, "Check for suspicious files"@, "temp_directory"@),
    )
}

/// The file system findings.
pub open spec fn filesystem_part(src: LinuxDetailSources) -> Seq<FindingView> {
    let hidden = count_where(strs(src.home_files@), is_hidden_fn());
    concat_map(src.modes@, |m: ModeOf| mode_findings(m)) + only_if(
        hidden > 0,
        plain(
            "File System"@,
            Severity::Info,
            "Hidden files in home directories"@,
            "Found "@ + decimal(hidden) + " hidden files/directories"@,
            "hidden_files"@,
        ),
    ) + temp_finding(strs(src.existing@), "/tmp"@) + temp_finding(strs(src.existing@), "/var/tmp"@)
}

fn collect_filesystem_artifacts(src: &LinuxDetailSources) -> (r: Vec<Finding>)
    ensures
        views(r@) == filesystem_part(*src),
{
    let mut out: Vec<Finding> = Vec::new();
    let mut i: usize = 0;
    while i < src.modes.len()
        invariant
            i <= src.modes@.len(),
            views(out@) == concat_map(src.modes@.take(i as int), |m: ModeOf| mode_findings(m)),
        decreases src.modes@.len() - i,
    {
        let m = &src.modes[i];
        push_if(&mut out, m.mode & 0o4000u32 != 0, finding("File System", Severity::Warning, concat("SUID binary: ", m.path.as_str()), "SetUID bit set - potential privilege escalation vector".to_owned(), "suid_binary", Extra::Plain));
        push_if(&mut out, m.mode & 0o2000u32 != 0, finding("File System", Severity::Warning, concat("SGID binary: ", m.path.as_str()), "SetGID bit set".to_owned(), "sgid_binary", Extra::Plain));
        proof {
            assert(src.modes@.take(i + 1).drop_last() =~= src.modes@.take(i as int));
        }
        i = i + 1;
    }
    proof {
        assert(src.modes@.take(src.modes@.len() as int) =~= src.modes@);
    }
    let ghost names = strs(src.home_files@);
    let mut hidden: u64 = 0;
    let mut j: usize = 0;
    while j < src.home_files.len()
        invariant
            names == strs(src.home_files@),
            j <= src.home_files@.len(),
            hidden == count_where(names.take(j as int), is_hidden_fn()),
            hidden <= j,
        decreases src.home_files@.len() - j,
    {
        proof {
            assert(names.take(j + 1).drop_last() =~= names.take(j as int));
        }
        if crate::text::text_starts_with(src.home_files[j].as_str(), ".") {
            hidden = hidden + 1;
        }
        j = j + 1;
    }
    proof {
        assert(names.take(names.len() as int) =~= names);
    }
    push_if(&mut out, hidden > 0, finding("File System", Severity::Info, "Hidden files in home directories".to_owned(), crate::text::concat3("Found ", u64_to_text(hidden).as_str(), " hidden files/directories"), "hidden_files", Extra::Plain));
    let a = listed(&src.existing, "/tmp");
    push_if(&mut out, a, finding("File System", Severity::Info, concat("Temporary directory: ", "/tmp"), "Check for suspicious files".to_owned(), "temp_directory", Extra::Plain));
    let b = listed(&src.existing, "/var/tmp");
    push_if(&mut out, b, finding("File System", Severity::Info, concat("Temporary directory: ", "/var/tmp"), "Check for suspicious files".to_owned(), "temp_directory", Extra::Plain));
    assert(views(out@) =~= filesystem_part(*src));
    out
}

// ------------------------------------------------------------- persistence

/// The cron locations of the detailed collector.
pub open spec fn detail_cron_paths() -> Seq<Seq<char>> {
    seq!["/etc/crontab"@, "/etc/cron.d"@, "/etc/cron.daily"@, "/etc/cron.weekly"@, "/etc/cron.monthly"@, "/var/spool/cron/crontabs"@]
}

/// The system-wide shell profiles.
pub open spec fn profile_paths() -> Seq<Seq<char>> {
    seq!["/etc/profile"@, "/etc/bash.bashrc"@, "/etc/zsh/zshrc"@]
}

pub open spec fn cron_path_finding(existing: Seq<Seq<char>>, p: Seq<char>) -> Seq<FindingView> {
    only_if(
        existing.contains(p),
        plain("Persistence"@, Severity::Warning, "Cron location: "@ + p, "Potential persistence mechanism"@, "cron"@),
    )
}

pub open spec fn profile_finding(existing: Seq<Seq<char>>, p: Seq<char>) -> Seq<FindingView> {
    only_if(
        existing.contains(p),
        plain(
            "Persistence"@,
            Severity::Warning,
            "System shell profile: "@ + p,
            "Global shell initialization - potential persistence"@,
            "shell_profile"@,
        ),
    )
}

/// The persistence findings.
pub open spec fn persistence_part(src: LinuxDetailSources) -> Seq<FindingView> {
    let e = strs(src.existing@);
    let c = detail_cron_paths();
    let p = profile_paths();
    cron_path_finding(e, c[0]) + cron_path_finding(e, c[1]) + cron_path_finding(e, c[2])
        + cron_path_finding(e, c[3]) + cron_path_finding(e, c[4]) + cron_path_finding(e, c[5])
        + profile_finding(e, p[0]) + profile_finding(e, p[1]) + profile_finding(e, p[2]) + (
    match src.ld_preload {
        Some(o) => only_if(
            o@.len() > 0,
            plain(
                "Persistence"@,
                Severity::Critical,
                "LD_PRELOAD detected"@,
                "Library injection: "@ + trim(o@),
                "ld_preload"@,
            ),
        ),
        None => Seq::empty(),
    }) + (match src.modules {
        Some(m) => seq![
            plain(
                "Persistence"@,
                Severity::Info,
                "Loaded kernel modules"@,
                decimal(lines(m@).len()) + " kernel modules loaded"@,
                "kernel_modules"@,
            ),
        ],
        None => Seq::empty(),
    })
}

fn cron_path(out: &mut Vec<Finding>, existing: &Vec<String>, p: &str)
    ensures
        views(final(out)@) == views(old(out)@) + cron_path_finding(strs(existing@), p@),
{
    let b = listed(existing, p);
    push_if(out, b, finding("Persistence", Severity::Warning, concat("Cron location: ", p), "Potential persistence mechanism".to_owned(), "cron", Extra::Plain));
}

fn profile_path(out: &mut Vec<Finding>, existing: &Vec<String>, p: &str)
    ensures
        views(final(out)@) == views(old(out)@) + profile_finding(strs(existing@), p@),
{
    let b = listed(existing, p);
    push_if(out, b, finding("Persistence", Severity::Warning, concat("System shell profile: ", p), "Global shell initialization - potential persistence".to_owned(), "shell_profile", Extra::Plain));
}

fn collect_persistence(src: &LinuxDetailSources) -> (r: Vec<Finding>)
    ensures
        views(r@) == persistence_part(*src),
{
    let mut out: Vec<Finding> = Vec::new();
    cron_path(&mut out, &src.existing, "/etc/crontab");
    cron_path(&mut out, &src.existing, "/etc/cron.d");
    cron_path(&mut out, &src.existing, "/etc/cron.daily");
    cron_path(&mut out, &src.existing, "/etc/cron.weekly");
    cron_path(&mut out, &src.existing, "/etc/cron.monthly");
    cron_path(&mut out, &src.existing, "/var/spool/cron/crontabs");
    profile_path(&mut out, &src.existing, "/etc/profile");
    profile_path(&mut out, &src.existing, "/etc/bash.bashrc");
    profile_path(&mut out, &src.existing, "/etc/zsh/zshrc");
    let ghost mid = views(out@);
    match &src.ld_preload {
        Some(o) => {
            let t = trimmed(o.as_str());
            push_if(&mut out, !o.as_str().is_empty(), finding("Persistence", Severity::Critical, "LD_PRELOAD detected".to_owned(), concat("Library injection: ", t.as_str()), "ld_preload", Extra::Plain));
        },
        None => {},
    }
    match &src.modules {
        Some(m) => {
            let ls = lines_of(m.as_str());
            let n = ls.len();
            push_finding(&mut out, finding("Persistence", Severity::Info, "Loaded kernel modules".to_owned(), number_then(n as u64, " kernel modules loaded"), "kernel_modules", Extra::Plain));
        },
        None => {},
    }
    assert(views(out@) =~= persistence_part(*src));
    out
}

// ----------------------------------------------------------------- network

pub open spec fn is_listen_fn() -> spec_fn(Seq<char>) -> bool {
    |l: Seq<char>| contains_text(l, ":0000 0A "@)
}

pub open spec fn is_established_fn() -> spec_fn(Seq<char>) -> bool {
    |l: Seq<char>| !contains_text(l, ":0000 0A "@) && contains_text(l, ":0000 01 "@)
}

pub open spec fn is_rule_fn() -> spec_fn(Seq<char>) -> bool {
    |l: Seq<char>| starts_with(l, "ACCEPT"@) || starts_with(l, "DROP"@)
}

pub open spec fn is_host_entry_fn() -> spec_fn(Seq<char>) -> bool {
    |l: Seq<char>| !starts_with(l, "#"@) && trim(l).len() > 0
}

pub open spec fn tcp_detail_part(tcp: Option<String>) -> Seq<FindingView> {
    match tcp {
        Some(t) => {
            let rest = drop_n(lines(t@), 1);
            let listening = count_where(rest, is_listen_fn());
            only_if(
                listening > 0,
                with_extra(
                    "Network"@,
                    Severity::Warning,
                    "Listening TCP ports"@,
                    decimal(listening) + " listening ports found"@,
                    "listening_ports"@,
                    ExtraView::Established(count_where(rest, is_established_fn()) as u64),
                ),
            )
        },
        None => Seq::empty(),
    }
}

pub open spec fn arp_part(arp: Option<String>) -> Seq<FindingView> {
    match arp {
        Some(a) => seq![
            plain(
                "Network"@,
                Severity::Info,
                "ARP cache"@,
                decimal(drop_n(lines(a@), 1).len()) + " ARP entries"@,
                "arp_cache"@,
            ),
        ],
        None => Seq::empty(),
    }
}

pub open spec fn interfaces_part(interfaces: Option<u64>) -> Seq<FindingView> {
    match interfaces {
        Some(n) => seq![
            plain(
                "Network"@,
                Severity::Info,
                "Network interfaces"@,
                decimal(n as nat) + " network interfaces detected"@,
                "interfaces"@,
            ),
        ],
        None => Seq::empty(),
    }
}

pub open spec fn iptables_part(existing: Seq<Seq<char>>, iptables: Option<String>) -> Seq<FindingView> {
    match iptables {
        Some(o) => only_if(
            existing.contains("/sbin/iptables"@),
            plain(
                "Network"@,
                Severity::Info,
                "iptables rules"@,
                decimal(count_where(lines(o@), is_rule_fn())) + " firewall rules configured"@,
                "firewall"@,
            ),
        ),
        None => Seq::empty(),
    }
}

pub open spec fn hosts_part(hosts: Option<String>) -> Seq<FindingView> {
    match hosts {
        Some(h) => {
            let n = count_where(lines(h@), is_host_entry_fn());
            only_if(
                n > 2,
                plain(
                    "Network"@,
                    Severity::Warning,
                    "/etc/hosts entries"@,
                    decimal((n - 2) as nat) + " custom host entries"@,
                    "hosts_file"@,
                ),
            )
        },
        None => Seq::empty(),
    }
}

/// The network findings.
pub open spec fn network_part(src: LinuxDetailSources) -> Seq<FindingView> {
    tcp_detail_part(src.tcp) + arp_part(src.arp) + interfaces_part(src.interfaces) + iptables_part(
        strs(src.existing@),
        src.iptables,
    ) + hosts_part(src.hosts)
}

/// How many of the lines of `s`, after the first `skip`, meet the test
/// named by `which`: 0 listening, 1 established, 2 firewall rule, 3 host
/// entry.
fn count_lines(ls: &Vec<String>, skip: usize, which: u8) -> (n: u64)
    requires
        which < 4,
    ensures
        n == count_where(
            drop_n(strs(ls@), skip as int),
            if which == 0 {
                is_listen_fn()
            } else if which == 1 {
                is_established_fn()
            } else if which == 2 {
                is_rule_fn()
            } else {
                is_host_entry_fn()
            },
        ),
{
    let rest = slice_strings(ls, skip, ls.len());
    let ghost rl = strs(rest@);
    let ghost p = if which == 0 {
        is_listen_fn()
    } else if which == 1 {
        is_established_fn()
    } else if which == 2 {
        is_rule_fn()
    } else {
        is_host_entry_fn()
    };
    assert(rl =~= drop_n(strs(ls@), skip as int));
    let mut n: u64 = 0;
    let mut i: usize = 0;
    while i < rest.len()
        invariant
            rl == strs(rest@),
            i <= rest@.len(),
            which < 4,
            p == (if which == 0 {
                is_listen_fn()
            } else if which == 1 {
                is_established_fn()
            } else if which == 2 {
                is_rule_fn()
            } else {
                is_host_entry_fn()
            }),
            n == count_where(rl.take(i as int), p),
            n <= i,
        decreases rest@.len() - i,
    {
        proof {
            assert(rl.take(i + 1).drop_last() =~= rl.take(i as int));
            assert(rl[i as int] == rest@[i as int]@);
        }
        let l = rest[i].as_str();
        let hit = if which == 0 {
            contains_str(l, ":0000 0A ")
        } else if which == 1 {
            !contains_str(l, ":0000 0A ") && contains_str(l, ":0000 01 ")
        } else if which == 2 {
            crate::text::text_starts_with(l, "ACCEPT") || crate::text::text_starts_with(l, "DROP")
        } else {
            !crate::text::text_starts_with(l, "#") && !trimmed(l).as_str().is_empty()
        };
        if hit {
            n = n + 1;
        }
        i = i + 1;
    }
    proof {
        assert(rl.take(rl.len() as int) =~= rl);
    }
    n
}

fn tcp_detail_findings(tcp: &Option<String>) -> (r: Vec<Finding>)
    ensures
        views(r@) == tcp_detail_part(*tcp),
{
    let mut out: Vec<Finding> = Vec::new();
    match tcp {
        Some(t) => {
            let ls = lines_of(t.as_str());
            let listening = count_lines(&ls, 1, 0);
            let established = count_lines(&ls, 1, 1);
            push_if(&mut out, listening > 0, finding("Network", Severity::Warning, "Listening TCP ports".to_owned(), number_then(listening, " listening ports found"), "listening_ports", Extra::Established(established)));
        },
        None => {},
    }
    assert(views(out@) =~= tcp_detail_part(*tcp));
    out
}

fn arp_findings(arp: &Option<String>) -> (r: Vec<Finding>)
    ensures
        views(r@) == arp_part(*arp),
{
    let mut out: Vec<Finding> = Vec::new();
    match arp {
        Some(a) => {
            let ls = lines_of(a.as_str());
            let n: usize = if ls.len() <= 1 { 0 } else { ls.len() - 1 };
            assert(n == drop_n(lines(a@), 1).len());
            push_finding(&mut out, finding("Network", Severity::Info, "ARP cache".to_owned(), number_then(n as u64, " ARP entries"), "arp_cache", Extra::Plain));
        },
        None => {},
    }
    assert(views(out@) =~= arp_part(*arp));
    out
}

fn interfaces_findings(interfaces: Option<u64>) -> (r: Vec<Finding>)
    ensures
        views(r@) == interfaces_part(interfaces),
{
    let mut out: Vec<Finding> = Vec::new();
    match interfaces {
        Some(n) => {
            push_finding(&mut out, finding("Network", Severity::Info, "Network interfaces".to_owned(), number_then(n, " network interfaces detected"), "interfaces", Extra::Plain));
        },
        None => {},
    }
    assert(views(out@) =~= interfaces_part(interfaces));
    out
}

fn iptables_findings(existing: &Vec<String>, iptables: &Option<String>) -> (r: Vec<Finding>)
    ensures
        views(r@) == iptables_part(strs(existing@), *iptables),
{
    let mut out: Vec<Finding> = Vec::new();
    match iptables {
        Some(o) => {
            let present = listed(existing, "/sbin/iptables");
            let ls = lines_of(o.as_str());
            let rules = count_lines(&ls, 0, 2);
            assert(drop_n(strs(ls@), 0) =~= strs(ls@));
            push_if(&mut out, present, finding("Network", Severity::Info, "iptables rules".to_owned(), number_then(rules, " firewall rules configured"), "firewall", Extra::Plain));
        },
        None => {},
    }
    assert(views(out@) =~= iptables_part(strs(existing@), *iptables));
    out
}

fn hosts_findings(hosts: &Option<String>) -> (r: Vec<Finding>)
    ensures
        views(r@) == hosts_part(*hosts),
{
    let mut out: Vec<Finding> = Vec::new();
    match hosts {
        Some(h) => {
            let ls = lines_of(h.as_str());
            let n = count_lines(&ls, 0, 3);
            assert(drop_n(strs(ls@), 0) =~= strs(ls@));
            if n > 2 {
                push_finding(&mut out, finding("Network", Severity::Warning, "/etc/hosts entries".to_owned(), number_then(n - 2, " custom host entries"), "hosts_file", Extra::Plain));
            }
        },
        None => {},
    }
    assert(views(out@) =~= hosts_part(*hosts));
    out
}

fn collect_network(src: &LinuxDetailSources) -> (r: Vec<Finding>)
    ensures
        views(r@) == network_part(*src),
{
    let mut out = tcp_detail_findings(&src.tcp);
    push_all(&mut out, arp_findings(&src.arp));
    push_all(&mut out, interfaces_findings(src.interfaces));
    push_all(&mut out, iptables_findings(&src.existing, &src.iptables));
    push_all(&mut out, hosts_findings(&src.hosts));
    out
}

// -------------------------------------------------------------------- logs

pub open spec fn log_finding(existing: Seq<Seq<char>>, path: Seq<char>, what: Seq<char>) -> Seq<FindingView> {
    only_if(existing.contains(path), plain("Logs"@, Severity::Info, what, "Log file: "@ + path, "log_file"@))
}

/// The log findings.
pub open spec fn logs_part(existing: Seq<Seq<char>>) -> Seq<FindingView> {
    log_finding(existing, "/var/log/syslog"@, "System log"@) + log_finding(
        existing,
        "/var/log/messages"@,
        "Messages log"@,
    ) + log_finding(existing, "/var/log/auth.log"@, "Authentication log"@) + log_finding(
        existing,
        "/var/log/secure"@,
        "Security log (RHEL)"@,
    ) + log_finding(existing, "/var/log/kern.log"@, "Kernel log"@) + log_finding(
        existing,
        "/var/log/dmesg"@,
        "Boot messages"@,
    ) + only_if(
        existing.contains("/var/log/audit/audit.log"@),
        plain("Logs"@, Severity::Info, "Linux Audit Framework"@, "auditd logging active"@, "auditd"@),
    ) + only_if(
        existing.contains("/var/log/wtmp"@),
        plain("Logs"@, Severity::Info, "Login history (wtmp)"@, "Binary login records"@, "wtmp"@),
    )
}

fn log_file(out: &mut Vec<Finding>, existing: &Vec<String>, path: &str, what: &str)
    ensures
        views(final(out)@) == views(old(out)@) + log_finding(strs(existing@), path@, what@),
{
    let b = listed(existing, path);
    push_if(out, b, finding("Logs", Severity::Info, what.to_owned(), concat("Log file: ", path), "log_file", Extra::Plain));
}

fn collect_logs(existing: &Vec<String>) -> (r: Vec<Finding>)
    ensures
        views(r@) == logs_part(strs(existing@)),
{
    let mut out: Vec<Finding> = Vec::new();
    log_file(&mut out, existing, "/var/log/syslog", "System log");
    log_file(&mut out, existing, "/var/log/messages", "Messages log");
    log_file(&mut out, existing, "/var/log/auth.log", "Authentication log");
    log_file(&mut out, existing, "/var/log/secure", "Security log (RHEL)");
    log_file(&mut out, existing, "/var/log/kern.log", "Kernel log");
    log_file(&mut out, existing, "/var/log/dmesg", "Boot messages");
    let a = listed(existing, "/var/log/audit/audit.log");
    push_if(&mut out, a, finding("Logs", Severity::Info, "Linux Audit Framework".to_owned(), "auditd logging active".to_owned(), "auditd", Extra::Plain));
    let w = listed(existing, "/var/log/wtmp");
    push_if(&mut out, w, finding("Logs", Severity::Info, "Login history (wtmp)".to_owned(), "Binary login records".to_owned(), "wtmp", Extra::Plain));
    assert(views(out@) =~= logs_part(strs(existing@)));
    out
}

// --------------------------------------------------------------- processes

/// The `Name:` and `State:` lines of a status file, each followed by a space.
pub open spec fn status_info(status: Seq<Seq<char>>) -> Seq<char> {
    concat_map(
        status,
        |l: Seq<char>| if starts_with(l, "Name:"@) || starts_with(l, "State:"@) {
            l.push(' ')
        } else {
            Seq::<char>::empty()
        },
    )
}

/// The entry for a numbered `/proc` entry: kept where its command line or
/// its status lines say something.
pub open spec fn detail_entry(p: ProcDetail) -> Option<ProcessStatusView> {
    let cmd = match p.cmdline {
        Some(c) => cleaned_cmd(c@),
        None => Seq::<char>::empty(),
    };
    let status = match p.status {
        Some(s) => status_info(lines(s@)),
        None => Seq::<char>::empty(),
    };
    if cmd.len() > 0 || status.len() > 0 {
        Some(ProcessStatusView { pid: p.pid, cmd, status })
    } else {
        None
    }
}

pub open spec fn detail_entry_fn() -> spec_fn(ProcDetail) -> Option<ProcessStatusView> {
    |p: ProcDetail| detail_entry(p)
}

/// The name of an `environ` entry of the form `NAME=value`.
pub open spec fn env_name(s: Seq<char>) -> Option<Seq<char>> {
    if s.len() > 0 && s.contains('=') {
        let n = s.take(next_char(s, '=', 0));
        if n.len() > 0 {
            Some(n)
        } else {
            None
        }
    } else {
        None
    }
}

pub open spec fn env_name_fn() -> spec_fn(Seq<char>) -> Option<Seq<char>> {
    |s: Seq<char>| env_name(s)
}

pub open spec fn many_fds_fn() -> spec_fn(FdCount) -> Option<FdCount> {
    |f: FdCount| if f.open_fds > 100 {
        Some(f)
    } else {
        None
    }
}

/// The process findings.
pub open spec fn processes_part(src: LinuxDetailSources) -> Seq<FindingView> {
    let entries = match src.processes {
        Some(ps) => collect_some(ps@, detail_entry_fn()),
        None => Seq::empty(),
    };
    seq![
        with_extra(
            "Processes"@,
            Severity::Info,
            "Running processes"@,
            decimal(entries.len()) + " processes currently running"@,
            "processes"@,
            ExtraView::TopProcesses(first_n(entries, 15)),
        ),
    ] + (match src.init_environ {
        Some(e) => seq![
            plain(
                "Processes"@,
                Severity::Info,
                "Init (PID 1) environment"@,
                "Variables: "@ + debug_list(first_n(collect_some(pieces(e@, '\0'), env_name_fn()), 10)),
                "init_env"@,
            ),
        ],
        None => Seq::empty(),
    }) + (match src.fd_counts {
        Some(fc) => {
            let many = collect_some(fc@, many_fds_fn());
            only_if(
                many.len() > 0,
                with_extra(
                    "Processes"@,
                    Severity::Warning,
                    "Processes with many open file descriptors"@,
                    decimal(many.len()) + " processes with >100 FDs"@,
                    "suspicious_fds"@,
                    ExtraView::OpenFds(many),
                ),
            )
        },
        None => Seq::empty(),
    })
}

fn status_text(s: &str) -> (r: String)
    ensures
        r@ == status_info(lines(s@)),
{
    let ls = lines_of(s);
    let ghost ll = strs(ls@);
    let mut out = String::new();
    let mut i: usize = 0;
    while i < ls.len()
        invariant
            ll == strs(ls@),
            i <= ls@.len(),
            out@ == status_info(ll.take(i as int)),
        decreases ls@.len() - i,
    {
        proof {
            assert(ll.take(i + 1).drop_last() =~= ll.take(i as int));
            assert(ll[i as int] == ls@[i as int]@);
        }
        let l = ls[i].as_str();
        if crate::text::text_starts_with(l, "Name:") || crate::text::text_starts_with(l, "State:") {
            let ghost before = out@;
            out = concat(out.as_str(), l);
            crate::text::push_char(&mut out, ' ');
            proof {
                assert(out@ =~= before + ll[i as int].push(' '));
            }
        } else {
            proof {
                assert(out@ =~= out@ + Seq::<char>::empty());
            }
        }
        i = i + 1;
    }
    proof {
        assert(ll.take(ll.len() as int) =~= ll);
    }
    out
}

fn process_list(ps: &Vec<ProcDetail>) -> (r: Vec<ProcessStatus>)
    ensures
        r@.map_values(|p: ProcessStatus| p@) == collect_some(ps@, detail_entry_fn()),
{
    let mut kept: Vec<ProcessStatus> = Vec::new();
    let mut i: usize = 0;
    while i < ps.len()
        invariant
            i <= ps@.len(),
            kept@.map_values(|p: ProcessStatus| p@) == collect_some(ps@.take(i as int), detail_entry_fn()),
        decreases ps@.len() - i,
    {
        let p = &ps[i];
        let cmd = match &p.cmdline {
            Some(c) => crate::forensic_linux::clean_cmd(c.as_str()),
            None => String::new(),
        };
        let status = match &p.status {
            Some(s) => status_text(s.as_str()),
            None => String::new(),
        };
        if !cmd.as_str().is_empty() || !status.as_str().is_empty() {
            kept.push(ProcessStatus { pid: p.pid, cmd, status });
        }
        proof {
            assert(ps@.take(i + 1).drop_last() =~= ps@.take(i as int));
            assert(kept@.map_values(|p: ProcessStatus| p@) =~= collect_some(ps@.take(i + 1), detail_entry_fn()));
        }
        i = i + 1;
    }
    proof {
        assert(ps@.take(ps@.len() as int) =~= ps@);
    }
    kept
}

fn env_names(e: &str) -> (r: Vec<String>)
    ensures
        strs(r@) == first_n(collect_some(pieces(e@, '\0'), env_name_fn()), 10),
{
    let ps = split_at_char(e, '\0');
    let ghost pl = strs(ps@);
    let mut kept: Vec<String> = Vec::new();
    let mut i: usize = 0;
    while i < ps.len()
        invariant
            pl == strs(ps@),
            i <= ps@.len(),
            strs(kept@) == collect_some(pl.take(i as int), env_name_fn()),
        decreases ps@.len() - i,
    {
        proof {
            assert(pl.take(i + 1).drop_last() =~= pl.take(i as int));
            assert(pl[i as int] == ps@[i as int]@);
        }
        let s = ps[i].as_str();
        if !s.is_empty() && crate::text::has_char(s, '=') {
            let n = crate::text::before_char(s, '=');
            if !n.as_str().is_empty() {
                kept.push(n);
            }
        }
        proof {
            assert(strs(kept@) =~= collect_some(pl.take(i + 1), env_name_fn()));
        }
        i = i + 1;
    }
    proof {
        assert(pl.take(pl.len() as int) =~= pl);
    }
    let ghost all = strs(kept@);
    keep_first(&mut kept, 10);
    assert(strs(kept@) =~= first_n(all, 10));
    kept
}

fn many_fds(fc: &Vec<FdCount>) -> (r: Vec<FdCount>)
    ensures
        r@ == collect_some(fc@, many_fds_fn()),
{
    let mut kept: Vec<FdCount> = Vec::new();
    let mut i: usize = 0;
    while i < fc.len()
        invariant
            i <= fc@.len(),
            kept@ == collect_some(fc@.take(i as int), many_fds_fn()),
        decreases fc@.len() - i,
    {
        if fc[i].open_fds > 100 {
            kept.push(fc[i]);
        }
        proof {
            assert(fc@.take(i + 1).drop_last() =~= fc@.take(i as int));
            assert(kept@ =~= collect_some(fc@.take(i + 1), many_fds_fn()));
        }
        i = i + 1;
    }
    proof {
        assert(fc@.take(fc@.len() as int) =~= fc@);
    }
    kept
}

fn collect_processes(src: &LinuxDetailSources) -> (r: Vec<Finding>)
    ensures
        views(r@) == processes_part(*src),
{
    let mut kept = match &src.processes {
        Some(ps) => process_list(ps),
        None => Vec::new(),
    };
    let ghost all = kept@.map_values(|p: ProcessStatus| p@);
    assert(all =~= match src.processes {
        Some(ps) => collect_some(ps@, detail_entry_fn()),
        None => Seq::empty(),
    });
    let n = kept.len();
    keep_first(&mut kept, 15);
    assert(kept@.map_values(|p: ProcessStatus| p@) =~= first_n(all, 15));
    let mut out: Vec<Finding> = Vec::new();
    push_finding(&mut out, finding("Processes", Severity::Info, "Running processes".to_owned(), number_then(n as u64, " processes currently running"), "processes", Extra::TopProcesses(kept)));
    match &src.init_environ {
        Some(e) => {
            let names = env_names(e.as_str());
            let d = debug_strings(&names);
            push_finding(&mut out, finding("Processes", Severity::Info, "Init (PID 1) environment".to_owned(), concat("Variables: ", d.as_str()), "init_env", Extra::Plain));
        },
        None => {},
    }
    match &src.fd_counts {
        Some(fc) => {
            let many = many_fds(fc);
            let m = many.len();
            let mut one: Vec<Finding> = Vec::new();
            push_if(&mut one, m > 0, finding("Processes", Severity::Warning, "Processes with many open file descriptors".to_owned(), number_then(m as u64, " processes with >100 FDs"), "suspicious_fds", Extra::OpenFds(many)));
            push_all(&mut out, one);
        },
        None => {},
    }
    assert(views(out@) =~= processes_part(*src));
    out
}

// ----------------------------------------------------------------- systemd

pub open spec fn is_timer_fn() -> spec_fn(Seq<char>) -> bool {
    |l: Seq<char>| contains_text(l, ".timer"@)
}

/// The systemd findings, made where systemd runs.
pub open spec fn systemd_part(src: LinuxDetailSources) -> Seq<FindingView> {
    if strs(src.existing@).contains("/run/systemd/system"@) {
        seq![
            plain(
                "Systemd"@,
                Severity::Info,
                "Systemd detected"@,
                "System is using systemd as init"@,
                "systemd"@,
            ),
        ] + (match src.services {
            Some(o) => seq![
                plain(
                    "Systemd"@,
                    Severity::Info,
                    "Running services"@,
                    "Top running services: "@ + join_with(first_n(lines(o@), 10), ", "@),
                    "services"@,
                ),
            ],
            None => Seq::empty(),
        }) + (match src.timers {
            Some(t) => {
                let n = count_where(lines(t@), is_timer_fn());
                only_if(
                    n > 0,
                    plain(
                        "Systemd"@,
                        Severity::Warning,
                        "Systemd timers"@,
                        decimal(n) + " timer units configured"@,
                        "timers"@,
                    ),
                )
            },
            None => Seq::empty(),
        })
    } else {
        Seq::empty()
    }
}

fn count_timers(t: &str) -> (n: u64)
    ensures
        n == count_where(lines(t@), is_timer_fn()),
{
    let ls = lines_of(t);
    let ghost ll = strs(ls@);
    let mut n: u64 = 0;
    let mut i: usize = 0;
    while i < ls.len()
        invariant
            ll == strs(ls@),
            ll == lines(t@),
            i <= ls@.len(),
            n == count_where(ll.take(i as int), is_timer_fn()),
            n <= i,
        decreases ls@.len() - i,
    {
        proof {
            assert(ll.take(i + 1).drop_last() =~= ll.take(i as int));
            assert(ll[i as int] == ls@[i as int]@);
        }
        if contains_str(ls[i].as_str(), ".timer") {
            n = n + 1;
        }
        i = i + 1;
    }
    proof {
        assert(ll.take(ll.len() as int) =~= ll);
    }
    n
}

fn collect_systemd(src: &LinuxDetailSources) -> (r: Vec<Finding>)
    ensures
        views(r@) == systemd_part(*src),
{
    let mut out: Vec<Finding> = Vec::new();
    if !listed(&src.existing, "/run/systemd/system") {
        assert(views(out@) =~= systemd_part(*src));
        return out;
    }
    push_finding(&mut out, finding("Systemd", Severity::Info, "Systemd detected".to_owned(), "System is using systemd as init".to_owned(), "systemd", Extra::Plain));
    match &src.services {
        Some(o) => {
            let ls = lines_of(o.as_str());
            let top = slice_strings(&ls, 0, 10);
            assert(drop_n(strs(ls@), 0) =~= strs(ls@));
            let j = joined(&top, ", ");
            push_finding(&mut out, finding("Systemd", Severity::Info, "Running services".to_owned(), concat("Top running services: ", j.as_str()), "services", Extra::Plain));
        },
        None => {},
    }
    match &src.timers {
        Some(t) => {
            let n = count_timers(t.as_str());
            let mut one: Vec<Finding> = Vec::new();
            push_if(&mut one, n > 0, finding("Systemd", Severity::Warning, "Systemd timers".to_owned(), number_then(n, " timer units configured"), "timers", Extra::Plain));
            push_all(&mut out, one);
        },
        None => {},
    }
    assert(views(out@) =~= systemd_part(*src));
    out
}

// ------------------------------------------------------------------ report

/// The paths whose existence the detailed collector asks about.
pub open spec fn detail_probes() -> Seq<Seq<char>> {
    seq![
        "/etc/sudoers"@, "/tmp"@, "/var/tmp"@, "/etc/crontab"@, "/etc/cron.d"@, "/etc/cron.daily"@,
        "/etc/cron.weekly"@, "/etc/cron.monthly"@, "/var/spool/cron/crontabs"@, "/etc/profile"@,
        "/etc/bash.bashrc"@, "/etc/zsh/zshrc"@, "/sbin/iptables"@, "/var/log/syslog"@,
        "/var/log/messages"@, "/var/log/auth.log"@, "/var/log/secure"@, "/var/log/kern.log"@,
        "/var/log/dmesg"@, "/var/log/audit/audit.log"@, "/var/log/wtmp"@, "/run/systemd/system"@,
    ]
}

/// The paths whose existence the detailed collector asks about; the caller
/// passes back those that exist.
pub fn detail_probe_paths() -> (r: Vec<String>)
    ensures
        strs(r@) == detail_probes(),
{
    let mut v: Vec<String> = Vec::new();
    v.push("/etc/sudoers".to_owned());
    v.push("/tmp".to_owned());
    v.push("/var/tmp".to_owned());
    v.push("/etc/crontab".to_owned());
    v.push("/etc/cron.d".to_owned());
    v.push("/etc/cron.daily".to_owned());
    v.push("/etc/cron.weekly".to_owned());
    v.push("/etc/cron.monthly".to_owned());
    v.push("/var/spool/cron/crontabs".to_owned());
    v.push("/etc/profile".to_owned());
    v.push("/etc/bash.bashrc".to_owned());
    v.push("/etc/zsh/zshrc".to_owned());
    v.push("/sbin/iptables".to_owned());
    v.push("/var/log/syslog".to_owned());
    v.push("/var/log/messages".to_owned());
    v.push("/var/log/auth.log".to_owned());
    v.push("/var/log/secure".to_owned());
    v.push("/var/log/kern.log".to_owned());
    v.push("/var/log/dmesg".to_owned());
    v.push("/var/log/audit/audit.log".to_owned());
    v.push("/var/log/wtmp".to_owned());
    v.push("/run/systemd/system".to_owned());
    assert(strs(v@) =~= detail_probes());
    v
}

/// All detailed Linux findings, in the order the collector makes them.
pub open spec fn linux_detailed_findings(src: LinuxDetailSources) -> Seq<FindingView> {
    auth_part(src) + filesystem_part(src) + persistence_part(src) + network_part(src) + logs_part(
        strs(src.existing@),
    ) + processes_part(src) + systemd_part(src)
}

/// Gathers the detailed Linux findings from what was read off the machine.
pub struct LinuxDetailedForensicCollector;

impl LinuxDetailedForensicCollector {
    /// The detailed report: accounts, file system, persistence, network,
    /// logs, processes and systemd findings, in that order.
    pub fn collect_detailed(&self, src: &LinuxDetailSources) -> (r: ForensicReport)
        ensures
            r@.platform == "linux"@,
            r@.variant == Some("detailed"@),
            r@.note is None,
            r@.findings == linux_detailed_findings(*src),
    {
        let mut out = collect_auth_artifacts(src);
        push_all(&mut out, collect_filesystem_artifacts(src));
        push_all(&mut out, collect_persistence(src));
        push_all(&mut out, collect_network(src));
        push_all(&mut out, collect_logs(&src.existing));
        push_all(&mut out, collect_processes(src));
        push_all(&mut out, collect_systemd(src));
        ForensicReport {
            platform: "linux".to_owned(),
            variant: Some("detailed".to_owned()),
            note: None,
            findings: out,
        }
    }

    /// The collector's report: the detailed one.
    pub fn collect(&self, src: &LinuxDetailSources) -> (r: ForensicReport)
        ensures
            r@.platform == "linux"@,
            r@.variant == Some("detailed"@),
            r@.note is None,
            r@.findings == linux_detailed_findings(*src),
    {
        self.collect_detailed(src)
    }

    /// The platform this collector is for: "linux_detailed".
    pub fn platform(&self) -> (r: &'static str)
        ensures
            r@ == "linux_detailed"@,
    {
        "linux_detailed"
    }
}

} // verus!
