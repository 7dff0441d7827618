//! The Linux collector: kernel modules, processes, cron, services, listening
//! sockets, the init environment and setuid binaries, decided from what was
//! read under `/proc`, `/etc` and from `systemctl`.
use vstd::prelude::*;
use crate::forensic::{
    concat_map, collect_some, count_where, drop_n, first_n, finding, keep_first, listed, plain,
    push_all, push_finding, push_if, strs, views, only_if, with_extra, with_number, Extra,
    ExtraView, Finding, FindingView, lemma_add_contains, lemma_collect_some_all, lemma_concat_map_all, lemma_concat_map_contains,
    lemma_count_where_add, lemma_count_where_bound, lemma_count_where_none, ForensicReport, ProcessEntry, ProcessEntryView, Severity,
};
use crate::text::{
    all_digits, concat, contains_str, contains_text, decimal, first_word, first_word_of,
    join_with, joined, lines, lines_of, lowercase, parse_bounded, parse_unsigned, pieces,
    replace_char, split_at_char, split_words, to_lowercase, trim, trimmed, utf8_len, byte_len,
    words,
};

verus! {

/// The characters of an optional string.
pub open spec fn text_opt(o: Option<String>) -> Option<Seq<char>> {
    match o {
        Some(s) => Some(s@),
        None => None,
    }
}

/// The process id that a directory name under `/proc` stands for: where
/// the name is all decimal digits, the number it writes, or 0 where that
/// does not fit an `i32`; `None` where the name is not all digits.
pub open spec fn pid_of(name: Seq<char>) -> Option<i32> {
    if all_digits(name) {
        Some(
            match parse_unsigned(name) {
                Some(v) => if v <= i32::MAX {
                    v as i32
                } else {
                    0i32
                },
                None => 0i32,
            },
        )
    } else {
        None
    }
}

/// The process id that the `/proc` entry `name` stands for, if it is one.
pub fn proc_pid(name: &str) -> (r: Option<i32>)
    ensures
        r == pid_of(name@),
{
    let v = crate::text::chars_of(name);
    let mut i: usize = 0;
    while i < v.len()
        invariant
            v@ == name@,
            i <= v@.len(),
            forall|j: int| 0 <= j < i ==> crate::text::is_digit(#[trigger] v@[j]),
        decreases v@.len() - i,
    {
        if !(v[i] >= '0' && v[i] <= '9') {
            assert(!crate::text::is_digit(name@[i as int]));
            return None;
        }
        i = i + 1;
    }
    assert(all_digits(name@));
    proof {
        if name@.len() > 0 {
            assert(crate::text::is_digit(name@[0]));
        }
        assert(crate::text::unsigned_digits(name@) == name@);
    }
    match parse_bounded(name, 2147483647) {
        Some(p) => Some(p as i32),
        None => Some(0),
    }
}

/// What was read for one numbered entry of `/proc`: its process id and, if
/// it could be read, its `cmdline` file.
#[derive(Clone, Debug)]
pub struct ProcRead {
    pub pid: i32,
    pub cmdline: Option<String>,
}

/// What the Linux collector reads off the machine.
#[derive(Clone, Debug)]
pub struct LinuxSources {
    /// `/proc/modules`, if it could be read.
    pub modules: Option<String>,
    /// The numbered entries of `/proc`, if it could be listed.
    pub processes: Option<Vec<ProcRead>>,
    /// Which of [`linux_probe_paths`] exist.
    pub existing: Vec<String>,
    /// What `systemctl list-units --type=service --state=running` printed,
    /// if it ran.
    pub services: Option<String>,
    /// `/proc/net/tcp`, if it could be read.
    pub tcp: Option<String>,
    /// `/proc/1/environ`, if it could be read.
    pub init_environ: Option<String>,
}

/// The places where cron jobs are kept.
pub open spec fn cron_locations() -> Seq<Seq<char>> {
    seq!["/etc/crontab"@, "/etc/cron.d"@, "/var/spool/cron/crontabs"@]
}

/// The setuid binaries that are looked for.
pub open spec fn suid_candidates() -> Seq<Seq<char>> {
    seq!["/usr/bin/sudo"@, "/bin/su"@, "/usr/bin/pkexec"@]
}

/// The paths whose existence the collector asks about.
pub fn linux_probe_paths() -> (r: Vec<String>)
    ensures
        strs(r@) == cron_locations() + suid_candidates(),
{
    let mut v: Vec<String> = Vec::new();
    v.push("/etc/crontab".to_owned());
    v.push("/etc/cron.d".to_owned());
    v.push("/var/spool/cron/crontabs".to_owned());
    v.push("/usr/bin/sudo".to_owned());
    v.push("/bin/su".to_owned());
    v.push("/usr/bin/pkexec".to_owned());
    assert(strs(v@) =~= cron_locations() + suid_candidates());
    v
}

/// The finding for a line of `/proc/modules` with at least three fields.
pub open spec fn module_finding(line: Seq<char>) -> Option<FindingView> {
    let p = words(line);
    if p.len() >= 3 {
        Some(
            plain(
                "Kernel Modules"@,
                Severity::Info,
                "Module: "@ + p[0],
                "Size: "@ + p[1] + ", Used: "@ + p[2],
                "kernel_module"@,
            ),
        )
    } else {
        None
    }
}

pub open spec fn module_finding_fn() -> spec_fn(Seq<char>) -> Option<FindingView> {
    |l: Seq<char>| module_finding(l)
}

/// One finding for each of the first twenty lines of `/proc/modules` that
/// has three fields.
pub open spec fn module_part(modules: Option<Seq<char>>) -> Seq<FindingView> {
    match modules {
        Some(m) => collect_some(first_n(lines(m), 20), module_finding_fn()),
        None => Seq::empty(),
    }
}

/// A command line with its NUL separators made spaces, trimmed.
pub open spec fn cleaned_cmd(c: Seq<char>) -> Seq<char> {
    trim(c.map_values(|x: char| if x == '\0' { ' ' } else { x }))
}

/// The process entry for what was read under `/proc`: kept where the
/// command line was read and, cleaned, is not empty and has fewer than 200
/// bytes.
pub open spec fn process_entry(pid: i32, cmdline: Option<Seq<char>>) -> Option<ProcessEntryView> {
    match cmdline {
        Some(c) => {
            let cmd = cleaned_cmd(c);
            if cmd.len() > 0 && (byte_len(cmd) as usize) < 200 {
                Some(ProcessEntryView { pid, cmd })
            } else {
                None
            }
        },
        None => None,
    }
}

pub open spec fn process_entry_fn() -> spec_fn(ProcRead) -> Option<ProcessEntryView> {
    |p: ProcRead| process_entry(p.pid, text_opt(p.cmdline))
}

/// The processes finding: how many were kept, with the first ten of them.
pub open spec fn process_part(processes: Option<Seq<ProcRead>>) -> Seq<FindingView> {
    match processes {
        Some(ps) => {
            let kept = collect_some(ps, process_entry_fn());
            seq![
                with_extra(
                    "Processes"@,
                    Severity::Info,
                    "Running Processes: "@ + decimal(kept.len()),
                    "Active processes from /proc"@,
                    "processes"@,
                    ExtraView::Processes(first_n(kept, 10)),
                ),
            ]
        },
        None => Seq::empty(),
    }
}

/// The finding for a cron location that exists.
pub open spec fn cron_finding(loc: Seq<char>) -> FindingView {
    plain(
        "Persistence"@,
        Severity::Info,
        "Cron location: "@ + loc,
        "Potential persistence mechanism"@,
        "cron"@,
    )
}

/// The finding for a setuid binary that exists.
pub open spec fn suid_finding(path: Seq<char>) -> FindingView {
    plain(
        "Privilege Escalation"@,
        Severity::Info,
        "SUID binary: "@ + path,
        "Binary has setuid bit - potential privilege escalation vector"@,
        "suid"@,
    )
}

/// One finding for each cron location that exists, in the order listed.
pub open spec fn cron_part(existing: Seq<Seq<char>>) -> Seq<FindingView> {
    let c = cron_locations();
    only_if(existing.contains(c[0]), cron_finding(c[0])) + only_if(
        existing.contains(c[1]),
        cron_finding(c[1]),
    ) + only_if(existing.contains(c[2]), cron_finding(c[2]))
}

/// One finding for each setuid binary that exists, in the order listed.
pub open spec fn suid_part(existing: Seq<Seq<char>>) -> Seq<FindingView> {
    let c = suid_candidates();
    only_if(existing.contains(c[0]), suid_finding(c[0])) + only_if(
        existing.contains(c[1]),
        suid_finding(c[1]),
    ) + only_if(existing.contains(c[2]), suid_finding(c[2]))
}

/// The services finding: the lines after the first of `systemctl`'s
/// output, at most five, joined with commas.
pub open spec fn services_part(out: Option<Seq<char>>) -> Seq<FindingView> {
    match out {
        Some(o) => seq![
            plain(
                "Services"@,
                Severity::Info,
                "Running Systemd Services"@,
                join_with(first_n(drop_n(lines(o), 1), 5), ", "@),
                "systemd"@,
            ),
        ],
        None => Seq::empty(),
    }
}

/// A line of `/proc/net/tcp` in the listening state.
pub open spec fn listening_line(l: Seq<char>) -> Option<Seq<char>> {
    if contains_text(l, ":0000 0A "@) {
        Some(l)
    } else {
        None
    }
}

pub open spec fn listening_line_fn() -> spec_fn(Seq<char>) -> Option<Seq<char>> {
    |l: Seq<char>| listening_line(l)
}

/// The listening sockets finding, made where at least one line after the
/// header is in the listening state; it counts at most five.
pub open spec fn tcp_part(tcp: Option<Seq<char>>) -> Seq<FindingView> {
    match tcp {
        Some(t) => {
            let listening = first_n(collect_some(drop_n(lines(t), 1), listening_line_fn()), 5);
            only_if(
                listening.len() > 0,
                plain(
                    "Network"@,
                    Severity::Warning,
                    "Listening TCP Ports"@,
                    decimal(listening.len()) + " listening ports found"@,
                    "network"@,
                ),
            )
        },
        None => Seq::empty(),
    }
}

/// The words whose presence in a module's line raises an alert.
pub open spec fn suspicious_words() -> Seq<Seq<char>> {
    seq!["rootkit"@, "hide"@, "hook"@, "backdoor"@]
}

/// The alert for a module line that holds `word` once lower-cased.
pub open spec fn module_alert(line: Seq<char>, word: Seq<char>) -> FindingView {
    plain(
        "IOC Detection"@,
        Severity::Critical,
        "Suspicious Module: "@ + match first_word(line) {
            Some(w) => w,
            None => "unknown"@,
        },
        "Contains suspicious keyword: "@ + word,
        "suspicious_module"@,
    )
}

/// The alerts for one module line, one per suspicious word it holds.
pub open spec fn module_alerts(line: Seq<char>) -> Seq<FindingView> {
    let w = suspicious_words();
    let low = lowercase(line);
    only_if(contains_text(low, w[0]), module_alert(line, w[0])) + only_if(
        contains_text(low, w[1]),
        module_alert(line, w[1]),
    ) + only_if(contains_text(low, w[2]), module_alert(line, w[2])) + only_if(
        contains_text(low, w[3]),
        module_alert(line, w[3]),
    )
}

pub open spec fn module_alerts_fn() -> spec_fn(Seq<char>) -> Seq<FindingView> {
    |l: Seq<char>| module_alerts(l)
}

/// The alerts for all lines of `/proc/modules`.
pub open spec fn alert_part(modules: Option<Seq<char>>) -> Seq<FindingView> {
    match modules {
        Some(m) => concat_map(lines(m), module_alerts_fn()),
        None => Seq::empty(),
    }
}

/// A piece that is not empty.
pub open spec fn non_empty(s: Seq<char>) -> Option<Seq<char>> {
    if s.len() > 0 {
        Some(s)
    } else {
        None
    }
}

pub open spec fn non_empty_fn() -> spec_fn(Seq<char>) -> Option<Seq<char>> {
    |s: Seq<char>| non_empty(s)
}

/// The init environment finding: the first five non-empty NUL-separated
/// entries, joined with commas.
pub open spec fn environ_part(environ: Option<Seq<char>>) -> Seq<FindingView> {
    match environ {
        Some(e) => seq![
            plain(
                "System"@,
                Severity::Info,
                "Init Process Environment"@,
                join_with(first_n(collect_some(pieces(e, '\0'), non_empty_fn()), 5), ", "@),
                "environment"@,
            ),
        ],
        None => Seq::empty(),
    }
}

/// All findings of the Linux collector, in the order it makes them.
pub open spec fn linux_findings(src: LinuxSources) -> Seq<FindingView> {
    module_part(text_opt(src.modules)) + process_part(
        match src.processes {
            Some(v) => Some(v@),
            None => None,
        },
    ) + cron_part(strs(src.existing@)) + services_part(text_opt(src.services)) + tcp_part(text_opt(src.tcp)) + alert_part(
        text_opt(src.modules),
    ) + environ_part(text_opt(src.init_environ)) + suid_part(strs(src.existing@))
}


/// Whether a finding is of the kind `k`.
pub open spec fn kind_is(k: Seq<char>) -> spec_fn(FindingView) -> bool {
    |f: FindingView| f.kind == k
}

/// A processes finding lists at most ten processes.
pub open spec fn processes_capped(f: FindingView) -> bool {
    f.kind == "processes"@ ==> (f.extra matches ExtraView::Processes(es) && es.len() <= 10)
}

/// Every finding of `s` is of the kind `k`.
pub open spec fn all_of_kind(s: Seq<FindingView>, k: Seq<char>) -> bool {
    forall|i: int| 0 <= i < s.len() ==> (#[trigger] s[i]).kind == k
}

/// Every finding of `s` that lists processes lists at most ten.
pub open spec fn all_capped(s: Seq<FindingView>) -> bool {
    forall|i: int| 0 <= i < s.len() ==> processes_capped(#[trigger] s[i])
}

proof fn lemma_count_of_uniform(s: Seq<FindingView>, kk: Seq<char>, k: Seq<char>)
    requires
        all_of_kind(s, kk),
    ensures
        count_where(s, kind_is(k)) <= s.len(),
        k != kk ==> count_where(s, kind_is(k)) == 0,
{
    lemma_count_where_bound(s, kind_is(k));
    if k != kk {
        lemma_count_where_none(s, kind_is(k));
    }
}

proof fn lemma_all_capped_add(a: Seq<FindingView>, b: Seq<FindingView>)
    requires
        all_capped(a),
        all_capped(b),
    ensures
        all_capped(a + b),
{
    assert forall|i: int| 0 <= i < (a + b).len() implies processes_capped(#[trigger] (a + b)[i]) by {
        if i >= a.len() {
            assert((a + b)[i] == b[i - a.len()]);
        }
    }
}

proof fn lemma_module_alerts_kind(l: Seq<char>)
    ensures
        all_of_kind(module_alerts(l), "suspicious_module"@),
{
    let w = suspicious_words();
    let low = lowercase(l);
    let a = only_if(contains_text(low, w[0]), module_alert(l, w[0]));
    let b = only_if(contains_text(low, w[1]), module_alert(l, w[1]));
    let c = only_if(contains_text(low, w[2]), module_alert(l, w[2]));
    let d = only_if(contains_text(low, w[3]), module_alert(l, w[3]));
    assert(all_of_kind(a + b, "suspicious_module"@)) by {
        assert forall|i: int| 0 <= i < (a + b).len() implies (#[trigger] (a + b)[i]).kind == "suspicious_module"@ by {
            if i >= a.len() {
                assert((a + b)[i] == b[i - a.len()]);
            }
        }
    }
    assert(all_of_kind(a + b + c, "suspicious_module"@)) by {
        assert forall|i: int| 0 <= i < (a + b + c).len() implies (#[trigger] (a + b + c)[i]).kind == "suspicious_module"@ by {
            if i >= (a + b).len() {
                assert((a + b + c)[i] == c[i - (a + b).len()]);
            } else {
                assert((a + b + c)[i] == (a + b)[i]);
            }
        }
    }
    assert forall|i: int| 0 <= i < (a + b + c + d).len() implies (#[trigger] (a + b + c + d)[i]).kind == "suspicious_module"@ by {
        if i >= (a + b + c).len() {
            assert((a + b + c + d)[i] == d[i - (a + b + c).len()]);
        } else {
            assert((a + b + c + d)[i] == (a + b + c)[i]);
        }
    }
}

/// The lengths of the kind words, which tell them apart.
proof fn lemma_kind_words()
    ensures
        "kernel_module"@.len() == 13,
        "processes"@.len() == 9,
        "cron"@.len() == 4,
        "suid"@.len() == 4,
        "cron"@[0] == 'c',
        "suid"@[0] == 's',
        "systemd"@.len() == 7,
        "network"@.len() == 7,
        "suspicious_module"@.len() == 17,
        "environment"@.len() == 11,
{
    reveal_strlit("kernel_module");
    reveal_strlit("processes");
    reveal_strlit("cron");
    reveal_strlit("suid");
    reveal_strlit("systemd");
    reveal_strlit("network");
    reveal_strlit("suspicious_module");
    reveal_strlit("environment");
}

proof fn lemma_linux_kind_count(
    p1: Seq<FindingView>,
    p2: Seq<FindingView>,
    p3: Seq<FindingView>,
    p4: Seq<FindingView>,
    p5: Seq<FindingView>,
    p6: Seq<FindingView>,
    p7: Seq<FindingView>,
    p8: Seq<FindingView>,
    k: Seq<char>,
)
    requires
        all_of_kind(p1, "kernel_module"@) && p1.len() <= 20,
        all_of_kind(p2, "processes"@) && p2.len() <= 1,
        all_of_kind(p3, "cron"@) && p3.len() <= 3,
        all_of_kind(p4, "systemd"@),
        all_of_kind(p5, "network"@),
        all_of_kind(p6, "suspicious_module"@),
        all_of_kind(p7, "environment"@),
        all_of_kind(p8, "suid"@) && p8.len() <= 3,
    ensures
        k == "kernel_module"@ ==> count_where(p1 + p2 + p3 + p4 + p5 + p6 + p7 + p8, kind_is(k)) <= 20,
        k == "processes"@ ==> count_where(p1 + p2 + p3 + p4 + p5 + p6 + p7 + p8, kind_is(k)) <= 1,
        k == "cron"@ ==> count_where(p1 + p2 + p3 + p4 + p5 + p6 + p7 + p8, kind_is(k)) <= 3,
        k == "suid"@ ==> count_where(p1 + p2 + p3 + p4 + p5 + p6 + p7 + p8, kind_is(k)) <= 3,
{
    lemma_kind_words();
    assert("kernel_module"@ != "processes"@ && "kernel_module"@ != "cron"@ && "kernel_module"@ != "systemd"@);
    assert("kernel_module"@ != "network"@ && "kernel_module"@ != "suspicious_module"@);
    assert("kernel_module"@ != "environment"@ && "kernel_module"@ != "suid"@);
    assert("processes"@ != "cron"@ && "processes"@ != "systemd"@ && "processes"@ != "network"@);
    assert("processes"@ != "suspicious_module"@ && "processes"@ != "environment"@ && "processes"@ != "suid"@);
    assert("cron"@ != "systemd"@ && "cron"@ != "network"@ && "cron"@ != "suspicious_module"@);
    assert("cron"@ != "environment"@ && "cron"@ != "suid"@);
    assert("suid"@ != "systemd"@ && "suid"@ != "network"@ && "suid"@ != "suspicious_module"@);
    assert("suid"@ != "environment"@);
    lemma_count_of_uniform(p1, "kernel_module"@, k);
    lemma_count_of_uniform(p2, "processes"@, k);
    lemma_count_of_uniform(p3, "cron"@, k);
    lemma_count_of_uniform(p4, "systemd"@, k);
    lemma_count_of_uniform(p5, "network"@, k);
    lemma_count_of_uniform(p6, "suspicious_module"@, k);
    lemma_count_of_uniform(p7, "environment"@, k);
    lemma_count_of_uniform(p8, "suid"@, k);
    let q = kind_is(k);
    lemma_count_where_add(p1, p2, q);
    lemma_count_where_add(p1 + p2, p3, q);
    lemma_count_where_add(p1 + p2 + p3, p4, q);
    lemma_count_where_add(p1 + p2 + p3 + p4, p5, q);
    lemma_count_where_add(p1 + p2 + p3 + p4 + p5, p6, q);
    lemma_count_where_add(p1 + p2 + p3 + p4 + p5 + p6, p7, q);
    lemma_count_where_add(p1 + p2 + p3 + p4 + p5 + p6 + p7, p8, q);
}

/// The Linux collector makes at most twenty kernel-module findings, at most
/// one processes finding, which lists at most ten processes, and at most
/// three cron and three setuid findings, whatever it read.
pub proof fn law_linux_finding_bounds(src: LinuxSources)
    ensures
        count_where(linux_findings(src), kind_is("kernel_module"@)) <= 20,
        count_where(linux_findings(src), kind_is("processes"@)) <= 1,
        count_where(linux_findings(src), kind_is("cron"@)) <= 3,
        count_where(linux_findings(src), kind_is("suid"@)) <= 3,
        all_capped(linux_findings(src)),
{
    lemma_kind_words();
    let procs = match src.processes {
        Some(v) => Some(v@),
        None => None,
    };
    let p1 = module_part(text_opt(src.modules));
    let p2 = process_part(procs);
    let p3 = cron_part(strs(src.existing@));
    let p4 = services_part(text_opt(src.services));
    let p5 = tcp_part(text_opt(src.tcp));
    let p6 = alert_part(text_opt(src.modules));
    let p7 = environ_part(text_opt(src.init_environ));
    let p8 = suid_part(strs(src.existing@));
    assert(linux_findings(src) == p1 + p2 + p3 + p4 + p5 + p6 + p7 + p8);
    lemma_linux_part_kinds(src);
    lemma_linux_kind_count(p1, p2, p3, p4, p5, p6, p7, p8, "kernel_module"@);
    lemma_linux_kind_count(p1, p2, p3, p4, p5, p6, p7, p8, "processes"@);
    lemma_linux_kind_count(p1, p2, p3, p4, p5, p6, p7, p8, "cron"@);
    lemma_linux_kind_count(p1, p2, p3, p4, p5, p6, p7, p8, "suid"@);
    // Only the processes part holds a processes finding.
    assert("kernel_module"@ != "processes"@ && "cron"@ != "processes"@ && "systemd"@ != "processes"@);
    assert("network"@ != "processes"@ && "suspicious_module"@ != "processes"@);
    assert("environment"@ != "processes"@ && "suid"@ != "processes"@);
    assert(all_capped(p1));
    assert(all_capped(p3));
    assert(all_capped(p4));
    assert(all_capped(p5));
    assert(all_capped(p6));
    assert(all_capped(p7));
    assert(all_capped(p8));
    lemma_all_capped_add(p1, p2);
    lemma_all_capped_add(p1 + p2, p3);
    lemma_all_capped_add(p1 + p2 + p3, p4);
    lemma_all_capped_add(p1 + p2 + p3 + p4, p5);
    lemma_all_capped_add(p1 + p2 + p3 + p4 + p5, p6);
    lemma_all_capped_add(p1 + p2 + p3 + p4 + p5 + p6, p7);
    lemma_all_capped_add(p1 + p2 + p3 + p4 + p5 + p6 + p7, p8);
}

/// The processes read, as plain values.
pub open spec fn procs_view(src: LinuxSources) -> Option<Seq<ProcRead>> {
    match src.processes {
        Some(v) => Some(v@),
        None => None,
    }
}

/// Each part of the Linux report holds findings of one kind only.
proof fn lemma_linux_part_kinds(src: LinuxSources)
    ensures
        all_of_kind(module_part(text_opt(src.modules)), "kernel_module"@),
        module_part(text_opt(src.modules)).len() <= 20,
        all_of_kind(process_part(procs_view(src)), "processes"@),
        process_part(procs_view(src)).len() <= 1,
        all_capped(process_part(procs_view(src))),
        all_of_kind(cron_part(strs(src.existing@)), "cron"@),
        cron_part(strs(src.existing@)).len() <= 3,
        all_of_kind(services_part(text_opt(src.services)), "systemd"@),
        all_of_kind(tcp_part(text_opt(src.tcp)), "network"@),
        all_of_kind(alert_part(text_opt(src.modules)), "suspicious_module"@),
        all_of_kind(environ_part(text_opt(src.init_environ)), "environment"@),
        all_of_kind(suid_part(strs(src.existing@)), "suid"@),
        suid_part(strs(src.existing@)).len() <= 3,
{
    match text_opt(src.modules) {
        Some(m) => {
            lemma_collect_some_all(
                first_n(lines(m), 20),
                module_finding_fn(),
                |f: FindingView| f.kind == "kernel_module"@,
            );
            assert forall|a: Seq<char>, j: int| 0 <= j < module_alerts_fn()(a).len() implies
                (|f: FindingView| f.kind == "suspicious_module"@)(#[trigger] module_alerts_fn()(a)[j]) by {
                lemma_module_alerts_kind(a);
            }
            lemma_concat_map_all(lines(m), module_alerts_fn(), |f: FindingView| f.kind == "suspicious_module"@);
        },
        None => {},
    }
}

/// A finding of a part of one kind is of that kind.
proof fn lemma_member_kind(s: Seq<FindingView>, k: Seq<char>, f: FindingView)
    requires
        all_of_kind(s, k),
        s.contains(f),
    ensures
        f.kind == k,
{
    let i = choose|i: int| 0 <= i < s.len() && s[i] == f;
    assert(s[i].kind == k);
}

/// The alerts for a module line are those for the suspicious words that its
/// lower-cased text holds.
proof fn lemma_module_alerts_contains(l: Seq<char>, x: FindingView)
    ensures
        module_alerts(l).contains(x) <==> exists|k: int|
            0 <= k < 4 && #[trigger] contains_text(lowercase(l), suspicious_words()[k]) && x == module_alert(
                l,
                suspicious_words()[k],
            ),
{
    let w = suspicious_words();
    let low = lowercase(l);
    let a = only_if(contains_text(low, w[0]), module_alert(l, w[0]));
    let b = only_if(contains_text(low, w[1]), module_alert(l, w[1]));
    let c = only_if(contains_text(low, w[2]), module_alert(l, w[2]));
    let d = only_if(contains_text(low, w[3]), module_alert(l, w[3]));
    lemma_add_contains(a, b, x);
    lemma_add_contains(a + b, c, x);
    lemma_add_contains(a + b + c, d, x);
    assert(seq![module_alert(l, w[0])][0] == module_alert(l, w[0]));
    assert(seq![module_alert(l, w[1])][0] == module_alert(l, w[1]));
    assert(seq![module_alert(l, w[2])][0] == module_alert(l, w[2]));
    assert(seq![module_alert(l, w[3])][0] == module_alert(l, w[3]));
    if exists|k: int| 0 <= k < 4 && #[trigger] contains_text(low, w[k]) && x == module_alert(l, w[k]) {
        let k = choose|k: int| 0 <= k < 4 && #[trigger] contains_text(low, w[k]) && x == module_alert(l, w[k]);
        if k == 0 {
            assert(a.contains(x));
        } else if k == 1 {
            assert(b.contains(x));
        } else if k == 2 {
            assert(c.contains(x));
        } else {
            assert(d.contains(x));
        }
    }
    if module_alerts(l).contains(x) {
        if a.contains(x) {
            assert(contains_text(low, w[0]) && x == module_alert(l, w[0]));
        } else if b.contains(x) {
            assert(contains_text(low, w[1]) && x == module_alert(l, w[1]));
        } else if c.contains(x) {
            assert(contains_text(low, w[2]) && x == module_alert(l, w[2]));
        } else {
            assert(contains_text(low, w[3]) && x == module_alert(l, w[3]));
        }
    }
}

/// The words that a module's line must be flagged for.
pub open spec fn alert_keywords() -> Seq<Seq<char>> {
    seq!["rootkit"@, "hide"@, "hook"@, "backdoor"@]
}

/// The critical alert that a module line raises for a suspicious word.
pub open spec fn expected_alert(line: Seq<char>, word: Seq<char>) -> FindingView {
    FindingView {
        category: "IOC Detection"@,
        severity: Severity::Critical,
        title: "Suspicious Module: "@ + match first_word(line) {
            Some(w) => w,
            None => "unknown"@,
        },
        description: "Contains suspicious keyword: "@ + word,
        kind: "suspicious_module"@,
        extra: ExtraView::Plain,
    }
}

/// Every line of `/proc/modules` whose lower-cased text holds one of the
/// words "rootkit", "hide", "hook" or "backdoor" raises a critical "IOC
/// Detection" alert for that word, titled with the module's name; and every
/// suspicious-module finding of the report is such an alert, for a line and
/// a word that it holds.
pub proof fn law_suspicious_modules_alerted(src: LinuxSources, m: Seq<char>)
    requires
        text_opt(src.modules) == Some(m),
    ensures
        forall|i: int, k: int|
            0 <= i < lines(m).len() && 0 <= k < 4 && #[trigger] contains_text(
                lowercase(lines(m)[i]),
                alert_keywords()[k],
            ) ==> linux_findings(src).contains(
                expected_alert(lines(m)[i], alert_keywords()[k]),
            ),
        forall|f: FindingView|
            linux_findings(src).contains(f) && f.kind == "suspicious_module"@ ==> exists|i: int, k: int|
                0 <= i < lines(m).len() && 0 <= k < 4 && #[trigger] contains_text(
                    lowercase(lines(m)[i]),
                    alert_keywords()[k],
                ) && f == expected_alert(lines(m)[i], alert_keywords()[k]),
{
    let ws = alert_keywords();
    assert(suspicious_words() == ws);
    let p1 = module_part(text_opt(src.modules));
    let p2 = process_part(procs_view(src));
    let p3 = cron_part(strs(src.existing@));
    let p4 = services_part(text_opt(src.services));
    let p5 = tcp_part(text_opt(src.tcp));
    let p6 = alert_part(text_opt(src.modules));
    let p7 = environ_part(text_opt(src.init_environ));
    let p8 = suid_part(strs(src.existing@));
    assert(linux_findings(src) == p1 + p2 + p3 + p4 + p5 + p6 + p7 + p8);
    assert(p6 == concat_map(lines(m), module_alerts_fn()));
    assert forall|l: Seq<char>, w: Seq<char>| #[trigger] module_alert(l, w) == expected_alert(l, w) by {}
    assert forall|i: int, k: int|
        0 <= i < lines(m).len() && 0 <= k < 4 && #[trigger] contains_text(lowercase(lines(m)[i]), ws[k]) implies
        linux_findings(src).contains(expected_alert(lines(m)[i], ws[k])) by {
        let l = lines(m)[i];
        let x = module_alert(l, ws[k]);
        lemma_module_alerts_contains(l, x);
        assert(module_alerts_fn()(lines(m)[i]).contains(x));
        lemma_concat_map_contains(lines(m), module_alerts_fn(), x);
        lemma_add_contains(p1 + p2 + p3 + p4 + p5, p6, x);
        lemma_add_contains(p1 + p2 + p3 + p4 + p5 + p6, p7, x);
        lemma_add_contains(p1 + p2 + p3 + p4 + p5 + p6 + p7, p8, x);
    }
    assert forall|f: FindingView| linux_findings(src).contains(f) && f.kind == "suspicious_module"@ implies
        exists|i: int, k: int|
            0 <= i < lines(m).len() && 0 <= k < 4 && #[trigger] contains_text(lowercase(lines(m)[i]), ws[k]) && f
                == expected_alert(lines(m)[i], ws[k]) by {
        lemma_linux_part_kinds(src);
        lemma_kind_words();
        lemma_add_contains(p1 + p2 + p3 + p4 + p5 + p6 + p7, p8, f);
        lemma_add_contains(p1 + p2 + p3 + p4 + p5 + p6, p7, f);
        lemma_add_contains(p1 + p2 + p3 + p4 + p5, p6, f);
        lemma_add_contains(p1 + p2 + p3 + p4, p5, f);
        lemma_add_contains(p1 + p2 + p3, p4, f);
        lemma_add_contains(p1 + p2, p3, f);
        lemma_add_contains(p1, p2, f);
        if p8.contains(f) { lemma_member_kind(p8, "suid"@, f); }
        if p7.contains(f) { lemma_member_kind(p7, "environment"@, f); }
        if p5.contains(f) { lemma_member_kind(p5, "network"@, f); }
        if p4.contains(f) { lemma_member_kind(p4, "systemd"@, f); }
        if p3.contains(f) { lemma_member_kind(p3, "cron"@, f); }
        if p2.contains(f) { lemma_member_kind(p2, "processes"@, f); }
        if p1.contains(f) { lemma_member_kind(p1, "kernel_module"@, f); }
        assert(p6.contains(f));
        lemma_concat_map_contains(lines(m), module_alerts_fn(), f);
        let i = choose|i: int| 0 <= i < lines(m).len() && #[trigger] module_alerts_fn()(lines(m)[i]).contains(f);
        let l = lines(m)[i];
        lemma_module_alerts_contains(l, f);
        let k = choose|k: int|
            0 <= k < 4 && #[trigger] contains_text(lowercase(l), suspicious_words()[k]) && f == module_alert(
                l,
                suspicious_words()[k],
            );
        assert(contains_text(lowercase(lines(m)[i]), ws[k]) && f == expected_alert(lines(m)[i], ws[k]));
    }
}

/// The strings of `v` after the first `from`, at most `count` of them.
pub fn slice_strings(v: &Vec<String>, from: usize, count: usize) -> (r: Vec<String>)
    ensures
        strs(r@) == first_n(drop_n(strs(v@), from as int), count as int),
{
    let mut out: Vec<String> = Vec::new();
    if v.len() <= from {
        assert(strs(out@) =~= first_n(drop_n(strs(v@), from as int), count as int));
        return out;
    }
    let avail = v.len() - from;
    let k = if avail < count { avail } else { count };
    let mut i: usize = 0;
    while i < k
        invariant
            k <= v.len() - from,
            from < v.len(),
            i <= k,
            strs(out@) == strs(v@).subrange(from as int, from + i),
        decreases k - i,
    {
        let ghost before = strs(out@);
        let s = v[from + i].clone();
        out.push(s);
        assert(strs(out@) =~= before.push(v@[from + i]@));
        assert(strs(out@) =~= strs(v@).subrange(from as int, from + i + 1));
        i = i + 1;
    }
    assert(strs(out@) =~= first_n(drop_n(strs(v@), from as int), count as int));
    out
}

fn module_findings(m: &str) -> (r: Vec<Finding>)
    ensures
        views(r@) == collect_some(first_n(lines(m@), 20), module_finding_fn()),
{
    let mut ls = lines_of(m);
    let ghost all = ls@;
    keep_first(&mut ls, 20);
    let ghost ll = strs(ls@);
    assert(ll =~= first_n(lines(m@), 20));
    let mut out: Vec<Finding> = Vec::new();
    let mut i: usize = 0;
    while i < ls.len()
        invariant
            ll == strs(ls@),
            i <= ls@.len(),
            views(out@) == collect_some(ll.take(i as int), module_finding_fn()),
        decreases ls@.len() - i,
    {
        let parts = split_words(ls[i].as_str());
        let ghost p = strs(parts@);
        assert(p == words(ll[i as int]));
        if parts.len() >= 3 {
            let title = concat("Module: ", parts[0].as_str());
            let desc = crate::text::concat4("Size: ", parts[1].as_str(), ", Used: ", parts[2].as_str());
            push_finding(&mut out, finding("Kernel Modules", Severity::Info, title, desc, "kernel_module", Extra::Plain));
        }
        proof {
            assert(ll.take(i + 1).drop_last() =~= ll.take(i as int));
        }
        i = i + 1;
    }
    proof {
        assert(ll.take(ll.len() as int) =~= ll);
    }
    out
}

/// A command line with NUL made space, trimmed.
pub fn clean_cmd(c: &str) -> (r: String)
    ensures
        r@ == cleaned_cmd(c@),
{
    let spaced = replace_char(c, '\0', ' ');
    assert(spaced@ =~= c@.map_values(|x: char| if x == '\0' { ' ' } else { x }));
    trimmed(spaced.as_str())
}

fn process_findings(ps: &Vec<ProcRead>) -> (r: Vec<Finding>)
    ensures
        views(r@) == process_part(Some(ps@)),
{
    let mut kept: Vec<ProcessEntry> = Vec::new();
    let mut i: usize = 0;
    while i < ps.len()
        invariant
            i <= ps@.len(),
            kept@.map_values(|p: ProcessEntry| p@) == collect_some(ps@.take(i as int), process_entry_fn()),
        decreases ps@.len() - i,
    {
        let ghost before = kept@.map_values(|p: ProcessEntry| p@);
        match &ps[i].cmdline {
            Some(c) => {
                let cmd = clean_cmd(c.as_str());
                if !cmd.as_str().is_empty() && utf8_len(&cmd) < 200 {
                    kept.push(ProcessEntry { pid: ps[i].pid, cmd });
                }
            },
            None => {},
        }
        proof {
            assert(ps@.take(i + 1).drop_last() =~= ps@.take(i as int));
            assert(kept@.map_values(|p: ProcessEntry| p@) =~= collect_some(ps@.take(i + 1), process_entry_fn()));
        }
        i = i + 1;
    }
    proof {
        assert(ps@.take(ps@.len() as int) =~= ps@);
    }
    let ghost all = kept@.map_values(|p: ProcessEntry| p@);
    let n = kept.len();
    let title = with_number("Running Processes: ", n as u64);
    keep_first(&mut kept, 10);
    assert(kept@.map_values(|p: ProcessEntry| p@) =~= first_n(all, 10));
    let mut out: Vec<Finding> = Vec::new();
    push_finding(
        &mut out,
        finding(
            "Processes",
            Severity::Info,
            title,
            "Active processes from /proc".to_owned(),
            "processes",
            Extra::Processes(kept),
        ),
    );
    assert(views(out@) =~= process_part(Some(ps@)));
    out
}

fn cron_findings(existing: &Vec<String>) -> (r: Vec<Finding>)
    ensures
        views(r@) == cron_part(strs(existing@)),
{
    let mut out: Vec<Finding> = Vec::new();
    let a = listed(existing, "/etc/crontab");
    push_if(&mut out, a, finding("Persistence", Severity::Info, concat("Cron location: ", "/etc/crontab"), "Potential persistence mechanism".to_owned(), "cron", Extra::Plain));
    let b = listed(existing, "/etc/cron.d");
    push_if(&mut out, b, finding("Persistence", Severity::Info, concat("Cron location: ", "/etc/cron.d"), "Potential persistence mechanism".to_owned(), "cron", Extra::Plain));
    let c = listed(existing, "/var/spool/cron/crontabs");
    push_if(&mut out, c, finding("Persistence", Severity::Info, concat("Cron location: ", "/var/spool/cron/crontabs"), "Potential persistence mechanism".to_owned(), "cron", Extra::Plain));
    assert(views(out@) =~= cron_part(strs(existing@)));
    out
}

fn suid_findings(existing: &Vec<String>) -> (r: Vec<Finding>)
    ensures
        views(r@) == suid_part(strs(existing@)),
{
    let mut out: Vec<Finding> = Vec::new();
    let d = "Binary has setuid bit - potential privilege escalation vector";
    let a = listed(existing, "/usr/bin/sudo");
    push_if(&mut out, a, finding("Privilege Escalation", Severity::Info, concat("SUID binary: ", "/usr/bin/sudo"), d.to_owned(), "suid", Extra::Plain));
    let b = listed(existing, "/bin/su");
    push_if(&mut out, b, finding("Privilege Escalation", Severity::Info, concat("SUID binary: ", "/bin/su"), d.to_owned(), "suid", Extra::Plain));
    let c = listed(existing, "/usr/bin/pkexec");
    push_if(&mut out, c, finding("Privilege Escalation", Severity::Info, concat("SUID binary: ", "/usr/bin/pkexec"), d.to_owned(), "suid", Extra::Plain));
    assert(views(out@) =~= suid_part(strs(existing@)));
    out
}

fn services_findings(o: &str) -> (r: Vec<Finding>)
    ensures
        views(r@) == services_part(Some(o@)),
{
    let ls = lines_of(o);
    let sel = slice_strings(&ls, 1, 5);
    let desc = joined(&sel, ", ");
    let mut out: Vec<Finding> = Vec::new();
    push_finding(&mut out, finding("Services", Severity::Info, "Running Systemd Services".to_owned(), desc, "systemd", Extra::Plain));
    assert(views(out@) =~= services_part(Some(o@)));
    out
}

fn tcp_findings(t: &str) -> (r: Vec<Finding>)
    ensures
        views(r@) == tcp_part(Some(t@)),
{
    let ls = lines_of(t);
    let rest = slice_strings(&ls, 1, ls.len());
    let ghost rl = strs(rest@);
    assert(rl =~= drop_n(lines(t@), 1));
    let mut listening: Vec<String> = Vec::new();
    let mut i: usize = 0;
    while i < rest.len()
        invariant
            rl == strs(rest@),
            i <= rest@.len(),
            strs(listening@) == collect_some(rl.take(i as int), listening_line_fn()),
        decreases rest@.len() - i,
    {
        let ghost before = strs(listening@);
        if contains_str(rest[i].as_str(), ":0000 0A ") {
            listening.push(rest[i].clone());
        }
        proof {
            assert(rl.take(i + 1).drop_last() =~= rl.take(i as int));
            assert(strs(listening@) =~= collect_some(rl.take(i + 1), listening_line_fn()));
        }
        i = i + 1;
    }
    proof {
        assert(rl.take(rl.len() as int) =~= rl);
    }
    let ghost all = strs(listening@);
    keep_first(&mut listening, 5);
    assert(strs(listening@) =~= first_n(all, 5));
    let n = listening.len();
    let mut out: Vec<Finding> = Vec::new();
    push_if(
        &mut out,
        n > 0,
        finding(
            "Network",
            Severity::Warning,
            "Listening TCP Ports".to_owned(),
            crate::forensic::number_then(n as u64, " listening ports found"),
            "network",
            Extra::Plain,
        ),
    );
    assert(views(out@) =~= tcp_part(Some(t@)));
    out
}

fn alerts_for_line(line: &str) -> (r: Vec<Finding>)
    ensures
        views(r@) == module_alerts(line@),
{
    let lower = to_lowercase(line);
    let name = match first_word_of(line) {
        Some(w) => w,
        None => "unknown".to_owned(),
    };
    let mut out: Vec<Finding> = Vec::new();
    let a = contains_str(lower.as_str(), "rootkit");
    push_if(&mut out, a, finding("IOC Detection", Severity::Critical, concat("Suspicious Module: ", name.as_str()), concat("Contains suspicious keyword: ", "rootkit"), "suspicious_module", Extra::Plain));
    let b = contains_str(lower.as_str(), "hide");
    push_if(&mut out, b, finding("IOC Detection", Severity::Critical, concat("Suspicious Module: ", name.as_str()), concat("Contains suspicious keyword: ", "hide"), "suspicious_module", Extra::Plain));
    let c = contains_str(lower.as_str(), "hook");
    push_if(&mut out, c, finding("IOC Detection", Severity::Critical, concat("Suspicious Module: ", name.as_str()), concat("Contains suspicious keyword: ", "hook"), "suspicious_module", Extra::Plain));
    let d = contains_str(lower.as_str(), "backdoor");
    push_if(&mut out, d, finding("IOC Detection", Severity::Critical, concat("Suspicious Module: ", name.as_str()), concat("Contains suspicious keyword: ", "backdoor"), "suspicious_module", Extra::Plain));
    assert(views(out@) =~= module_alerts(line@));
    out
}

fn alert_findings(m: &str) -> (r: Vec<Finding>)
    ensures
        views(r@) == alert_part(Some(m@)),
{
    let ls = lines_of(m);
    let ghost ll = strs(ls@);
    let mut out: Vec<Finding> = Vec::new();
    let mut i: usize = 0;
    while i < ls.len()
        invariant
            ll == strs(ls@),
            ll == lines(m@),
            i <= ls@.len(),
            views(out@) == concat_map(ll.take(i as int), module_alerts_fn()),
        decreases ls@.len() - i,
    {
        let more = alerts_for_line(ls[i].as_str());
        push_all(&mut out, more);
        proof {
            assert(ll.take(i + 1).drop_last() =~= ll.take(i as int));
        }
        i = i + 1;
    }
    proof {
        assert(ll.take(ll.len() as int) =~= ll);
    }
    out
}

fn environ_findings(e: &str) -> (r: Vec<Finding>)
    ensures
        views(r@) == environ_part(Some(e@)),
{
    let ps = split_at_char(e, '\0');
    let ghost pl = strs(ps@);
    let mut kept: Vec<String> = Vec::new();
    let mut i: usize = 0;
    while i < ps.len()
        invariant
            pl == strs(ps@),
            i <= ps@.len(),
            strs(kept@) == collect_some(pl.take(i as int), non_empty_fn()),
        decreases ps@.len() - i,
    {
        if !ps[i].as_str().is_empty() {
            kept.push(ps[i].clone());
        }
        proof {
            assert(pl.take(i + 1).drop_last() =~= pl.take(i as int));
            assert(strs(kept@) =~= collect_some(pl.take(i + 1), non_empty_fn()));
        }
        i = i + 1;
    }
    proof {
        assert(pl.take(pl.len() as int) =~= pl);
    }
    let ghost all = strs(kept@);
    keep_first(&mut kept, 5);
    assert(strs(kept@) =~= first_n(all, 5));
    let desc = joined(&kept, ", ");
    let mut out: Vec<Finding> = Vec::new();
    push_finding(&mut out, finding("System", Severity::Info, "Init Process Environment".to_owned(), desc, "environment", Extra::Plain));
    assert(views(out@) =~= environ_part(Some(e@)));
    out
}

/// Gathers the Linux findings from what was read off the machine.
pub struct LinuxForensicCollector;

impl LinuxForensicCollector {
    /// The Linux report for what was read: kernel modules, processes, cron
    /// locations, services, listening sockets, suspicious modules, the init
    /// environment and setuid binaries, in that order.
    pub fn collect(&self, src: &LinuxSources) -> (r: ForensicReport)
        ensures
            r@.platform == "linux"@,
            r@.variant is None,
            r@.note is None,
            r@.findings == linux_findings(*src),
    {
        let mut out: Vec<Finding> = Vec::new();
        match &src.modules {
            Some(m) => push_all(&mut out, module_findings(m.as_str())),
            None => {},
        }
        match &src.processes {
            Some(ps) => push_all(&mut out, process_findings(ps)),
            None => {},
        }
        push_all(&mut out, cron_findings(&src.existing));
        match &src.services {
            Some(o) => push_all(&mut out, services_findings(o.as_str())),
            None => {},
        }
        match &src.tcp {
            Some(t) => push_all(&mut out, tcp_findings(t.as_str())),
            None => {},
        }
        match &src.modules {
            Some(m) => push_all(&mut out, alert_findings(m.as_str())),
            None => {},
        }
        match &src.init_environ {
            Some(e) => push_all(&mut out, environ_findings(e.as_str())),
            None => {},
        }
        push_all(&mut out, suid_findings(&src.existing));
        assert(views(out@) =~= linux_findings(*src));
        ForensicReport { platform: "linux".to_owned(), variant: None, note: None, findings: out }
    }

    /// The platform this collector is for: "linux".
    pub fn platform(&self) -> (r: &'static str)
        ensures
            r@ == "linux"@,
    {
        "linux"
    }
}
} // verus!
