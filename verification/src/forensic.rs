//! Forensic findings: what each platform's collector reports, computed from
//! what was read off the machine.  Reading files, listing directories and
//! running commands is left to the caller; the functions here take what came
//! back and decide which findings stand in the report, in which order and
//! with which words.
use vstd::prelude::*;
use crate::text::{concat, u64_to_text};

verus! {

/// How serious a finding is.
#[derive(Clone, Copy, Debug, PartialEq, Eq, Structural)]
pub enum Severity {
    Info,
    Warning,
    Critical,
}

/// The word a report writes for `s`.
pub open spec fn severity_word(s: Severity) -> Seq<char> {
    match s {
        Severity::Info => "info"@,
        Severity::Warning => "warning"@,
        Severity::Critical => "critical"@,
    }
}

impl Severity {
    /// The word for this severity: "info", "warning" or "critical".
    pub fn as_str(&self) -> (r: &'static str)
        ensures
            r@ == severity_word(*self),
    {
        match self {
            Severity::Info => "info",
            Severity::Warning => "warning",
            Severity::Critical => "critical",
        }
    }
}

/// A process seen under `/proc`, with its command line.
#[derive(Clone, Debug)]
pub struct ProcessEntry {
    pub pid: i32,
    pub cmd: String,
}

/// A process with its command line and its `Name:` and `State:` lines.
#[derive(Clone, Debug)]
pub struct ProcessStatus {
    pub pid: i32,
    pub cmd: String,
    pub status: String,
}

/// A process and how many file descriptors it holds open.
#[derive(Clone, Copy, Debug, PartialEq, Eq, Structural)]
pub struct FdCount {
    pub pid: i32,
    pub open_fds: u64,
}

/// The field that a finding carries beside its common ones, if any.
#[derive(Clone, Debug)]
pub enum Extra {
    Plain,
    Path(String),
    Paths(Vec<String>),
    RegistryPath(String),
    Files(Vec<String>),
    Command(String),
    WmiNamespace(String),
    Processes(Vec<ProcessEntry>),
    Users(Vec<String>),
    Matches(Vec<String>),
    Established(u64),
    TopProcesses(Vec<ProcessStatus>),
    OpenFds(Vec<FdCount>),
    Enabled(bool),
}

/// One finding of a report.
#[derive(Clone, Debug)]
pub struct Finding {
    pub category: String,
    pub severity: Severity,
    pub title: String,
    pub description: String,
    pub kind: String,
    pub extra: Extra,
}

/// The platform's report: its findings in the order they were made.
#[derive(Clone, Debug)]
pub struct ForensicReport {
    pub platform: String,
    pub variant: Option<String>,
    pub note: Option<String>,
    pub findings: Vec<Finding>,
}

/// The plain values of a process entry.
pub struct ProcessEntryView {
    pub pid: i32,
    pub cmd: Seq<char>,
}

/// The plain values of a process status.
pub struct ProcessStatusView {
    pub pid: i32,
    pub cmd: Seq<char>,
    pub status: Seq<char>,
}

/// The plain values of a finding's extra field.
pub enum ExtraView {
    Plain,
    Path(Seq<char>),
    Paths(Seq<Seq<char>>),
    RegistryPath(Seq<char>),
    Files(Seq<Seq<char>>),
    Command(Seq<char>),
    WmiNamespace(Seq<char>),
    Processes(Seq<ProcessEntryView>),
    Users(Seq<Seq<char>>),
    Matches(Seq<Seq<char>>),
    Established(u64),
    TopProcesses(Seq<ProcessStatusView>),
    OpenFds(Seq<FdCount>),
    Enabled(bool),
}

/// The plain values of a finding.
pub struct FindingView {
    pub category: Seq<char>,
    pub severity: Severity,
    pub title: Seq<char>,
    pub description: Seq<char>,
    pub kind: Seq<char>,
    pub extra: ExtraView,
}

/// The plain values of a report.
pub struct ReportView {
    pub platform: Seq<char>,
    pub variant: Option<Seq<char>>,
    pub note: Option<Seq<char>>,
    pub findings: Seq<FindingView>,
}

/// The characters of each string.
pub open spec fn strs(v: Seq<String>) -> Seq<Seq<char>> {
    v.map_values(|s: String| s@)
}

impl View for ProcessEntry {
    type V = ProcessEntryView;

    open spec fn view(&self) -> ProcessEntryView {
        ProcessEntryView { pid: self.pid, cmd: self.cmd@ }
    }
}

impl View for ProcessStatus {
    type V = ProcessStatusView;

    open spec fn view(&self) -> ProcessStatusView {
        ProcessStatusView { pid: self.pid, cmd: self.cmd@, status: self.status@ }
    }
}

impl View for Extra {
    type V = ExtraView;

    open spec fn view(&self) -> ExtraView {
        match self {
            Extra::Plain => ExtraView::Plain,
            Extra::Path(p) => ExtraView::Path(p@),
            Extra::Paths(v) => ExtraView::Paths(strs(v@)),
            Extra::RegistryPath(p) => ExtraView::RegistryPath(p@),
            Extra::Files(v) => ExtraView::Files(strs(v@)),
            Extra::Command(c) => ExtraView::Command(c@),
            Extra::WmiNamespace(n) => ExtraView::WmiNamespace(n@),
            Extra::Processes(v) => ExtraView::Processes(v@.map_values(|p: ProcessEntry| p@)),
            Extra::Users(v) => ExtraView::Users(strs(v@)),
            Extra::Matches(v) => ExtraView::Matches(strs(v@)),
            Extra::Established(n) => ExtraView::Established(*n),
            Extra::TopProcesses(v) => ExtraView::TopProcesses(v@.map_values(|p: ProcessStatus| p@)),
            Extra::OpenFds(v) => ExtraView::OpenFds(v@),
            Extra::Enabled(b) => ExtraView::Enabled(*b),
        }
    }
}

impl View for Finding {
    type V = FindingView;

    open spec fn view(&self) -> FindingView {
        FindingView {
            category: self.category@,
            severity: self.severity,
            title: self.title@,
            description: self.description@,
            kind: self.kind@,
            extra: self.extra@,
        }
    }
}

/// The plain values of each finding.
pub open spec fn views(s: Seq<Finding>) -> Seq<FindingView> {
    s.map_values(|f: Finding| f@)
}

impl View for ForensicReport {
    type V = ReportView;

    open spec fn view(&self) -> ReportView {
        ReportView {
            platform: self.platform@,
            variant: match self.variant {
                Some(v) => Some(v@),
                None => None,
            },
            note: match self.note {
                Some(n) => Some(n@),
                None => None,
            },
            findings: views(self.findings@),
        }
    }
}

impl ForensicReport {
    /// How many findings the report holds.
    pub fn findings_count(&self) -> (n: usize)
        ensures
            n == self.findings@.len(),
    {
        self.findings.len()
    }
}

/// A finding with no extra field.
pub open spec fn plain(
    category: Seq<char>,
    severity: Severity,
    title: Seq<char>,
    description: Seq<char>,
    kind: Seq<char>,
) -> FindingView {
    FindingView { category, severity, title, description, kind, extra: ExtraView::Plain }
}

/// A finding with the given extra field.
pub open spec fn with_extra(
    category: Seq<char>,
    severity: Severity,
    title: Seq<char>,
    description: Seq<char>,
    kind: Seq<char>,
    extra: ExtraView,
) -> FindingView {
    FindingView { category, severity, title, description, kind, extra }
}

/// `f` if `b`, nothing otherwise.
pub open spec fn only_if(b: bool, f: FindingView) -> Seq<FindingView> {
    if b {
        seq![f]
    } else {
        Seq::empty()
    }
}

/// The values that `f` gives for the items of `s`, in order, where it gives one.
pub open spec fn collect_some<A, B>(s: Seq<A>, f: spec_fn(A) -> Option<B>) -> Seq<B>
    decreases s.len(),
{
    if s.len() == 0 {
        Seq::empty()
    } else {
        collect_some(s.drop_last(), f) + match f(s.last()) {
            Some(b) => seq![b],
            None => Seq::empty(),
        }
    }
}

/// How many items of `s` meet `p`.
pub open spec fn count_where<A>(s: Seq<A>, p: spec_fn(A) -> bool) -> nat
    decreases s.len(),
{
    if s.len() == 0 {
        0
    } else {
        count_where(s.drop_last(), p) + if p(s.last()) {
            1nat
        } else {
            0nat
        }
    }
}

pub proof fn lemma_count_where_bound<A>(s: Seq<A>, p: spec_fn(A) -> bool)
    ensures
        count_where(s, p) <= s.len(),
    decreases s.len(),
{
    if s.len() > 0 {
        lemma_count_where_bound(s.drop_last(), p);
    }
}

/// Counting over two sequences put together adds the counts.
pub proof fn lemma_count_where_add<A>(a: Seq<A>, b: Seq<A>, p: spec_fn(A) -> bool)
    ensures
        count_where(a + b, p) == count_where(a, p) + count_where(b, p),
    decreases b.len(),
{
    if b.len() == 0 {
        assert(a + b =~= a);
    } else {
        assert((a + b).drop_last() =~= a + b.drop_last());
        lemma_count_where_add(a, b.drop_last(), p);
    }
}

/// No item counts where none meets `p`.
pub proof fn lemma_count_where_none<A>(s: Seq<A>, p: spec_fn(A) -> bool)
    requires
        forall|i: int| 0 <= i < s.len() ==> !p(#[trigger] s[i]),
    ensures
        count_where(s, p) == 0,
    decreases s.len(),
{
    if s.len() > 0 {
        lemma_count_where_none(s.drop_last(), p);
    }
}

/// Whatever `f` gives meets `q`, so every item that `collect_some` keeps
/// meets `q`; and it keeps no more items than it was given.
pub proof fn lemma_collect_some_all<A, B>(s: Seq<A>, f: spec_fn(A) -> Option<B>, q: spec_fn(B) -> bool)
    requires
        forall|a: A| #[trigger] f(a) is Some ==> q(f(a)->0),
    ensures
        collect_some(s, f).len() <= s.len(),
        forall|i: int| 0 <= i < collect_some(s, f).len() ==> q(#[trigger] collect_some(s, f)[i]),
    decreases s.len(),
{
    if s.len() > 0 {
        lemma_collect_some_all(s.drop_last(), f, q);
        assert(f(s.last()) is Some ==> q(f(s.last())->0));
    }
}

/// An item is in two sequences put together exactly when it is in one of them.
pub proof fn lemma_add_contains<A>(a: Seq<A>, b: Seq<A>, x: A)
    ensures
        (a + b).contains(x) <==> (a.contains(x) || b.contains(x)),
{
    if a.contains(x) {
        let i = choose|i: int| 0 <= i < a.len() && a[i] == x;
        assert((a + b)[i] == x);
    }
    if b.contains(x) {
        let j = choose|j: int| 0 <= j < b.len() && b[j] == x;
        assert((a + b)[a.len() + j] == x);
    }
    if (a + b).contains(x) {
        let j = choose|j: int| 0 <= j < (a + b).len() && (a + b)[j] == x;
        if j < a.len() {
            assert(a[j] == x);
        } else {
            assert(b[j - a.len()] == x);
        }
    }
}

/// An item is in `concat_map(s, f)` exactly when `f` gives it for some item
/// of `s`.
pub proof fn lemma_concat_map_contains<A, B>(s: Seq<A>, f: spec_fn(A) -> Seq<B>, x: B)
    ensures
        concat_map(s, f).contains(x) <==> exists|i: int| 0 <= i < s.len() && #[trigger] f(s[i]).contains(x),
    decreases s.len(),
{
    if s.len() > 0 {
        let d = s.drop_last();
        lemma_concat_map_contains(d, f, x);
        lemma_add_contains(concat_map(d, f), f(s.last()), x);
        if concat_map(s, f).contains(x) {
            if f(s.last()).contains(x) {
                assert(f(s[s.len() - 1]).contains(x));
            } else {
                let i = choose|i: int| 0 <= i < d.len() && #[trigger] f(d[i]).contains(x);
                assert(s[i] == d[i]);
            }
        }
        if exists|i: int| 0 <= i < s.len() && #[trigger] f(s[i]).contains(x) {
            let i = choose|i: int| 0 <= i < s.len() && #[trigger] f(s[i]).contains(x);
            if i < s.len() - 1 {
                assert(d[i] == s[i]);
                assert(f(d[i]).contains(x));
            }
        }
    }
}

/// Every item that `f` gives meets `q`, so every item of `concat_map` does.
pub proof fn lemma_concat_map_all<A, B>(s: Seq<A>, f: spec_fn(A) -> Seq<B>, q: spec_fn(B) -> bool)
    requires
        forall|a: A, j: int| 0 <= j < f(a).len() ==> q(#[trigger] f(a)[j]),
    ensures
        forall|i: int| 0 <= i < concat_map(s, f).len() ==> q(#[trigger] concat_map(s, f)[i]),
    decreases s.len(),
{
    if s.len() > 0 {
        lemma_concat_map_all(s.drop_last(), f, q);
        let a = concat_map(s.drop_last(), f);
        let b = f(s.last());
        assert forall|i: int| 0 <= i < (a + b).len() implies q(#[trigger] (a + b)[i]) by {
            if i >= a.len() {
                assert((a + b)[i] == b[i - a.len()]);
            }
        }
    }
}

/// A finding made of the given parts.
pub fn finding(
    category: &str,
    severity: Severity,
    title: String,
    description: String,
    kind: &str,
    extra: Extra,
) -> (f: Finding)
    ensures
        f@ == with_extra(category@, severity, title@, description@, kind@, extra@),
{
    Finding {
        category: category.to_owned(),
        severity,
        title,
        description,
        kind: kind.to_owned(),
        extra,
    }
}

/// A finding whose parts are all fixed words.
pub fn fixed(category: &str, severity: Severity, title: &str, description: &str, kind: &str) -> (f: Finding)
    ensures
        f@ == plain(category@, severity, title@, description@, kind@),
{
    finding(category, severity, title.to_owned(), description.to_owned(), kind, Extra::Plain)
}

/// Appends `f` to `out`.
pub fn push_finding(out: &mut Vec<Finding>, f: Finding)
    ensures
        views(final(out)@) == views(old(out)@).push(f@),
{
    let ghost before = out@;
    out.push(f);
    assert(views(out@) =~= views(before).push(f@));
}

/// Appends `f` to `out` where `b` holds.
pub fn push_if(out: &mut Vec<Finding>, b: bool, f: Finding)
    ensures
        views(final(out)@) == views(old(out)@) + only_if(b, f@),
{
    let ghost before = out@;
    if b {
        push_finding(out, f);
        assert(views(out@) =~= views(before) + only_if(b, f@));
    } else {
        assert(views(out@) =~= views(before) + only_if(b, f@));
    }
}

/// Appends all of `more` to `out`.
pub fn push_all(out: &mut Vec<Finding>, more: Vec<Finding>)
    ensures
        views(final(out)@) == views(old(out)@) + views(more@),
{
    let ghost before = out@;
    let ghost m = more@;
    let mut more = more;
    out.append(&mut more);
    assert(views(out@) =~= views(before) + views(m)) by {
        assert(out@ =~= before + m);
    }
}

/// The strings `a` and `b`.
pub fn strings2(a: &str, b: &str) -> (v: Vec<String>)
    ensures
        strs(v@) == seq![a@, b@],
{
    let mut v: Vec<String> = Vec::new();
    v.push(a.to_owned());
    v.push(b.to_owned());
    assert(strs(v@) =~= seq![a@, b@]);
    v
}

/// The strings `a`, `b` and `c`.
pub fn strings3(a: &str, b: &str, c: &str) -> (v: Vec<String>)
    ensures
        strs(v@) == seq![a@, b@, c@],
{
    let mut v = strings2(a, b);
    let ghost before = v@;
    v.push(c.to_owned());
    assert(strs(v@) =~= strs(before).push(c@));
    v
}

/// The strings `a`, `b`, `c` and `d`.
pub fn strings4(a: &str, b: &str, c: &str, d: &str) -> (v: Vec<String>)
    ensures
        strs(v@) == seq![a@, b@, c@, d@],
{
    let mut v = strings3(a, b, c);
    let ghost before = v@;
    v.push(d.to_owned());
    assert(strs(v@) =~= strs(before).push(d@));
    v
}

/// `prefix` followed by the decimal digits of `n`.
pub fn with_number(prefix: &str, n: u64) -> (r: String)
    ensures
        r@ == prefix@ + crate::text::decimal(n as nat),
{
    let d = u64_to_text(n);
    concat(prefix, &d)
}

/// The decimal digits of `n` followed by `suffix`.
pub fn number_then(n: u64, suffix: &str) -> (r: String)
    ensures
        r@ == crate::text::decimal(n as nat) + suffix@,
{
    let d = u64_to_text(n);
    concat(&d, suffix)
}


/// The values that `f` gives for the items of `s`, one after another.
pub open spec fn concat_map<A, B>(s: Seq<A>, f: spec_fn(A) -> Seq<B>) -> Seq<B>
    decreases s.len(),
{
    if s.len() == 0 {
        Seq::empty()
    } else {
        concat_map(s.drop_last(), f) + f(s.last())
    }
}

/// The first `n` items of `s`, or all of them where it has fewer.
pub open spec fn first_n<A>(s: Seq<A>, n: int) -> Seq<A> {
    if s.len() <= n {
        s
    } else {
        s.take(n)
    }
}

/// `s` without its first `n` items, or nothing where it has no more.
pub open spec fn drop_n<A>(s: Seq<A>, n: int) -> Seq<A> {
    if s.len() <= n {
        Seq::empty()
    } else {
        s.skip(n)
    }
}

/// Keeps the first `n` items of `v`.
pub fn keep_first<T>(v: &mut Vec<T>, n: usize)
    ensures
        final(v)@ == first_n(old(v)@, n as int),
{
    v.truncate(n);
}

/// Whether `p` is among `items`.
pub fn listed(items: &Vec<String>, p: &str) -> (b: bool)
    ensures
        b == strs(items@).contains(p@),
{
    let mut i: usize = 0;
    while i < items.len()
        invariant
            i <= items@.len(),
            forall|j: int| 0 <= j < i ==> items@[j]@ != p@,
        decreases items@.len() - i,
    {
        if crate::text::str_eq(items[i].as_str(), p) {
            assert(strs(items@)[i as int] == p@);
            return true;
        }
        i = i + 1;
    }
    assert forall|j: int| 0 <= j < strs(items@).len() implies strs(items@)[j] != p@ by {
        assert(strs(items@)[j] == items@[j]@);
    }
    false
}

/// The words of the report for a platform that has no collector.
pub open spec fn generic_note() -> Seq<char> {
    "Forensic data collection not implemented for this platform"@
}

/// The collector for platforms that have none of their own.
pub struct GenericForensicCollector;

impl GenericForensicCollector {
    /// The report for the operating system named `os`: no findings, and a
    /// note that says so.
    pub fn collect(&self, os: &str) -> (r: ForensicReport)
        ensures
            r@.platform == os@,
            r@.variant is None,
            r@.note == Some(generic_note()),
            r@.findings.len() == 0,
    {
        ForensicReport {
            platform: os.to_owned(),
            variant: None,
            note: Some("Forensic data collection not implemented for this platform".to_owned()),
            findings: Vec::new(),
        }
    }

    /// The platform this collector is for: "generic".
    pub fn platform(&self) -> (r: &'static str)
        ensures
            r@ == "generic"@,
    {
        "generic"
    }
}

/// The collectors the agent can run.
#[derive(Clone, Copy, Debug, PartialEq, Eq, Structural)]
pub enum CollectorKind {
    LinuxDetailed,
    Windows,
    MacOSDetailed,
    Generic,
}

/// The collector for the operating system `os` (as `std::env::consts::OS`
/// names it): the detailed one on Linux and macOS, the Windows one on
/// Windows, the generic one elsewhere.
pub fn get_collector(os: &str) -> (k: CollectorKind)
    ensures
        k == (if os@ == "linux"@ {
            CollectorKind::LinuxDetailed
        } else if os@ == "windows"@ {
            CollectorKind::Windows
        } else if os@ == "macos"@ {
            CollectorKind::MacOSDetailed
        } else {
            CollectorKind::Generic
        }),
{
    if crate::text::str_eq(os, "linux") {
        CollectorKind::LinuxDetailed
    } else if crate::text::str_eq(os, "windows") {
        CollectorKind::Windows
    } else if crate::text::str_eq(os, "macos") {
        CollectorKind::MacOSDetailed
    } else {
        CollectorKind::Generic
    }
}
} // verus!
