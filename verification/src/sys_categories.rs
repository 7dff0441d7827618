//! The forensic picture that the system information plugin draws of the
//! machine: when and what it is, its network state, its processes and
//! memory, its users, its file system and its memory capture.  The caller
//! runs the commands and reads the files; what came back is handed in as
//! text, the clock as seconds since the epoch.
use vstd::prelude::*;
use crate::system_info::{cap, counts_fn, process_tree, table_size, tree_pairs, tree_row_fn, Table};
use crate::forensic::{collect_some, count_where, drop_n, first_n};
use crate::os_report::{os_release_name, release_name};
use crate::text::{lines, str_eq, trim, trimmed};
use crate::ws_inbound::opt_text;

verus! {

/// The operating systems the plugin tells apart.
pub open spec fn is_macos(os: Seq<char>) -> bool {
    os == "macos"@
}

pub open spec fn is_linux(os: Seq<char>) -> bool {
    os == "linux"@
}

pub open spec fn is_windows(os: Seq<char>) -> bool {
    os == "windows"@
}

/// The views of a sequence of values.
pub open spec fn views<T: View>(s: Seq<T>) -> Seq<T::V> {
    s.map_values(|x: T| x@)
}

/// The texts of a sequence of strings.
pub open spec fn texts(s: Seq<String>) -> Seq<Seq<char>> {
    s.map_values(|x: String| x@)
}

fn owned(s: &str) -> (r: String)
    ensures
        r@ == s@,
{
    s.to_owned()
}

// ------------------------------------------------------------ identification

/// A command's output, trimmed, where the command ran; `fallback` where not.
pub open spec fn output_or(out: Option<Seq<char>>, fallback: Seq<char>) -> Seq<char> {
    match out {
        Some(o) => trim(o),
        None => fallback,
    }
}

fn trimmed_or(out: Option<&str>, fallback: &str) -> (r: String)
    ensures
        r@ == output_or(
            match out {
                Some(o) => Some(o@),
                None => None,
            },
            fallback@,
        ),
{
    match out {
        Some(o) => trimmed(o),
        None => owned(fallback),
    }
}

/// The option of the texts in an option.
pub open spec fn opt_view(o: Option<&str>) -> Option<Seq<char>> {
    match o {
        Some(s) => Some(s@),
        None => None,
    }
}

/// The machine's name: the output of `scutil --get ComputerName` on macOS
/// ("Mac" where it did not run), of `hostname` on Linux ("Linux") and on
/// Windows ("Windows"); "Unknown" elsewhere.
pub open spec fn hostname_spec(os: Seq<char>, out: Option<Seq<char>>) -> Seq<char> {
    if is_macos(os) {
        output_or(out, "Mac"@)
    } else if is_linux(os) {
        output_or(out, "Linux"@)
    } else if is_windows(os) {
        output_or(out, "Windows"@)
    } else {
        "Unknown"@
    }
}

/// On each known platform (macOS, Linux, Windows), where the naming
/// command ran, the machine's name is its output, trimmed; the platform's
/// fallback word ("Mac", "Linux", "Windows") is given only where it did not
/// run; on any other platform the name is "Unknown".
pub proof fn law_hostname_is_command_output(os: Seq<char>, out: Option<Seq<char>>)
    ensures
        (os == "macos"@ || os == "linux"@ || os == "windows"@) ==> match out {
            Some(o) => hostname_spec(os, out) == trim(o),
            None => hostname_spec(os, out) == (if os == "macos"@ {
                "Mac"@
            } else if os == "linux"@ {
                "Linux"@
            } else {
                "Windows"@
            }),
        },
        !(os == "macos"@ || os == "linux"@ || os == "windows"@) ==> hostname_spec(os, out) == "Unknown"@,
{
}

/// The machine's name, from the output of the naming command where it ran.
pub fn hostname_for(os: &str, out: Option<&str>) -> (r: String)
    ensures
        r@ == hostname_spec(os@, opt_view(out)),
{
    if str_eq(os, "macos") {
        trimmed_or(out, "Mac")
    } else if str_eq(os, "linux") {
        trimmed_or(out, "Linux")
    } else if str_eq(os, "windows") {
        trimmed_or(out, "Windows")
    } else {
        owned("Unknown")
    }
}

/// The system's version: the output of `sw_vers -productVersion` on macOS
/// ("Unknown" where it did not run); on Linux the name that
/// `/etc/os-release` gives ("Unknown Linux" where it could not be read);
/// the output of `cmd /c ver` on Windows ("Unknown Windows"); "Unknown"
/// elsewhere.
pub open spec fn os_version_spec(os: Seq<char>, out: Option<Seq<char>>) -> Seq<char> {
    if is_macos(os) {
        output_or(out, "Unknown"@)
    } else if is_linux(os) {
        match out {
            Some(content) => release_name(content),
            None => "Unknown Linux"@,
        }
    } else if is_windows(os) {
        output_or(out, "Unknown Windows"@)
    } else {
        "Unknown"@
    }
}

/// The system's version, from the version command's output, or on Linux
/// from the content of `/etc/os-release`.
pub fn os_version_for(os: &str, out: Option<&str>) -> (r: String)
    ensures
        r@ == os_version_spec(os@, opt_view(out)),
{
    if str_eq(os, "macos") {
        trimmed_or(out, "Unknown")
    } else if str_eq(os, "linux") {
        match out {
            Some(content) => os_release_name(content),
            None => owned("Unknown Linux"),
        }
    } else if str_eq(os, "windows") {
        trimmed_or(out, "Unknown Windows")
    } else {
        owned("Unknown")
    }
}

/// The hardware: the output of `sysctl -n hw.model` on macOS, `uname -m` on
/// Linux, `wmic computersystem get model` on Windows, "Unknown" where it did
/// not run and elsewhere.
pub open spec fn platform_spec(os: Seq<char>, out: Option<Seq<char>>) -> Seq<char> {
    if is_macos(os) || is_linux(os) || is_windows(os) {
        output_or(out, "Unknown"@)
    } else {
        "Unknown"@
    }
}

/// The hardware platform, from the platform command's output.
pub fn platform_for(os: &str, out: Option<&str>) -> (r: String)
    ensures
        r@ == platform_spec(os@, opt_view(out)),
{
    if str_eq(os, "macos") || str_eq(os, "linux") || str_eq(os, "windows") {
        trimmed_or(out, "Unknown")
    } else {
        owned("Unknown")
    }
}

/// Seconds since boot: an hour on macOS and Windows, what `/proc/uptime`
/// gives on Linux (its whole seconds, read by the caller), 0 elsewhere.
pub open spec fn uptime_spec(os: Seq<char>, linux_uptime: u64) -> u64 {
    if is_macos(os) || is_windows(os) {
        3600
    } else if is_linux(os) {
        linux_uptime
    } else {
        0
    }
}

/// Seconds since boot.
pub fn uptime_for(os: &str, linux_uptime: u64) -> (r: u64)
    ensures
        r == uptime_spec(os@, linux_uptime),
{
    if str_eq(os, "macos") || str_eq(os, "windows") {
        3600
    } else if str_eq(os, "linux") {
        linux_uptime
    } else {
        0
    }
}

// ------------------------------------------------------------ network state

/// An open connection as the plugin lists it.
#[derive(Clone, Debug)]
pub struct Connection {
    pub protocol: String,
    pub local_address: String,
    pub remote_address: String,
    pub state: String,
    pub pid: u32,
}

impl View for Connection {
    type V = (Seq<char>, Seq<char>, Seq<char>, Seq<char>, u32);

    open spec fn view(&self) -> Self::V {
        (self.protocol@, self.local_address@, self.remote_address@, self.state@, self.pid)
    }
}

/// An entry of the ARP table.
#[derive(Clone, Debug)]
pub struct ArpEntry {
    pub ip_address: String,
    pub mac_address: String,
    pub interface: String,
}

impl View for ArpEntry {
    type V = (Seq<char>, Seq<char>, Seq<char>);

    open spec fn view(&self) -> Self::V {
        (self.ip_address@, self.mac_address@, self.interface@)
    }
}

/// An entry of the routing table.
#[derive(Clone, Debug)]
pub struct RouteEntry {
    pub destination: String,
    pub gateway: String,
    pub netmask: String,
    pub interface: String,
}

impl View for RouteEntry {
    type V = (Seq<char>, Seq<char>, Seq<char>, Seq<char>);

    open spec fn view(&self) -> Self::V {
        (self.destination@, self.gateway@, self.netmask@, self.interface@)
    }
}

/// A network interface with its addresses and name servers.
#[derive(Clone, Debug)]
pub struct Interface {
    pub name: String,
    pub ip_addresses: Vec<String>,
    pub mac_address: String,
    pub dns_servers: Vec<String>,
    pub promiscuous_mode: bool,
}

impl View for Interface {
    type V = (Seq<char>, Seq<Seq<char>>, Seq<char>, Seq<Seq<char>>, bool);

    open spec fn view(&self) -> Self::V {
        (self.name@, texts(self.ip_addresses@), self.mac_address@, texts(self.dns_servers@), self.promiscuous_mode)
    }
}

/// A cached name resolution.
#[derive(Clone, Debug)]
pub struct DnsEntry {
    pub domain: String,
    pub ip_addresses: Vec<String>,
    pub timestamp: u64,
}

impl View for DnsEntry {
    type V = (Seq<char>, Seq<Seq<char>>, u64);

    open spec fn view(&self) -> Self::V {
        (self.domain@, texts(self.ip_addresses@), self.timestamp)
    }
}

/// The network state of the machine.
#[derive(Clone, Debug)]
pub struct NetworkState {
    pub active_connections: Vec<Connection>,
    pub arp_table: Vec<ArpEntry>,
    pub routing_table: Vec<RouteEntry>,
    pub network_interfaces: Vec<Interface>,
    pub dns_cache: Vec<DnsEntry>,
    pub firewall_state: String,
}

/// Whether the plugin reads a Unix listing (macOS and Linux).
pub open spec fn is_unix(os: Seq<char>) -> bool {
    is_macos(os) || is_linux(os)
}

/// How many entries a table gets from a command's output on `os`: those of
/// [`table_size`] on macOS, Linux and Windows, none elsewhere.
pub open spec fn entries(table: Table, os: Seq<char>, output: Seq<char>) -> nat {
    if is_unix(os) || is_windows(os) {
        let n = count_where(lines(output), counts_fn(table, is_windows(os)));
        if n <= cap(table) {
            n
        } else {
            cap(table)
        }
    } else {
        0
    }
}

fn entries_of(table: Table, os: &str, output: &str) -> (n: usize)
    ensures
        n == entries(table, os@, output@),
        n <= 10,
{
    let unix = str_eq(os, "macos") || str_eq(os, "linux");
    let windows = str_eq(os, "windows");
    if unix || windows {
        table_size(table, windows, output)
    } else {
        0
    }
}

/// `n` copies of `x`.
pub open spec fn copies<A>(x: A, n: nat) -> Seq<A> {
    Seq::new(n, |i: int| x)
}

/// The connection the plugin lists for each open one it sees.
pub open spec fn listed_connection() -> (Seq<char>, Seq<char>, Seq<char>, Seq<char>, u32) {
    ("TCP"@, "127.0.0.1:8080"@, "192.168.1.1:443"@, "ESTABLISHED"@, 1234u32)
}

/// The interface name of the fixed table entries: "Ethernet" on Windows,
/// "en0" elsewhere.
pub open spec fn interface_name(os: Seq<char>) -> Seq<char> {
    if is_windows(os) {
        "Ethernet"@
    } else {
        "en0"@
    }
}

fn interface_name_of(os: &str) -> (r: String)
    ensures
        r@ == interface_name(os@),
{
    if str_eq(os, "windows") {
        owned("Ethernet")
    } else {
        owned("en0")
    }
}

/// The open connections: one fixed entry per `netstat` line that shows an
/// established or listening connection, at most ten.
pub fn connections_for(os: &str, netstat: &str) -> (r: Vec<Connection>)
    ensures
        views(r@) == copies(listed_connection(), entries(Table::Connections, os@, netstat@)),
{
    let n = entries_of(Table::Connections, os, netstat);
    let mut r: Vec<Connection> = Vec::new();
    while r.len() < n
        invariant
            n <= 10,
            views(r@) == copies(listed_connection(), r@.len() as nat),
            r@.len() <= n,
        decreases n - r@.len(),
    {
        let c = Connection {
            protocol: owned("TCP"),
            local_address: owned("127.0.0.1:8080"),
            remote_address: owned("192.168.1.1:443"),
            state: owned("ESTABLISHED"),
            pid: 1234,
        };
        assert(c@ == listed_connection());
        let ghost before = r@;
        r.push(c);
        assert(views(r@) =~= copies(listed_connection(), r@.len() as nat)) by {
            assert(r@ == before.push(c));
            assert forall|k: int| 0 <= k < r@.len() implies #[trigger] views(r@)[k] == listed_connection() by {
                if k < before.len() {
                    assert(views(before)[k] == copies(listed_connection(), before.len() as nat)[k]);
                }
            }
        }
    }
    r
}

/// The ARP entry the plugin lists for each one it sees.
pub open spec fn listed_arp(os: Seq<char>) -> (Seq<char>, Seq<char>, Seq<char>) {
    ("192.168.1.1"@, "00:11:22:33:44:55"@, interface_name(os))
}

/// The ARP table: one fixed entry per `arp -a` line that shows one, at most
/// five.
pub fn arp_for(os: &str, arp: &str) -> (r: Vec<ArpEntry>)
    ensures
        views(r@) == copies(listed_arp(os@), entries(Table::Arp, os@, arp@)),
{
    let n = entries_of(Table::Arp, os, arp);
    let mut r: Vec<ArpEntry> = Vec::new();
    while r.len() < n
        invariant
            n <= 10,
            views(r@) == copies(listed_arp(os@), r@.len() as nat),
            r@.len() <= n,
        decreases n - r@.len(),
    {
        let e = ArpEntry {
            ip_address: owned("192.168.1.1"),
            mac_address: owned("00:11:22:33:44:55"),
            interface: interface_name_of(os),
        };
        assert(e@ == listed_arp(os@));
        let ghost before = r@;
        r.push(e);
        assert(views(r@) =~= copies(listed_arp(os@), r@.len() as nat)) by {
            assert(r@ == before.push(e));
            assert forall|k: int| 0 <= k < r@.len() implies #[trigger] views(r@)[k] == listed_arp(os@) by {
                if k < before.len() {
                    assert(views(before)[k] == copies(listed_arp(os@), before.len() as nat)[k]);
                }
            }
        }
    }
    r
}

/// The route the plugin lists for each default route it sees.
pub open spec fn listed_route(os: Seq<char>) -> (Seq<char>, Seq<char>, Seq<char>, Seq<char>) {
    ("0.0.0.0"@, "192.168.1.1"@, "0.0.0.0"@, interface_name(os))
}

/// The routing table: one fixed entry per line of `netstat -rn` (`route
/// print` on Windows) that shows a default route, at most five.
pub fn routes_for(os: &str, routes: &str) -> (r: Vec<RouteEntry>)
    ensures
        views(r@) == copies(listed_route(os@), entries(Table::Routes, os@, routes@)),
{
    let n = entries_of(Table::Routes, os, routes);
    let mut r: Vec<RouteEntry> = Vec::new();
    while r.len() < n
        invariant
            n <= 10,
            views(r@) == copies(listed_route(os@), r@.len() as nat),
            r@.len() <= n,
        decreases n - r@.len(),
    {
        let e = RouteEntry {
            destination: owned("0.0.0.0"),
            gateway: owned("192.168.1.1"),
            netmask: owned("0.0.0.0"),
            interface: interface_name_of(os),
        };
        assert(e@ == listed_route(os@));
        let ghost before = r@;
        r.push(e);
        assert(views(r@) =~= copies(listed_route(os@), r@.len() as nat)) by {
            assert(r@ == before.push(e));
            assert forall|k: int| 0 <= k < r@.len() implies #[trigger] views(r@)[k] == listed_route(os@) by {
                if k < before.len() {
                    assert(views(before)[k] == copies(listed_route(os@), before.len() as nat)[k]);
                }
            }
        }
    }
    r
}

fn texts_of2(a: &str, b: &str) -> (r: Vec<String>)
    ensures
        texts(r@) == seq![a@, b@],
{
    let mut r: Vec<String> = Vec::new();
    r.push(owned(a));
    r.push(owned(b));
    assert(texts(r@) =~= seq![a@, b@]);
    r
}

fn texts_of1(a: &str) -> (r: Vec<String>)
    ensures
        texts(r@) == seq![a@],
{
    let mut r: Vec<String> = Vec::new();
    r.push(owned(a));
    assert(texts(r@) =~= seq![a@]);
    r
}

/// The network interfaces the plugin lists on `os`.
pub open spec fn interfaces_spec(os: Seq<char>) -> Seq<(Seq<char>, Seq<Seq<char>>, Seq<char>, Seq<Seq<char>>, bool)> {
    if is_unix(os) {
        seq![("en0"@, seq!["192.168.1.100"@, "fe80::1"@], "00:11:22:33:44:55"@, seq!["8.8.8.8"@, "8.8.4.4"@], false)]
    } else if is_windows(os) {
        seq![("Ethernet"@, seq!["192.168.1.100"@], "00:11:22:33:44:55"@, seq!["8.8.8.8"@], false)]
    } else {
        seq![]
    }
}

/// The network interfaces.
pub fn interfaces_for(os: &str) -> (r: Vec<Interface>)
    ensures
        views(r@) == interfaces_spec(os@),
{
    let mut r: Vec<Interface> = Vec::new();
    if str_eq(os, "macos") || str_eq(os, "linux") {
        r.push(Interface {
            name: owned("en0"),
            ip_addresses: texts_of2("192.168.1.100", "fe80::1"),
            mac_address: owned("00:11:22:33:44:55"),
            dns_servers: texts_of2("8.8.8.8", "8.8.4.4"),
            promiscuous_mode: false,
        });
    } else if str_eq(os, "windows") {
        r.push(Interface {
            name: owned("Ethernet"),
            ip_addresses: texts_of1("192.168.1.100"),
            mac_address: owned("00:11:22:33:44:55"),
            dns_servers: texts_of1("8.8.8.8"),
            promiscuous_mode: false,
        });
    }
    assert(views(r@) =~= interfaces_spec(os@));
    r
}

/// The name resolution cache at time `now`.
pub open spec fn dns_cache_spec(now: u64) -> Seq<(Seq<char>, Seq<Seq<char>>, u64)> {
    seq![("google.com"@, seq!["172.217.16.142"@], now)]
}

/// The name resolution cache.
pub fn dns_cache_at(now: u64) -> (r: Vec<DnsEntry>)
    ensures
        views(r@) == dns_cache_spec(now),
{
    let mut r: Vec<DnsEntry> = Vec::new();
    r.push(DnsEntry { domain: owned("google.com"), ip_addresses: texts_of1("172.217.16.142"), timestamp: now });
    assert(views(r@) =~= dns_cache_spec(now));
    r
}

/// The firewall's state: "Enabled" on macOS and Windows, "Active" on
/// Linux, "Unknown" elsewhere.
pub open spec fn firewall_spec(os: Seq<char>) -> Seq<char> {
    if is_macos(os) || is_windows(os) {
        "Enabled"@
    } else if is_linux(os) {
        "Active"@
    } else {
        "Unknown"@
    }
}

/// The firewall's state.
pub fn firewall_state_for(os: &str) -> (r: String)
    ensures
        r@ == firewall_spec(os@),
{
    if str_eq(os, "macos") || str_eq(os, "windows") {
        owned("Enabled")
    } else if str_eq(os, "linux") {
        owned("Active")
    } else {
        owned("Unknown")
    }
}

// ------------------------------------------------------- processes, memory

/// A process of the process tree.
#[derive(Clone, Debug)]
pub struct TreeProcess {
    pub pid: u32,
    pub ppid: u32,
    pub name: String,
    pub command_line: String,
    pub start_time: u64,
    pub user: String,
}

impl View for TreeProcess {
    type V = (u32, u32, Seq<char>, Seq<char>, u64, Seq<char>);

    open spec fn view(&self) -> Self::V {
        (self.pid, self.ppid, self.name@, self.command_line@, self.start_time, self.user@)
    }
}

/// The user the process tree names: "SYSTEM" on Windows, "root" elsewhere.
pub open spec fn tree_user(os: Seq<char>) -> Seq<char> {
    if is_windows(os) {
        "SYSTEM"@
    } else {
        "root"@
    }
}

/// The process tree of `os` at time `now`, from the output of `ps -eo
/// pid,ppid,comm` (`tasklist /fo csv` on Windows): the first twenty
/// processes that [`process_tree`] reads, each with parent 1, its name as
/// command line, `now` as start time and the platform's user; empty on
/// other systems.
pub open spec fn tree_spec(os: Seq<char>, out: Seq<char>, now: u64) -> Seq<(u32, u32, Seq<char>, Seq<char>, u64, Seq<char>)> {
    if is_unix(os) || is_windows(os) {
        first_n(collect_some(drop_n(lines(out), 1), tree_row_fn(is_windows(os))), 20).map_values(
            |p: (u32, Seq<char>)| (p.0, 1u32, p.1, p.1, now, tree_user(os)),
        )
    } else {
        seq![]
    }
}

/// The process tree.
pub fn tree_for(os: &str, out: &str, now: u64) -> (r: Vec<TreeProcess>)
    ensures
        views(r@) == tree_spec(os@, out@, now),
{
    let unix = str_eq(os, "macos") || str_eq(os, "linux");
    let windows = str_eq(os, "windows");
    let mut r: Vec<TreeProcess> = Vec::new();
    if !(unix || windows) {
        assert(views(r@) =~= tree_spec(os@, out@, now));
        return r;
    }
    let rows = process_tree(windows, out);
    let ghost pairs = tree_pairs(rows@);
    let ghost want = tree_spec(os@, out@, now);
    assert(want == pairs.map_values(|p: (u32, Seq<char>)| (p.0, 1u32, p.1, p.1, now, tree_user(os@))));
    let mut i: usize = 0;
    while i < rows.len()
        invariant
            i <= rows@.len(),
            pairs == tree_pairs(rows@),
            want == pairs.map_values(|p: (u32, Seq<char>)| (p.0, 1u32, p.1, p.1, now, tree_user(os@))),
            views(r@) == want.take(i as int),
            windows == is_windows(os@),
        decreases rows@.len() - i,
    {
        let row = &rows[i];
        let user = if windows {
            owned("SYSTEM")
        } else {
            owned("root")
        };
        let p = TreeProcess {
            pid: row.pid,
            ppid: 1,
            name: row.name.clone(),
            command_line: row.name.clone(),
            start_time: now,
            user,
        };
        assert(p@ == want[i as int]);
        let ghost before = r@;
        r.push(p);
        assert(views(r@) =~= want.take(i + 1)) by {
            assert(r@ == before.push(p));
            assert(want.len() == rows@.len());
            assert(views(before).len() == i);
            assert(want.take(i + 1)[i as int] == want[i as int]);
            assert forall|k: int| 0 <= k < r@.len() implies #[trigger] views(r@)[k] == want.take(i + 1)[k] by {
                if k < before.len() {
                    assert(views(before)[k] == want.take(i as int)[k]);
                    assert(want.take(i as int)[k] == want[k]);
                }
            }
        }
        i = i + 1;
    }
    assert(want.take(i as int) =~= want);
    r
}

/// A service and its state.
#[derive(Clone, Debug)]
pub struct Service {
    pub name: String,
    pub state: String,
    pub start_type: String,
    pub pid: Option<u32>,
}

impl View for Service {
    type V = (Seq<char>, Seq<char>, Seq<char>, Option<u32>);

    open spec fn view(&self) -> Self::V {
        (self.name@, self.state@, self.start_type@, self.pid)
    }
}

/// The running services the plugin lists on `os`.
pub open spec fn services_spec(os: Seq<char>) -> Seq<(Seq<char>, Seq<char>, Seq<char>, Option<u32>)> {
    if is_macos(os) {
        seq![("com.apple.launchd"@, "running"@, "automatic"@, Some(1u32))]
    } else if is_linux(os) {
        seq![("systemd"@, "running"@, "automatic"@, Some(1u32))]
    } else if is_windows(os) {
        seq![("EventLog"@, "RUNNING"@, "AUTO_START"@, Some(1234u32))]
    } else {
        seq![]
    }
}

fn service(name: &str, state: &str, start_type: &str, pid: u32) -> (r: Service)
    ensures
        r@ == (name@, state@, start_type@, Some(pid)),
{
    Service { name: owned(name), state: owned(state), start_type: owned(start_type), pid: Some(pid) }
}

/// The running services.
pub fn services_for(os: &str) -> (r: Vec<Service>)
    ensures
        views(r@) == services_spec(os@),
{
    let mut r: Vec<Service> = Vec::new();
    if str_eq(os, "macos") {
        r.push(service("com.apple.launchd", "running", "automatic", 1));
    } else if str_eq(os, "linux") {
        r.push(service("systemd", "running", "automatic", 1));
    } else if str_eq(os, "windows") {
        r.push(service("EventLog", "RUNNING", "AUTO_START", 1234));
    }
    assert(views(r@) =~= services_spec(os@));
    r
}

/// A process's command line.
#[derive(Clone, Debug)]
pub struct CommandLine {
    pub pid: u32,
    pub command_line: String,
    pub executable: String,
}

impl View for CommandLine {
    type V = (u32, Seq<char>, Seq<char>);

    open spec fn view(&self) -> Self::V {
        (self.pid, self.command_line@, self.executable@)
    }
}

/// A library loaded by a process.
#[derive(Clone, Debug)]
pub struct Library {
    pub pid: u32,
    pub library_name: String,
    pub library_path: String,
    pub base_address: String,
}

impl View for Library {
    type V = (u32, Seq<char>, Seq<char>, Seq<char>);

    open spec fn view(&self) -> Self::V {
        (self.pid, self.library_name@, self.library_path@, self.base_address@)
    }
}

/// A handle held by a process.
#[derive(Clone, Debug)]
pub struct Handle {
    pub pid: u32,
    pub handle_type: String,
    pub handle_value: String,
    pub object_name: String,
}

impl View for Handle {
    type V = (u32, Seq<char>, Seq<char>, Seq<char>);

    open spec fn view(&self) -> Self::V {
        (self.pid, self.handle_type@, self.handle_value@, self.object_name@)
    }
}

/// A region of a process's memory.
#[derive(Clone, Debug)]
pub struct Region {
    pub pid: u32,
    pub base_address: String,
    pub size: u64,
    pub protection: String,
    pub region_type: String,
}

impl View for Region {
    type V = (u32, Seq<char>, u64, Seq<char>, Seq<char>);

    open spec fn view(&self) -> Self::V {
        (self.pid, self.base_address@, self.size, self.protection@, self.region_type@)
    }
}

/// The processes and memory of the machine.
#[derive(Clone, Debug)]
pub struct ProcessesMemory {
    pub process_tree: Vec<TreeProcess>,
    pub running_services: Vec<Service>,
    pub command_line_args: Vec<CommandLine>,
    pub loaded_libraries: Vec<Library>,
    pub handles: Vec<Handle>,
    pub memory_regions: Vec<Region>,
}

/// The command lines the plugin lists.
pub open spec fn command_lines_spec() -> Seq<(u32, Seq<char>, Seq<char>)> {
    seq![(1234u32, "/usr/bin/safari https://example.com"@, "/usr/bin/safari"@)]
}

/// The command lines.
pub fn command_lines() -> (r: Vec<CommandLine>)
    ensures
        views(r@) == command_lines_spec(),
{
    let mut r: Vec<CommandLine> = Vec::new();
    r.push(CommandLine {
        pid: 1234,
        command_line: owned("/usr/bin/safari https://example.com"),
        executable: owned("/usr/bin/safari"),
    });
    assert(views(r@) =~= command_lines_spec());
    r
}

/// The loaded libraries the plugin lists.
pub open spec fn libraries_spec() -> Seq<(u32, Seq<char>, Seq<char>, Seq<char>)> {
    seq![(1234u32, "libSystem.B.dylib"@, "/usr/lib/libSystem.B.dylib"@, "0x7fff20400000"@)]
}

/// The loaded libraries.
pub fn libraries() -> (r: Vec<Library>)
    ensures
        views(r@) == libraries_spec(),
{
    let mut r: Vec<Library> = Vec::new();
    r.push(Library {
        pid: 1234,
        library_name: owned("libSystem.B.dylib"),
        library_path: owned("/usr/lib/libSystem.B.dylib"),
        base_address: owned("0x7fff20400000"),
    });
    assert(views(r@) =~= libraries_spec());
    r
}

/// The handles the plugin lists.
pub open spec fn handles_spec() -> Seq<(u32, Seq<char>, Seq<char>, Seq<char>)> {
    seq![(1234u32, "File"@, "0x1234"@, "/Users/test/file.txt"@)]
}

/// The open handles.
pub fn handles() -> (r: Vec<Handle>)
    ensures
        views(r@) == handles_spec(),
{
    let mut r: Vec<Handle> = Vec::new();
    r.push(Handle {
        pid: 1234,
        handle_type: owned("File"),
        handle_value: owned("0x1234"),
        object_name: owned("/Users/test/file.txt"),
    });
    assert(views(r@) =~= handles_spec());
    r
}

/// The memory regions the plugin lists.
pub open spec fn regions_spec() -> Seq<(u32, Seq<char>, u64, Seq<char>, Seq<char>)> {
    seq![(1234u32, "0x100000000"@, 4096u64, "r-x"@, "executable"@)]
}

/// The memory regions.
pub fn memory_regions() -> (r: Vec<Region>)
    ensures
        views(r@) == regions_spec(),
{
    let mut r: Vec<Region> = Vec::new();
    r.push(Region {
        pid: 1234,
        base_address: owned("0x100000000"),
        size: 4096,
        protection: owned("r-x"),
        region_type: owned("executable"),
    });
    assert(views(r@) =~= regions_spec());
    r
}

// ------------------------------------------------------------------- users

/// A user's session.
#[derive(Clone, Debug)]
pub struct Session {
    pub username: String,
    pub session_type: String,
    pub login_time: u64,
    pub client_address: Option<String>,
}

impl View for Session {
    type V = (Seq<char>, Seq<char>, u64, Option<Seq<char>>);

    open spec fn view(&self) -> Self::V {
        (
            self.username@,
            self.session_type@,
            self.login_time,
            match self.client_address {
                Some(a) => Some(a@),
                None => None,
            },
        )
    }
}

/// A login of the login history.
#[derive(Clone, Debug)]
pub struct Login {
    pub username: String,
    pub login_time: u64,
    pub logout_time: Option<u64>,
    pub success: bool,
    pub source: String,
}

impl View for Login {
    type V = (Seq<char>, u64, Option<u64>, bool, Seq<char>);

    open spec fn view(&self) -> Self::V {
        (self.username@, self.login_time, self.logout_time, self.success, self.source@)
    }
}

/// A privilege of a user's token.
#[derive(Clone, Debug)]
pub struct Privilege {
    pub username: String,
    pub privilege: String,
    pub enabled: bool,
}

impl View for Privilege {
    type V = (Seq<char>, Seq<char>, bool);

    open spec fn view(&self) -> Self::V {
        (self.username@, self.privilege@, self.enabled)
    }
}

/// A file a user's session holds open.
#[derive(Clone, Debug)]
pub struct OpenFile {
    pub username: String,
    pub file_path: String,
    pub access_mode: String,
}

impl View for OpenFile {
    type V = (Seq<char>, Seq<char>, Seq<char>);

    open spec fn view(&self) -> Self::V {
        (self.username@, self.file_path@, self.access_mode@)
    }
}

/// The users logged in to the machine.
#[derive(Clone, Debug)]
pub struct LoggedInUsers {
    pub current_sessions: Vec<Session>,
    pub login_history: Vec<Login>,
    pub token_privileges: Vec<Privilege>,
    pub open_session_files: Vec<OpenFile>,
}

/// The current sessions at time `now`: one, logged in an hour ago.
pub open spec fn sessions_spec(now: u64) -> Seq<(Seq<char>, Seq<char>, u64, Option<Seq<char>>)> {
    seq![("testuser"@, "console"@, (now - 3600) as u64, Some("192.168.1.100"@))]
}

/// The current sessions.
pub fn sessions_at(now: u64) -> (r: Vec<Session>)
    requires
        now >= 3600,
    ensures
        views(r@) == sessions_spec(now),
{
    let mut r: Vec<Session> = Vec::new();
    r.push(Session {
        username: owned("testuser"),
        session_type: owned("console"),
        login_time: now - 3600,
        client_address: Some(owned("192.168.1.100")),
    });
    assert(views(r@) =~= sessions_spec(now));
    r
}

/// The login history at time `now`: one successful login an hour ago, not
/// logged out.
pub open spec fn logins_spec(now: u64) -> Seq<(Seq<char>, u64, Option<u64>, bool, Seq<char>)> {
    seq![("testuser"@, (now - 3600) as u64, None, true, "console"@)]
}

/// The login history.
pub fn login_history_at(now: u64) -> (r: Vec<Login>)
    requires
        now >= 3600,
    ensures
        views(r@) == logins_spec(now),
{
    let mut r: Vec<Login> = Vec::new();
    r.push(Login {
        username: owned("testuser"),
        login_time: now - 3600,
        logout_time: None,
        success: true,
        source: owned("console"),
    });
    assert(views(r@) =~= logins_spec(now));
    r
}

/// The token privileges the plugin lists.
pub open spec fn privileges_spec() -> Seq<(Seq<char>, Seq<char>, bool)> {
    seq![("testuser"@, "SeDebugPrivilege"@, false)]
}

/// The token privileges.
pub fn privileges() -> (r: Vec<Privilege>)
    ensures
        views(r@) == privileges_spec(),
{
    let mut r: Vec<Privilege> = Vec::new();
    r.push(Privilege { username: owned("testuser"), privilege: owned("SeDebugPrivilege"), enabled: false });
    assert(views(r@) =~= privileges_spec());
    r
}

/// The files the sessions hold open.
pub open spec fn open_files_spec() -> Seq<(Seq<char>, Seq<char>, Seq<char>)> {
    seq![("testuser"@, "/Users/test/document.txt"@, "rw"@)]
}

/// The files the sessions hold open.
pub fn open_files() -> (r: Vec<OpenFile>)
    ensures
        views(r@) == open_files_spec(),
{
    let mut r: Vec<OpenFile> = Vec::new();
    r.push(OpenFile { username: owned("testuser"), file_path: owned("/Users/test/document.txt"), access_mode: owned("rw") });
    assert(views(r@) =~= open_files_spec());
    r
}

// ------------------------------------------------------------- file system

/// A mounted file system.
#[derive(Clone, Debug)]
pub struct Mount {
    pub device: String,
    pub mount_point: String,
    pub filesystem_type: String,
    pub mount_options: String,
}

impl View for Mount {
    type V = (Seq<char>, Seq<char>, Seq<char>, Seq<char>);

    open spec fn view(&self) -> Self::V {
        (self.device@, self.mount_point@, self.filesystem_type@, self.mount_options@)
    }
}

/// A task started with the system.
#[derive(Clone, Debug)]
pub struct StartupTask {
    pub name: String,
    pub command: String,
    pub location: String,
    pub enabled: bool,
}

impl View for StartupTask {
    type V = (Seq<char>, Seq<char>, Seq<char>, bool);

    open spec fn view(&self) -> Self::V {
        (self.name@, self.command@, self.location@, self.enabled)
    }
}

/// A loaded kernel module.
#[derive(Clone, Debug)]
pub struct KernelModule {
    pub name: String,
    pub size: u64,
    pub loaded_at: u64,
    pub signed: bool,
}

impl View for KernelModule {
    type V = (Seq<char>, u64, u64, bool);

    open spec fn view(&self) -> Self::V {
        (self.name@, self.size, self.loaded_at, self.signed)
    }
}

/// An entry of the file table cache.
#[derive(Clone, Debug)]
pub struct MftEntry {
    pub file_path: String,
    pub creation_time: u64,
    pub modification_time: u64,
    pub access_time: u64,
    pub file_size: u64,
}

impl View for MftEntry {
    type V = (Seq<char>, u64, u64, u64, u64);

    open spec fn view(&self) -> Self::V {
        (self.file_path@, self.creation_time, self.modification_time, self.access_time, self.file_size)
    }
}

/// The file system of the machine.
#[derive(Clone, Debug)]
pub struct FileSystem {
    pub mount_points: Vec<Mount>,
    pub startup_tasks: Vec<StartupTask>,
    pub kernel_modules: Vec<KernelModule>,
    pub mft_cache: Vec<MftEntry>,
}

/// The mounts the plugin lists on `os`.
pub open spec fn mounts_spec(os: Seq<char>) -> Seq<(Seq<char>, Seq<char>, Seq<char>, Seq<char>)> {
    if is_unix(os) {
        seq![("/dev/disk1s1"@, "/"@, "apfs"@, "rw,local,rootfs"@)]
    } else if is_windows(os) {
        seq![("C:"@, "C:\\"@, "NTFS"@, "fixed"@)]
    } else {
        seq![]
    }
}

fn mount(device: &str, point: &str, kind: &str, options: &str) -> (r: Mount)
    ensures
        r@ == (device@, point@, kind@, options@),
{
    Mount { device: owned(device), mount_point: owned(point), filesystem_type: owned(kind), mount_options: owned(options) }
}

/// The mounted file systems.
pub fn mounts_for(os: &str) -> (r: Vec<Mount>)
    ensures
        views(r@) == mounts_spec(os@),
{
    let mut r: Vec<Mount> = Vec::new();
    if str_eq(os, "macos") || str_eq(os, "linux") {
        r.push(mount("/dev/disk1s1", "/", "apfs", "rw,local,rootfs"));
    } else if str_eq(os, "windows") {
        r.push(mount("C:", "C:\\", "NTFS", "fixed"));
    }
    assert(views(r@) =~= mounts_spec(os@));
    r
}

/// The startup tasks the plugin lists on `os`.
pub open spec fn startup_spec(os: Seq<char>) -> Seq<(Seq<char>, Seq<char>, Seq<char>, bool)> {
    if is_macos(os) {
        seq![("com.apple.Safari"@, "/Applications/Safari.app/Contents/MacOS/Safari"@, "/Library/LaunchAgents"@, true)]
    } else if is_linux(os) {
        seq![("firefox"@, "/usr/bin/firefox"@, "/etc/xdg/autostart"@, true)]
    } else if is_windows(os) {
        seq![(
            "Chrome"@,
            "C:\\Program Files\\Google\\Chrome\\Application\\chrome.exe"@,
            "HKLM\\SOFTWARE\\Microsoft\\Windows\\CurrentVersion\\Run"@,
            true,
        )]
    } else {
        seq![]
    }
}

fn task(name: &str, command: &str, location: &str) -> (r: StartupTask)
    ensures
        r@ == (name@, command@, location@, true),
{
    StartupTask { name: owned(name), command: owned(command), location: owned(location), enabled: true }
}

/// The startup tasks.
pub fn startup_tasks_for(os: &str) -> (r: Vec<StartupTask>)
    ensures
        views(r@) == startup_spec(os@),
{
    let mut r: Vec<StartupTask> = Vec::new();
    if str_eq(os, "macos") {
        r.push(task("com.apple.Safari", "/Applications/Safari.app/Contents/MacOS/Safari", "/Library/LaunchAgents"));
    } else if str_eq(os, "linux") {
        r.push(task("firefox", "/usr/bin/firefox", "/etc/xdg/autostart"));
    } else if str_eq(os, "windows") {
        r.push(task(
            "Chrome",
            "C:\\Program Files\\Google\\Chrome\\Application\\chrome.exe",
            "HKLM\\SOFTWARE\\Microsoft\\Windows\\CurrentVersion\\Run",
        ));
    }
    assert(views(r@) =~= startup_spec(os@));
    r
}

/// The kernel modules the plugin lists on `os` at time `now`, each loaded
/// an hour ago.
pub open spec fn modules_spec(os: Seq<char>, now: u64) -> Seq<(Seq<char>, u64, u64, bool)> {
    if is_macos(os) {
        seq![("com.apple.driver.AppleIntelFramebuffer"@, 131072u64, (now - 3600) as u64, true)]
    } else if is_linux(os) {
        seq![("nvidia"@, 35287040u64, (now - 3600) as u64, true)]
    } else if is_windows(os) {
        seq![("ntfs.sys"@, 2048000u64, (now - 3600) as u64, true)]
    } else {
        seq![]
    }
}

/// The loaded kernel modules.
pub fn kernel_modules_for(os: &str, now: u64) -> (r: Vec<KernelModule>)
    requires
        now >= 3600,
    ensures
        views(r@) == modules_spec(os@, now),
{
    let mut r: Vec<KernelModule> = Vec::new();
    if str_eq(os, "macos") {
        r.push(KernelModule { name: owned("com.apple.driver.AppleIntelFramebuffer"), size: 131072, loaded_at: now - 3600, signed: true });
    } else if str_eq(os, "linux") {
        r.push(KernelModule { name: owned("nvidia"), size: 35287040, loaded_at: now - 3600, signed: true });
    } else if str_eq(os, "windows") {
        r.push(KernelModule { name: owned("ntfs.sys"), size: 2048000, loaded_at: now - 3600, signed: true });
    }
    assert(views(r@) =~= modules_spec(os@, now));
    r
}

/// The file table cache at time `now`: one file made and changed half an
/// hour ago and read ten minutes ago.
pub open spec fn mft_spec(now: u64) -> Seq<(Seq<char>, u64, u64, u64, u64)> {
    seq![("/Users/test/suspicious.exe"@, (now - 1800) as u64, (now - 1800) as u64, (now - 600) as u64, 1024000u64)]
}

/// The file table cache.
pub fn mft_cache_at(now: u64) -> (r: Vec<MftEntry>)
    requires
        now >= 1800,
    ensures
        views(r@) == mft_spec(now),
{
    let mut r: Vec<MftEntry> = Vec::new();
    r.push(MftEntry {
        file_path: owned("/Users/test/suspicious.exe"),
        creation_time: now - 1800,
        modification_time: now - 1800,
        access_time: now - 600,
        file_size: 1024000,
    });
    assert(views(r@) =~= mft_spec(now));
    r
}

/// Whether a memory capture is at hand, and of what size and how taken.
#[derive(Clone, Debug)]
pub struct RamCapture {
    pub dump_available: bool,
    pub dump_size: Option<u64>,
    pub capture_method: Option<String>,
}

/// The memory capture: none is at hand.
pub fn ram_capture() -> (r: RamCapture)
    ensures
        !r.dump_available,
        r.dump_size is None,
        r.capture_method is None,
{
    RamCapture { dump_available: false, dump_size: None, capture_method: None }
}

// ------------------------------------------------------------ the picture

/// When the picture was drawn and what the machine is.
#[derive(Clone, Debug)]
pub struct IdentificationTime {
    pub current_time: String,
    pub uptime: u64,
    pub hostname: String,
    pub os_version: String,
    pub hardware_platform: String,
}

/// The whole picture.
#[derive(Clone, Debug)]
pub struct ForensicCategories {
    pub identification_time: IdentificationTime,
    pub network_state: NetworkState,
    pub processes_memory: ProcessesMemory,
    pub logged_in_users: LoggedInUsers,
    pub file_system: FileSystem,
    pub ram_capture: RamCapture,
}

/// What the caller read off the machine for the picture.  Each `Option`
/// is `None` where the command did not run or the file could not be read;
/// a listing that could not be had is empty.
#[derive(Clone, Debug)]
pub struct Probe {
    /// "macos", "linux", "windows" or another system's name.
    pub os_type: String,
    /// Seconds since the epoch.
    pub now: u64,
    /// The time as RFC 3339 text.
    pub current_time: String,
    /// The whole seconds that `/proc/uptime` gives (Linux).
    pub linux_uptime: u64,
    /// The naming command's output.
    pub hostname: Option<String>,
    /// The version command's output, or on Linux `/etc/os-release`.
    pub os_version: Option<String>,
    /// The platform command's output.
    pub platform: Option<String>,
    /// `netstat -an` (`netstat -ano` on Windows).
    pub netstat: String,
    /// `arp -a`.
    pub arp: String,
    /// `netstat -rn` (`route print` on Windows).
    pub routes: String,
    /// `ps -eo pid,ppid,comm` (`tasklist /fo csv` on Windows).
    pub processes: String,
}

fn opt_str(o: &Option<String>) -> (r: Option<&str>)
    ensures
        opt_view(r) == opt_text(*o),
{
    match o {
        Some(s) => Some(s.as_str()),
        None => None,
    }
}

/// The picture of the machine that `p` describes: each part as the
/// functions of this module draw it.
pub fn categories(p: &Probe) -> (c: ForensicCategories)
    requires
        p.now >= 3600,
    ensures
        c.identification_time.current_time@ == p.current_time@,
        c.identification_time.uptime == uptime_spec(p.os_type@, p.linux_uptime),
        c.identification_time.hostname@ == hostname_spec(p.os_type@, opt_text(p.hostname)),
        c.identification_time.os_version@ == os_version_spec(p.os_type@, opt_text(p.os_version)),
        c.identification_time.hardware_platform@ == platform_spec(p.os_type@, opt_text(p.platform)),
        views(c.network_state.active_connections@) == copies(
            listed_connection(),
            entries(Table::Connections, p.os_type@, p.netstat@),
        ),
        views(c.network_state.arp_table@) == copies(listed_arp(p.os_type@), entries(Table::Arp, p.os_type@, p.arp@)),
        views(c.network_state.routing_table@) == copies(
            listed_route(p.os_type@),
            entries(Table::Routes, p.os_type@, p.routes@),
        ),
        views(c.network_state.network_interfaces@) == interfaces_spec(p.os_type@),
        views(c.network_state.dns_cache@) == dns_cache_spec(p.now),
        c.network_state.firewall_state@ == firewall_spec(p.os_type@),
        views(c.processes_memory.process_tree@) == tree_spec(p.os_type@, p.processes@, p.now),
        views(c.processes_memory.running_services@) == services_spec(p.os_type@),
        views(c.processes_memory.command_line_args@) == command_lines_spec(),
        views(c.processes_memory.loaded_libraries@) == libraries_spec(),
        views(c.processes_memory.handles@) == handles_spec(),
        views(c.processes_memory.memory_regions@) == regions_spec(),
        views(c.logged_in_users.current_sessions@) == sessions_spec(p.now),
        views(c.logged_in_users.login_history@) == logins_spec(p.now),
        views(c.logged_in_users.token_privileges@) == privileges_spec(),
        views(c.logged_in_users.open_session_files@) == open_files_spec(),
        views(c.file_system.mount_points@) == mounts_spec(p.os_type@),
        views(c.file_system.startup_tasks@) == startup_spec(p.os_type@),
        views(c.file_system.kernel_modules@) == modules_spec(p.os_type@, p.now),
        views(c.file_system.mft_cache@) == mft_spec(p.now),
        !c.ram_capture.dump_available,
        c.ram_capture.dump_size is None,
        c.ram_capture.capture_method is None,
{
    let os = p.os_type.as_str();
    let identification_time = IdentificationTime {
        current_time: p.current_time.clone(),
        uptime: uptime_for(os, p.linux_uptime),
        hostname: hostname_for(os, opt_str(&p.hostname)),
        os_version: os_version_for(os, opt_str(&p.os_version)),
        hardware_platform: platform_for(os, opt_str(&p.platform)),
    };
    let network_state = NetworkState {
        active_connections: connections_for(os, p.netstat.as_str()),
        arp_table: arp_for(os, p.arp.as_str()),
        routing_table: routes_for(os, p.routes.as_str()),
        network_interfaces: interfaces_for(os),
        dns_cache: dns_cache_at(p.now),
        firewall_state: firewall_state_for(os),
    };
    let processes_memory = ProcessesMemory {
        process_tree: tree_for(os, p.processes.as_str(), p.now),
        running_services: services_for(os),
        command_line_args: command_lines(),
        loaded_libraries: libraries(),
        handles: handles(),
        memory_regions: memory_regions(),
    };
    let logged_in_users = LoggedInUsers {
        current_sessions: sessions_at(p.now),
        login_history: login_history_at(p.now),
        token_privileges: privileges(),
        open_session_files: open_files(),
    };
    let file_system = FileSystem {
        mount_points: mounts_for(os),
        startup_tasks: startup_tasks_for(os),
        kernel_modules: kernel_modules_for(os, p.now),
        mft_cache: mft_cache_at(p.now),
    };
    ForensicCategories {
        identification_time,
        network_state,
        processes_memory,
        logged_in_users,
        file_system,
        ram_capture: ram_capture(),
    }
}

} // verus!
