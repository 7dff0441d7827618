//! The OS report: what it reads out of `/etc/os-release`, `lscpu`,
//! `/proc/meminfo` and `lspci`, and the memory and disk figures it derives.
use vstd::prelude::*;
use crate::text::{
    decimal, find_line, find_prefixed, join_with, joined, lines, lines_of, nth_piece,
    parse_bounded, parse_unsigned, piece_at, trim, trim_char, trimmed, trimmed_of,
    word_at, words,
};

verus! {

/// A graphics adapter.
#[derive(Clone, Debug)]
pub struct GPUInfo {
    pub name: String,
    pub memory: u64,
    pub driver_version: String,
}

/// A network interface.
#[derive(Clone, Debug)]
pub struct NetworkInterface {
    pub name: String,
    pub ip_address: String,
    pub mac_address: String,
    pub is_up: bool,
    pub speed: Option<u64>,
}

/// An open network connection.
#[derive(Clone, Debug)]
pub struct NetworkConnection {
    pub local_address: String,
    pub remote_address: Option<String>,
    pub state: String,
    pub pid: Option<u32>,
}

/// The machine's interfaces and connections.
#[derive(Clone, Debug)]
pub struct NetworkInfo {
    pub interfaces: Vec<NetworkInterface>,
    pub active_connections: Vec<NetworkConnection>,
}

/// A mounted file system and its space, in bytes.
#[derive(Clone, Debug)]
pub struct DiskInfo {
    pub mount_point: String,
    pub total_space: u64,
    pub free_space: u64,
    pub used_space: u64,
    pub filesystem_type: String,
}

/// Memory figures, in megabytes.
#[derive(Clone, Copy, Debug, PartialEq, Eq, Structural)]
pub struct MemoryInfo {
    pub total_mb: u64,
    pub available_mb: u64,
    pub used_mb: u64,
    pub swap_total_mb: u64,
    pub swap_free_mb: u64,
}

/// The number of bytes in a gigabyte, as the report counts them.
pub const BYTES_PER_GB: u64 = 1073741824;

/// The operating system's name from `/etc/os-release`: the text after the
/// first `=` of the `PRETTY_NAME=` line, quotes trimmed; "Unknown" where no
/// such line stands.
pub open spec fn pretty_name(release: Seq<char>) -> Seq<char> {
    match find_prefixed(lines(release), "PRETTY_NAME="@) {
        Some(l) => trim_char(
            match nth_piece(l, '=', 1) {
                Some(v) => v,
                None => Seq::empty(),
            },
            '"',
        ),
        None => "Unknown"@,
    }
}

/// The CPU model from `lscpu`: the trimmed text after the first colon of
/// the `Model name:` line; "Unknown" where no such line stands.
pub open spec fn cpu_model_of(lscpu: Seq<char>) -> Seq<char> {
    match find_prefixed(lines(lscpu), "Model name:"@) {
        Some(l) => trim(
            match nth_piece(l, ':', 1) {
                Some(v) => v,
                None => Seq::empty(),
            },
        ),
        None => "Unknown"@,
    }
}

/// The CPU count from `lscpu`: the number after the first colon of the
/// `CPU(s):` line where it reads as a `u32`, 4 otherwise.
pub open spec fn cpu_count_of(lscpu: Seq<char>) -> u32 {
    match find_prefixed(lines(lscpu), "CPU(s):"@) {
        Some(l) => match nth_piece(l, ':', 1) {
            Some(v) => match parse_unsigned(trim(v)) {
                Some(n) => if n <= u32::MAX {
                    n as u32
                } else {
                    4u32
                },
                None => 4u32,
            },
            None => 4u32,
        },
        None => 4u32,
    }
}

/// The figure of the `/proc/meminfo` line that starts with `key`: its
/// second word read as a `u64`; `None` where there is no such line or the
/// word is missing or no number.
pub open spec fn meminfo_value(meminfo: Seq<char>, key: Seq<char>) -> Option<u64> {
    match find_prefixed(lines(meminfo), key) {
        Some(l) => {
            let w = words(l);
            if w.len() > 1 {
                match parse_unsigned(w[1]) {
                    Some(n) => if n <= u64::MAX {
                        Some(n as u64)
                    } else {
                        None
                    },
                    None => None,
                }
            } else {
                None
            }
        },
        None => None,
    }
}

/// The name of the graphics adapter that an `lspci` line describes, if it
/// describes one: the trimmed text after its first colon, or "Unknown".
pub open spec fn gpu_line(l: Seq<char>) -> Option<Seq<char>> {
    if crate::text::contains_text(l, "VGA"@) || crate::text::contains_text(l, "3D"@) {
        Some(
            trim(
                match nth_piece(l, ':', 1) {
                    Some(v) => v,
                    None => "Unknown"@,
                },
            ),
        )
    } else {
        None
    }
}

pub open spec fn gpu_line_fn() -> spec_fn(Seq<char>) -> Option<Seq<char>> {
    |l: Seq<char>| gpu_line(l)
}

/// The adapters that `lspci -v` lists, in order, each with no memory figure
/// and an unknown driver.
pub open spec fn gpu_names_of(lspci: Seq<char>) -> Seq<Seq<char>> {
    crate::forensic::collect_some(lines(lspci), gpu_line_fn())
}

/// Reads the OS report's figures out of command output.
pub struct OSReporter;

impl OSReporter {
    /// The operating system's name from the content of `/etc/os-release`.
    pub fn os_version_from_release(release: &str) -> (r: String)
        ensures
            r@ == pretty_name(release@),
    {
        match find_line(release, "PRETTY_NAME=") {
            Some(l) => {
                let v = match piece_at(l.as_str(), '=', 1) {
                    Some(v) => v,
                    None => String::new(),
                };
                trimmed_of(v.as_str(), '"')
            },
            None => "Unknown".to_owned(),
        }
    }

    /// The CPU model from `lscpu` output.
    pub fn cpu_model(lscpu: &str) -> (r: String)
        ensures
            r@ == cpu_model_of(lscpu@),
    {
        match find_line(lscpu, "Model name:") {
            Some(l) => {
                let v = match piece_at(l.as_str(), ':', 1) {
                    Some(v) => v,
                    None => String::new(),
                };
                trimmed(v.as_str())
            },
            None => "Unknown".to_owned(),
        }
    }

    /// The CPU count from `lscpu` output.
    pub fn cpu_count(lscpu: &str) -> (n: u32)
        ensures
            n == cpu_count_of(lscpu@),
    {
        match find_line(lscpu, "CPU(s):") {
            Some(l) => match piece_at(l.as_str(), ':', 1) {
                Some(v) => {
                    let t = trimmed(v.as_str());
                    match parse_bounded(t.as_str(), 4294967295) {
                        Some(n) => n as u32,
                        None => 4,
                    }
                },
                None => 4,
            },
            None => 4,
        }
    }

    /// The figure under `key` in `/proc/meminfo`.
    pub fn meminfo_figure(meminfo: &str, key: &str) -> (r: Option<u64>)
        ensures
            r == meminfo_value(meminfo@, key@),
    {
        match find_line(meminfo, key) {
            Some(l) => match word_at(l.as_str(), 1) {
                Some(w) => parse_bounded(w.as_str(), 18446744073709551615),
                None => None,
            },
            None => None,
        }
    }

    /// The total memory from `/proc/meminfo`, or the error the report gives
    /// where it cannot be read.
    pub fn total_memory(meminfo: &str) -> (r: Result<u64, String>)
        ensures
            match r {
                Ok(v) => meminfo_value(meminfo@, "MemTotal:"@) == Some(v),
                Err(e) => meminfo_value(meminfo@, "MemTotal:"@) is None && e@ == "Could not parse memory"@,
            },
    {
        match Self::meminfo_figure(meminfo, "MemTotal:") {
            Some(v) => Ok(v),
            None => Err("Could not parse memory".to_owned()),
        }
    }

    /// The available memory from `/proc/meminfo`, or the error the report
    /// gives where it cannot be read.
    pub fn available_memory(meminfo: &str) -> (r: Result<u64, String>)
        ensures
            match r {
                Ok(v) => meminfo_value(meminfo@, "MemAvailable:"@) == Some(v),
                Err(e) => meminfo_value(meminfo@, "MemAvailable:"@) is None && e@
                    == "Could not parse memory"@,
            },
    {
        match Self::meminfo_figure(meminfo, "MemAvailable:") {
            Some(v) => Ok(v),
            None => Err("Could not parse memory".to_owned()),
        }
    }

    /// The graphics adapters that `lspci -v` lists.
    pub fn gpus_from_lspci(lspci: &str) -> (r: Vec<GPUInfo>)
        ensures
            r@.len() == gpu_names_of(lspci@).len(),
            forall|i: int|
                0 <= i < r@.len() ==> (#[trigger] r@[i]).name@ == gpu_names_of(lspci@)[i] && r@[i].memory
                    == 0 && r@[i].driver_version@ == "Unknown"@,
    {
        let ls = lines_of(lspci);
        let ghost ll = ls@.map_values(|l: String| l@);
        let mut out: Vec<GPUInfo> = Vec::new();
        let mut i: usize = 0;
        while i < ls.len()
            invariant
                ll == ls@.map_values(|l: String| l@),
                ll == lines(lspci@),
                i <= ls@.len(),
                out@.map_values(|g: GPUInfo| g.name@) == crate::forensic::collect_some(ll.take(i as int), gpu_line_fn()),
                forall|k: int| 0 <= k < out@.len() ==> (#[trigger] out@[k]).memory == 0 && out@[k].driver_version@ == "Unknown"@,
            decreases ls@.len() - i,
        {
            proof {
                assert(ll.take(i + 1).drop_last() =~= ll.take(i as int));
                assert(ll[i as int] == ls@[i as int]@);
            }
            let l = ls[i].as_str();
            let ghost before = out@.map_values(|g: GPUInfo| g.name@);
            if crate::text::contains_str(l, "VGA") || crate::text::contains_str(l, "3D") {
                let v = match piece_at(l, ':', 1) {
                    Some(v) => v,
                    None => "Unknown".to_owned(),
                };
                let name = trimmed(v.as_str());
                out.push(GPUInfo { name, memory: 0, driver_version: "Unknown".to_owned() });
            }
            proof {
                assert(out@.map_values(|g: GPUInfo| g.name@) =~= crate::forensic::collect_some(ll.take(i + 1), gpu_line_fn()));
            }
            i = i + 1;
        }
        proof {
            assert(ll.take(ll.len() as int) =~= ll);
        }
        out
    }

    /// The memory figures for `total_mb` and `available_mb`; what is used is
    /// their difference, and no swap is counted.
    pub fn memory_info(total_mb: u64, available_mb: u64) -> (m: MemoryInfo)
        requires
            available_mb <= total_mb,
        ensures
            m == (MemoryInfo {
                total_mb,
                available_mb,
                used_mb: (total_mb - available_mb) as u64,
                swap_total_mb: 0,
                swap_free_mb: 0,
            }),
            m.used_mb + m.available_mb == m.total_mb,
    {
        MemoryInfo { total_mb, available_mb, used_mb: total_mb - available_mb, swap_total_mb: 0, swap_free_mb: 0 }
    }

    /// The memory figures from `/proc/meminfo`: total and available as read,
    /// used their difference; the report's error where either cannot be
    /// read.  The available figure must not exceed the total, as the
    /// report's subtraction requires.
    pub fn get_memory_info(meminfo: &str) -> (r: Result<MemoryInfo, String>)
        requires
            meminfo_value(meminfo@, "MemTotal:"@) matches Some(t) && meminfo_value(meminfo@, "MemAvailable:"@)
                matches Some(a) ==> a <= t,
        ensures
            match (meminfo_value(meminfo@, "MemTotal:"@), meminfo_value(meminfo@, "MemAvailable:"@)) {
                (Some(t), Some(a)) => r matches Ok(m) && m.total_mb == t && m.available_mb == a && m.used_mb == t - a
                    && m.swap_total_mb == 0 && m.swap_free_mb == 0,
                _ => r matches Err(e) && e@ == "Could not parse memory"@,
            },
    {
        let total = match Self::total_memory(meminfo) {
            Ok(t) => t,
            Err(e) => return Err(e),
        };
        let available = match Self::available_memory(meminfo) {
            Ok(a) => a,
            Err(e) => return Err(e),
        };
        Ok(Self::memory_info(total, available))
    }

    /// The network figures the report gives for the system `os`: one
    /// interface and one connection on Linux and Windows, nothing elsewhere.
    pub fn get_network_info(os: &str) -> (n: NetworkInfo)
        ensures
            (os@ == "linux"@ || os@ == "windows"@) ==> {
                &&& n.interfaces@.len() == 1
                &&& n.interfaces@[0].name@ == (if os@ == "linux"@ {
                    "eth0"@
                } else {
                    "Ethernet"@
                })
                &&& n.interfaces@[0].ip_address@ == "192.168.1.100"@
                &&& n.interfaces@[0].mac_address@ == "00:11:22:33:44:55"@
                &&& n.interfaces@[0].is_up
                &&& n.interfaces@[0].speed == Some(1000000000u64)
                &&& n.active_connections@.len() == 1
                &&& n.active_connections@[0].local_address@ == "192.168.1.100:443"@
                &&& n.active_connections@[0].remote_address matches Some(r) && r@ == "8.8.8.8:53"@
                &&& n.active_connections@[0].state@ == "ESTABLISHED"@
                &&& n.active_connections@[0].pid == Some(1234u32)
            },
            !(os@ == "linux"@ || os@ == "windows"@) ==> n.interfaces@.len() == 0 && n.active_connections@.len()
                == 0,
    {
        let linux = crate::text::str_eq(os, "linux");
        let windows = crate::text::str_eq(os, "windows");
        let mut interfaces: Vec<NetworkInterface> = Vec::new();
        let mut active_connections: Vec<NetworkConnection> = Vec::new();
        if linux || windows {
            interfaces.push(NetworkInterface {
                name: if linux { "eth0".to_owned() } else { "Ethernet".to_owned() },
                ip_address: "192.168.1.100".to_owned(),
                mac_address: "00:11:22:33:44:55".to_owned(),
                is_up: true,
                speed: Some(1000000000),
            });
            active_connections.push(NetworkConnection {
                local_address: "192.168.1.100:443".to_owned(),
                remote_address: Some("8.8.8.8:53".to_owned()),
                state: "ESTABLISHED".to_owned(),
                pid: Some(1234),
            });
        }
        NetworkInfo { interfaces, active_connections }
    }

    /// The report's line for a disk: "{mount}: {used}GB used / {total}GB
    /// total", in whole gigabytes rounded down.
    pub fn disk_line(d: &DiskInfo) -> (r: String)
        ensures
            r@ == d.mount_point@ + ": "@ + decimal((d.used_space / BYTES_PER_GB) as nat) + "GB used / "@
                + decimal((d.total_space / BYTES_PER_GB) as nat) + "GB total"@,
    {
        let used = crate::text::u64_to_text(d.used_space / BYTES_PER_GB);
        let total = crate::text::u64_to_text(d.total_space / BYTES_PER_GB);
        let a = crate::text::concat4(d.mount_point.as_str(), ": ", used.as_str(), "GB used / ");
        crate::text::concat3(a.as_str(), total.as_str(), "GB total")
    }

    /// The names of the adapters, joined with commas.
    pub fn gpu_list(gpus: &Vec<GPUInfo>) -> (r: String)
        ensures
            r@ == join_with(gpus@.map_values(|g: GPUInfo| g.name@), ", "@),
    {
        let mut names: Vec<String> = Vec::new();
        let mut i: usize = 0;
        while i < gpus.len()
            invariant
                i <= gpus@.len(),
                names@.map_values(|n: String| n@) == gpus@.take(i as int).map_values(|g: GPUInfo| g.name@),
            decreases gpus@.len() - i,
        {
            let ghost before = names@.map_values(|n: String| n@);
            let n = gpus[i].name.clone();
            names.push(n);
            assert(names@.map_values(|n: String| n@) =~= before.push(gpus@[i as int].name@));
            assert(names@.map_values(|n: String| n@) =~= gpus@.take(i + 1).map_values(|g: GPUInfo| g.name@));
            i = i + 1;
        }
        assert(gpus@.take(gpus@.len() as int) =~= gpus@);
        joined(&names, ", ")
    }

    /// The name the report gives the operating system `os`: "Windows",
    /// "Linux", "macOS", or "Unknown".
    pub fn os_type_name(os: &str) -> (r: String)
        ensures
            r@ == os_type_text(os@),
    {
        if crate::text::str_eq(os, "windows") {
            "Windows".to_owned()
        } else if crate::text::str_eq(os, "linux") {
            "Linux".to_owned()
        } else if crate::text::str_eq(os, "macos") {
            "macOS".to_owned()
        } else {
            "Unknown".to_owned()
        }
    }

    /// The system's version from the version command's output (`cmd /c
    /// ver` on Windows, `sw_vers -productVersion` on macOS), trimmed, or on
    /// Linux from the content of `/etc/os-release`; "Unknown" elsewhere.
    pub fn os_version_for(os: &str, out: &str) -> (r: String)
        ensures
            r@ == (if os@ == "windows"@ || os@ == "macos"@ {
                trim(out@)
            } else if os@ == "linux"@ {
                pretty_name(out@)
            } else {
                "Unknown"@
            }),
    {
        if crate::text::str_eq(os, "windows") || crate::text::str_eq(os, "macos") {
            trimmed(out)
        } else if crate::text::str_eq(os, "linux") {
            Self::os_version_from_release(out)
        } else {
            "Unknown".to_owned()
        }
    }

    /// The CPU's model, cores and logical processors: fixed figures on
    /// Windows ("Intel Processor", 4, 8), what `lscpu` gives on Linux (its
    /// CPU count for both counts), and ("Unknown CPU", 4, 4) elsewhere.
    pub fn cpu_figures(os: &str, lscpu: &str) -> (r: (String, u32, u32))
        ensures
            (r.0@, r.1, r.2) == (if os@ == "windows"@ {
                ("Intel Processor"@, 4u32, 8u32)
            } else if os@ == "linux"@ {
                (cpu_model_of(lscpu@), cpu_count_of(lscpu@), cpu_count_of(lscpu@))
            } else {
                ("Unknown CPU"@, 4u32, 4u32)
            }),
    {
        if crate::text::str_eq(os, "windows") {
            ("Intel Processor".to_owned(), 4, 8)
        } else if crate::text::str_eq(os, "linux") {
            let n = Self::cpu_count(lscpu);
            (Self::cpu_model(lscpu), n, n)
        } else {
            ("Unknown CPU".to_owned(), 4, 4)
        }
    }

    /// The total memory in megabytes: on Windows the figure the query
    /// prints (0 where it is no number), on Linux the `MemTotal:` figure of
    /// `/proc/meminfo` (the report's error where it cannot be read), 8192
    /// elsewhere.
    pub fn total_memory_for(os: &str, out: &str) -> (r: Result<u64, String>)
        ensures
            figure_result(r) == (if os@ == "windows"@ {
                Ok(printed_figure(out@))
            } else if os@ == "linux"@ {
                meminfo_result(out@, "MemTotal:"@)
            } else {
                Ok(8192u64)
            }),
    {
        if crate::text::str_eq(os, "windows") {
            Ok(Self::figure_or_zero(out))
        } else if crate::text::str_eq(os, "linux") {
            Self::total_memory(out)
        } else {
            Ok(8192)
        }
    }

    /// The available memory in megabytes: as [`Self::total_memory_for`],
    /// with the `MemAvailable:` figure on Linux and 4096 elsewhere.
    pub fn available_memory_for(os: &str, out: &str) -> (r: Result<u64, String>)
        ensures
            figure_result(r) == (if os@ == "windows"@ {
                Ok(printed_figure(out@))
            } else if os@ == "linux"@ {
                meminfo_result(out@, "MemAvailable:"@)
            } else {
                Ok(4096u64)
            }),
    {
        if crate::text::str_eq(os, "windows") {
            Ok(Self::figure_or_zero(out))
        } else if crate::text::str_eq(os, "linux") {
            Self::available_memory(out)
        } else {
            Ok(4096)
        }
    }

    /// The figure a command printed: its output, trimmed, read as a `u64`;
    /// 0 where it is none.
    pub fn figure_or_zero(out: &str) -> (n: u64)
        ensures
            n == printed_figure(out@),
    {
        let t = trimmed(out);
        match parse_bounded(t.as_str(), 18446744073709551615) {
            Some(n) => n,
            None => 0,
        }
    }

    /// The graphics adapters: a fixed one on Windows, those `lspci -v`
    /// lists on Linux, none elsewhere.
    pub fn get_gpu_info(os: &str, lspci: &str) -> (r: Vec<GPUInfo>)
        ensures
            r@.map_values(|g: GPUInfo| (g.name@, g.memory, g.driver_version@)) == (if os@ == "windows"@ {
                seq![("NVIDIA GeForce RTX 3080"@, 10737418240u64, "Unknown"@)]
            } else if os@ == "linux"@ {
                gpu_names_of(lspci@).map_values(|n: Seq<char>| (n, 0u64, "Unknown"@))
            } else {
                seq![]
            }),
    {
        if crate::text::str_eq(os, "windows") {
            let mut r: Vec<GPUInfo> = Vec::new();
            r.push(GPUInfo {
                name: "NVIDIA GeForce RTX 3080".to_owned(),
                memory: 10737418240,
                driver_version: "Unknown".to_owned(),
            });
            assert(r@.map_values(|g: GPUInfo| (g.name@, g.memory, g.driver_version@)) =~= seq![
                ("NVIDIA GeForce RTX 3080"@, 10737418240u64, "Unknown"@),
            ]);
            r
        } else if crate::text::str_eq(os, "linux") {
            let r = Self::gpus_from_lspci(lspci);
            assert(r@.map_values(|g: GPUInfo| (g.name@, g.memory, g.driver_version@)) =~= gpu_names_of(
                lspci@,
            ).map_values(|n: Seq<char>| (n, 0u64, "Unknown"@)));
            r
        } else {
            let r: Vec<GPUInfo> = Vec::new();
            assert(r@.map_values(|g: GPUInfo| (g.name@, g.memory, g.driver_version@)) =~= seq![]);
            r
        }
    }

    /// The disks: a fixed "C:\\" NTFS disk on Windows and a fixed "/" ext4
    /// disk on Linux, each of 500 GB with 200 GB free; none elsewhere.
    pub fn get_disk_info(os: &str) -> (r: Vec<DiskInfo>)
        ensures
            (os@ == "windows"@ || os@ == "linux"@) ==> {
                &&& r@.len() == 1
                &&& r@[0].mount_point@ == (if os@ == "windows"@ {
                    "C:\\"@
                } else {
                    "/"@
                })
                &&& r@[0].total_space == 500000000000u64
                &&& r@[0].free_space == 200000000000u64
                &&& r@[0].used_space == 300000000000u64
                &&& r@[0].filesystem_type@ == (if os@ == "windows"@ {
                    "NTFS"@
                } else {
                    "ext4"@
                })
            },
            !(os@ == "windows"@ || os@ == "linux"@) ==> r@.len() == 0,
    {
        let windows = crate::text::str_eq(os, "windows");
        let linux = crate::text::str_eq(os, "linux");
        let mut r: Vec<DiskInfo> = Vec::new();
        if windows || linux {
            r.push(DiskInfo {
                mount_point: if windows { "C:\\".to_owned() } else { "/".to_owned() },
                total_space: 500000000000,
                free_space: 200000000000,
                used_space: 300000000000,
                filesystem_type: if windows { "NTFS".to_owned() } else { "ext4".to_owned() },
            });
        }
        r
    }
}

/// The name the report gives the operating system `os`.
pub open spec fn os_type_text(os: Seq<char>) -> Seq<char> {
    if os == "windows"@ {
        "Windows"@
    } else if os == "linux"@ {
        "Linux"@
    } else if os == "macos"@ {
        "macOS"@
    } else {
        "Unknown"@
    }
}

/// Each known platform has its own name in the report: "Linux" for
/// "linux", "Windows" for "windows", "macOS" for "macos"; "Unknown" is
/// given for exactly the names that are none of the three.
pub proof fn law_os_type_names(os: Seq<char>)
    ensures
        os == "linux"@ ==> os_type_text(os) == "Linux"@,
        os == "windows"@ ==> os_type_text(os) == "Windows"@,
        os == "macos"@ ==> os_type_text(os) == "macOS"@,
        os_type_text(os) == "Unknown"@ <==> !(os == "linux"@ || os == "windows"@ || os == "macos"@),
{
    reveal_strlit("linux");
    reveal_strlit("windows");
    reveal_strlit("macos");
    reveal_strlit("Linux");
    reveal_strlit("Windows");
    reveal_strlit("macOS");
    reveal_strlit("Unknown");
    assert("windows"@.len() == 7 && "linux"@.len() == 5 && "macos"@.len() == 5 && "linux"@[0] != "macos"@[0]);
    assert("Unknown"@.len() == 7 && "Windows"@[0] != "Unknown"@[0] && "Linux"@.len() == 5 && "macOS"@.len() == 5);
}

/// A memory figure or the report's error, as plain values.
pub open spec fn figure_result(r: Result<u64, String>) -> Result<u64, Seq<char>> {
    match r {
        Ok(v) => Ok(v),
        Err(e) => Err(e@),
    }
}

/// The `/proc/meminfo` figure under `key`, or the report's error where it
/// cannot be read.
pub open spec fn meminfo_result(meminfo: Seq<char>, key: Seq<char>) -> Result<u64, Seq<char>> {
    match meminfo_value(meminfo, key) {
        Some(v) => Ok(v),
        None => Err("Could not parse memory"@),
    }
}

/// The figure a command printed: its trimmed output read as a `u64`, 0
/// where it is none.
pub open spec fn printed_figure(out: Seq<char>) -> u64 {
    match parse_unsigned(trim(out)) {
        Some(n) => if n <= u64::MAX {
            n as u64
        } else {
            0
        },
        None => 0,
    }
}


/// The system's name from `/etc/os-release` as the agent's report gives it:
/// the `PRETTY_NAME=` line's text after its first `=` ("Unknown" where it
/// has none), quotes trimmed; "Unknown Linux" where no such line stands.
pub open spec fn release_name(release: Seq<char>) -> Seq<char> {
    match find_prefixed(lines(release), "PRETTY_NAME="@) {
        Some(l) => trim_char(
            match nth_piece(l, '=', 1) {
                Some(v) => v,
                None => "Unknown"@,
            },
            '"',
        ),
        None => "Unknown Linux"@,
    }
}

/// The system's name from the content of `/etc/os-release`.
pub fn os_release_name(release: &str) -> (r: String)
    ensures
        r@ == release_name(release@),
{
    match find_line(release, "PRETTY_NAME=") {
        Some(l) => {
            let v = match piece_at(l.as_str(), '=', 1) {
                Some(v) => v,
                None => "Unknown".to_owned(),
            };
            trimmed_of(v.as_str(), '"')
        },
        None => "Unknown Linux".to_owned(),
    }
}

/// A running process as a process listing names it.
#[derive(Clone, Debug)]
pub struct ProcessRow {
    pub pid: String,
    pub command: String,
}

/// The row for a line of `ps -eo pid,comm`: its first word is the process
/// id, and the line without every occurrence of that word, trimmed, is the
/// command; lines whose command is empty give none.
pub open spec fn ps_row(l: Seq<char>) -> Option<(Seq<char>, Seq<char>)> {
    match crate::text::first_word(l) {
        Some(pid) => {
            let command = trim(crate::text::remove_all(l, pid));
            if command.len() > 0 {
                Some((pid, command))
            } else {
                None
            }
        },
        None => None,
    }
}

pub open spec fn ps_row_fn() -> spec_fn(Seq<char>) -> Option<(Seq<char>, Seq<char>)> {
    |l: Seq<char>| ps_row(l)
}

/// The row for a line of `tasklist /fo csv /nh`: its first two fields,
/// quotes trimmed, are the image name and the process id.
pub open spec fn tasklist_row(l: Seq<char>) -> Option<(Seq<char>, Seq<char>)> {
    let parts = crate::text::pieces(l, ',');
    if parts.len() >= 2 {
        Some((trim_char(parts[1], '"'), trim_char(parts[0], '"')))
    } else {
        None
    }
}

pub open spec fn tasklist_row_fn() -> spec_fn(Seq<char>) -> Option<(Seq<char>, Seq<char>)> {
    |l: Seq<char>| tasklist_row(l)
}

/// The (process id, command) pairs of the rows.
pub open spec fn row_pairs(rows: Seq<ProcessRow>) -> Seq<(Seq<char>, Seq<char>)> {
    rows.map_values(|r: ProcessRow| (r.pid@, r.command@))
}

/// The first ten processes of `ps -eo pid,comm` output, its header skipped.
pub fn ps_rows(output: &str) -> (r: Vec<ProcessRow>)
    ensures
        row_pairs(r@) == crate::forensic::first_n(
            crate::forensic::collect_some(crate::forensic::drop_n(lines(output@), 1), ps_row_fn()),
            10,
        ),
{
    let ls = lines_of(output);
    let rest = crate::forensic_linux::slice_strings(&ls, 1, ls.len());
    let ghost rl = rest@.map_values(|l: String| l@);
    assert(rl =~= crate::forensic::drop_n(lines(output@), 1));
    let mut out: Vec<ProcessRow> = Vec::new();
    let mut i: usize = 0;
    while i < rest.len()
        invariant
            rl == rest@.map_values(|l: String| l@),
            i <= rest@.len(),
            row_pairs(out@) == crate::forensic::collect_some(rl.take(i as int), ps_row_fn()),
        decreases rest@.len() - i,
    {
        proof {
            assert(rl.take(i + 1).drop_last() =~= rl.take(i as int));
            assert(rl[i as int] == rest@[i as int]@);
        }
        let l = rest[i].as_str();
        let ghost before = row_pairs(out@);
        match crate::text::first_word_of(l) {
            Some(pid) => {
                let stripped = crate::text::without(l, pid.as_str());
                let command = trimmed(stripped.as_str());
                if !command.as_str().is_empty() {
                    out.push(ProcessRow { pid, command });
                }
            },
            None => {},
        }
        proof {
            assert(row_pairs(out@) =~= crate::forensic::collect_some(rl.take(i + 1), ps_row_fn()));
        }
        i = i + 1;
    }
    proof {
        assert(rl.take(rl.len() as int) =~= rl);
    }
    let ghost all = row_pairs(out@);
    crate::forensic::keep_first(&mut out, 10);
    assert(row_pairs(out@) =~= crate::forensic::first_n(all, 10));
    out
}

/// The first ten processes of `tasklist /fo csv /nh` output.
pub fn tasklist_rows(output: &str) -> (r: Vec<ProcessRow>)
    ensures
        row_pairs(r@) == crate::forensic::first_n(
            crate::forensic::collect_some(lines(output@), tasklist_row_fn()),
            10,
        ),
{
    let ls = lines_of(output);
    let ghost ll = ls@.map_values(|l: String| l@);
    let mut out: Vec<ProcessRow> = Vec::new();
    let mut i: usize = 0;
    while i < ls.len()
        invariant
            ll == ls@.map_values(|l: String| l@),
            ll == lines(output@),
            i <= ls@.len(),
            row_pairs(out@) == crate::forensic::collect_some(ll.take(i as int), tasklist_row_fn()),
        decreases ls@.len() - i,
    {
        proof {
            assert(ll.take(i + 1).drop_last() =~= ll.take(i as int));
            assert(ll[i as int] == ls@[i as int]@);
        }
        let parts = crate::text::split_at_char(ls[i].as_str(), ',');
        if parts.len() >= 2 {
            let command = trimmed_of(parts[0].as_str(), '"');
            let pid = trimmed_of(parts[1].as_str(), '"');
            out.push(ProcessRow { pid, command });
        }
        proof {
            assert(row_pairs(out@) =~= crate::forensic::collect_some(ll.take(i + 1), tasklist_row_fn()));
        }
        i = i + 1;
    }
    proof {
        assert(ll.take(ll.len() as int) =~= ll);
    }
    let ghost all = row_pairs(out@);
    crate::forensic::keep_first(&mut out, 10);
    assert(row_pairs(out@) =~= crate::forensic::first_n(all, 10));
    out
}

/// The output formats of the report program.
#[derive(Clone, Copy, Debug, PartialEq, Eq, Structural)]
pub enum OutputFormat {
    Json,
    Table,
    Csv,
}

/// The format that the program's argument asks for: "json", "table" or
/// "csv"; the table where no argument is given; `None` for anything else,
/// which the program refuses with its usage text.
pub fn output_format(arg: Option<&str>) -> (r: Option<OutputFormat>)
    ensures
        match arg {
            None => r == Some(OutputFormat::Table),
            Some(a) => r == (if a@ == "json"@ {
                Some(OutputFormat::Json)
            } else if a@ == "table"@ {
                Some(OutputFormat::Table)
            } else if a@ == "csv"@ {
                Some(OutputFormat::Csv)
            } else {
                None
            }),
        },
{
    match arg {
        None => Some(OutputFormat::Table),
        Some(a) => {
            if crate::text::str_eq(a, "json") {
                Some(OutputFormat::Json)
            } else if crate::text::str_eq(a, "table") {
                Some(OutputFormat::Table)
            } else if crate::text::str_eq(a, "csv") {
                Some(OutputFormat::Csv)
            } else {
                None
            }
        },
    }
}

/// The CSV line of a disk: mount point, total, free and used space in
/// whole gigabytes, and file system type.
pub fn disk_csv(d: &DiskInfo) -> (r: String)
    ensures
        r@ == d.mount_point@ + ","@ + decimal((d.total_space / BYTES_PER_GB) as nat) + ","@ + decimal(
            (d.free_space / BYTES_PER_GB) as nat,
        ) + ","@ + decimal((d.used_space / BYTES_PER_GB) as nat) + ","@ + d.filesystem_type@,
{
    let total = crate::text::u64_to_text(d.total_space / BYTES_PER_GB);
    let free = crate::text::u64_to_text(d.free_space / BYTES_PER_GB);
    let used = crate::text::u64_to_text(d.used_space / BYTES_PER_GB);
    let a = crate::text::concat4(d.mount_point.as_str(), ",", total.as_str(), ",");
    let b = crate::text::concat4(a.as_str(), free.as_str(), ",", used.as_str());
    crate::text::concat3(b.as_str(), ",", d.filesystem_type.as_str())
}

/// The CSV line of the memory figures: total, used, available, swap total
/// and swap free.
pub fn memory_csv(m: &MemoryInfo) -> (r: String)
    ensures
        r@ == decimal(m.total_mb as nat) + ","@ + decimal(m.used_mb as nat) + ","@ + decimal(m.available_mb as nat)
            + ","@ + decimal(m.swap_total_mb as nat) + ","@ + decimal(m.swap_free_mb as nat),
{
    let a = crate::text::u64_to_text(m.total_mb);
    let b = crate::text::u64_to_text(m.used_mb);
    let c = crate::text::u64_to_text(m.available_mb);
    let d = crate::text::u64_to_text(m.swap_total_mb);
    let e = crate::text::u64_to_text(m.swap_free_mb);
    let x = crate::text::concat4(a.as_str(), ",", b.as_str(), ",");
    let y = crate::text::concat4(x.as_str(), c.as_str(), ",", d.as_str());
    crate::text::concat3(y.as_str(), ",", e.as_str())
}
} // verus!
