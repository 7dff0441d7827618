//! The server's HTTP API: its configuration, and the decisions its handlers
//! take between receiving a request and writing the answer.
use vstd::prelude::*;
use crate::protocol::Command;
use crate::text::{concat, ends_with, parse_bounded, parse_unsigned, str_eq};

verus! {

/// The server's configuration.
#[derive(Clone, Debug)]
pub struct Config {
    pub port: u16,
    pub log_level: String,
    pub log_dir: String,
    pub broker_url: Option<String>,
}

impl Default for Config {
    /// Port 8080, level "info", logs under "logs", no broker.
    fn default() -> (c: Config)
        ensures
            c.port == 8080,
            c.log_level@ == "info"@,
            c.log_dir@ == "logs"@,
            c.broker_url is None,
    {
        Config { port: 8080, log_level: "info".to_owned(), log_dir: "logs".to_owned(), broker_url: None }
    }
}

/// The kind of file that a name's extension tells.
pub open spec fn file_kind_of(name: Seq<char>) -> Seq<char> {
    if ends_with(name, ".txt"@) || ends_with(name, ".doc"@) || ends_with(name, ".pdf"@) {
        "document"@
    } else if ends_with(name, ".jpg"@) || ends_with(name, ".png"@) || ends_with(name, ".gif"@) {
        "image"@
    } else if ends_with(name, ".mp4"@) || ends_with(name, ".avi"@) || ends_with(name, ".mov"@) {
        "video"@
    } else {
        "other"@
    }
}

/// Each extension tells its kind, whatever the order in which they are
/// tried: a name ending in ".txt", ".doc" or ".pdf" is a "document", one
/// ending in ".jpg", ".png" or ".gif" an "image", one ending in ".mp4",
/// ".avi" or ".mov" a "video"; any other name is "other".
pub proof fn law_file_kinds_by_extension(name: Seq<char>)
    ensures
        ends_with(name, ".txt"@) || ends_with(name, ".doc"@) || ends_with(name, ".pdf"@) ==> file_kind_of(name)
            == "document"@,
        ends_with(name, ".jpg"@) || ends_with(name, ".png"@) || ends_with(name, ".gif"@) ==> file_kind_of(name)
            == "image"@,
        ends_with(name, ".mp4"@) || ends_with(name, ".avi"@) || ends_with(name, ".mov"@) ==> file_kind_of(name)
            == "video"@,
        !(ends_with(name, ".txt"@) || ends_with(name, ".doc"@) || ends_with(name, ".pdf"@) || ends_with(name, ".jpg"@)
            || ends_with(name, ".png"@) || ends_with(name, ".gif"@) || ends_with(name, ".mp4"@) || ends_with(
            name,
            ".avi"@,
        ) || ends_with(name, ".mov"@)) ==> file_kind_of(name) == "other"@,
{
    reveal_strlit(".txt");
    reveal_strlit(".doc");
    reveal_strlit(".pdf");
    reveal_strlit(".jpg");
    reveal_strlit(".png");
    reveal_strlit(".gif");
    reveal_strlit(".mp4");
    reveal_strlit(".avi");
    reveal_strlit(".mov");
    let exts = seq![".txt"@, ".doc"@, ".pdf"@, ".jpg"@, ".png"@, ".gif"@, ".mp4"@, ".avi"@, ".mov"@];
    assert(exts[0] == ".txt"@ && exts[1] == ".doc"@ && exts[2] == ".pdf"@ && exts[3] == ".jpg"@);
    assert(exts[4] == ".png"@ && exts[5] == ".gif"@ && exts[6] == ".mp4"@ && exts[7] == ".avi"@ && exts[8] == ".mov"@);
    assert forall|a: int, b: int| 0 <= a < 9 && 0 <= b < 9 && a != b implies #[trigger] exts[a] != #[trigger] exts[b] by {
        if exts[a] == exts[b] {
            assert(exts[a][1] == exts[b][1] && exts[a][2] == exts[b][2] && exts[a][3] == exts[b][3]);
        }
    }
    assert forall|a: int, b: int| 0 <= a < 9 && 0 <= b < 9 && a != b && ends_with(name, #[trigger] exts[a]) implies
        !ends_with(name, #[trigger] exts[b]) by {
        assert(exts[a].len() == 4 && exts[b].len() == 4);
    }
}

/// The kind of file that `name` is: "document", "image", "video" or "other".
pub fn file_kind(name: &str) -> (k: &'static str)
    ensures
        k@ == file_kind_of(name@),
{
    let v = crate::text::chars_of(name);
    if crate::text::chars_end_with(&v, ".txt") || crate::text::chars_end_with(&v, ".doc")
        || crate::text::chars_end_with(&v, ".pdf") {
        "document"
    } else if crate::text::chars_end_with(&v, ".jpg") || crate::text::chars_end_with(&v, ".png")
        || crate::text::chars_end_with(&v, ".gif") {
        "image"
    } else if crate::text::chars_end_with(&v, ".mp4") || crate::text::chars_end_with(&v, ".avi")
        || crate::text::chars_end_with(&v, ".mov") {
        "video"
    } else {
        "other"
    }
}

/// An entry of a directory whose metadata could be read.
#[derive(Clone, Debug)]
pub struct DirEntry {
    pub name: String,
    pub is_dir: bool,
    pub size: u64,
}

/// A file of a listing.
#[derive(Clone, Debug)]
pub struct FileItem {
    pub name: String,
    pub kind: &'static str,
    pub size: u64,
}

/// What the directory endpoint answers.
#[derive(Clone, Debug)]
pub struct DirectoryListing {
    pub path: String,
    pub files: Vec<FileItem>,
    pub directories: Vec<String>,
    pub total_size: u64,
}

/// The total size of the files among `entries`.
pub open spec fn files_size(entries: Seq<DirEntry>) -> nat
    decreases entries.len(),
{
    if entries.len() == 0 {
        0
    } else {
        files_size(entries.drop_last()) + if entries.last().is_dir {
            0nat
        } else {
            entries.last().size as nat
        }
    }
}

/// The files among `entries`, in order, as (name, kind, size).
pub open spec fn file_items(entries: Seq<DirEntry>) -> Seq<(Seq<char>, Seq<char>, u64)>
    decreases entries.len(),
{
    if entries.len() == 0 {
        Seq::empty()
    } else {
        file_items(entries.drop_last()) + if entries.last().is_dir {
            Seq::empty()
        } else {
            seq![(entries.last().name@, file_kind_of(entries.last().name@), entries.last().size)]
        }
    }
}

/// The directories among `entries`, in order, by name.
pub open spec fn dir_names(entries: Seq<DirEntry>) -> Seq<Seq<char>>
    decreases entries.len(),
{
    if entries.len() == 0 {
        Seq::empty()
    } else {
        dir_names(entries.drop_last()) + if entries.last().is_dir {
            seq![entries.last().name@]
        } else {
            Seq::empty()
        }
    }
}

proof fn lemma_files_size_grows(entries: Seq<DirEntry>, i: int)
    requires
        0 <= i <= entries.len(),
    ensures
        files_size(entries.take(i)) <= files_size(entries),
    decreases entries.len() - i,
{
    if i < entries.len() {
        lemma_files_size_grows(entries, i + 1);
        assert(entries.take(i + 1).drop_last() =~= entries.take(i));
    } else {
        assert(entries.take(i) =~= entries);
    }
}

/// The listing of `path` from its entries: files with their kinds and sizes,
/// directories by name, and the files' total size.  The total must fit a
/// `u64`, as the endpoint's running sum does.
pub fn directory_listing(path: String, entries: &Vec<DirEntry>) -> (l: DirectoryListing)
    requires
        files_size(entries@) <= u64::MAX,
    ensures
        l.path == path,
        l.total_size == files_size(entries@),
        l.files@.map_values(|f: FileItem| (f.name@, f.kind@, f.size)) == file_items(entries@),
        l.directories@.map_values(|d: String| d@) == dir_names(entries@),
{
    let mut files: Vec<FileItem> = Vec::new();
    let mut directories: Vec<String> = Vec::new();
    let mut total: u64 = 0;
    let mut i: usize = 0;
    while i < entries.len()
        invariant
            i <= entries@.len(),
            files_size(entries@) <= u64::MAX,
            total == files_size(entries@.take(i as int)),
            files@.map_values(|f: FileItem| (f.name@, f.kind@, f.size)) == file_items(entries@.take(i as int)),
            directories@.map_values(|d: String| d@) == dir_names(entries@.take(i as int)),
        decreases entries@.len() - i,
    {
        proof {
            assert(entries@.take(i + 1).drop_last() =~= entries@.take(i as int));
            lemma_files_size_grows(entries@, i + 1);
        }
        let e = &entries[i];
        let ghost fb = files@.map_values(|f: FileItem| (f.name@, f.kind@, f.size));
        let ghost db = directories@.map_values(|d: String| d@);
        if e.is_dir {
            directories.push(e.name.clone());
            assert(directories@.map_values(|d: String| d@) =~= db.push(e.name@));
        } else {
            total = total + e.size;
            let kind = file_kind(e.name.as_str());
            files.push(FileItem { name: e.name.clone(), kind, size: e.size });
            assert(files@.map_values(|f: FileItem| (f.name@, f.kind@, f.size)) =~= fb.push((e.name@, file_kind_of(e.name@), e.size)));
        }
        proof {
            assert(files@.map_values(|f: FileItem| (f.name@, f.kind@, f.size)) =~= file_items(entries@.take(i + 1)));
            assert(directories@.map_values(|d: String| d@) =~= dir_names(entries@.take(i + 1)));
        }
        i = i + 1;
    }
    proof {
        assert(entries@.take(entries@.len() as int) =~= entries@);
    }
    DirectoryListing { path, files, directories, total_size: total }
}

/// The scan depth that a `max_depth` query value asks for: the number it
/// writes where it reads as a `u32`, 1 otherwise.
pub open spec fn depth_of(v: Option<Seq<char>>) -> u32 {
    match v {
        Some(s) => match parse_unsigned(s) {
            Some(n) => if n <= u32::MAX {
                n as u32
            } else {
                1u32
            },
            None => 1u32,
        },
        None => 1u32,
    }
}

/// The directory scan command that the query asks for: the path given or
/// empty, sub-directories and hidden files where the values are exactly
/// "true", and the depth given or 1.
pub fn directory_info_command(
    path: Option<String>,
    include_subdirs: Option<&str>,
    show_hidden: Option<&str>,
    max_depth: Option<&str>,
) -> (c: Command)
    ensures
        c matches Command::GetDirectoryInfoData { path: p, include_subdirs: i, show_hidden: h, max_depth: d } && {
            &&& p@ == match path {
                Some(s) => s@,
                None => Seq::<char>::empty(),
            }
            &&& i == (include_subdirs matches Some(v) && v@ == "true"@)
            &&& h == (show_hidden matches Some(v) && v@ == "true"@)
            &&& d == depth_of(match max_depth {
                Some(v) => Some(v@),
                None => None,
            })
        },
{
    let p = match path {
        Some(s) => s,
        None => String::new(),
    };
    let i = match include_subdirs {
        Some(v) => str_eq(v, "true"),
        None => false,
    };
    let h = match show_hidden {
        Some(v) => str_eq(v, "true"),
        None => false,
    };
    let d: u32 = match max_depth {
        Some(v) => match parse_bounded(v, 4294967295) {
            Some(n) => n as u32,
            None => 1,
        },
        None => 1,
    };
    Command::GetDirectoryInfoData { path: p, include_subdirs: i, show_hidden: h, max_depth: d }
}

/// What the command endpoint answers where the agent sent nothing in time.
pub enum Fallback {
    /// The canned system information (host "ASUS1", Linux, Intel Core i7,
    /// 16GB, 500GB SSD).
    MockSystemInfo,
    /// "Agent timeout: plugin data not available", with status "error".
    PluginUnavailable,
    /// "Agent did not respond in time", with status "timeout".
    Timeout,
}

/// The answer for a command the agent did not answer in time.
pub fn timeout_fallback(command: &Command) -> (f: Fallback)
    ensures
        match command {
            Command::GetSystemInfo => f is MockSystemInfo,
            Command::GetProcesses => f is PluginUnavailable,
            _ => f is Timeout,
        },
{
    match command {
        Command::GetSystemInfo => Fallback::MockSystemInfo,
        Command::GetProcesses => Fallback::PluginUnavailable,
        _ => Fallback::Timeout,
    }
}

impl Fallback {
    /// The status word of the fallback answer, where it has one.
    pub fn status(&self) -> (r: Option<&'static str>)
        ensures
            match self {
                Fallback::MockSystemInfo => r is None,
                Fallback::PluginUnavailable => r matches Some(s) && s@ == "error"@,
                Fallback::Timeout => r matches Some(s) && s@ == "timeout"@,
            },
    {
        match self {
            Fallback::MockSystemInfo => None,
            Fallback::PluginUnavailable => Some("error"),
            Fallback::Timeout => Some("timeout"),
        }
    }

    /// The message of the fallback answer, where it has one.
    pub fn message(&self) -> (r: Option<&'static str>)
        ensures
            match self {
                Fallback::MockSystemInfo => r is None,
                Fallback::PluginUnavailable => r matches Some(s) && s@ == "Agent timeout: plugin data not available"@,
                Fallback::Timeout => r matches Some(s) && s@ == "Agent did not respond in time"@,
            },
    {
        match self {
            Fallback::MockSystemInfo => None,
            Fallback::PluginUnavailable => Some("Agent timeout: plugin data not available"),
            Fallback::Timeout => Some("Agent did not respond in time"),
        }
    }
}

/// The error the command endpoint gives where the command could not be
/// sent: "Agent not connected: " and the reason.
pub fn send_failure(reason: &str) -> (r: String)
    ensures
        r@ == "Agent not connected: "@ + reason@,
{
    concat("Agent not connected: ", reason)
}

/// The command that the event data endpoint sends: the path given or empty.
pub fn event_data_command(path: Option<String>) -> (c: Command)
    ensures
        c matches Command::GetEventData { path: p } && p@ == match path {
            Some(s) => s@,
            None => Seq::<char>::empty(),
        },
{
    Command::GetEventData {
        path: match path {
            Some(s) => s,
            None => String::new(),
        },
    }
}

/// The command that the file reader endpoint sends: the path given or empty.
pub fn file_reader_command(path: Option<String>) -> (c: Command)
    ensures
        c matches Command::GetFileReaderData { path: p } && p@ == match path {
            Some(s) => s@,
            None => Seq::<char>::empty(),
        },
{
    Command::GetFileReaderData {
        path: match path {
            Some(s) => s,
            None => String::new(),
        },
    }
}


/// Every entry of a directory is listed once: as a file or as a directory.
pub proof fn law_listing_partitions_entries(entries: Seq<DirEntry>)
    ensures
        file_items(entries).len() + dir_names(entries).len() == entries.len(),
    decreases entries.len(),
{
    if entries.len() > 0 {
        law_listing_partitions_entries(entries.drop_last());
    }
}

/// The total size of a listing is the sum of its files' sizes.
pub proof fn law_total_is_sum_of_files(entries: Seq<DirEntry>)
    ensures
        files_size(entries) == sum_sizes(file_items(entries)),
    decreases entries.len(),
{
    if entries.len() > 0 {
        law_total_is_sum_of_files(entries.drop_last());
        let rest = file_items(entries.drop_last());
        if entries.last().is_dir {
            assert(file_items(entries) =~= rest);
        } else {
            let it = seq![(entries.last().name@, file_kind_of(entries.last().name@), entries.last().size)];
            assert((rest + it).drop_last() =~= rest);
        }
    }
}

/// The sum of the sizes of listed files.
pub open spec fn sum_sizes(items: Seq<(Seq<char>, Seq<char>, u64)>) -> nat
    decreases items.len(),
{
    if items.len() == 0 {
        0
    } else {
        sum_sizes(items.drop_last()) + items.last().2 as nat
    }
}

/// How the system endpoint describes the server's platform.
#[derive(Clone, Debug)]
pub struct OSInfo {
    pub platform: String,
    pub name: String,
    pub icon: String,
    pub architecture: String,
    pub version: String,
}

/// A command's output, trimmed, where it ran; `fallback` where not.
pub open spec fn trimmed_or(out: Option<Seq<char>>, fallback: Seq<char>) -> Seq<char> {
    match out {
        Some(o) => crate::text::trim(o),
        None => fallback,
    }
}

fn trimmed_output(out: Option<&str>, fallback: &str) -> (r: String)
    ensures
        r@ == trimmed_or(
            match out {
                Some(o) => Some(o@),
                None => None,
            },
            fallback@,
        ),
{
    match out {
        Some(o) => crate::text::trimmed(o),
        None => fallback.to_owned(),
    }
}

/// The description of the platform `os` (as `std::env::consts::OS` names
/// it): Windows, Linux and macOS by name and icon on "x64", with the
/// version that the version command printed (`cmd /C ver`, `uname -r`,
/// `sw_vers -productVersion`), trimmed, or "Unknown <name>" where it did not
/// run; anything else unknown.
pub fn get_os_info(os: &str, version_out: Option<&str>) -> (i: OSInfo)
    ensures
        ({
            let v = match version_out {
                Some(o) => Some(o@),
                None => None,
            };
            (i.platform@, i.name@, i.icon@, i.architecture@, i.version@) == (if os@ == "windows"@ {
                ("windows"@, "Windows"@, "🪟"@, "x64"@, trimmed_or(v, "Unknown Windows"@))
            } else if os@ == "linux"@ {
                ("linux"@, "Linux"@, "🐧"@, "x64"@, trimmed_or(v, "Unknown Linux"@))
            } else if os@ == "macos"@ {
                ("macos"@, "macOS"@, "🍎"@, "x64"@, trimmed_or(v, "Unknown macOS"@))
            } else {
                ("unknown"@, "Unknown"@, "❓"@, "unknown"@, "unknown"@)
            })
        }),
{
    if str_eq(os, "windows") {
        OSInfo {
            platform: "windows".to_owned(),
            name: "Windows".to_owned(),
            icon: "🪟".to_owned(),
            architecture: "x64".to_owned(),
            version: trimmed_output(version_out, "Unknown Windows"),
        }
    } else if str_eq(os, "linux") {
        OSInfo {
            platform: "linux".to_owned(),
            name: "Linux".to_owned(),
            icon: "🐧".to_owned(),
            architecture: "x64".to_owned(),
            version: trimmed_output(version_out, "Unknown Linux"),
        }
    } else if str_eq(os, "macos") {
        OSInfo {
            platform: "macos".to_owned(),
            name: "macOS".to_owned(),
            icon: "🍎".to_owned(),
            architecture: "x64".to_owned(),
            version: trimmed_output(version_out, "Unknown macOS"),
        }
    } else {
        OSInfo {
            platform: "unknown".to_owned(),
            name: "Unknown".to_owned(),
            icon: "❓".to_owned(),
            architecture: "unknown".to_owned(),
            version: "unknown".to_owned(),
        }
    }
}

/// The server's host name: the output of `hostname`, trimmed, or "unknown"
/// where it did not run.
pub fn get_hostname(out: Option<&str>) -> (r: String)
    ensures
        r@ == trimmed_or(
            match out {
                Some(o) => Some(o@),
                None => None,
            },
            "unknown"@,
        ),
{
    trimmed_output(out, "unknown")
}
} // verus!
