//! The data that native plugins hand back, once read out of their C
//! structures: each safe structure and how its fields follow from the raw
//! ones.
use vstd::prelude::*;
use crate::frames::{buffer_to_string_lossy, c_text_bytes, lossy_utf8};
use crate::protocol::{CameraData, DirectoryInfoData, EventData, FileReaderData, WatchersData};
use vstd::utf8::{decode_utf8, valid_utf8};

verus! {

/// The text of a C character buffer: the UTF-8 text before its first NUL;
/// where those bytes are not UTF-8, what `String::from_utf8_lossy` makes of
/// them.
pub open spec fn buffer_text(buf: Seq<i8>) -> Seq<char> {
    if valid_utf8(c_text_bytes(buf)) {
        decode_utf8(c_text_bytes(buf))
    } else {
        lossy_utf8(c_text_bytes(buf))
    }
}

/// The file watchers' figures as the plugin's C structure holds them.
#[derive(Clone, Copy, Debug)]
pub struct CWatchersData {
    pub m_active_watchers: u32,
    pub m_total_notifications: u64,
    pub m_cpu_usage: u8,
    pub m_memory_usage_kb: u64,
}

impl WatchersData {
    /// The safe figures: the same values, field for field.
    pub fn from_c_struct(data: CWatchersData) -> (w: WatchersData)
        ensures
            w.active_watchers == data.m_active_watchers,
            w.total_notifications == data.m_total_notifications,
            w.cpu_usage == data.m_cpu_usage,
            w.memory_usage_kb == data.m_memory_usage_kb,
    {
        WatchersData {
            active_watchers: data.m_active_watchers,
            total_notifications: data.m_total_notifications,
            cpu_usage: data.m_cpu_usage,
            memory_usage_kb: data.m_memory_usage_kb,
        }
    }
}

impl CameraData {
    /// The safe camera data: camera "default", resolution "{width}x{height}",
    /// the frame rate and time as given.
    pub fn from_c_fields(width: u32, height: u32, fps: u32, timestamp: u64) -> (c: CameraData)
        ensures
            c.camera_id@ == "default"@,
            c.resolution@ == crate::text::decimal(width as nat) + "x"@ + crate::text::decimal(height as nat),
            c.frame_rate == fps,
            c.timestamp == timestamp,
    {
        let w = crate::text::u64_to_text(width as u64);
        let h = crate::text::u64_to_text(height as u64);
        CameraData {
            camera_id: "default".to_owned(),
            resolution: crate::text::concat3(w.as_str(), "x", h.as_str()),
            frame_rate: fps,
            timestamp,
        }
    }
}

/// A video frame: its bytes and size.
#[derive(Clone, Debug)]
pub struct VideoFrameData {
    pub data: Vec<u8>,
    pub width: u32,
    pub height: u32,
    pub timestamp: u64,
}

/// A plugin's description.
#[derive(Clone, Debug)]
pub struct PluginInfoData {
    pub name: String,
    pub version: String,
    pub description: String,
}

/// A plugin's description, as the server's interface hands it out.
#[derive(Clone, Debug)]
pub struct PluginInfoSafe {
    pub name: String,
    pub version: String,
    pub description: String,
}

impl PluginInfoData {
    /// The description from the plugin's three text buffers.
    pub fn from_buffers(name: &[i8], version: &[i8], description: &[i8]) -> (p: PluginInfoData)
        ensures
            p.name@ == buffer_text(name@),
            p.version@ == buffer_text(version@),
            p.description@ == buffer_text(description@),
    {
        PluginInfoData {
            name: buffer_to_string_lossy(name),
            version: buffer_to_string_lossy(version),
            description: buffer_to_string_lossy(description),
        }
    }
}

impl PluginInfoSafe {
    /// The server's copy of a plugin description.
    pub fn from_data(d: &PluginInfoData) -> (p: PluginInfoSafe)
        ensures
            p.name@ == d.name@,
            p.version@ == d.version@,
            p.description@ == d.description@,
    {
        PluginInfoSafe { name: d.name.clone(), version: d.version.clone(), description: d.description.clone() }
    }
}

/// The text a C string pointer gave, lossily decoded by the caller:
/// empty where the pointer was null.
pub open spec fn text_or_empty(t: Option<String>) -> Seq<char> {
    match t {
        Some(s) => s@,
        None => Seq::<char>::empty(),
    }
}

fn string_or_empty(t: Option<String>) -> (r: String)
    ensures
        r@ == text_or_empty(t),
{
    match t {
        Some(s) => s,
        None => String::new(),
    }
}

impl DirectoryInfoData {
    /// The safe scan result: the path text (empty where the plugin gave
    /// none), the counts, size, time and progress as given.
    pub fn from_parts(
        path: Option<String>,
        total_files: u64,
        total_directories: u64,
        total_size_bytes: u64,
        hidden_files: u64,
        hidden_directories: u64,
        scan_timestamp: u64,
        scan_progress: u8,
    ) -> (d: DirectoryInfoData)
        ensures
            d.path@ == text_or_empty(path),
            d.total_files == total_files,
            d.total_directories == total_directories,
            d.total_size_bytes == total_size_bytes,
            d.hidden_files == hidden_files,
            d.hidden_directories == hidden_directories,
            d.scan_timestamp == scan_timestamp,
            d.scan_progress == scan_progress,
    {
        DirectoryInfoData {
            path: string_or_empty(path),
            total_files,
            total_directories,
            total_size_bytes,
            hidden_files,
            hidden_directories,
            scan_timestamp,
            scan_progress,
        }
    }
}

impl EventData {
    /// The safe watcher report: the path text (empty where the plugin gave
    /// none), the count and buffer usage as given, the last event's buffer
    /// text, the time as given.
    pub fn from_parts(path: Option<String>, events_count: u64, buffer_usage: u8, last_event: &[i8], timestamp: u64) -> (e:
        EventData)
        ensures
            e.path@ == text_or_empty(path),
            e.events_count == events_count,
            e.buffer_usage == buffer_usage,
            e.last_event@ == buffer_text(last_event@),
            e.timestamp == timestamp,
    {
        EventData {
            path: string_or_empty(path),
            events_count,
            buffer_usage,
            last_event: buffer_to_string_lossy(last_event),
            timestamp,
        }
    }
}

impl FileReaderData {
    /// The safe file report: the path text (empty where the plugin gave
    /// none), no content (the plugin passes none), the size as given, the
    /// encoding buffer's text.
    pub fn from_parts(path: Option<String>, size: u64, encoding: &[i8]) -> (f: FileReaderData)
        ensures
            f.path@ == text_or_empty(path),
            f.content@ == Seq::<char>::empty(),
            f.size == size,
            f.encoding@ == buffer_text(encoding@),
    {
        FileReaderData { path: string_or_empty(path), content: String::new(), size, encoding: buffer_to_string_lossy(encoding) }
    }
}

/// What reading a file through a plugin gave.
#[derive(Clone, Debug)]
pub struct FileContentData {
    pub content: String,
    pub size: usize,
    pub success: bool,
    pub error: String,
}

impl FileContentData {
    /// The safe result: the content where the plugin gave one (empty
    /// otherwise), the size and flag as given, the error buffer's text.
    pub fn from_parts(content: Option<String>, size: usize, success: bool, error: &[i8]) -> (f: FileContentData)
        ensures
            f.content@ == match content {
                Some(c) => c@,
                None => Seq::<char>::empty(),
            },
            f.size == size,
            f.success == success,
            f.error@ == buffer_text(error@),
    {
        FileContentData {
            content: match content {
                Some(c) => c,
                None => String::new(),
            },
            size,
            success,
            error: buffer_to_string_lossy(error),
        }
    }
}

/// What running a command through a plugin gave.
#[derive(Clone, Debug)]
pub struct CommandResultData {
    pub output: String,
    pub exit_code: i32,
    pub success: bool,
    pub error: String,
}

impl CommandResultData {
    /// The safe result: the output where the plugin gave one (empty
    /// otherwise), the exit code and flag as given, the error buffer's text.
    pub fn from_parts(output: Option<String>, exit_code: i32, success: bool, error: &[i8]) -> (r: CommandResultData)
        ensures
            r.output@ == match output {
                Some(o) => o@,
                None => Seq::<char>::empty(),
            },
            r.exit_code == exit_code,
            r.success == success,
            r.error@ == buffer_text(error@),
    {
        CommandResultData {
            output: match output {
                Some(o) => o,
                None => String::new(),
            },
            exit_code,
            success,
            error: buffer_to_string_lossy(error),
        }
    }
}

/// The system's description as a plugin gives it.
#[derive(Clone, Debug)]
pub struct SystemInfoData {
    pub os_type: String,
    pub os_version: String,
    pub hostname: String,
    pub uptime: u64,
    pub cpu_cores: u32,
    pub total_memory: u64,
    pub available_memory: u64,
}

impl SystemInfoData {
    /// The safe description from the plugin's buffers and figures.
    pub fn from_parts(
        os_type: &[i8],
        os_version: &[i8],
        hostname: &[i8],
        uptime: u64,
        cpu_cores: u32,
        total_memory: u64,
        available_memory: u64,
    ) -> (s: SystemInfoData)
        ensures
            s.os_type@ == buffer_text(os_type@),
            s.os_version@ == buffer_text(os_version@),
            s.hostname@ == buffer_text(hostname@),
            s.uptime == uptime,
            s.cpu_cores == cpu_cores,
            s.total_memory == total_memory,
            s.available_memory == available_memory,
    {
        SystemInfoData {
            os_type: buffer_to_string_lossy(os_type),
            os_version: buffer_to_string_lossy(os_version),
            hostname: buffer_to_string_lossy(hostname),
            uptime,
            cpu_cores,
            total_memory,
            available_memory,
        }
    }
}

} // verus!
