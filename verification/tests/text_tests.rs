use mini_msp::frames::buffer_to_string;
use mini_msp::forensic::FdCount;
use mini_msp::protocol::AgentConfig;
use mini_msp::plugin_data::{CWatchersData, CommandResultData, FileContentData, PluginInfoData, SystemInfoData};
use mini_msp::protocol::{CameraData, DirectoryInfoData, EventData, FileReaderData, WatchersData};
use mini_msp::text::{
    before_char, contains_str, first_word_of, joined, lines_of, split_at_char, split_words,
    trimmed, trimmed_of, u64_to_text, without,
};

#[test]
fn word_and_line_splitting() {
    assert_eq!(split_words("  a bb\tc \n"), vec!["a", "bb", "c"]);
    assert!(split_words("   ").is_empty());
    assert_eq!(lines_of("a\r\nb\n\nc"), vec!["a", "b", "", "c"]);
    assert_eq!(lines_of("x\n"), vec!["x"]);
    assert_eq!(split_at_char("a,,b,", ','), vec!["a", "", "b", ""]);
    assert_eq!(split_at_char("", ','), vec![""]);
    assert_eq!(before_char("k=v=w", '='), "k");
    assert_eq!(before_char("kv", '='), "kv");
    assert_eq!(first_word_of("  hello world"), Some("hello".to_string()));
    assert_eq!(first_word_of("   "), None);
}

#[test]
fn trimming_and_replacing() {
    assert_eq!(trimmed("  a b  "), "a b");
    assert_eq!(trimmed_of("\"\"q\"", '"'), "q");
    assert_eq!(without("a.cppb.cpp", ".cpp"), "ab");
    assert_eq!(without("aaa", "aa"), "a");
    assert!(contains_str("abc", ""));
    assert!(contains_str("abc", "bc"));
    assert!(!contains_str("ab", "abc"));
    assert_eq!(joined(&vec!["a".to_string(), "b".to_string()], ", "), "a, b");
    assert_eq!(joined(&vec![], ", "), "");
    assert_eq!(u64_to_text(0), "0");
    assert_eq!(u64_to_text(18446744073709551615), "18446744073709551615");
}

#[test]
fn fresh_identifiers_are_uuids() {
    let a = AgentConfig::default().agent_id;
    let b = AgentConfig::default().agent_id;
    assert_eq!(a.len(), 36);
    assert_eq!(&a[14..15], "4");
    assert_ne!(a, b);
}

#[test]
fn plugin_data_from_raw_parts() {
    let w = WatchersData::from_c_struct(CWatchersData {
        m_active_watchers: 3,
        m_total_notifications: 9,
        m_cpu_usage: 12,
        m_memory_usage_kb: 2048,
    });
    assert_eq!(w.active_watchers, 3);
    assert_eq!(w.memory_usage_kb, 2048);
    let c = CameraData::from_c_fields(1920, 1080, 30, 7);
    assert_eq!(c.resolution, "1920x1080");
    assert_eq!(c.camera_id, "default");
    let name = [b'p' as i8, 0, b'x' as i8];
    let info = PluginInfoData::from_buffers(&name, &[0i8; 4], &[b'd' as i8]);
    assert_eq!(info.name, "p");
    assert_eq!(info.version, "");
    assert_eq!(info.description, "d");
    let f = FileContentData::from_parts(None, 0, false, &[b'e' as i8, 0]);
    assert_eq!(f.content, "");
    assert_eq!(f.error, "e");
    let r = CommandResultData::from_parts(Some("out".to_string()), 2, false, &[0i8]);
    assert_eq!(r.output, "out");
    assert_eq!(r.exit_code, 2);
    let s = SystemInfoData::from_parts(&[b'L' as i8, 0], &[0i8], &[b'h' as i8, 0], 5, 4, 8, 2);
    assert_eq!(s.os_type, "L");
    assert_eq!(s.hostname, "h");
    assert_eq!(s.cpu_cores, 4);
    let fd = FdCount { pid: 1, open_fds: 2 };
    assert_eq!(fd.open_fds, 2);
}

#[test]
fn plugin_scan_and_file_data_from_parts() {
    let d = DirectoryInfoData::from_parts(Some("/tmp".to_string()), 3, 1, 900, 1, 0, 77, 100);
    assert_eq!(d.path, "/tmp");
    assert_eq!(d.total_size_bytes, 900);
    assert_eq!(d.scan_progress, 100);
    assert_eq!(DirectoryInfoData::from_parts(None, 0, 0, 0, 0, 0, 0, 0).path, "");
    let e = EventData::from_parts(None, 5, 40, &[b'm' as i8, b'o' as i8, 0, b'x' as i8], 9);
    assert_eq!(e.path, "");
    assert_eq!(e.last_event, "mo");
    assert_eq!(e.events_count, 5);
    let f = FileReaderData::from_parts(Some("a.txt".to_string()), 12, &[b'u' as i8, b't' as i8, b'f' as i8, 0]);
    assert_eq!(f.content, "");
    assert_eq!(f.encoding, "utf");
    assert_eq!(f.size, 12);
}

#[test]
fn plugin_buffers_decode_lossily() {
    let s = SystemInfoData::from_parts(&[0xffu8 as i8, b'a' as i8, 0], &[0i8], &[b'h' as i8, 0], 1, 2, 3, 4);
    assert_eq!(s.os_type, "\u{FFFD}a");
    let f = FileContentData::from_parts(None, 0, false, &[b'e' as i8, 0xc3u8 as i8, 0]);
    assert_eq!(f.error, "e\u{FFFD}");
    assert_eq!(buffer_to_string(&[b'e' as i8, 0xc3u8 as i8, 0]), "");
}
