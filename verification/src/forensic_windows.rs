//! The Windows collector: the registry keys and files where forensic
//! evidence lies on Windows.
use vstd::prelude::*;
use crate::forensic::{push_finding, finding, views, with_extra, strings2, Extra, ExtraView, Finding, FindingView, ForensicReport, Severity};

verus! {

/// The artifacts that the Windows collector names, in order.
pub open spec fn windows_findings() -> Seq<FindingView> {
    seq![
        with_extra("Persistence"@, Severity::Warning, "Registry: HKLM\\SOFTWARE\\Microsoft\\Windows\\CurrentVersion\\Run"@, "Common persistence mechanism for malware"@, "registry_autorun"@, ExtraView::RegistryPath("HKLM\\SOFTWARE\\Microsoft\\Windows\\CurrentVersion\\Run"@)),
        with_extra("Persistence"@, Severity::Warning, "Registry: HKCU\\SOFTWARE\\Microsoft\\Windows\\CurrentVersion\\Run"@, "User-level persistence mechanism"@, "registry_autorun"@, ExtraView::RegistryPath("HKCU\\SOFTWARE\\Microsoft\\Windows\\CurrentVersion\\Run"@)),
        with_extra("Persistence"@, Severity::Critical, "Winlogon Shell Registry Key"@, "SOFTWARE\\Microsoft\\Windows NT\\CurrentVersion\\Winlogon\\Shell - Controls user shell"@, "winlogon"@, ExtraView::RegistryPath("SOFTWARE\\Microsoft\\Windows NT\\CurrentVersion\\Winlogon\\Shell"@)),
        with_extra("Persistence"@, Severity::Critical, "Winlogon Userinit Registry Key"@, "SOFTWARE\\Microsoft\\Windows NT\\CurrentVersion\\Winlogon\\Userinit - Controls user initialization"@, "winlogon"@, ExtraView::RegistryPath("SOFTWARE\\Microsoft\\Windows NT\\CurrentVersion\\Winlogon\\Userinit"@)),
        with_extra("Security"@, Severity::Warning, "LSA Notification Packages"@, "SYSTEM\\CurrentControlSet\\Control\\Lsa\\Notification Packages"@, "lsa"@, ExtraView::RegistryPath("SYSTEM\\CurrentControlSet\\Control\\Lsa\\Notification Packages"@)),
        with_extra("Security"@, Severity::Warning, "LSA Security Providers"@, "SYSTEM\\CurrentControlSet\\Control\\SecurityProviders\\SecurityProviders"@, "lsa"@, ExtraView::RegistryPath("SYSTEM\\CurrentControlSet\\Control\\SecurityProviders\\SecurityProviders"@)),
        with_extra("Persistence"@, Severity::Info, "Windows Services"@, "HKLM\\SYSTEM\\CurrentControlSet\\Services - Service-based persistence"@, "services"@, ExtraView::RegistryPath("HKLM\\SYSTEM\\CurrentControlSet\\Services"@)),
        with_extra("Persistence"@, Severity::Warning, "Scheduled Tasks"@, "C:\\Windows\\System32\\Tasks - Task scheduler persistence"@, "scheduled_tasks"@, ExtraView::Path("C:\\Windows\\System32\\Tasks"@)),
        with_extra("Persistence"@, Severity::Critical, "WMI Event Subscriptions"@, "WMI event consumers can be used for persistence"@, "wmi"@, ExtraView::WmiNamespace("root\\subscription"@)),
        with_extra("Persistence"@, Severity::Info, "Startup Folders"@, "AppData\\Roaming\\Microsoft\\Windows\\Start Menu\\Programs\\Startup"@, "startup_folder"@, ExtraView::Plain),
        with_extra("Evidence"@, Severity::Info, "Amcache.hve"@, "Program execution evidence in C:\\Windows\\AppCompat\\Programs\\Amcache.hve"@, "amcache"@, ExtraView::Path("C:\\Windows\\AppCompat\\Programs\\Amcache.hve"@)),
        with_extra("Evidence"@, Severity::Info, "Prefetch Files"@, "Program execution evidence in C:\\Windows\\Prefetch"@, "prefetch"@, ExtraView::Path("C:\\Windows\\Prefetch"@)),
        with_extra("Logs"@, Severity::Info, "Windows Event Logs"@, "Security, System, Application event logs"@, "event_logs"@, ExtraView::Paths(seq!["C:\\Windows\\System32\\winevt\\Logs\\Security.evtx"@, "C:\\Windows\\System32\\winevt\\Logs\\System.evtx"@])),
    ]
}

/// The words that stand beside the Windows findings.
pub open spec fn windows_note() -> Seq<char> {
    "Windows forensic artifacts - registry and file system locations"@
}

fn windows_artifacts() -> (v: Vec<Finding>)
    ensures
        views(v@) == windows_findings(),
{
    let mut v: Vec<Finding> = Vec::new();
    push_finding(&mut v, finding("Persistence", Severity::Warning, "Registry: HKLM\\SOFTWARE\\Microsoft\\Windows\\CurrentVersion\\Run".to_owned(), "Common persistence mechanism for malware".to_owned(), "registry_autorun", Extra::RegistryPath("HKLM\\SOFTWARE\\Microsoft\\Windows\\CurrentVersion\\Run".to_owned())));
    push_finding(&mut v, finding("Persistence", Severity::Warning, "Registry: HKCU\\SOFTWARE\\Microsoft\\Windows\\CurrentVersion\\Run".to_owned(), "User-level persistence mechanism".to_owned(), "registry_autorun", Extra::RegistryPath("HKCU\\SOFTWARE\\Microsoft\\Windows\\CurrentVersion\\Run".to_owned())));
    push_finding(&mut v, finding("Persistence", Severity::Critical, "Winlogon Shell Registry Key".to_owned(), "SOFTWARE\\Microsoft\\Windows NT\\CurrentVersion\\Winlogon\\Shell - Controls user shell".to_owned(), "winlogon", Extra::RegistryPath("SOFTWARE\\Microsoft\\Windows NT\\CurrentVersion\\Winlogon\\Shell".to_owned())));
    push_finding(&mut v, finding("Persistence", Severity::Critical, "Winlogon Userinit Registry Key".to_owned(), "SOFTWARE\\Microsoft\\Windows NT\\CurrentVersion\\Winlogon\\Userinit - Controls user initialization".to_owned(), "winlogon", Extra::RegistryPath("SOFTWARE\\Microsoft\\Windows NT\\CurrentVersion\\Winlogon\\Userinit".to_owned())));
    push_finding(&mut v, finding("Security", Severity::Warning, "LSA Notification Packages".to_owned(), "SYSTEM\\CurrentControlSet\\Control\\Lsa\\Notification Packages".to_owned(), "lsa", Extra::RegistryPath("SYSTEM\\CurrentControlSet\\Control\\Lsa\\Notification Packages".to_owned())));
    push_finding(&mut v, finding("Security", Severity::Warning, "LSA Security Providers".to_owned(), "SYSTEM\\CurrentControlSet\\Control\\SecurityProviders\\SecurityProviders".to_owned(), "lsa", Extra::RegistryPath("SYSTEM\\CurrentControlSet\\Control\\SecurityProviders\\SecurityProviders".to_owned())));
    push_finding(&mut v, finding("Persistence", Severity::Info, "Windows Services".to_owned(), "HKLM\\SYSTEM\\CurrentControlSet\\Services - Service-based persistence".to_owned(), "services", Extra::RegistryPath("HKLM\\SYSTEM\\CurrentControlSet\\Services".to_owned())));
    push_finding(&mut v, finding("Persistence", Severity::Warning, "Scheduled Tasks".to_owned(), "C:\\Windows\\System32\\Tasks - Task scheduler persistence".to_owned(), "scheduled_tasks", Extra::Path("C:\\Windows\\System32\\Tasks".to_owned())));
    push_finding(&mut v, finding("Persistence", Severity::Critical, "WMI Event Subscriptions".to_owned(), "WMI event consumers can be used for persistence".to_owned(), "wmi", Extra::WmiNamespace("root\\subscription".to_owned())));
    push_finding(&mut v, finding("Persistence", Severity::Info, "Startup Folders".to_owned(), "AppData\\Roaming\\Microsoft\\Windows\\Start Menu\\Programs\\Startup".to_owned(), "startup_folder", Extra::Plain));
    push_finding(&mut v, finding("Evidence", Severity::Info, "Amcache.hve".to_owned(), "Program execution evidence in C:\\Windows\\AppCompat\\Programs\\Amcache.hve".to_owned(), "amcache", Extra::Path("C:\\Windows\\AppCompat\\Programs\\Amcache.hve".to_owned())));
    push_finding(&mut v, finding("Evidence", Severity::Info, "Prefetch Files".to_owned(), "Program execution evidence in C:\\Windows\\Prefetch".to_owned(), "prefetch", Extra::Path("C:\\Windows\\Prefetch".to_owned())));
    push_finding(&mut v, finding("Logs", Severity::Info, "Windows Event Logs".to_owned(), "Security, System, Application event logs".to_owned(), "event_logs", Extra::Paths(strings2("C:\\Windows\\System32\\winevt\\Logs\\Security.evtx", "C:\\Windows\\System32\\winevt\\Logs\\System.evtx"))));
    assert(views(v@) =~= windows_findings());
    v
}

/// Names the registry keys and files where evidence lies on Windows.
pub struct WindowsForensicCollector;

impl WindowsForensicCollector {
    /// The Windows report: its fixed list of artifact locations and a note.
    pub fn collect(&self) -> (r: ForensicReport)
        ensures
            r@.platform == "windows"@,
            r@.variant is None,
            r@.note == Some(windows_note()),
            r@.findings == windows_findings(),
    {
        ForensicReport {
            platform: "windows".to_owned(),
            variant: None,
            note: Some("Windows forensic artifacts - registry and file system locations".to_owned()),
            findings: windows_artifacts(),
        }
    }

    /// The platform this collector is for: "windows".
    pub fn platform(&self) -> (r: &'static str)
        ensures
            r@ == "windows"@,
    {
        "windows"
    }
}

} // verus!
