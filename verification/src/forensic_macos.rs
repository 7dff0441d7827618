//! The macOS collector: the places on a Mac where forensic evidence lies.
use vstd::prelude::*;
use crate::forensic::{push_finding, finding, views, with_extra, strings2, strings3, strings4, Extra, ExtraView, Finding, FindingView, ForensicReport, Severity};

verus! {

/// The artifacts that the macOS collector names, in order.
pub open spec fn macos_findings() -> Seq<FindingView> {
    seq![
        with_extra("Persistence"@, Severity::Warning, "LaunchAgents (User)"@, "~/Library/LaunchAgents - User-level persistence mechanism"@, "launchagents"@, ExtraView::Path("~/Library/LaunchAgents"@)),
        with_extra("Persistence"@, Severity::Critical, "LaunchDaemons (System)"@, "/Library/LaunchDaemons - System-level persistence mechanism"@, "launchdaemons"@, ExtraView::Path("/Library/LaunchDaemons"@)),
        with_extra("Persistence"@, Severity::Warning, "StartupItems"@, "/Library/StartupItems - Legacy startup mechanism"@, "startupitems"@, ExtraView::Path("/Library/StartupItems"@)),
        with_extra("Persistence"@, Severity::Info, "Login Items"@, "Applications set to launch at user login via System Preferences"@, "loginitems"@, ExtraView::Plain),
        with_extra("Kernel"@, Severity::Critical, "Kernel Extensions (KEXTs)"@, "/Library/Extensions - Kernel-level code that could hide rootkits"@, "kexts"@, ExtraView::Paths(seq!["/Library/Extensions"@, "/System/Library/Extensions"@])),
        with_extra("Kernel"@, Severity::Warning, "System Extensions"@, "Modern driver extensions - replacement for KEXTs in 10.15+"@, "system_extensions"@, ExtraView::Plain),
        with_extra("Persistence"@, Severity::Warning, "Crontab Entries"@, "/usr/lib/cron/tabs/ - User crontab files"@, "cron"@, ExtraView::Path("/usr/lib/cron/tabs/"@)),
        with_extra("Persistence"@, Severity::Info, "Periodic Scripts"@, "/etc/periodic/ - Scheduled maintenance scripts"@, "periodic"@, ExtraView::Paths(seq!["/etc/periodic/daily"@, "/etc/periodic/weekly"@, "/etc/periodic/monthly"@])),
        with_extra("Persistence"@, Severity::Critical, "Emond (Event Monitor Daemon)"@, "/private/var/db/emondClients - Event-based persistence mechanism"@, "emond"@, ExtraView::Path("/private/var/db/emondClients"@)),
        with_extra("Persistence"@, Severity::Critical, "Authorization Plugins"@, "/Library/Security/SecurityAgentPlugins - Login hook persistence"@, "auth_plugins"@, ExtraView::Path("/Library/Security/SecurityAgentPlugins"@)),
        with_extra("Persistence"@, Severity::Warning, "Universal Access Plugins"@, "Accessibility plugin persistence mechanism"@, "universal_access"@, ExtraView::Plain),
        with_extra("Persistence"@, Severity::Warning, "Shell Profile Persistence"@, "~/.bash_profile, ~/.zshrc - Shell initialization scripts"@, "shell_profiles"@, ExtraView::Files(seq!["~/.bash_profile"@, "~/.bashrc"@, "~/.zshrc"@, "~/.zprofile"@])),
        with_extra("Persistence"@, Severity::Info, "Browser Extensions"@, "Safari/Chrome/Firefox extensions - potential adware/malware vectors"@, "browser_extensions"@, ExtraView::Plain),
        with_extra("Persistence"@, Severity::Info, "Installed Applications"@, "/Applications - Check for suspicious/malicious apps"@, "applications"@, ExtraView::Paths(seq!["/Applications"@, "~/Applications"@])),
        with_extra("Logs"@, Severity::Info, "Unified Logs"@, "log show -- unified logging system (10.12+)"@, "unified_logs"@, ExtraView::Command("log show"@)),
        with_extra("Evidence"@, Severity::Info, "WiFi Connection History"@, "/Library/Preferences/SystemConfiguration/com.apple.airport.preferences.plist"@, "wifi_history"@, ExtraView::Path("/Library/Preferences/SystemConfiguration/com.apple.airport.preferences.plist"@)),
        with_extra("Evidence"@, Severity::Warning, "Quarantine Database"@, "~/Library/Preferences/com.apple.LaunchServices.QuarantineEventsV2 - Downloaded files history"@, "quarantine"@, ExtraView::Path("~/Library/Preferences/com.apple.LaunchServices.QuarantineEventsV2"@)),
        with_extra("Evidence"@, Severity::Info, "Recent Items"@, "~/.bash_history, recent documents, downloads"@, "recent_items"@, ExtraView::Plain),
    ]
}

/// The words that stand beside the macOS findings.
pub open spec fn macos_note() -> Seq<char> {
    "macOS forensic artifacts - LaunchAgents, LaunchDaemons, KEXTs, and more"@
}

fn macos_artifacts() -> (v: Vec<Finding>)
    ensures
        views(v@) == macos_findings(),
{
    let mut v: Vec<Finding> = Vec::new();
    push_finding(&mut v, finding("Persistence", Severity::Warning, "LaunchAgents (User)".to_owned(), "~/Library/LaunchAgents - User-level persistence mechanism".to_owned(), "launchagents", Extra::Path("~/Library/LaunchAgents".to_owned())));
    push_finding(&mut v, finding("Persistence", Severity::Critical, "LaunchDaemons (System)".to_owned(), "/Library/LaunchDaemons - System-level persistence mechanism".to_owned(), "launchdaemons", Extra::Path("/Library/LaunchDaemons".to_owned())));
    push_finding(&mut v, finding("Persistence", Severity::Warning, "StartupItems".to_owned(), "/Library/StartupItems - Legacy startup mechanism".to_owned(), "startupitems", Extra::Path("/Library/StartupItems".to_owned())));
    push_finding(&mut v, finding("Persistence", Severity::Info, "Login Items".to_owned(), "Applications set to launch at user login via System Preferences".to_owned(), "loginitems", Extra::Plain));
    push_finding(&mut v, finding("Kernel", Severity::Critical, "Kernel Extensions (KEXTs)".to_owned(), "/Library/Extensions - Kernel-level code that could hide rootkits".to_owned(), "kexts", Extra::Paths(strings2("/Library/Extensions", "/System/Library/Extensions"))));
    push_finding(&mut v, finding("Kernel", Severity::Warning, "System Extensions".to_owned(), "Modern driver extensions - replacement for KEXTs in 10.15+".to_owned(), "system_extensions", Extra::Plain));
    push_finding(&mut v, finding("Persistence", Severity::Warning, "Crontab Entries".to_owned(), "/usr/lib/cron/tabs/ - User crontab files".to_owned(), "cron", Extra::Path("/usr/lib/cron/tabs/".to_owned())));
    push_finding(&mut v, finding("Persistence", Severity::Info, "Periodic Scripts".to_owned(), "/etc/periodic/ - Scheduled maintenance scripts".to_owned(), "periodic", Extra::Paths(strings3("/etc/periodic/daily", "/etc/periodic/weekly", "/etc/periodic/monthly"))));
    push_finding(&mut v, finding("Persistence", Severity::Critical, "Emond (Event Monitor Daemon)".to_owned(), "/private/var/db/emondClients - Event-based persistence mechanism".to_owned(), "emond", Extra::Path("/private/var/db/emondClients".to_owned())));
    push_finding(&mut v, finding("Persistence", Severity::Critical, "Authorization Plugins".to_owned(), "/Library/Security/SecurityAgentPlugins - Login hook persistence".to_owned(), "auth_plugins", Extra::Path("/Library/Security/SecurityAgentPlugins".to_owned())));
    push_finding(&mut v, finding("Persistence", Severity::Warning, "Universal Access Plugins".to_owned(), "Accessibility plugin persistence mechanism".to_owned(), "universal_access", Extra::Plain));
    push_finding(&mut v, finding("Persistence", Severity::Warning, "Shell Profile Persistence".to_owned(), "~/.bash_profile, ~/.zshrc - Shell initialization scripts".to_owned(), "shell_profiles", Extra::Files(strings4("~/.bash_profile", "~/.bashrc", "~/.zshrc", "~/.zprofile"))));
    push_finding(&mut v, finding("Persistence", Severity::Info, "Browser Extensions".to_owned(), "Safari/Chrome/Firefox extensions - potential adware/malware vectors".to_owned(), "browser_extensions", Extra::Plain));
    push_finding(&mut v, finding("Persistence", Severity::Info, "Installed Applications".to_owned(), "/Applications - Check for suspicious/malicious apps".to_owned(), "applications", Extra::Paths(strings2("/Applications", "~/Applications"))));
    push_finding(&mut v, finding("Logs", Severity::Info, "Unified Logs".to_owned(), "log show -- unified logging system (10.12+)".to_owned(), "unified_logs", Extra::Command("log show".to_owned())));
    push_finding(&mut v, finding("Evidence", Severity::Info, "WiFi Connection History".to_owned(), "/Library/Preferences/SystemConfiguration/com.apple.airport.preferences.plist".to_owned(), "wifi_history", Extra::Path("/Library/Preferences/SystemConfiguration/com.apple.airport.preferences.plist".to_owned())));
    push_finding(&mut v, finding("Evidence", Severity::Warning, "Quarantine Database".to_owned(), "~/Library/Preferences/com.apple.LaunchServices.QuarantineEventsV2 - Downloaded files history".to_owned(), "quarantine", Extra::Path("~/Library/Preferences/com.apple.LaunchServices.QuarantineEventsV2".to_owned())));
    push_finding(&mut v, finding("Evidence", Severity::Info, "Recent Items".to_owned(), "~/.bash_history, recent documents, downloads".to_owned(), "recent_items", Extra::Plain));
    assert(views(v@) =~= macos_findings());
    v
}

/// Names the places on a Mac where forensic evidence lies.
pub struct MacOSForensicCollector;

impl MacOSForensicCollector {
    /// The macOS report: its fixed list of artifact locations and a note.
    pub fn collect(&self) -> (r: ForensicReport)
        ensures
            r@.platform == "macos"@,
            r@.variant is None,
            r@.note == Some(macos_note()),
            r@.findings == macos_findings(),
    {
        ForensicReport {
            platform: "macos".to_owned(),
            variant: None,
            note: Some("macOS forensic artifacts - LaunchAgents, LaunchDaemons, KEXTs, and more".to_owned()),
            findings: macos_artifacts(),
        }
    }

    /// The platform this collector is for: "macos".
    pub fn platform(&self) -> (r: &'static str)
        ensures
            r@ == "macos"@,
    {
        "macos"
    }
}

} // verus!
