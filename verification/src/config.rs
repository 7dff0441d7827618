//! The standalone agent's configuration: its defaults, its validation, the
//! overrides that the environment and the command line apply, and merging.
use vstd::prelude::*;
use crate::text::{str_eq, split_on, trimmed, trim, is_split_of};

verus! {

/// Identity and timing of the agent.
#[derive(Debug, Clone)]
pub struct AgentConfigSection {
    pub id: String,
    pub hostname: Option<String>,
    pub version: String,
    pub platform: String,
    pub heartbeat_interval: u64,
    pub metrics_interval: u64,
}

/// Where the message broker is.
#[derive(Debug, Clone)]
pub struct BrokerConfig {
    pub url: String,
}

/// How the agent logs.
#[derive(Debug, Clone)]
pub struct LoggingConfig {
    pub level: String,
    pub format: String,
    pub file: Option<String>,
}

/// Which plugins the agent loads, and from where.
#[derive(Debug, Clone)]
pub struct PluginConfig {
    pub enabled_plugins: Vec<String>,
    pub plugin_dirs: Vec<String>,
}

/// What the agent lets remote commands do.
#[derive(Debug, Clone)]
pub struct SecurityConfig {
    pub allowed_commands: Vec<String>,
    pub max_file_size: u64,
}

/// The whole configuration of the standalone agent.
#[derive(Debug, Clone)]
pub struct AgentConfig {
    pub agent: AgentConfigSection,
    pub broker: BrokerConfig,
    pub logging: LoggingConfig,
    pub plugins: PluginConfig,
    pub security: SecurityConfig,
}

/// The characters of every string of `v`.
pub open spec fn views(v: Seq<String>) -> Seq<Seq<char>> {
    v.map_values(|s: String| s@)
}

/// The characters of an optional string.
pub open spec fn opt_view(o: Option<String>) -> Option<Seq<char>> {
    match o {
        Some(s) => Some(s@),
        None => None,
    }
}

/// The plain values of a configuration.
pub struct ConfigView {
    pub id: Seq<char>,
    pub hostname: Option<Seq<char>>,
    pub version: Seq<char>,
    pub platform: Seq<char>,
    pub heartbeat_interval: u64,
    pub metrics_interval: u64,
    pub broker_url: Seq<char>,
    pub log_level: Seq<char>,
    pub log_format: Seq<char>,
    pub log_file: Option<Seq<char>>,
    pub enabled_plugins: Seq<Seq<char>>,
    pub plugin_dirs: Seq<Seq<char>>,
    pub allowed_commands: Seq<Seq<char>>,
    pub max_file_size: u64,
}

impl AgentConfig {
    pub open spec fn view(&self) -> ConfigView {
        ConfigView {
            id: self.agent.id@,
            hostname: opt_view(self.agent.hostname),
            version: self.agent.version@,
            platform: self.agent.platform@,
            heartbeat_interval: self.agent.heartbeat_interval,
            metrics_interval: self.agent.metrics_interval,
            broker_url: self.broker.url@,
            log_level: self.logging.level@,
            log_format: self.logging.format@,
            log_file: opt_view(self.logging.file),
            enabled_plugins: views(self.plugins.enabled_plugins@),
            plugin_dirs: views(self.plugins.plugin_dirs@),
            allowed_commands: views(self.security.allowed_commands@),
            max_file_size: self.security.max_file_size,
        }
    }
}

/// Why a configuration is refused.
#[derive(Debug, Clone)]
pub enum ConfigError {
    EmptyAgentId,
    EmptyBrokerUrl,
    InvalidLogLevel(String),
    InvalidLogFormat(String),
}

/// The log levels that the agent accepts.
pub open spec fn is_log_level(l: Seq<char>) -> bool {
    l == "trace"@ || l == "debug"@ || l == "info"@ || l == "warn"@ || l == "error"@
}

/// The log formats that the agent accepts.
pub open spec fn is_log_format(f: Seq<char>) -> bool {
    f == "json"@ || f == "text"@
}

/// Why `c` is refused, checked in this order, or `None` when it is accepted.
pub open spec fn config_problem(c: ConfigView) -> Option<int> {
    if c.id.len() == 0 {
        Some(0)
    } else if c.broker_url.len() == 0 {
        Some(1)
    } else if !is_log_level(c.log_level) {
        Some(2)
    } else if !is_log_format(c.log_format) {
        Some(3)
    } else {
        None
    }
}

/// The number that `config_problem` gives each error.
pub open spec fn error_code(e: ConfigError) -> int {
    match e {
        ConfigError::EmptyAgentId => 0,
        ConfigError::EmptyBrokerUrl => 1,
        ConfigError::InvalidLogLevel(_) => 2,
        ConfigError::InvalidLogFormat(_) => 3,
    }
}

/// A copy of a list of strings.
pub fn copy_strings(v: &Vec<String>) -> (r: Vec<String>)
    ensures
        views(r@) == views(v@),
{
    let mut r: Vec<String> = Vec::new();
    let n = v.len();
    let mut i: usize = 0;
    while i < n
        invariant
            n == v@.len(),
            i <= n,
            views(r@) == views(v@).take(i as int),
        decreases n - i,
    {
        let s = v[i].clone();
        let ghost prev = r@;
        r.push(s);
        proof {
            assert(r@ == prev.push(s));
            assert(views(r@) =~= views(prev).push(s@));
            assert(views(r@) =~= views(v@).take(i + 1));
        }
        i = i + 1;
    }
    assert(views(v@).take(n as int) =~= views(v@));
    r
}

fn copy_opt(o: &Option<String>) -> (r: Option<String>)
    ensures
        opt_view(r) == opt_view(*o),
{
    match o {
        Some(s) => Some(s.clone()),
        None => None,
    }
}

/// A copy of a configuration.
pub fn copy_config(c: &AgentConfig) -> (r: AgentConfig)
    ensures
        r.view() == c.view(),
{
    AgentConfig {
        agent: AgentConfigSection {
            id: c.agent.id.clone(),
            hostname: copy_opt(&c.agent.hostname),
            version: c.agent.version.clone(),
            platform: c.agent.platform.clone(),
            heartbeat_interval: c.agent.heartbeat_interval,
            metrics_interval: c.agent.metrics_interval,
        },
        broker: BrokerConfig { url: c.broker.url.clone() },
        logging: LoggingConfig {
            level: c.logging.level.clone(),
            format: c.logging.format.clone(),
            file: copy_opt(&c.logging.file),
        },
        plugins: PluginConfig {
            enabled_plugins: copy_strings(&c.plugins.enabled_plugins),
            plugin_dirs: copy_strings(&c.plugins.plugin_dirs),
        },
        security: SecurityConfig {
            allowed_commands: copy_strings(&c.security.allowed_commands),
            max_file_size: c.security.max_file_size,
        },
    }
}

/// The default heartbeat interval, in seconds.
pub const DEFAULT_HEARTBEAT_SEC: u64 = 30;

/// The default metrics interval, in seconds.
pub const DEFAULT_METRICS_SEC: u64 = 60;

/// The default largest file that the agent reads, in bytes.
pub const DEFAULT_MAX_FILE_SIZE: u64 = 100000;

/// The values of the default configuration, for an agent identifier `id`.
pub open spec fn default_view(id: Seq<char>) -> ConfigView {
    ConfigView {
        id: id,
        hostname: None,
        version: "0.1.0"@,
        platform: "unknown"@,
        heartbeat_interval: DEFAULT_HEARTBEAT_SEC,
        metrics_interval: DEFAULT_METRICS_SEC,
        broker_url: "nats://localhost:4222"@,
        log_level: "info"@,
        log_format: "json"@,
        log_file: None,
        enabled_plugins: Seq::empty(),
        plugin_dirs: seq!["./plugins"@],
        allowed_commands: seq!["ps"@, "top"@, "df"@, "free"@, "ls"@, "cat"@],
        max_file_size: DEFAULT_MAX_FILE_SIZE,
    }
}

impl AgentConfig {
    /// The default configuration, under a randomly drawn agent identifier.
    pub fn default_config() -> (c: AgentConfig)
        ensures
            crate::ids::is_uuid_v4_text(c.agent.id@),
            c.view() == default_view(c.agent.id@),
    {
        let id = crate::ids::new_uuid_text();
        let mut dirs: Vec<String> = Vec::new();
        dirs.push("./plugins".to_owned());
        let mut allowed: Vec<String> = Vec::new();
        allowed.push("ps".to_owned());
        allowed.push("top".to_owned());
        allowed.push("df".to_owned());
        allowed.push("free".to_owned());
        allowed.push("ls".to_owned());
        allowed.push("cat".to_owned());
        let c = AgentConfig {
            agent: AgentConfigSection {
                id,
                hostname: None,
                version: "0.1.0".to_owned(),
                platform: "unknown".to_owned(),
                heartbeat_interval: DEFAULT_HEARTBEAT_SEC,
                metrics_interval: DEFAULT_METRICS_SEC,
            },
            broker: BrokerConfig { url: "nats://localhost:4222".to_owned() },
            logging: LoggingConfig { level: "info".to_owned(), format: "json".to_owned(), file: None },
            plugins: PluginConfig { enabled_plugins: Vec::new(), plugin_dirs: dirs },
            security: SecurityConfig { allowed_commands: allowed, max_file_size: DEFAULT_MAX_FILE_SIZE },
        };
        proof {
            assert(views(c.plugins.enabled_plugins@) =~= Seq::<Seq<char>>::empty());
            assert(views(c.plugins.plugin_dirs@) =~= seq!["./plugins"@]);
            assert(views(c.security.allowed_commands@) =~= seq!["ps"@, "top"@, "df"@, "free"@, "ls"@, "cat"@]);
        }
        c
    }
}

/// Checks `config`: the agent identifier and the broker address must not be
/// empty, the log level must be one of trace, debug, info, warn, error, and
/// the log format json or text; the first rule broken is reported.
pub fn validate_config(config: &AgentConfig) -> (r: Result<(), ConfigError>)
    ensures
        match r {
            Ok(()) => config_problem(config.view()) is None,
            Err(e) => config_problem(config.view()) == Some(error_code(e)) && match e {
                ConfigError::InvalidLogLevel(l) => l@ == config.view().log_level,
                ConfigError::InvalidLogFormat(f) => f@ == config.view().log_format,
                _ => true,
            },
        },
{
    if config.agent.id.as_str().is_empty() {
        return Err(ConfigError::EmptyAgentId);
    }
    if config.broker.url.as_str().is_empty() {
        return Err(ConfigError::EmptyBrokerUrl);
    }
    let level = config.logging.level.as_str();
    proof {
        reveal_strlit("trace");
        reveal_strlit("debug");
        reveal_strlit("info");
        reveal_strlit("warn");
        reveal_strlit("error");
        reveal_strlit("json");
        reveal_strlit("text");
    }
    if !(str_eq(level, "trace") || str_eq(level, "debug") || str_eq(level, "info") || str_eq(level, "warn")
        || str_eq(level, "error")) {
        return Err(ConfigError::InvalidLogLevel(config.logging.level.clone()));
    }
    let format = config.logging.format.as_str();
    if !(str_eq(format, "json") || str_eq(format, "text")) {
        return Err(ConfigError::InvalidLogFormat(config.logging.format.clone()));
    }
    Ok(())
}

/// The configuration `base` with the non-empty settings of `other` laid over
/// it: identifier, host name, broker address, intervals, log level, log
/// format, enabled plugins and plugin directories.
pub open spec fn merged(base: ConfigView, other: ConfigView) -> ConfigView {
    ConfigView {
        id: if other.id.len() > 0 { other.id } else { base.id },
        hostname: if other.hostname is Some { other.hostname } else { base.hostname },
        broker_url: if other.broker_url.len() > 0 { other.broker_url } else { base.broker_url },
        heartbeat_interval: if other.heartbeat_interval > 0 { other.heartbeat_interval } else { base.heartbeat_interval },
        metrics_interval: if other.metrics_interval > 0 { other.metrics_interval } else { base.metrics_interval },
        log_level: if other.log_level.len() > 0 { other.log_level } else { base.log_level },
        log_format: if other.log_format.len() > 0 { other.log_format } else { base.log_format },
        enabled_plugins: if other.enabled_plugins.len() > 0 { other.enabled_plugins } else { base.enabled_plugins },
        plugin_dirs: if other.plugin_dirs.len() > 0 { other.plugin_dirs } else { base.plugin_dirs },
        ..base
    }
}

/// The overrides that the environment can give.
pub struct EnvOverrides {
    pub agent_id: Option<String>,
    pub broker_url: Option<String>,
    pub log_level: Option<String>,
    pub enabled_plugins: Option<String>,
}

/// The list that a comma-separated value names: each piece trimmed.
pub open spec fn plugin_list(parts: Seq<Seq<char>>) -> Seq<Seq<char>> {
    parts.map_values(|p: Seq<char>| trim(p))
}

/// `value` split at each comma, every piece trimmed of white space.
pub fn parse_plugin_list(value: &str) -> (r: Vec<String>)
    ensures
        exists|parts: Seq<Seq<char>>| #[trigger] is_split_of(parts, value@, ',') && views(r@) == plugin_list(parts),
{
    let parts = split_on(value, ',');
    let ghost pv = parts@.map_values(|p: String| p@);
    let mut r: Vec<String> = Vec::new();
    let n = parts.len();
    let mut i: usize = 0;
    while i < n
        invariant
            n == parts@.len(),
            i <= n,
            pv == parts@.map_values(|p: String| p@),
            views(r@) == plugin_list(pv).take(i as int),
        decreases n - i,
    {
        let t = trimmed(parts[i].as_str());
        let ghost prev = r@;
        r.push(t);
        proof {
            assert(r@ == prev.push(t));
            assert(views(r@) =~= views(prev).push(t@));
            assert(pv[i as int] == parts@[i as int]@);
            assert(plugin_list(pv)[i as int] == trim(pv[i as int]));
            assert(views(r@) =~= plugin_list(pv).take(i + 1));
        }
        i = i + 1;
    }
    proof {
        assert(plugin_list(pv).take(n as int) =~= plugin_list(pv));
    }
    r
}

pub struct ConfigManager {
    config: AgentConfig,
}

impl ConfigManager {
    pub closed spec fn view(&self) -> ConfigView {
        self.config.view()
    }

    /// A manager over `config` once it passes validation.
    pub fn from_config(config: AgentConfig) -> (r: Result<ConfigManager, ConfigError>)
        ensures
            match r {
                Ok(m) => config_problem(config.view()) is None && m.view() == config.view(),
                Err(e) => config_problem(config.view()) == Some(error_code(e)),
            },
    {
        match validate_config(&config) {
            Ok(()) => Ok(ConfigManager { config }),
            Err(e) => Err(e),
        }
    }

    /// A manager over the default configuration.
    pub fn load_with_defaults() -> (m: ConfigManager)
        ensures
            crate::ids::is_uuid_v4_text(m.view().id),
            m.view() == default_view(m.view().id),
    {
        ConfigManager { config: AgentConfig::default_config() }
    }

    /// A manager over the default configuration with the environment's
    /// overrides applied: agent identifier, broker address, log level, and
    /// a comma-separated list of enabled plugins.
    pub fn load_from_env(env: EnvOverrides) -> (m: ConfigManager)
        ensures
            crate::ids::is_uuid_v4_text(m.view().id) || env.agent_id is Some,
            m.view().id == (match env.agent_id {
                Some(s) => s@,
                None => m.view().id,
            }),
            m.view().broker_url == (match env.broker_url {
                Some(s) => s@,
                None => "nats://localhost:4222"@,
            }),
            m.view().log_level == (match env.log_level {
                Some(s) => s@,
                None => "info"@,
            }),
            match env.enabled_plugins {
                Some(s) => exists|parts: Seq<Seq<char>>| #[trigger] is_split_of(parts, s@, ',')
                    && m.view().enabled_plugins == plugin_list(parts),
                None => m.view().enabled_plugins == Seq::<Seq<char>>::empty(),
            },
            ({
                let d = default_view(m.view().id);
                &&& m.view().hostname == d.hostname
                &&& m.view().version == d.version
                &&& m.view().platform == d.platform
                &&& m.view().heartbeat_interval == d.heartbeat_interval
                &&& m.view().metrics_interval == d.metrics_interval
                &&& m.view().log_format == d.log_format
                &&& m.view().log_file == d.log_file
                &&& m.view().plugin_dirs == d.plugin_dirs
                &&& m.view().allowed_commands == d.allowed_commands
                &&& m.view().max_file_size == d.max_file_size
            }),
    {
        let mut config = AgentConfig::default_config();
        let ghost drawn = config.agent.id@;
        match env.agent_id {
            Some(id) => {
                config.agent.id = id;
            },
            None => {},
        }
        match env.broker_url {
            Some(url) => {
                config.broker.url = url;
            },
            None => {},
        }
        match env.log_level {
            Some(level) => {
                config.logging.level = level;
            },
            None => {},
        }
        match env.enabled_plugins {
            Some(list) => {
                config.plugins.enabled_plugins = parse_plugin_list(list.as_str());
            },
            None => {},
        }
        ConfigManager { config }
    }

    /// The configuration.
    pub fn get_config(&self) -> (c: &AgentConfig)
        ensures
            c.view() == self.view(),
    {
        &self.config
    }

    /// The configuration, to change in place.
    pub fn get_config_mut(&mut self) -> (c: &mut AgentConfig)
        ensures
            c.view() == old(self).view(),
            final(self).view() == final(c).view(),
    {
        &mut self.config
    }

    /// Applies the command line's overrides: agent identifier, broker
    /// address, log level and log file, where given.
    pub fn apply_cli(
        &mut self,
        agent_id: Option<String>,
        broker_url: Option<String>,
        log_level: Option<String>,
        log_file: Option<String>,
    )
        ensures
            final(self).view() == (ConfigView {
                id: match agent_id {
                    Some(s) => s@,
                    None => old(self).view().id,
                },
                broker_url: match broker_url {
                    Some(s) => s@,
                    None => old(self).view().broker_url,
                },
                log_level: match log_level {
                    Some(s) => s@,
                    None => old(self).view().log_level,
                },
                log_file: match log_file {
                    Some(s) => Some(s@),
                    None => old(self).view().log_file,
                },
                ..old(self).view()
            }),
    {
        match agent_id {
            Some(id) => {
                self.config.agent.id = id;
            },
            None => {},
        }
        match broker_url {
            Some(url) => {
                self.config.broker.url = url;
            },
            None => {},
        }
        match log_level {
            Some(level) => {
                self.config.logging.level = level;
            },
            None => {},
        }
        match log_file {
            Some(file) => {
                self.config.logging.file = Some(file);
            },
            None => {},
        }
    }

    /// Lays the non-empty settings of `other` over the configuration.
    pub fn merge(&mut self, other: &AgentConfig)
        ensures
            final(self).view() == merged(old(self).view(), other.view()),
    {
        if !other.agent.id.as_str().is_empty() {
            self.config.agent.id = other.agent.id.clone();
        }
        if other.agent.hostname.is_some() {
            self.config.agent.hostname = copy_opt(&other.agent.hostname);
        }
        if !other.broker.url.as_str().is_empty() {
            self.config.broker.url = other.broker.url.clone();
        }
        if other.agent.heartbeat_interval > 0 {
            self.config.agent.heartbeat_interval = other.agent.heartbeat_interval;
        }
        if other.agent.metrics_interval > 0 {
            self.config.agent.metrics_interval = other.agent.metrics_interval;
        }
        if !other.logging.level.as_str().is_empty() {
            self.config.logging.level = other.logging.level.clone();
        }
        if !other.logging.format.as_str().is_empty() {
            self.config.logging.format = other.logging.format.clone();
        }
        if other.plugins.enabled_plugins.len() > 0 {
            self.config.plugins.enabled_plugins = copy_strings(&other.plugins.enabled_plugins);
        }
        if other.plugins.plugin_dirs.len() > 0 {
            self.config.plugins.plugin_dirs = copy_strings(&other.plugins.plugin_dirs);
        }
    }
}

/// Merging the same settings twice is merging them once.
pub proof fn law_merge_idempotent(base: ConfigView, other: ConfigView)
    ensures
        merged(merged(base, other), other) == merged(base, other),
{
}

/// Merging a configuration into itself changes nothing.
pub proof fn law_merge_self(c: ConfigView)
    ensures
        merged(c, c) == c,
{
}

/// Merging settings that are all empty changes nothing.
pub proof fn law_merge_empty(base: ConfigView, other: ConfigView)
    requires
        other.id.len() == 0,
        other.hostname is None,
        other.broker_url.len() == 0,
        other.heartbeat_interval == 0,
        other.metrics_interval == 0,
        other.log_level.len() == 0,
        other.log_format.len() == 0,
        other.enabled_plugins.len() == 0,
        other.plugin_dirs.len() == 0,
    ensures
        merged(base, other) == base,
{
}

/// A valid configuration stays valid when valid settings are merged in,
/// empty or not.
pub proof fn law_merge_keeps_valid(base: ConfigView, other: ConfigView)
    requires
        config_problem(base) is None,
        other.log_level.len() == 0 || is_log_level(other.log_level),
        other.log_format.len() == 0 || is_log_format(other.log_format),
    ensures
        config_problem(merged(base, other)) is None,
{
}

/// The default configuration passes validation.
pub proof fn law_default_is_valid(id: Seq<char>)
    requires
        id.len() > 0,
    ensures
        config_problem(default_view(id)) is None,
{
    reveal_strlit("nats://localhost:4222");
    reveal_strlit("info");
    reveal_strlit("json");
}

} // verus!
