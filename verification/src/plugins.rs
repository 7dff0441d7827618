//! Plugins: how the agent's plugins answer commands, how a command is
//! routed to a loaded plugin, and how plugin files are named and checked.
use vstd::prelude::*;
use crate::protocol::Command;
use crate::text::{concat, remove_all, replace_char, str_eq, without};
use crate::ws_inbound::{
    json_object_text, json_str_field, json_string_field, key_unique, object_text, opt_text, pair_views,
};

verus! {

/// What a plugin answers to a command, before the data that the answer
/// carries is gathered.
#[derive(Clone, Debug)]
pub struct PluginAnswer {
    pub command_id: String,
    pub kind: String,
    pub status: String,
    pub body: AnswerBody,
}

/// The data that goes with an answer.
#[derive(Clone, Debug)]
pub enum AnswerBody {
    /// The machine's system information.
    SystemInfo,
    /// The running processes.
    Processes,
    /// The forensic information gathered from the description file.
    ForensicInfo,
    /// The process tree.
    ProcessTree,
    /// The content of the description file, read under this path.
    FileContent(String),
    /// An error, with its message.
    Error(String),
}

/// The parts of an answer as plain values.
pub open spec fn answer_is(a: PluginAnswer, command_id: Seq<char>, kind: Seq<char>, status: Seq<char>) -> bool {
    a.command_id@ == command_id && a.kind@ == kind && a.status@ == status
}

fn answer(command_id: &str, kind: &str, status: &str, body: AnswerBody) -> (a: PluginAnswer)
    ensures
        answer_is(a, command_id@, kind@, status@),
        a.body == body,
{
    PluginAnswer { command_id: command_id.to_owned(), kind: kind.to_owned(), status: status.to_owned(), body }
}

/// The name a plugin takes from its source file's name: without ".cpp",
/// underscores made spaces.
pub open spec fn plugin_name_from_file(file_name: Seq<char>) -> Seq<char> {
    remove_all(file_name, ".cpp"@).map_values(|c: char| if c == '_' { ' ' } else { c })
}

/// The string a saved plugin holds under `key`, or `default` where it
/// holds none.
pub open spec fn saved_or(data: Seq<char>, key: Seq<char>, default: Seq<char>) -> Seq<char> {
    match json_str_field(data, key) {
        Some(v) => v,
        None => default,
    }
}

fn saved_field(data: &str, key: &str, default: &str) -> (r: String)
    ensures
        r@ == saved_or(data@, key@, default@),
{
    match json_string_field(data, key) {
        Some(v) => v,
        None => default.to_owned(),
    }
}

/// Whether two plugins are the same one: same name and same version.
pub open spec fn same_plugin(name: Seq<char>, version: Seq<char>, other_name: Seq<char>, other_version: Seq<char>) -> bool {
    name == other_name && version == other_version
}

/// The keys a saved plugin is written under, which tell themselves apart.
proof fn lemma_saved_keys()
    ensures
        "name"@.len() == 4 && "name"@[0] == 'n',
        "version"@.len() == 7 && "version"@[0] == 'v',
        "type"@.len() == 4 && "type"@[0] == 't',
        "file_path"@.len() == 9,
        "sys_info_path"@.len() == 13,
        "os_type"@.len() == 7 && "os_type"@[0] == 'o',
{
    reveal_strlit("name");
    reveal_strlit("version");
    reveal_strlit("type");
    reveal_strlit("file_path");
    reveal_strlit("sys_info_path");
    reveal_strlit("os_type");
}

/// The text five pairs with distinct keys are saved as, which holds each
/// value under its key.
fn saved_text(pairs: Vec<(String, String)>) -> (r: String)
    requires
        pairs@.len() == 5,
        forall|i: int, j: int| 0 <= i < 5 && 0 <= j < 5 && i != j ==> pairs@[i].0@ != pairs@[j].0@,
    ensures
        r@ == json_object_text(pair_views(pairs@)),
        forall|i: int| 0 <= i < 5 ==> json_str_field(r@, (#[trigger] pairs@[i]).0@) == Some(pairs@[i].1@),
{
    let r = object_text(&pairs);
    proof {
        assert forall|i: int| 0 <= i < 5 implies json_str_field(r@, (#[trigger] pairs@[i]).0@) == Some(pairs@[i].1@) by {
            assert(key_unique(pairs@, i));
        }
    }
    r
}

/// A plugin built from one of the agent's plugin sources.
#[derive(Clone, Debug)]
pub struct OsPlugin {
    pub name: String,
    pub version: String,
    pub file_path: String,
    pub os_type: String,
}

impl OsPlugin {
    /// The plugin for the source file `file_name`, at version "1.0.0".
    pub fn new(file_name: String, file_path: String, os_type: String) -> (p: OsPlugin)
        ensures
            p.name@ == plugin_name_from_file(file_name@),
            p.version@ == "1.0.0"@,
            p.file_path == file_path,
            p.os_type == os_type,
    {
        let stripped = without(file_name.as_str(), ".cpp");
        let name = replace_char(stripped.as_str(), '_', ' ');
        assert(name@ =~= plugin_name_from_file(file_name@));
        OsPlugin { name, version: "1.0.0".to_owned(), file_path, os_type }
    }

    /// The plugin's name.
    pub fn name(&self) -> (r: &str)
        ensures
            r@ == self.name@,
    {
        self.name.as_str()
    }

    /// The plugin's version.
    pub fn version(&self) -> (r: &str)
        ensures
            r@ == self.version@,
    {
        self.version.as_str()
    }

    /// Whether this plugin and the one named `other_name` at
    /// `other_version` are the same.
    pub fn eq_box(&self, other_name: &str, other_version: &str) -> (b: bool)
        ensures
            b == same_plugin(self.name@, self.version@, other_name@, other_version@),
    {
        str_eq(self.name.as_str(), other_name) && str_eq(self.version.as_str(), other_version)
    }

    /// The plugin saved as the JSON object `data`: its "name", "version",
    /// "file_path" and "os_type" strings, "unknown" (version "1.0.0") for
    /// each that it lacks.
    pub fn deserialize_box(data: &str) -> (p: OsPlugin)
        ensures
            p.name@ == saved_or(data@, "name"@, "unknown"@),
            p.version@ == saved_or(data@, "version"@, "1.0.0"@),
            p.file_path@ == saved_or(data@, "file_path"@, "unknown"@),
            p.os_type@ == saved_or(data@, "os_type"@, "unknown"@),
    {
        OsPlugin {
            name: saved_field(data, "name", "unknown"),
            version: saved_field(data, "version", "1.0.0"),
            file_path: saved_field(data, "file_path", "unknown"),
            os_type: saved_field(data, "os_type", "unknown"),
        }
    }

    /// The plugin saved as a JSON object: its name, version, type
    /// "OsPlugin", file path and OS type.  [`OsPlugin::deserialize_box`]
    /// reads back each of its fields.
    pub fn serialize_box(&self) -> (r: String)
        ensures
            r@ == json_object_text(
                seq![
                    ("name"@, self.name@),
                    ("version"@, self.version@),
                    ("type"@, "OsPlugin"@),
                    ("file_path"@, self.file_path@),
                    ("os_type"@, self.os_type@),
                ],
            ),
            saved_or(r@, "name"@, "unknown"@) == self.name@,
            saved_or(r@, "version"@, "1.0.0"@) == self.version@,
            saved_or(r@, "file_path"@, "unknown"@) == self.file_path@,
            saved_or(r@, "os_type"@, "unknown"@) == self.os_type@,
    {
        let mut pairs: Vec<(String, String)> = Vec::new();
        pairs.push(("name".to_owned(), self.name.clone()));
        pairs.push(("version".to_owned(), self.version.clone()));
        pairs.push(("type".to_owned(), "OsPlugin".to_owned()));
        pairs.push(("file_path".to_owned(), self.file_path.clone()));
        pairs.push(("os_type".to_owned(), self.os_type.clone()));
        proof {
            lemma_saved_keys();
            reveal_strlit("OsPlugin");
        }
        let ghost p = pairs@;
        let r = saved_text(pairs);
        proof {
            assert(pair_views(p) =~= seq![
                ("name"@, self.name@),
                ("version"@, self.version@),
                ("type"@, "OsPlugin"@),
                ("file_path"@, self.file_path@),
                ("os_type"@, self.os_type@),
            ]);
        }
        r
    }

    /// The answer to `cmd`: the system information, the processes, or an
    /// error for any other command.
    pub fn handle_command(&self, cmd: &Command) -> (a: PluginAnswer)
        ensures
            match cmd {
                Command::GetSystemInfo => answer_is(a, "system_info"@, "system_info_response"@, "success"@)
                    && a.body is SystemInfo,
                Command::GetProcesses => answer_is(a, "processes"@, "processes_response"@, "success"@)
                    && a.body is Processes,
                _ => answer_is(a, "unknown"@, "error"@, "error"@) && (a.body matches AnswerBody::Error(m)
                    && m@ == "Unsupported command"@),
            },
    {
        match cmd {
            Command::GetSystemInfo => answer("system_info", "system_info_response", "success", AnswerBody::SystemInfo),
            Command::GetProcesses => answer("processes", "processes_response", "success", AnswerBody::Processes),
            _ => answer("unknown", "error", "error", AnswerBody::Error("Unsupported command".to_owned())),
        }
    }
}

/// The plugin that answers from the forensic description file.
#[derive(Clone, Debug)]
pub struct SystemInfoPlugin {
    pub name: String,
    pub version: String,
    pub sys_info_path: String,
    pub os_type: String,
}

/// The file that a `GetFile` command may ask of the system information
/// plugin.
pub open spec fn description_file() -> Seq<char> {
    "sys_info.md"@
}

impl SystemInfoPlugin {
    /// The plugin reading `sys_info_path`, named "system_info_plugin", at
    /// version "1.0.0".
    pub fn new(sys_info_path: String, os_type: String) -> (p: SystemInfoPlugin)
        ensures
            p.name@ == "system_info_plugin"@,
            p.version@ == "1.0.0"@,
            p.sys_info_path == sys_info_path,
            p.os_type == os_type,
    {
        SystemInfoPlugin { name: "system_info_plugin".to_owned(), version: "1.0.0".to_owned(), sys_info_path, os_type }
    }

    /// Whether this plugin and the one named `other_name` at
    /// `other_version` are the same.
    pub fn eq_box(&self, other_name: &str, other_version: &str) -> (b: bool)
        ensures
            b == same_plugin(self.name@, self.version@, other_name@, other_version@),
    {
        str_eq(self.name.as_str(), other_name) && str_eq(self.version.as_str(), other_version)
    }

    /// The plugin saved as the JSON object `data`: its "name", "version",
    /// "sys_info_path" and "os_type" strings, with "unknown", "1.0.0",
    /// "sys_info.md" and "unknown" for each that it lacks.
    pub fn deserialize_box(data: &str) -> (p: SystemInfoPlugin)
        ensures
            p.name@ == saved_or(data@, "name"@, "unknown"@),
            p.version@ == saved_or(data@, "version"@, "1.0.0"@),
            p.sys_info_path@ == saved_or(data@, "sys_info_path"@, "sys_info.md"@),
            p.os_type@ == saved_or(data@, "os_type"@, "unknown"@),
    {
        SystemInfoPlugin {
            name: saved_field(data, "name", "unknown"),
            version: saved_field(data, "version", "1.0.0"),
            sys_info_path: saved_field(data, "sys_info_path", "sys_info.md"),
            os_type: saved_field(data, "os_type", "unknown"),
        }
    }

    /// The plugin saved as a JSON object: its name, version, type
    /// "SystemInfoPlugin", description file path and OS type.
    /// [`SystemInfoPlugin::deserialize_box`] reads back each of its fields.
    pub fn serialize_box(&self) -> (r: String)
        ensures
            r@ == json_object_text(
                seq![
                    ("name"@, self.name@),
                    ("version"@, self.version@),
                    ("type"@, "SystemInfoPlugin"@),
                    ("sys_info_path"@, self.sys_info_path@),
                    ("os_type"@, self.os_type@),
                ],
            ),
            saved_or(r@, "name"@, "unknown"@) == self.name@,
            saved_or(r@, "version"@, "1.0.0"@) == self.version@,
            saved_or(r@, "sys_info_path"@, "sys_info.md"@) == self.sys_info_path@,
            saved_or(r@, "os_type"@, "unknown"@) == self.os_type@,
    {
        let mut pairs: Vec<(String, String)> = Vec::new();
        pairs.push(("name".to_owned(), self.name.clone()));
        pairs.push(("version".to_owned(), self.version.clone()));
        pairs.push(("type".to_owned(), "SystemInfoPlugin".to_owned()));
        pairs.push(("sys_info_path".to_owned(), self.sys_info_path.clone()));
        pairs.push(("os_type".to_owned(), self.os_type.clone()));
        proof {
            lemma_saved_keys();
            reveal_strlit("SystemInfoPlugin");
        }
        let ghost p = pairs@;
        let r = saved_text(pairs);
        proof {
            assert(pair_views(p) =~= seq![
                ("name"@, self.name@),
                ("version"@, self.version@),
                ("type"@, "SystemInfoPlugin"@),
                ("sys_info_path"@, self.sys_info_path@),
                ("os_type"@, self.os_type@),
            ]);
        }
        r
    }

    /// The answer to `cmd`: the forensic information, the process tree, the
    /// description file where a `GetFile` names "sys_info.md", a "File not
    /// found" error for any other file, and an error for other commands.
    pub fn handle_command(&self, cmd: &Command) -> (a: PluginAnswer)
        ensures
            match cmd {
                Command::GetSystemInfo => answer_is(a, "forensic_info"@, "forensic_system_info"@, "success"@)
                    && a.body is ForensicInfo,
                Command::GetProcesses => answer_is(a, "process_tree"@, "process_tree_response"@, "success"@)
                    && a.body is ProcessTree,
                Command::GetFile { path } => if path@ == description_file() {
                    answer_is(a, "file_content"@, "file_content_response"@, "success"@)
                        && (a.body matches AnswerBody::FileContent(p) && p@ == path@)
                } else {
                    answer_is(a, "file_error"@, "error"@, "error"@) && (a.body matches AnswerBody::Error(m)
                        && m@ == "File not found: "@ + path@)
                },
                _ => answer_is(a, "unknown"@, "error"@, "error"@) && (a.body matches AnswerBody::Error(m)
                    && m@ == "Unsupported command"@),
            },
    {
        match cmd {
            Command::GetSystemInfo => answer("forensic_info", "forensic_system_info", "success", AnswerBody::ForensicInfo),
            Command::GetProcesses => answer("process_tree", "process_tree_response", "success", AnswerBody::ProcessTree),
            Command::GetFile { path } => {
                if str_eq(path.as_str(), "sys_info.md") {
                    answer("file_content", "file_content_response", "success", AnswerBody::FileContent(path.clone()))
                } else {
                    answer("file_error", "error", "error", AnswerBody::Error(concat("File not found: ", path.as_str())))
                }
            },
            _ => answer("unknown", "error", "error", AnswerBody::Error("Unsupported command".to_owned())),
        }
    }
}

// ----------------------------------------------------------------- loading

/// Whether a file extension marks a plugin library.
pub open spec fn is_library_ext(ext: Seq<char>) -> bool {
    ext == "so"@ || ext == "dll"@ || ext == "dylib"@
}

/// Whether a file with extension `ext` is loaded as a plugin library.
pub fn is_plugin_library(ext: &str) -> (b: bool)
    ensures
        b == is_library_ext(ext@),
{
    str_eq(ext, "so") || str_eq(ext, "dll") || str_eq(ext, "dylib")
}

/// The name a loaded plugin goes by: "unknown" where it gave none, "unnamed"
/// where it gave an empty one.
pub open spec fn loaded_name(info: Option<Seq<char>>) -> Seq<char> {
    match info {
        None => "unknown"@,
        Some(n) => if n.len() == 0 {
            "unnamed"@
        } else {
            n
        },
    }
}

/// The name for a plugin whose information call gave `info`.
pub fn plugin_name(info: Option<String>) -> (r: String)
    ensures
        r@ == loaded_name(crate::ws_inbound::opt_text(info)),
{
    match info {
        None => "unknown".to_owned(),
        Some(n) => if n.as_str().is_empty() {
            "unnamed".to_owned()
        } else {
            n
        },
    }
}

/// Which required entry points a plugin's interface lacks, in the order
/// they are checked.
pub enum InterfaceError {
    NoPluginInfo,
    NoInit,
    NoCleanup,
}

impl InterfaceError {
    /// The message for the error.
    pub fn message(&self) -> (r: &'static str)
        ensures
            r@ == match self {
                InterfaceError::NoPluginInfo => "Plugin has null get_plugin_info function"@,
                InterfaceError::NoInit => "Plugin has null init function"@,
                InterfaceError::NoCleanup => "Plugin has null cleanup function"@,
            },
    {
        match self {
            InterfaceError::NoPluginInfo => "Plugin has null get_plugin_info function",
            InterfaceError::NoInit => "Plugin has null init function",
            InterfaceError::NoCleanup => "Plugin has null cleanup function",
        }
    }
}

/// Checks that a plugin's interface has its required entry points.
pub fn check_interface(has_info: bool, has_init: bool, has_cleanup: bool) -> (r: Result<(), InterfaceError>)
    ensures
        match r {
            Ok(()) => has_info && has_init && has_cleanup,
            Err(InterfaceError::NoPluginInfo) => !has_info,
            Err(InterfaceError::NoInit) => has_info && !has_init,
            Err(InterfaceError::NoCleanup) => has_info && has_init && !has_cleanup,
        },
{
    if !has_info {
        Err(InterfaceError::NoPluginInfo)
    } else if !has_init {
        Err(InterfaceError::NoInit)
    } else if !has_cleanup {
        Err(InterfaceError::NoCleanup)
    } else {
        Ok(())
    }
}

// ----------------------------------------------------------------- routing

/// A loaded plugin, as routing sees it.
#[derive(Clone, Debug)]
pub struct PluginSlot {
    pub name: String,
    pub supports_json: bool,
}

/// Whether the slot can take a command meant for `requested`, or for any
/// plugin where `requested` is `None`.
pub open spec fn takes(slot: PluginSlot, requested: Option<Seq<char>>) -> bool {
    slot.supports_json && match requested {
        Some(n) => slot.name@ == n,
        None => true,
    }
}

/// The index of the first slot that takes the command.
pub open spec fn first_taker(slots: Seq<PluginSlot>, requested: Option<Seq<char>>) -> Option<int> {
    if exists|i: int| 0 <= i < slots.len() && takes(#[trigger] slots[i], requested) {
        Some(
            choose|i: int|
                0 <= i < slots.len() && takes(slots[i], requested) && forall|j: int|
                    0 <= j < i ==> !takes(#[trigger] slots[j], requested),
        )
    } else {
        None
    }
}

/// The plugins loaded, in load order.
pub struct PluginManager {
    pub plugins: Vec<PluginSlot>,
}

impl PluginManager {
    /// A manager with no plugin.
    pub fn new() -> (m: PluginManager)
        ensures
            m.plugins@.len() == 0,
    {
        PluginManager { plugins: Vec::new() }
    }

    /// Adds a plugin that loaded and initialized.
    pub fn add(&mut self, slot: PluginSlot)
        ensures
            final(self).plugins@ == old(self).plugins@.push(slot),
    {
        self.plugins.push(slot);
    }

    /// Whether any plugin is loaded.
    pub fn has_plugins(&self) -> (b: bool)
        ensures
            b == (self.plugins@.len() > 0),
    {
        self.plugins.len() > 0
    }

    /// The names of the loaded plugins, in load order.
    pub fn plugin_names(&self) -> (r: Vec<String>)
        ensures
            r@.len() == self.plugins@.len(),
            forall|i: int| 0 <= i < r@.len() ==> #[trigger] r@[i]@ == self.plugins@[i].name@,
    {
        let mut r: Vec<String> = Vec::new();
        let mut i: usize = 0;
        while i < self.plugins.len()
            invariant
                i <= self.plugins@.len(),
                r@.len() == i,
                forall|j: int| 0 <= j < i ==> #[trigger] r@[j]@ == self.plugins@[j].name@,
            decreases self.plugins@.len() - i,
        {
            r.push(self.plugins[i].name.clone());
            i = i + 1;
        }
        r
    }

    /// The plugin that the command's parameters ask for: the string under
    /// "plugin" in the JSON object `params`, where there is one.
    pub fn requested_plugin(params: Option<&str>) -> (r: Option<String>)
        ensures
            opt_text(r) == match params {
                Some(p) => json_str_field(p@, "plugin"@),
                None => None,
            },
    {
        match params {
            Some(p) => json_string_field(p, "plugin"),
            None => None,
        }
    }

    /// Picks the plugin for `command` with parameters `params` (JSON text):
    /// as [`Self::route_command`] does for the plugin that the parameters
    /// name under "plugin", or for any plugin where they name none.
    pub fn route_with_params(&self, command: &str, params: Option<&str>) -> (r: Result<usize, String>)
        ensures
            ({
                let req = match params {
                    Some(p) => json_str_field(p@, "plugin"@),
                    None => None,
                };
                match r {
                    Ok(i) => first_taker(self.plugins@, req) == Some(i as int),
                    Err(msg) => first_taker(self.plugins@, req) is None && msg@ == match req {
                        Some(n) => "Plugin '"@ + n + "' not found or doesn't support JSON"@,
                        None => "No plugin available to handle command: "@ + command@,
                    },
                }
            }),
    {
        let requested = Self::requested_plugin(params);
        match &requested {
            Some(n) => self.route_command(command, Some(n.as_str())),
            None => self.route_command(command, None),
        }
    }

    /// Picks the plugin for `command`: the first that supports JSON and, where
    /// `requested` names one, bears that name; the error says which was
    /// missing.
    pub fn route_command(&self, command: &str, requested: Option<&str>) -> (r: Result<usize, String>)
        ensures
            match r {
                Ok(i) => first_taker(self.plugins@, match requested {
                    Some(n) => Some(n@),
                    None => None,
                }) == Some(i as int),
                Err(msg) => first_taker(self.plugins@, match requested {
                    Some(n) => Some(n@),
                    None => None,
                }) is None && msg@ == match requested {
                    Some(n) => "Plugin '"@ + n@ + "' not found or doesn't support JSON"@,
                    None => "No plugin available to handle command: "@ + command@,
                },
            },
    {
        let ghost req = match requested {
            Some(n) => Some(n@),
            None => None,
        };
        let mut i: usize = 0;
        while i < self.plugins.len()
            invariant
                i <= self.plugins@.len(),
                req == (match requested {
                    Some(n) => Some(n@),
                    None => None,
                }),
                forall|j: int| 0 <= j < i ==> !takes(#[trigger] self.plugins@[j], req),
            decreases self.plugins@.len() - i,
        {
            let slot = &self.plugins[i];
            let hit = slot.supports_json && match requested {
                Some(n) => str_eq(slot.name.as_str(), n),
                None => true,
            };
            if hit {
                assert(takes(self.plugins@[i as int], req));
                proof {
                    let k = choose|k: int|
                        0 <= k < self.plugins@.len() && takes(self.plugins@[k], req) && forall|j: int|
                            0 <= j < k ==> !takes(#[trigger] self.plugins@[j], req);
                    assert(0 <= k < self.plugins@.len() && takes(self.plugins@[k], req) && forall|j: int|
                            0 <= j < k ==> !takes(#[trigger] self.plugins@[j], req)) by {
                        assert(0 <= i < self.plugins@.len() && takes(self.plugins@[i as int], req) && forall|j: int|
                                0 <= j < i ==> !takes(#[trigger] self.plugins@[j], req));
                    }
                    if k < i {
                        assert(!takes(self.plugins@[k], req));
                    }
                    if k > i {
                        assert(!takes(self.plugins@[i as int], req));
                    }
                }
                return Ok(i);
            }
            i = i + 1;
        }
        match requested {
            Some(n) => Err(crate::text::concat3("Plugin '", n, "' not found or doesn't support JSON")),
            None => Err(concat("No plugin available to handle command: ", command)),
        }
    }
}


/// The plugin a command is routed to supports JSON, bears the requested
/// name where one was requested, and no plugin loaded before it could have
/// taken the command.
pub proof fn law_routed_plugin_takes_command(slots: Seq<PluginSlot>, requested: Option<Seq<char>>, i: int)
    requires
        first_taker(slots, requested) == Some(i),
    ensures
        0 <= i < slots.len(),
        slots[i].supports_json,
        requested matches Some(n) ==> slots[i].name@ == n,
        forall|j: int| 0 <= j < i ==> !takes(#[trigger] slots[j], requested),
{
    let k = choose|k: int| 0 <= k < slots.len() && takes(#[trigger] slots[k], requested);
    lemma_first_exists(slots, requested, k);
}

proof fn lemma_first_exists(slots: Seq<PluginSlot>, requested: Option<Seq<char>>, k: int)
    requires
        0 <= k < slots.len(),
        takes(slots[k], requested),
    ensures
        exists|i: int|
            0 <= i < slots.len() && takes(slots[i], requested) && forall|j: int|
                0 <= j < i ==> !takes(#[trigger] slots[j], requested),
    decreases k,
{
    if exists|j: int| 0 <= j < k && takes(#[trigger] slots[j], requested) {
        let j = choose|j: int| 0 <= j < k && takes(#[trigger] slots[j], requested);
        lemma_first_exists(slots, requested, j);
    } else {
        assert(0 <= k < slots.len() && takes(slots[k], requested) && forall|j: int|
            0 <= j < k ==> !takes(#[trigger] slots[j], requested));
    }
}

/// Where no plugin supports JSON, no command is routed, whatever is
/// requested.
pub proof fn law_no_json_plugin_no_route(slots: Seq<PluginSlot>, requested: Option<Seq<char>>)
    requires
        forall|j: int| 0 <= j < slots.len() ==> !(#[trigger] slots[j]).supports_json,
    ensures
        first_taker(slots, requested) is None,
{
}

/// Whether a file found among the plugin sources is loaded as a plugin: a
/// ".cpp" source that does not sit in the directory named after the
/// running system.
pub fn is_plugin_source(ext: Option<&str>, parent_dir: Option<&str>, os_type: &str) -> (b: bool)
    ensures
        b == (ext matches Some(e) && e@ == "cpp"@ && !(parent_dir matches Some(p) && p@ == os_type@)),
{
    let is_cpp = match ext {
        Some(e) => str_eq(e, "cpp"),
        None => false,
    };
    let in_os_dir = match parent_dir {
        Some(p) => str_eq(p, os_type),
        None => false,
    };
    is_cpp && !in_os_dir
}
} // verus!
