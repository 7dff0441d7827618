//! The standalone agent's orchestrator: the table of loaded plugins, and
//! the decisions taken around each plugin call.  The plugins themselves,
//! and the calls into them, stay with the caller, which reports back how
//! each call went.
use vstd::prelude::*;
use crate::keyed::KeyedList;
use crate::protocol::EventType;
use crate::text::concat;

verus! {

/// What the orchestrator knows of a loaded plugin.
#[derive(Clone, Debug)]
pub struct PluginRecord {
    pub name: String,
    pub version: String,
    pub description: String,
}

/// An event the orchestrator emits: its type, its source, and what it says.
#[derive(Clone, Debug)]
pub struct OrchestratorEvent {
    pub event_type: EventType,
    pub source: String,
    pub detail: EventDetail,
}

/// What an event says.
#[derive(Clone, Debug)]
pub enum EventDetail {
    /// A plugin loaded, at this version, with this description.
    Loaded { version: String, description: String },
    /// A plugin failed, with this error.
    Failed { error: String },
    /// A plugin was unloaded.
    Unloaded,
    /// A command ran, and how it went.
    Executed { command: String, success: bool, error: Option<String>, execution_time_ms: u64 },
}

/// The response to a command the orchestrator ran.
#[derive(Clone, Debug)]
pub struct CommandReply {
    pub request_id: String,
    pub success: bool,
    /// The handler's data, as JSON text.
    pub data: String,
    pub error: Option<String>,
    pub execution_time: u64,
}

/// The plugin table.
pub struct Orchestrator {
    plugins: KeyedList<PluginRecord>,
}

/// The error of unloading a plugin that is not loaded.
pub open spec fn not_loaded(name: Seq<char>) -> Seq<char> {
    "Plugin not found: "@ + name
}

/// The error of a command that no plugin can take.
pub open spec fn no_plugin_for(command: Seq<char>) -> Seq<char> {
    "No plugin available to handle command: "@ + command
}

/// The plugin that metrics come from.
pub open spec fn metrics_plugin() -> Seq<char> {
    "system_plugin"@
}

impl Orchestrator {
    /// The names of the loaded plugins.
    pub closed spec fn loaded(&self) -> Set<Seq<char>> {
        self.plugins.view().dom()
    }

    /// What the table holds of each loaded plugin: its name, version and
    /// description.
    pub closed spec fn records(&self) -> Map<Seq<char>, (Seq<char>, Seq<char>, Seq<char>)> {
        self.plugins.view().map_values(|r: PluginRecord| (r.name@, r.version@, r.description@))
    }

    /// The table is consistent.
    pub closed spec fn wf(&self) -> bool {
        &&& self.plugins.wf()
        &&& forall|k: Seq<char>| #[trigger] self.plugins.view().dom().contains(k) ==> self.plugins.view()[k].name@ == k
    }

    /// An orchestrator with no plugin.
    pub fn new() -> (o: Orchestrator)
        ensures
            o.wf(),
            o.loaded() == Set::<Seq<char>>::empty(),
            o.records() == Map::<Seq<char>, (Seq<char>, Seq<char>, Seq<char>)>::empty(),
    {
        let o = Orchestrator { plugins: KeyedList::new() };
        assert(o.records() =~= Map::<Seq<char>, (Seq<char>, Seq<char>, Seq<char>)>::empty());
        o
    }

    /// How many plugins are loaded.
    pub fn plugin_count(&self) -> (n: usize)
        requires
            self.wf(),
        ensures
            self.loaded().finite(),
            n == self.loaded().len(),
    {
        self.plugins.len()
    }

    /// Whether a plugin named `name` is to be initialized: not where one of
    /// that name is loaded already.
    pub fn should_load(&self, name: &str) -> (b: bool)
        requires
            self.wf(),
        ensures
            b == !self.loaded().contains(name@),
    {
        !self.plugins.contains(name)
    }

    /// A plugin initialized: it joins the table, and the event says so.
    pub fn plugin_loaded(&mut self, record: PluginRecord) -> (e: OrchestratorEvent)
        requires
            old(self).wf(),
        ensures
            final(self).wf(),
            final(self).loaded() == old(self).loaded().insert(record.name@),
            final(self).records() == old(self).records().insert(
                record.name@,
                (record.name@, record.version@, record.description@),
            ),
            e.event_type == EventType::PluginLoaded,
            e.source@ == record.name@,
            e.detail matches EventDetail::Loaded { version, description } && version@ == record.version@
                && description@ == record.description@,
    {
        let e = OrchestratorEvent {
            event_type: EventType::PluginLoaded,
            source: record.name.clone(),
            detail: EventDetail::Loaded { version: record.version.clone(), description: record.description.clone() },
        };
        let ghost before = self.plugins.view();
        let ghost old_records = self.records();
        let ghost r = record;
        let key = record.name.clone();
        self.plugins.insert(key, record);
        proof {
            assert(self.plugins.view().dom() =~= before.dom().insert(e.source@));
            assert(self.records() =~= old_records.insert(r.name@, (r.name@, r.version@, r.description@)));
        }
        e
    }

    /// A plugin failed to initialize: the table stays, and the event says
    /// why.
    pub fn plugin_failed(&self, name: &str, error: String) -> (e: OrchestratorEvent)
        ensures
            e.event_type == EventType::PluginError,
            e.source@ == name@,
            e.detail matches EventDetail::Failed { error: er } && er@ == error@,
    {
        OrchestratorEvent { event_type: EventType::PluginError, source: name.to_owned(), detail: EventDetail::Failed { error } }
    }

    /// Whether `name` can be unloaded: the error where it is not loaded.
    pub fn begin_unload(&self, name: &str) -> (r: Result<(), String>)
        requires
            self.wf(),
        ensures
            r is Ok <==> self.loaded().contains(name@),
            r matches Err(m) ==> m@ == not_loaded(name@),
    {
        if self.plugins.contains(name) {
            Ok(())
        } else {
            Err(concat("Plugin not found: ", name))
        }
    }

    /// The plugin `name` was shut down: where that succeeded it leaves the
    /// table and the event says so; where it failed it stays.
    pub fn finish_unload(&mut self, name: &str, shutdown_ok: bool) -> (e: Option<OrchestratorEvent>)
        requires
            old(self).wf(),
        ensures
            final(self).wf(),
            final(self).loaded() == (if shutdown_ok {
                old(self).loaded().remove(name@)
            } else {
                old(self).loaded()
            }),
            final(self).records() == (if shutdown_ok {
                old(self).records().remove(name@)
            } else {
                old(self).records()
            }),
            e is Some <==> shutdown_ok,
            e matches Some(ev) ==> ev.event_type == EventType::PluginUnloaded && ev.source@ == name@
                && ev.detail is Unloaded,
    {
        if shutdown_ok {
            let ghost before = self.plugins.view();
            let ghost old_records = self.records();
            let _ = self.plugins.remove(name);
            proof {
                assert(self.plugins.view().dom() =~= before.dom().remove(name@));
                assert(self.records() =~= old_records.remove(name@));
            }
            Some(OrchestratorEvent { event_type: EventType::PluginUnloaded, source: name.to_owned(), detail: EventDetail::Unloaded })
        } else {
            None
        }
    }

    /// The plugin that takes `command`: one of those loaded, or the error
    /// where none is.
    pub fn command_target(&self, command: &str) -> (r: Result<String, String>)
        requires
            self.wf(),
        ensures
            r is Ok <==> self.loaded().len() > 0,
            r matches Ok(n) ==> self.loaded().contains(n@),
            r matches Err(m) ==> m@ == no_plugin_for(command@),
    {
        let names = self.plugins.keys();
        proof {
            crate::keyed::key_views(names@).unique_seq_to_set();
        }
        if names.len() > 0 {
            assert(crate::keyed::key_views(names@).to_set().contains(names@[0]@)) by {
                assert(crate::keyed::key_views(names@)[0] == names@[0]@);
            }
            Ok(names[0].clone())
        } else {
            Err(concat("No plugin available to handle command: ", command))
        }
    }

    /// The event for a command that plugin `plugin` ran in `elapsed_ms`:
    /// success, or failure with the plugin's error.
    pub fn command_executed(&self, plugin: &str, command: &str, outcome: Result<(), String>, elapsed_ms: u64) -> (e:
        OrchestratorEvent)
        ensures
            e.event_type == EventType::CommandExecuted,
            e.source@ == plugin@,
            e.detail matches EventDetail::Executed { command: c, success, error, execution_time_ms } && c@ == command@
                && success == (outcome is Ok) && execution_time_ms == elapsed_ms && match outcome {
                Ok(()) => error is None,
                Err(m) => error matches Some(x) && x@ == m@,
            },
    {
        let (success, error) = match outcome {
            Ok(()) => (true, None),
            Err(m) => (false, Some(m)),
        };
        OrchestratorEvent {
            event_type: EventType::CommandExecuted,
            source: plugin.to_owned(),
            detail: EventDetail::Executed { command: command.to_owned(), success, error, execution_time_ms: elapsed_ms },
        }
    }

    /// The loaded plugins, each once, with their versions and descriptions.
    pub fn list_plugins(&self) -> (r: Vec<PluginRecord>)
        requires
            self.wf(),
        ensures
            r@.len() == self.loaded().len(),
            r@.map_values(|p: PluginRecord| p.name@).no_duplicates(),
            r@.map_values(|p: PluginRecord| p.name@).to_set() == self.loaded(),
            forall|i: int|
                0 <= i < r@.len() ==> self.records()[(#[trigger] r@[i]).name@] == (
                    r@[i].name@,
                    r@[i].version@,
                    r@[i].description@,
                ),
    {
        let names = self.plugins.keys();
        let mut out: Vec<PluginRecord> = Vec::new();
        let mut i: usize = 0;
        while i < names.len()
            invariant
                self.wf(),
                i <= names@.len(),
                crate::keyed::key_views(names@).no_duplicates(),
                crate::keyed::key_views(names@).to_set() == self.loaded(),
                names@.len() == self.loaded().len(),
                out@.map_values(|p: PluginRecord| p.name@) == crate::keyed::key_views(names@).take(i as int),
                forall|j: int|
                    0 <= j < out@.len() ==> self.records()[(#[trigger] out@[j]).name@] == (
                        out@[j].name@,
                        out@[j].version@,
                        out@[j].description@,
                    ),
            decreases names@.len() - i,
        {
            proof {
                assert(crate::keyed::key_views(names@)[i as int] == names@[i as int]@);
                assert(crate::keyed::key_views(names@).to_set().contains(names@[i as int]@));
            }
            match self.plugins.get(names[i].as_str()) {
                Some(rec) => {
                    let copy = PluginRecord {
                        name: rec.name.clone(),
                        version: rec.version.clone(),
                        description: rec.description.clone(),
                    };
                    assert(rec.name@ == names@[i as int]@);
                    assert(copy.name@ == names@[i as int]@);
                    assert(self.records()[copy.name@] == (copy.name@, copy.version@, copy.description@));
                    let ghost prev = out@;
                    out.push(copy);
                    proof {
                        assert(out@ == prev.push(copy));
                        assert(out@.map_values(|p: PluginRecord| p.name@) =~= prev.map_values(
                            |p: PluginRecord| p.name@,
                        ).push(copy.name@));
                        assert(crate::keyed::key_views(names@).take(i + 1) =~= crate::keyed::key_views(names@).take(
                            i as int,
                        ).push(names@[i as int]@));
                        assert(out@.map_values(|p: PluginRecord| p.name@) =~= crate::keyed::key_views(names@).take(
                            i + 1,
                        ));
                        assert forall|j: int|
                            0 <= j < out@.len() implies self.records()[(#[trigger] out@[j]).name@] == (
                                out@[j].name@,
                                out@[j].version@,
                                out@[j].description@,
                            ) by {
                            if j < prev.len() {
                                assert(out@[j] == prev[j]);
                            }
                        }
                    }
                },
                None => {
                    assert(false);
                },
            }
            i = i + 1;
        }
        proof {
            assert(crate::keyed::key_views(names@).take(names@.len() as int) =~= crate::keyed::key_views(names@));
        }
        out
    }

    /// The response to `command` once plugin `plugin` handled it in
    /// `elapsed_ms`, with the event that reports it.  `outcome` is the
    /// handler's data (JSON text) or its error.  The response carries a
    /// random request identifier, succeeds exactly when the handler did,
    /// and on failure carries the error and the empty object as data.
    pub fn command_reply(&self, plugin: &str, command: &str, outcome: Result<String, String>, elapsed_ms: u64) -> (r: (
        CommandReply,
        OrchestratorEvent,
    ))
        ensures
            crate::ids::is_uuid_v4_text(r.0.request_id@),
            r.0.success == (outcome is Ok),
            r.0.execution_time == elapsed_ms,
            match outcome {
                Ok(d) => r.0.data@ == d@ && r.0.error is None,
                Err(m) => r.0.data@ == "{}"@ && (r.0.error matches Some(x) && x@ == m@),
            },
            r.1.event_type == EventType::CommandExecuted,
            r.1.source@ == plugin@,
            r.1.detail matches EventDetail::Executed { command: c, success, error, execution_time_ms } && c@
                == command@ && success == (outcome is Ok) && execution_time_ms == elapsed_ms && match outcome {
                Ok(_) => error is None,
                Err(m) => error matches Some(x) && x@ == m@,
            },
    {
        let request_id = crate::ids::new_uuid_text();
        let (reply, event_outcome) = match outcome {
            Ok(d) => (CommandReply { request_id, success: true, data: d, error: None, execution_time: elapsed_ms }, Ok(())),
            Err(m) => {
                let e2 = m.clone();
                (
                    CommandReply {
                        request_id,
                        success: false,
                        data: "{}".to_owned(),
                        error: Some(m),
                        execution_time: elapsed_ms,
                    },
                    Err(e2),
                )
            },
        };
        let event = self.command_executed(plugin, command, event_outcome, elapsed_ms);
        (reply, event)
    }

    /// Whether metrics can be had: from the system plugin, where loaded.
    pub fn metrics_source(&self) -> (r: Result<(), String>)
        requires
            self.wf(),
        ensures
            r is Ok <==> self.loaded().contains(metrics_plugin()),
            r matches Err(m) ==> m@ == "System plugin not available for metrics"@,
    {
        proof {
            reveal_strlit("system_plugin");
        }
        if self.plugins.contains("system_plugin") {
            Ok(())
        } else {
            Err("System plugin not available for metrics".to_owned())
        }
    }
}

/// Recording a plugin that is loaded already, with what the table holds of
/// it, leaves the table as it was: each name is loaded at most once.
pub proof fn law_load_is_idempotent(o: Orchestrator, name: Seq<char>)
    requires
        o.wf(),
        o.loaded().contains(name),
    ensures
        o.records().dom() == o.loaded(),
        o.records().insert(name, o.records()[name]) == o.records(),
{
    assert(o.records().dom() =~= o.loaded());
    assert(o.records().insert(name, o.records()[name]) =~= o.records());
}

/// Loading a plugin that was not loaded and then unloading it leaves the
/// table as it was.
pub proof fn law_load_then_unload_restores(o: Orchestrator, record: PluginRecord)
    requires
        o.wf(),
        !o.loaded().contains(record.name@),
    ensures
        o.records().insert(record.name@, (record.name@, record.version@, record.description@)).remove(
            record.name@,
        ) == o.records(),
{
    assert(o.records().dom() =~= o.loaded());
    assert(o.records().insert(record.name@, (record.name@, record.version@, record.description@)).remove(
        record.name@,
    ) =~= o.records());
}

/// Unloading a plugin forgets it and no other: every other plugin keeps
/// its entry.
pub proof fn law_unload_forgets(o: Orchestrator, name: Seq<char>, other: Seq<char>)
    requires
        o.wf(),
        other != name,
    ensures
        !o.records().remove(name).dom().contains(name),
        o.records().remove(name).dom().contains(other) == o.loaded().contains(other),
        o.loaded().contains(other) ==> o.records().remove(name)[other] == o.records()[other],
{
    assert(o.records().dom() =~= o.loaded());
}

/// The name a broker command message gives its command: its `command`
/// string, or "unknown".
pub fn command_name(payload: &str) -> (r: String)
    ensures
        r@ == match crate::ws_inbound::json_str_field(payload@, "command"@) {
            Some(c) => c,
            None => "unknown"@,
        },
{
    match crate::ws_inbound::json_string_field(payload, "command") {
        Some(c) => c,
        None => "unknown".to_owned(),
    }
}

} // verus!
