//! The process controller: the managed process's lifecycle, its
//! configuration store, and the handle of its live status subscription.
//!
//! Spawning, signalling and re-reading the backing file are outside work;
//! their outcomes are handed in as plain values, and the controller's
//! verified part decides what each outcome means for the state. The state
//! space is two-valued — stopped or running — and every operation is total
//! over it.

use crate::assoc::{has_key, lookup, merged, with_value};
use crate::errors::AgentError;
use crate::properties::{bool_flip, edit_target, edited_value, next_difficulty_text,
    next_gamemode_text, property};
use crate::propstore::{default_config, entries_view, PropEntry, ServerProperties};
use crate::query::QueryHandler;
use crate::query_options::QueryOptions;
use crate::text::{bool_str, dec_str, parse_bool, parse_u32, spec_parse_u32, u32_to_string};
use vstd::prelude::*;

verus! {

/// The lifecycle of the managed process.
#[derive(Debug, Clone, Copy, PartialEq, Eq, Structural)]
pub enum LifecycleState {
    Stopped,
    Running,
}

/// What came of an attempt to spawn the managed process.
#[derive(Debug, Clone, Copy, PartialEq, Eq, Structural)]
pub enum SpawnOutcome {
    /// The process launched and its input stream is held.
    Launched,
    /// The executable was missing, permission was denied, or the spawn
    /// failed otherwise.
    SpawnError,
}

/// What came of writing the shutdown command to the process's input
/// stream and waiting for it to exit.
#[derive(Debug, Clone, Copy, PartialEq, Eq, Structural)]
pub enum SignalOutcome {
    /// The command was delivered and the process exited.
    Delivered,
    /// The input stream was unavailable; the process keeps running and
    /// the stop may be retried.
    StreamUnavailable,
}

/// Whether `start` is permitted in a state.
pub open spec fn start_allowed(s: LifecycleState) -> bool {
    s is Stopped
}

/// Whether `stop` is permitted in a state.
pub open spec fn stop_allowed(s: LifecycleState) -> bool {
    s is Running
}

/// The lifecycle is total and exhaustive over its two states: every state
/// permits exactly one of start and stop, and there is no third state.
pub proof fn lemma_lifecycle_total(s: LifecycleState)
    ensures
        s is Stopped || s is Running,
        start_allowed(s) <==> !stop_allowed(s),
{
}

/// One managed process: its launch configuration, lifecycle state,
/// configuration store, and whether a periodic status refresh is live.
pub struct ServerProcess {
    xms: u32,
    xmx: u32,
    dir: String,
    jar: String,
    state: LifecycleState,
    properties: Option<ServerProperties>,
    query_active: bool,
}

/// How a refresh of the configuration store reads an outcome of the
/// backing file: no file, no store; a fresh read replaces an existing
/// snapshot wholly, and seeds a first snapshot over the stock defaults.
pub open spec fn store_refreshed(
    pre: ServerProcess,
    post: ServerProcess,
    fresh: Option<Vec<PropEntry>>,
) -> bool {
    match fresh {
        None => !post.has_store(),
        Some(entries) => {
            &&& post.has_store()
            &&& post.store_synced()
            &&& if pre.has_store() {
                post.store_view() == entries_view(entries@)
            } else {
                post.store_view() == merged(default_config(), entries_view(entries@))
            }
        },
    }
}

/// The full contract of one property write through the controller.
pub open spec fn set_applied(
    pre: ServerProcess,
    post: ServerProcess,
    r: Result<(), AgentError>,
    key: Seq<char>,
    value: Seq<char>,
) -> bool {
    &&& !pre.has_store() ==> ((r matches Err(e) && e == AgentError::PropertyStoreUnavailable)
        && post == pre)
    &&& pre.has_store() && !has_key(pre.store_view(), key) ==> ((r matches Err(e) && e
        == AgentError::PropertyNotFound) && post == pre)
    &&& pre.has_store() && has_key(pre.store_view(), key) ==> (r is Ok && post.has_store()
        && post.store_view() == with_value(pre.store_view(), key, value) && post.store_synced()
        && post.lifecycle() == pre.lifecycle() && post.config() == pre.config()
        && post.query_live() == pre.query_live())
}

/// The full contract of one edit command: no store, unknown key, or a
/// toggle on a non-boolean value each fail with their own error and leave
/// everything unchanged; otherwise the target key takes the edited value
/// and the store stays in step with its backing file.
pub open spec fn edit_applied(
    pre: ServerProcess,
    post: ServerProcess,
    r: Result<(), AgentError>,
    p: property,
) -> bool {
    &&& !pre.has_store() ==> ((r matches Err(e) && e == AgentError::PropertyStoreUnavailable)
        && post == pre)
    &&& pre.has_store() && !has_key(pre.store_view(), edit_target(p)) ==> ((r matches Err(e) && e
        == AgentError::PropertyNotFound) && post == pre)
    &&& pre.has_store() && has_key(pre.store_view(), edit_target(p)) && edited_value(
        p,
        lookup(pre.store_view(), edit_target(p)),
    ) is None ==> ((r matches Err(e) && e == AgentError::InvalidPropertyValue) && post == pre)
    &&& pre.has_store() && has_key(pre.store_view(), edit_target(p)) && edited_value(
        p,
        lookup(pre.store_view(), edit_target(p)),
    ) is Some ==> (r is Ok && post.has_store() && post.store_view() == with_value(
        pre.store_view(),
        edit_target(p),
        edited_value(p, lookup(pre.store_view(), edit_target(p)))->0,
    ) && post.store_synced() && post.lifecycle() == pre.lifecycle() && post.config()
        == pre.config() && post.query_live() == pre.query_live())
}

/// What a query shutdown leaves behind: the refresh is silenced and
/// nothing else moves.
pub open spec fn shutdown_post(pre: ServerProcess, post: ServerProcess) -> bool {
    &&& !post.query_live()
    &&& post.lifecycle() == pre.lifecycle()
    &&& post.config() == pre.config()
    &&& post.store() == pre.store()
}

/// Once a query session is shut down, no refresh tick is due, and a
/// second shutdown observes and changes nothing more: shutting down is
/// idempotent.
pub proof fn lemma_shutdown_silences(pre: ServerProcess, post: ServerProcess, again: ServerProcess)
    requires
        shutdown_post(pre, post),
        shutdown_post(post, again),
    ensures
        !post.query_live(),
        again.query_live() == post.query_live(),
        again.lifecycle() == post.lifecycle(),
        again.config() == post.config(),
        again.store() == post.store(),
{
}

impl Default for ServerProcess {
    /// A stopped controller with the stock launch configuration and no
    /// snapshot loaded yet.
    fn default() -> (r: ServerProcess)
        ensures
            r.lifecycle() is Stopped,
            !r.has_store(),
            !r.query_live(),
            r.config() == (1024u32, 1024u32, "./"@, "server.jar"@),
    {
        ServerProcess {
            xms: 1024,
            xmx: 1024,
            dir: "./".to_owned(),
            jar: "server.jar".to_owned(),
            state: LifecycleState::Stopped,
            properties: None,
            query_active: false,
        }
    }
}

impl ServerProcess {
    /// The lifecycle state.
    pub closed spec fn lifecycle(&self) -> LifecycleState {
        self.state
    }

    /// Whether the managed process is running.
    pub open spec fn is_running(&self) -> bool {
        self.lifecycle() is Running
    }

    /// The configuration store, if one was ever loaded.
    pub closed spec fn store(&self) -> Option<ServerProperties> {
        self.properties
    }

    /// Whether a configuration snapshot has ever been loaded.
    pub open spec fn has_store(&self) -> bool {
        self.store() is Some
    }

    /// The mapping the configuration snapshot holds.
    pub open spec fn store_view(&self) -> Seq<(Seq<char>, Seq<char>)> {
        self.store()->0@
    }

    /// Whether the snapshot matches a fresh read of its backing store.
    pub open spec fn store_synced(&self) -> bool {
        self.store()->0.persisted() == self.store_view()
    }

    /// The launch configuration: memory floor and ceiling, working
    /// directory, archive name.
    pub closed spec fn config(&self) -> (u32, u32, Seq<char>, Seq<char>) {
        (self.xms, self.xmx, self.dir@, self.jar@)
    }

    /// Whether the periodic status refresh is live.
    pub closed spec fn query_live(&self) -> bool {
        self.query_active
    }

    /// The memory floor, in megabytes.
    pub fn xms(self, xms: u32) -> (r: ServerProcess)
        ensures
            r.config() == (xms, self.config().1, self.config().2, self.config().3),
            r.lifecycle() == self.lifecycle(),
            r.store() == self.store(),
            r.query_live() == self.query_live(),
    {
        ServerProcess { xms, ..self }
    }

    /// The memory ceiling, in megabytes.
    pub fn xmx(self, xmx: u32) -> (r: ServerProcess)
        ensures
            r.config() == (self.config().0, xmx, self.config().2, self.config().3),
            r.lifecycle() == self.lifecycle(),
            r.store() == self.store(),
            r.query_live() == self.query_live(),
    {
        ServerProcess { xmx, ..self }
    }

    /// The working directory.
    pub fn dir(self, dir: String) -> (r: ServerProcess)
        ensures
            r.config() == (self.config().0, self.config().1, dir@, self.config().3),
            r.lifecycle() == self.lifecycle(),
            r.store() == self.store(),
            r.query_live() == self.query_live(),
    {
        ServerProcess { dir, ..self }
    }

    /// The archive the process is launched from.
    pub fn jar(self, jar: String) -> (r: ServerProcess)
        ensures
            r.config() == (self.config().0, self.config().1, self.config().2, jar@),
            r.lifecycle() == self.lifecycle(),
            r.store() == self.store(),
            r.query_live() == self.query_live(),
    {
        ServerProcess { jar, ..self }
    }

    /// The working directory the managed process is launched in.
    pub fn working_dir(&self) -> (r: &str)
        ensures
            r@ == self.config().2,
    {
        self.dir.as_str()
    }

    /// The argument list the managed process is launched with: the
    /// configured memory ceiling and floor, the archive, and the
    /// no-interface flag.
    pub fn launch_args(&self) -> (r: Vec<String>)
        ensures
            r@.len() == 5,
            r@[0]@ == "-Xmx"@ + dec_str(self.config().1 as nat) + "M"@,
            r@[1]@ == "-Xms"@ + dec_str(self.config().0 as nat) + "M"@,
            r@[2]@ == "-jar"@,
            r@[3]@ == self.config().3,
            r@[4]@ == "nogui"@,
    {
        let mut xmx_arg = "-Xmx".to_owned();
        xmx_arg.append(u32_to_string(self.xmx).as_str());
        xmx_arg.append("M");
        let mut xms_arg = "-Xms".to_owned();
        xms_arg.append(u32_to_string(self.xms).as_str());
        xms_arg.append("M");
        let mut args: Vec<String> = Vec::new();
        args.push(xmx_arg);
        args.push(xms_arg);
        args.push("-jar".to_owned());
        args.push(self.jar.clone());
        args.push("nogui".to_owned());
        args
    }

    /// Whether the managed process is running, for the surrounding
    /// runtime.
    pub fn running(&self) -> (r: bool)
        ensures
            r == self.is_running(),
    {
        match self.state {
            LifecycleState::Running => true,
            LifecycleState::Stopped => false,
        }
    }

    /// Starts the managed process. Fails while it is already running;
    /// a failed spawn leaves it stopped; a successful spawn leaves it
    /// running with the configuration snapshot refreshed from the handed
    /// outcome of re-reading the backing file.
    pub fn start_server(&mut self, spawn: SpawnOutcome, fresh: Option<Vec<PropEntry>>) -> (r:
        Result<(), AgentError>)
        ensures
            old(self).is_running() ==> ((r matches Err(e) && e == AgentError::ProcessAlreadyRunning)
                && *final(self) == *old(self)),
            !old(self).is_running() && spawn is SpawnError ==> ((r matches Err(e) && e
                == AgentError::ProcessSpawnFailed) && *final(self) == *old(self)),
            !old(self).is_running() && spawn is Launched ==> (r is Ok && final(self).is_running()
                && store_refreshed(*old(self), *final(self), fresh) && final(self).config() == old(self).config() && final(self).query_live() == old(self).query_live()),
    {
        match self.state {
            LifecycleState::Running => Err(AgentError::ProcessAlreadyRunning),
            LifecycleState::Stopped => {
                match spawn {
                    SpawnOutcome::SpawnError => Err(AgentError::ProcessSpawnFailed),
                    SpawnOutcome::Launched => {
                        self.state = LifecycleState::Running;
                        self.update_properties(fresh);
                        Ok(())
                    },
                }
            },
        }
    }

    /// Stops the managed process. Fails while it is not running; an
    /// unavailable input stream leaves it running so the stop can be
    /// retried; a delivered shutdown leaves it stopped with the snapshot
    /// refreshed from the handed outcome of re-reading the backing file.
    pub fn stop_server(&mut self, signal: SignalOutcome, fresh: Option<Vec<PropEntry>>) -> (r:
        Result<(), AgentError>)
        ensures
            !old(self).is_running() ==> ((r matches Err(e) && e == AgentError::ProcessNotRunning)
                && *final(self) == *old(self)),
            old(self).is_running() && signal is StreamUnavailable ==> ((r matches Err(e) && e
                == AgentError::ProcessUnresponsive) && *final(self) == *old(self)),
            old(self).is_running() && signal is Delivered ==> (r is Ok && !final(self).is_running()
                && store_refreshed(*old(self), *final(self), fresh) && final(self).config() == old(self).config() && final(self).query_live() == old(self).query_live()),
    {
        match self.state {
            LifecycleState::Stopped => Err(AgentError::ProcessNotRunning),
            LifecycleState::Running => {
                match signal {
                    SignalOutcome::StreamUnavailable => Err(AgentError::ProcessUnresponsive),
                    SignalOutcome::Delivered => {
                        self.state = LifecycleState::Stopped;
                        self.update_properties(fresh);
                        Ok(())
                    },
                }
            },
        }
    }

    /// Refreshes the configuration store from an outcome of re-reading
    /// the backing file: nothing read means no store; a fresh read
    /// replaces an existing snapshot wholly and seeds a first one over
    /// the stock defaults.
    pub fn update_properties(&mut self, fresh: Option<Vec<PropEntry>>)
        ensures
            store_refreshed(*old(self), *final(self), fresh),
            final(self).lifecycle() == old(self).lifecycle(),
            final(self).config() == old(self).config(),
            final(self).query_live() == old(self).query_live(),
    {
        match fresh {
            None => {
                self.properties = None;
            },
            Some(entries) => {
                match &mut self.properties {
                    Some(p) => {
                        p.update(entries);
                    },
                    None => {
                        self.properties = Some(ServerProperties::new(entries));
                    },
                }
            },
        }
    }

    /// The value of a property in the current snapshot.
    pub fn get_property(&self, key: &str) -> (r: Result<&str, AgentError>)
        ensures
            !self.has_store() ==> (r matches Err(e) && e == AgentError::PropertyStoreUnavailable),
            self.has_store() && !has_key(self.store_view(), key@) ==> (r matches Err(e) && e
                == AgentError::PropertyNotFound),
            self.has_store() && has_key(self.store_view(), key@) ==> (r matches Ok(v) && v@
                == lookup(self.store_view(), key@)),
    {
        match &self.properties {
            None => Err(AgentError::PropertyStoreUnavailable),
            Some(p) => {
                match p.get(key) {
                    Some(v) => Ok(v.as_str()),
                    None => Err(AgentError::PropertyNotFound),
                }
            },
        }
    }

    /// Writes a property value through the store: read-after-write, known
    /// keys only.
    pub fn set(&mut self, key: &str, value: &str) -> (r: Result<(), AgentError>)
        ensures
            set_applied(*old(self), *final(self), r, key@, value@),
    {
        match &mut self.properties {
            None => Err(AgentError::PropertyStoreUnavailable),
            Some(p) => {
                match p.set(key, value) {
                    Ok(()) => Ok(()),
                    Err(e) => Err(e),
                }
            },
        }
    }

    /// A copy of the snapshot's entries, for a properties response.
    pub fn snapshot_entries(&self) -> (r: Result<Vec<PropEntry>, AgentError>)
        ensures
            !self.has_store() ==> (r matches Err(e) && e == AgentError::PropertyStoreUnavailable),
            self.has_store() ==> (r matches Ok(entries) && entries_view(entries@)
                == self.store_view()),
    {
        match &self.properties {
            None => Err(AgentError::PropertyStoreUnavailable),
            Some(p) => Ok(p.snapshot_entries()),
        }
    }

    /// Toggles the boolean property under the key.
    fn toggle_bool(&mut self, key: &str) -> (r: Result<(), AgentError>)
        ensures
            !old(self).has_store() ==> ((r matches Err(e) && e
                == AgentError::PropertyStoreUnavailable) && *final(self) == *old(self)),
            old(self).has_store() && !has_key(old(self).store_view(), key@) ==> ((r matches Err(e)
                && e == AgentError::PropertyNotFound) && *final(self) == *old(self)),
            old(self).has_store() && has_key(old(self).store_view(), key@) && bool_flip(
                lookup(old(self).store_view(), key@),
            ) is None ==> ((r matches Err(e) && e == AgentError::InvalidPropertyValue) && *final(self) == *old(self)),
            old(self).has_store() && has_key(old(self).store_view(), key@) && bool_flip(
                lookup(old(self).store_view(), key@),
            ) is Some ==> (r is Ok && final(self).has_store() && final(self).store_view()
                == with_value(
                old(self).store_view(),
                key@,
                bool_flip(lookup(old(self).store_view(), key@))->0,
            ) && final(self).store_synced() && final(self).lifecycle() == old(self).lifecycle()
                && final(self).config() == old(self).config() && final(self).query_live() == old(self).query_live()),
    {
        let flipped = {
            match self.get_property(key) {
                Ok(cur) => {
                    match parse_bool(cur) {
                        Some(b) => !b,
                        None => {
                            return Err(AgentError::InvalidPropertyValue);
                        },
                    }
                },
                Err(e) => {
                    return Err(e);
                },
            }
        };
        self.set(key, bool_str(flipped))
    }

    /// Applies one edit command: toggles a boolean, advances a cycle, or
    /// writes the explicit payload, always through the read-after-write
    /// store.
    pub fn edit_property(&mut self, prop: &property) -> (r: Result<(), AgentError>)
        ensures
            edit_applied(*old(self), *final(self), r, *prop),
    {
        match prop {
            property::allow_flight => self.toggle_bool("allow-flight"),
            property::hardcore => self.toggle_bool("hardcore"),
            property::whitelist => self.toggle_bool("white-list"),
            property::pvp => self.toggle_bool("pvp"),
            property::generate_structures => self.toggle_bool("generate-structures"),
            property::allow_nether => self.toggle_bool("allow-nether"),
            property::spawn_npcs => self.toggle_bool("spawn-npcs"),
            property::spawn_animals => self.toggle_bool("spawn-animals"),
            property::spawn_monsters => self.toggle_bool("spawn-monsters"),
            property::difficulty => {
                let next = {
                    match self.get_property("difficulty") {
                        Ok(cur) => next_difficulty_text(cur),
                        Err(e) => {
                            return Err(e);
                        },
                    }
                };
                self.set("difficulty", next)
            },
            property::gamemode => {
                let next = {
                    match self.get_property("gamemode") {
                        Ok(cur) => next_gamemode_text(cur),
                        Err(e) => {
                            return Err(e);
                        },
                    }
                };
                self.set("gamemode", next)
            },
            property::motd(text) => self.set("motd", text.as_str()),
            property::max_players(n) => {
                let text = u32_to_string(*n);
                self.set("max-players", text.as_str())
            },
            property::max_world_size(n) => {
                let text = u32_to_string(*n);
                self.set("max-world-size", text.as_str())
            },
            property::view_distance(n) => {
                let text = u32_to_string(*n);
                self.set("view-distance", text.as_str())
            },
            property::simulation_distance(n) => {
                let text = u32_to_string(*n);
                self.set("simulation-distance", text.as_str())
            },
            property::spawn_protection(n) => {
                let text = u32_to_string(*n);
                self.set("spawn-protection", text.as_str())
            },
        }
    }

    /// Prepares a live status subscription: reads and parses the probe
    /// port out of the snapshot and builds the session handle. The
    /// controller itself does not change; the refresh loop is only
    /// started once the first probe has answered.
    pub fn start_query(&self, message_id: u64, channel_id: u64, options: QueryOptions) -> (r:
        Result<QueryHandler, AgentError>)
        ensures
            !self.has_store() ==> (r matches Err(e) && e == AgentError::PropertyStoreUnavailable),
            self.has_store() && !has_key(self.store_view(), "server-port"@) ==> (r matches Err(e)
                && e == AgentError::PropertyNotFound),
            self.has_store() && has_key(self.store_view(), "server-port"@) && spec_parse_u32(
                lookup(self.store_view(), "server-port"@),
            ) is None ==> (r matches Err(e) && e == AgentError::InvalidPropertyValue),
            self.has_store() && has_key(self.store_view(), "server-port"@) && spec_parse_u32(
                lookup(self.store_view(), "server-port"@),
            ) is Some ==> (r matches Ok(h) && h.port == spec_parse_u32(
                lookup(self.store_view(), "server-port"@),
            )->0 && h.message_id == message_id && h.channel_id == channel_id && h.options
                == options),
    {
        let port_text = match self.get_property("server-port") {
            Ok(v) => v,
            Err(e) => {
                return Err(e);
            },
        };
        let port = match parse_u32(port_text) {
            Some(p) => p,
            None => {
                return Err(AgentError::InvalidPropertyValue);
            },
        };
        Ok(QueryHandler::new(port, message_id, channel_id, options))
    }

    /// Marks the periodic refresh live, once the first probe has
    /// answered.
    pub fn begin_refresh(&mut self)
        ensures
            final(self).query_live(),
            final(self).lifecycle() == old(self).lifecycle(),
            final(self).config() == old(self).config(),
            final(self).store() == old(self).store(),
    {
        self.query_active = true;
    }

    /// Fires the cancellation of the live status subscription: no further
    /// refresh tick is due afterwards, and firing it again has no
    /// additional effect.
    pub fn shutdown_query(&mut self)
        ensures
            shutdown_post(*old(self), *final(self)),
    {
        self.query_active = false;
    }

    /// Whether the refresh loop may run another tick: exactly while the
    /// subscription is live and not cancelled.
    pub fn refresh_due(&self) -> (r: bool)
        ensures
            r == self.query_live(),
    {
        self.query_active
    }
}

} // verus!
