//! The configuration snapshot of the managed process and its backing
//! store.
//!
//! The snapshot is an ordered mapping from string keys to string values.
//! The backing store — on disk in the running system, injected here as
//! plain values — is modelled by a second mapping, so that the
//! read-after-write contract can be stated: after every successful write
//! the snapshot is exactly what a fresh read of the store produces.

use crate::assoc::{has_key, lemma_lookup_at, lookup, merged, upsert, with_value};
use crate::errors::AgentError;
use crate::text::str_eq;
use vstd::prelude::*;

verus! {

/// One key/value pair of the configuration.
#[derive(Debug)]
pub struct PropEntry {
    pub key: String,
    pub value: String,
}

impl PropEntry {
    pub fn new(key: &str, value: &str) -> (r: PropEntry)
        ensures
            r.key@ == key@,
            r.value@ == value@,
    {
        PropEntry { key: key.to_owned(), value: value.to_owned() }
    }
}

/// The pair of views of an entry.
pub open spec fn entry_view(e: PropEntry) -> (Seq<char>, Seq<char>) {
    (e.key@, e.value@)
}

/// The mapping that a sequence of entries denotes.
pub open spec fn entries_view(s: Seq<PropEntry>) -> Seq<(Seq<char>, Seq<char>)> {
    s.map_values(|e: PropEntry| entry_view(e))
}

/// The position of the first entry with the key, if any.
fn find_key(entries: &Vec<PropEntry>, key: &str) -> (r: Option<usize>)
    ensures
        match r {
            Some(i) => i < entries@.len() && entries@[i as int].key@ == key@ && forall|j: int|
                0 <= j < i ==> entries@[j].key@ != key@,
            None => forall|j: int| 0 <= j < entries@.len() ==> entries@[j].key@ != key@,
        },
{
    let n = entries.len();
    let mut i: usize = 0;
    while i < n
        invariant
            n == entries@.len(),
            i <= n,
            forall|j: int| 0 <= j < i ==> entries@[j].key@ != key@,
        decreases n - i,
    {
        if str_eq(entries[i].key.as_str(), key) {
            return Some(i);
        }
        i += 1;
    }
    None
}

/// A fresh copy of the entries, equal as values.
fn copy_entries(src: &Vec<PropEntry>) -> (r: Vec<PropEntry>)
    ensures
        r@ == src@,
{
    let n = src.len();
    let mut out: Vec<PropEntry> = Vec::new();
    let mut i: usize = 0;
    while i < n
        invariant
            n == src@.len(),
            i <= n,
            out@ =~= src@.take(i as int),
        decreases n - i,
    {
        out.push(PropEntry { key: src[i].key.clone(), value: src[i].value.clone() });
        proof {
            assert(out@ =~= src@.take(i + 1));
        }
        i += 1;
    }
    proof {
        assert(out@ =~= src@);
    }
    out
}

/// The entries with every pair carrying the key set to the value.
fn replace_value(src: &Vec<PropEntry>, key: &str, value: &str) -> (r: Vec<PropEntry>)
    ensures
        entries_view(r@) == with_value(entries_view(src@), key@, value@),
{
    let n = src.len();
    let mut out: Vec<PropEntry> = Vec::new();
    let mut i: usize = 0;
    while i < n
        invariant
            n == src@.len(),
            i <= n,
            out@.len() == i,
            forall|j: int|
                0 <= j < i ==> entry_view(#[trigger] out@[j]) == (if src@[j].key@ == key@ {
                    (src@[j].key@, value@)
                } else {
                    entry_view(src@[j])
                }),
        decreases n - i,
    {
        if str_eq(src[i].key.as_str(), key) {
            out.push(PropEntry { key: src[i].key.clone(), value: value.to_owned() });
        } else {
            out.push(PropEntry { key: src[i].key.clone(), value: src[i].value.clone() });
        }
        i += 1;
    }
    proof {
        assert(entries_view(out@) =~= with_value(entries_view(src@), key@, value@));
    }
    out
}

/// What came of the surrounding runtime's attempt to persist an updated
/// mapping to the backing file.
#[derive(Debug, Clone, Copy, PartialEq, Eq, Structural)]
pub enum PersistOutcome {
    /// The full updated mapping reached the backing file.
    Persisted,
    /// The write did not complete; the file may hold anything, the
    /// snapshot must keep its pre-write value.
    WriteError,
}

/// The in-memory configuration snapshot together with the contents of the
/// backing store it mirrors.
pub struct ServerProperties {
    snapshot: Vec<PropEntry>,
    backing: Vec<PropEntry>,
}

impl View for ServerProperties {
    type V = Seq<(Seq<char>, Seq<char>)>;

    closed spec fn view(&self) -> Seq<(Seq<char>, Seq<char>)> {
        entries_view(self.snapshot@)
    }
}

impl ServerProperties {
    /// What a fresh read of the backing store would produce.
    pub closed spec fn persisted(&self) -> Seq<(Seq<char>, Seq<char>)> {
        entries_view(self.backing@)
    }

    /// Loads a store from the entries read out of the backing file,
    /// overriding the stock defaults: every key of either side is present,
    /// file entries win (later duplicates last), untouched defaults keep
    /// their stock value, and the snapshot matches the store.
    pub fn new(file_entries: Vec<PropEntry>) -> (r: ServerProperties)
        ensures
            r@ == merged(default_config(), entries_view(file_entries@)),
            r.persisted() == r@,
    {
        let mut acc = default_properties();
        let ghost over = entries_view(file_entries@);
        let n = file_entries.len();
        let mut i: usize = 0;
        while i < n
            invariant
                n == file_entries@.len(),
                i <= n,
                over == entries_view(file_entries@),
                entries_view(acc@) == merged(default_config(), over.take(i as int)),
            decreases n - i,
        {
            proof {
                assert(over.take(i + 1).drop_last() =~= over.take(i as int));
                assert(over.take(i + 1).last() == entry_view(file_entries@[i as int]));
            }
            acc = upsert_entry(acc, &file_entries[i].key, &file_entries[i].value);
            i += 1;
        }
        proof {
            assert(over.take(n as int) =~= over);
        }
        let backing = copy_entries(&acc);
        ServerProperties { snapshot: acc, backing }
    }

    /// The value stored under the key, if the key is present.
    pub fn get(&self, key: &str) -> (r: Option<&String>)
        ensures
            match r {
                Some(v) => has_key(self@, key@) && v@ == lookup(self@, key@),
                None => !has_key(self@, key@),
            },
    {
        match find_key(&self.snapshot, key) {
            Some(i) => {
                proof {
                    assert(forall|j: int|
                        0 <= j < self@.len() ==> (#[trigger] self@[j]) == entry_view(
                            self.snapshot@[j],
                        ));
                    lemma_lookup_at(self@, key@, i as int);
                }
                Some(&self.snapshot[i].value)
            },
            None => {
                proof {
                    assert(forall|j: int|
                        0 <= j < self@.len() ==> (#[trigger] self@[j]) == entry_view(
                            self.snapshot@[j],
                        ));
                }
                None
            },
        }
    }

    /// Writes a value under an already-present key: the full updated
    /// mapping is persisted and then read back, so on success the snapshot
    /// carries the new value and matches the store. An unknown key is
    /// rejected and nothing changes; new keys cannot be introduced this
    /// way.
    pub fn set(&mut self, key: &str, value: &str) -> (r: Result<(), AgentError>)
        ensures
            match r {
                Ok(()) => has_key(old(self)@, key@)
                    && final(self)@ == with_value(old(self)@, key@, value@)
                    && final(self).persisted() == final(self)@,
                Err(e) => e == AgentError::PropertyNotFound
                    && !has_key(old(self)@, key@)
                    && *final(self) == *old(self),
            },
    {
        match find_key(&self.snapshot, key) {
            Some(i) => {
                proof {
                    assert(forall|j: int|
                        0 <= j < self@.len() ==> (#[trigger] self@[j]) == entry_view(
                            self.snapshot@[j],
                        ));
                    assert(self@[i as int].0 == key@);
                }
                let updated = replace_value(&self.snapshot, key, value);
                let persisted_copy = copy_entries(&updated);
                self.snapshot = updated;
                self.backing = persisted_copy;
                Ok(())
            },
            None => {
                proof {
                    assert(forall|j: int|
                        0 <= j < self@.len() ==> (#[trigger] self@[j]) == entry_view(
                            self.snapshot@[j],
                        ));
                }
                Err(AgentError::PropertyNotFound)
            },
        }
    }

    /// Writes a value under an already-present key, taking the outcome of
    /// the surrounding runtime's attempt to persist the updated mapping.
    /// Where the persist failed, the write surfaces as a failed write and
    /// the snapshot keeps its pre-write value; otherwise this is `set`.
    pub fn set_persisted(&mut self, key: &str, value: &str, outcome: PersistOutcome) -> (r: Result<
        (),
        AgentError,
    >)
        ensures
            !has_key(old(self)@, key@) ==> ((r matches Err(e) && e == AgentError::PropertyNotFound)
                && *final(self) == *old(self)),
            has_key(old(self)@, key@) && outcome is WriteError ==> ((r matches Err(e) && e
                == AgentError::PropertyWriteFailed) && *final(self) == *old(self)),
            has_key(old(self)@, key@) && outcome is Persisted ==> (r is Ok
                && final(self)@ == with_value(old(self)@, key@, value@)
                && final(self).persisted() == final(self)@),
    {
        match find_key(&self.snapshot, key) {
            None => {
                proof {
                    assert(forall|j: int|
                        0 <= j < self@.len() ==> (#[trigger] self@[j]) == entry_view(
                            self.snapshot@[j],
                        ));
                }
                Err(AgentError::PropertyNotFound)
            },
            Some(i) => {
                proof {
                    assert(forall|j: int|
                        0 <= j < self@.len() ==> (#[trigger] self@[j]) == entry_view(
                            self.snapshot@[j],
                        ));
                    assert(self@[i as int].0 == key@);
                }
                match outcome {
                    PersistOutcome::WriteError => Err(AgentError::PropertyWriteFailed),
                    PersistOutcome::Persisted => self.set(key, value),
                }
            },
        }
    }

    /// Replaces the snapshot with a fresh read of the backing store, whose
    /// entries the caller hands in. The managed process may rewrite its
    /// own configuration; this is how the store catches up.
    pub fn update(&mut self, fresh: Vec<PropEntry>)
        ensures
            final(self)@ == entries_view(fresh@),
            final(self).persisted() == final(self)@,
    {
        let backing = copy_entries(&fresh);
        self.snapshot = fresh;
        self.backing = backing;
    }

    /// A copy of the snapshot's entries, for building response payloads.
    pub fn snapshot_entries(&self) -> (r: Vec<PropEntry>)
        ensures
            entries_view(r@) == self@,
    {
        copy_entries(&self.snapshot)
    }
}

/// Read-after-write: setting a known key and then reading it gives back
/// exactly the value written, and every other key reads as before.
pub proof fn lemma_set_then_get(m: Seq<(Seq<char>, Seq<char>)>, k: Seq<char>, v: Seq<char>, q: Seq<
    char,
>)
    requires
        has_key(m, k),
    ensures
        has_key(with_value(m, k, v), k),
        lookup(with_value(m, k, v), k) == v,
        q != k ==> lookup(with_value(m, k, v), q) == lookup(m, q),
{
    crate::assoc::lemma_with_value(m, k, v, k);
    crate::assoc::lemma_with_value(m, k, v, q);
}

/// One override step of `ServerProperties::new`.
fn upsert_entry(entries: Vec<PropEntry>, key: &String, value: &String) -> (r: Vec<PropEntry>)
    ensures
        entries_view(r@) == upsert(entries_view(entries@), key@, value@),
{
    match find_key(&entries, key.as_str()) {
        Some(i) => {
            proof {
                assert(entries_view(entries@)[i as int].0 == key@);
            }
            replace_value(&entries, key.as_str(), value.as_str())
        },
        None => {
            proof {
                assert(forall|j: int|
                    0 <= j < entries@.len() ==> (#[trigger] entries_view(entries@)[j])
                        == entry_view(entries@[j]));
            }
            let mut out = entries;
            let ghost before = out@;
            out.push(PropEntry { key: key.clone(), value: value.clone() });
            proof {
                assert(entries_view(out@) =~= entries_view(before).push((key@, value@)));
            }
            out
        },
    }
}

/// The stock configuration of a freshly created managed process.
pub open spec fn default_config() -> Seq<(Seq<char>, Seq<char>)> {
    seq![
        ("enable-jmx-monitoring"@, "false"@),
        ("rcon.port"@, "25575"@),
        ("level-seed"@, ""@),
        ("gamemode"@, "survival"@),
        ("enable-command-block"@, "false"@),
        ("enable-query"@, "false"@),
        ("generator-settings"@, "{}"@),
        ("enforce-secure-profile"@, "true"@),
        ("level-name"@, "world"@),
        ("motd"@, "A Minecraft Server"@),
        ("query.port"@, "25565"@),
        ("pvp"@, "true"@),
        ("generate-structures"@, "true"@),
        ("max-chained-neighbor-updates"@, "1000000"@),
        ("difficulty"@, "easy"@),
        ("network-compression-threshold"@, "256"@),
        ("max-tick-time"@, "60000"@),
        ("require-resource-pack"@, "false"@),
        ("use-native-transport"@, "true"@),
        ("max-players"@, "20"@),
        ("online-mode"@, "true"@),
        ("enable-status"@, "true"@),
        ("allow-flight"@, "false"@),
        ("initial-disabled-packs"@, ""@),
        ("broadcast-rcon-to-ops"@, "true"@),
        ("view-distance"@, "10"@),
        ("server-ip"@, ""@),
        ("resource-pack-prompt"@, ""@),
        ("allow-nether"@, "true"@),
        ("server-port"@, "25565"@),
        ("enable-rcon"@, "false"@),
        ("sync-chunk-writes"@, "true"@),
        ("op-permission-level"@, "4"@),
        ("prevent-proxy-connections"@, "false"@),
        ("hide-online-players"@, "false"@),
        ("resource-pack"@, ""@),
        ("entity-broadcast-range-percentage"@, "100"@),
        ("simulation-distance"@, "10"@),
        ("rcon.password"@, ""@),
        ("player-idle-timeout"@, "0"@),
        ("force-gamemode"@, "false"@),
        ("rate-limit"@, "0"@),
        ("hardcore"@, "false"@),
        ("white-list"@, "false"@),
        ("broadcast-console-to-ops"@, "true"@),
        ("spawn-npcs"@, "true"@),
        ("spawn-animals"@, "true"@),
        ("log-ips"@, "true"@),
        ("function-permission-level"@, "2"@),
        ("initial-enabled-packs"@, "vanilla"@),
        ("level-type"@, "minecraft:normal"@),
        ("text-filtering-config"@, ""@),
        ("spawn-monsters"@, "true"@),
        ("enforce-whitelist"@, "false"@),
        ("spawn-protection"@, "16"@),
        ("resource-pack-sha1"@, ""@),
        ("max-world-size"@, "29999984"@),
    ]
}

/// The stock configuration, as entries.
pub fn default_properties() -> (r: Vec<PropEntry>)
    ensures
        entries_view(r@) == default_config(),
{
    let mut out: Vec<PropEntry> = Vec::new();
    out.push(PropEntry { key: "enable-jmx-monitoring".to_owned(), value: "false".to_owned() });
    out.push(PropEntry { key: "rcon.port".to_owned(), value: "25575".to_owned() });
    out.push(PropEntry { key: "level-seed".to_owned(), value: "".to_owned() });
    out.push(PropEntry { key: "gamemode".to_owned(), value: "survival".to_owned() });
    out.push(PropEntry { key: "enable-command-block".to_owned(), value: "false".to_owned() });
    out.push(PropEntry { key: "enable-query".to_owned(), value: "false".to_owned() });
    out.push(PropEntry { key: "generator-settings".to_owned(), value: "{}".to_owned() });
    out.push(PropEntry { key: "enforce-secure-profile".to_owned(), value: "true".to_owned() });
    out.push(PropEntry { key: "level-name".to_owned(), value: "world".to_owned() });
    out.push(PropEntry { key: "motd".to_owned(), value: "A Minecraft Server".to_owned() });
    out.push(PropEntry { key: "query.port".to_owned(), value: "25565".to_owned() });
    out.push(PropEntry { key: "pvp".to_owned(), value: "true".to_owned() });
    out.push(PropEntry { key: "generate-structures".to_owned(), value: "true".to_owned() });
    out.push(PropEntry { key: "max-chained-neighbor-updates".to_owned(), value: "1000000".to_owned() });
    out.push(PropEntry { key: "difficulty".to_owned(), value: "easy".to_owned() });
    out.push(PropEntry { key: "network-compression-threshold".to_owned(), value: "256".to_owned() });
    out.push(PropEntry { key: "max-tick-time".to_owned(), value: "60000".to_owned() });
    out.push(PropEntry { key: "require-resource-pack".to_owned(), value: "false".to_owned() });
    out.push(PropEntry { key: "use-native-transport".to_owned(), value: "true".to_owned() });
    out.push(PropEntry { key: "max-players".to_owned(), value: "20".to_owned() });
    out.push(PropEntry { key: "online-mode".to_owned(), value: "true".to_owned() });
    out.push(PropEntry { key: "enable-status".to_owned(), value: "true".to_owned() });
    out.push(PropEntry { key: "allow-flight".to_owned(), value: "false".to_owned() });
    out.push(PropEntry { key: "initial-disabled-packs".to_owned(), value: "".to_owned() });
    out.push(PropEntry { key: "broadcast-rcon-to-ops".to_owned(), value: "true".to_owned() });
    out.push(PropEntry { key: "view-distance".to_owned(), value: "10".to_owned() });
    out.push(PropEntry { key: "server-ip".to_owned(), value: "".to_owned() });
    out.push(PropEntry { key: "resource-pack-prompt".to_owned(), value: "".to_owned() });
    out.push(PropEntry { key: "allow-nether".to_owned(), value: "true".to_owned() });
    out.push(PropEntry { key: "server-port".to_owned(), value: "25565".to_owned() });
    out.push(PropEntry { key: "enable-rcon".to_owned(), value: "false".to_owned() });
    out.push(PropEntry { key: "sync-chunk-writes".to_owned(), value: "true".to_owned() });
    out.push(PropEntry { key: "op-permission-level".to_owned(), value: "4".to_owned() });
    out.push(PropEntry { key: "prevent-proxy-connections".to_owned(), value: "false".to_owned() });
    out.push(PropEntry { key: "hide-online-players".to_owned(), value: "false".to_owned() });
    out.push(PropEntry { key: "resource-pack".to_owned(), value: "".to_owned() });
    out.push(PropEntry { key: "entity-broadcast-range-percentage".to_owned(), value: "100".to_owned() });
    out.push(PropEntry { key: "simulation-distance".to_owned(), value: "10".to_owned() });
    out.push(PropEntry { key: "rcon.password".to_owned(), value: "".to_owned() });
    out.push(PropEntry { key: "player-idle-timeout".to_owned(), value: "0".to_owned() });
    out.push(PropEntry { key: "force-gamemode".to_owned(), value: "false".to_owned() });
    out.push(PropEntry { key: "rate-limit".to_owned(), value: "0".to_owned() });
    out.push(PropEntry { key: "hardcore".to_owned(), value: "false".to_owned() });
    out.push(PropEntry { key: "white-list".to_owned(), value: "false".to_owned() });
    out.push(PropEntry { key: "broadcast-console-to-ops".to_owned(), value: "true".to_owned() });
    out.push(PropEntry { key: "spawn-npcs".to_owned(), value: "true".to_owned() });
    out.push(PropEntry { key: "spawn-animals".to_owned(), value: "true".to_owned() });
    out.push(PropEntry { key: "log-ips".to_owned(), value: "true".to_owned() });
    out.push(PropEntry { key: "function-permission-level".to_owned(), value: "2".to_owned() });
    out.push(PropEntry { key: "initial-enabled-packs".to_owned(), value: "vanilla".to_owned() });
    out.push(PropEntry { key: "level-type".to_owned(), value: "minecraft:normal".to_owned() });
    out.push(PropEntry { key: "text-filtering-config".to_owned(), value: "".to_owned() });
    out.push(PropEntry { key: "spawn-monsters".to_owned(), value: "true".to_owned() });
    out.push(PropEntry { key: "enforce-whitelist".to_owned(), value: "false".to_owned() });
    out.push(PropEntry { key: "spawn-protection".to_owned(), value: "16".to_owned() });
    out.push(PropEntry { key: "resource-pack-sha1".to_owned(), value: "".to_owned() });
    out.push(PropEntry { key: "max-world-size".to_owned(), value: "29999984".to_owned() });
    proof {
        assert(entries_view(out@) =~= default_config());
    }
    out
}

} // verus!
