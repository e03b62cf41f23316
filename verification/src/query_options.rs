//! The field selection of a status query and the field-selected reply.
//!
//! A requester names the status fields it wants; the reply carries exactly
//! the requested fields that the upstream status could supply, each one
//! optional.

use crate::text::str_eq;
use vstd::prelude::*;

verus! {

/// Whether some string of the list reads as the text.
pub open spec fn contains_str(xs: Seq<String>, t: Seq<char>) -> bool {
    exists|i: int| 0 <= i < xs.len() && xs[i]@ == t
}

/// Whether the list holds the text.
fn list_contains(xs: &Vec<String>, t: &str) -> (r: bool)
    ensures
        r == contains_str(xs@, t@),
{
    let n = xs.len();
    let mut i: usize = 0;
    while i < n
        invariant
            n == xs@.len(),
            i <= n,
            forall|j: int| 0 <= j < i ==> xs@[j]@ != t@,
        decreases n - i,
    {
        if str_eq(xs[i].as_str(), t) {
            return true;
        }
        i += 1;
    }
    false
}

/// Which status fields a query asks for.
#[derive(Debug, Clone, Copy, PartialEq, Eq, Structural)]
pub struct QueryOptions {
    pub version: bool,
    pub player_count: bool,
    pub player_list: bool,
    pub description: bool,
    pub map: bool,
    pub gamemode: bool,
    pub software: bool,
    pub plugins: bool,
    pub mods: bool,
}

impl Default for QueryOptions {
    /// No field requested.
    fn default() -> (r: QueryOptions)
        ensures
            r == (QueryOptions {
                version: false,
                player_count: false,
                player_list: false,
                description: false,
                map: false,
                gamemode: false,
                software: false,
                plugins: false,
                mods: false,
            }),
    {
        QueryOptions {
            version: false,
            player_count: false,
            player_list: false,
            description: false,
            map: false,
            gamemode: false,
            software: false,
            plugins: false,
            mods: false,
        }
    }
}

impl QueryOptions {
    /// The selection named by a list of field labels.
    pub fn new(options: &Vec<String>) -> (r: QueryOptions)
        ensures
            r.version == contains_str(options@, "version"@),
            r.player_count == contains_str(options@, "player count"@),
            r.player_list == contains_str(options@, "player list"@),
            r.description == contains_str(options@, "description"@),
            r.map == contains_str(options@, "map"@),
            r.gamemode == contains_str(options@, "gamemode"@),
            r.software == contains_str(options@, "software"@),
            r.plugins == contains_str(options@, "plugins"@),
            r.mods == contains_str(options@, "mods"@),
    {
        QueryOptions {
            version: list_contains(options, "version"),
            player_count: list_contains(options, "player count"),
            player_list: list_contains(options, "player list"),
            description: list_contains(options, "description"),
            map: list_contains(options, "map"),
            gamemode: list_contains(options, "gamemode"),
            software: list_contains(options, "software"),
            plugins: list_contains(options, "plugins"),
            mods: list_contains(options, "mods"),
        }
    }

    pub fn version(&mut self) -> (r: bool)
        ensures
            r == old(self).version,
            *final(self) == *old(self),
    {
        self.version
    }

    pub fn player_count(&mut self) -> (r: bool)
        ensures
            r == old(self).player_count,
            *final(self) == *old(self),
    {
        self.player_count
    }

    pub fn player_list(&mut self) -> (r: bool)
        ensures
            r == old(self).player_list,
            *final(self) == *old(self),
    {
        self.player_list
    }

    pub fn description(&mut self) -> (r: bool)
        ensures
            r == old(self).description,
            *final(self) == *old(self),
    {
        self.description
    }

    pub fn map(&mut self) -> (r: bool)
        ensures
            r == old(self).map,
            *final(self) == *old(self),
    {
        self.map
    }

    pub fn gamemode(&mut self) -> (r: bool)
        ensures
            r == old(self).gamemode,
            *final(self) == *old(self),
    {
        self.gamemode
    }

    pub fn software(&mut self) -> (r: bool)
        ensures
            r == old(self).software,
            *final(self) == *old(self),
    {
        self.software
    }

    pub fn plugins(&mut self) -> (r: bool)
        ensures
            r == old(self).plugins,
            *final(self) == *old(self),
    {
        self.plugins
    }

    pub fn mods(&mut self) -> (r: bool)
        ensures
            r == old(self).mods,
            *final(self) == *old(self),
    {
        self.mods
    }
}

/// The field-selected status reply: each field present only where it was
/// requested and the upstream status supplied it.
#[derive(Debug)]
pub struct QuerySend {
    pub version: Option<String>,
    pub player_count: Option<String>,
    pub player_list: Option<Vec<String>>,
    pub description: Option<String>,
    pub map: Option<String>,
    pub gamemode: Option<String>,
    pub software: Option<String>,
    pub plugins: Option<Vec<String>>,
    pub mods: Option<Vec<String>>,
}

impl Default for QuerySend {
    /// No field populated.
    fn default() -> (r: QuerySend)
        ensures
            r.version is None,
            r.player_count is None,
            r.player_list is None,
            r.description is None,
            r.map is None,
            r.gamemode is None,
            r.software is None,
            r.plugins is None,
            r.mods is None,
    {
        QuerySend {
            version: None,
            player_count: None,
            player_list: None,
            description: None,
            map: None,
            gamemode: None,
            software: None,
            plugins: None,
            mods: None,
        }
    }
}

impl QuerySend {
    pub fn set_version(&mut self, version: String)
        ensures
            *final(self) == (QuerySend { version: Some(version), ..*old(self) }),
    {
        self.version = Some(version);
    }

    pub fn set_player_count(&mut self, player_count: String)
        ensures
            *final(self) == (QuerySend { player_count: Some(player_count), ..*old(self) }),
    {
        self.player_count = Some(player_count);
    }

    pub fn set_player_list(&mut self, player_list: Vec<String>)
        ensures
            *final(self) == (QuerySend { player_list: Some(player_list), ..*old(self) }),
    {
        self.player_list = Some(player_list);
    }

    pub fn set_description(&mut self, description: String)
        ensures
            *final(self) == (QuerySend { description: Some(description), ..*old(self) }),
    {
        self.description = Some(description);
    }

    pub fn set_map(&mut self, map: Option<String>)
        ensures
            *final(self) == (QuerySend { map, ..*old(self) }),
    {
        self.map = map;
    }

    pub fn set_gamemode(&mut self, gamemode: Option<String>)
        ensures
            *final(self) == (QuerySend { gamemode, ..*old(self) }),
    {
        self.gamemode = gamemode;
    }

    pub fn set_software(&mut self, software: Option<String>)
        ensures
            *final(self) == (QuerySend { software, ..*old(self) }),
    {
        self.software = software;
    }

    pub fn set_plugins(&mut self, plugins: Option<Vec<String>>)
        ensures
            *final(self) == (QuerySend { plugins, ..*old(self) }),
    {
        self.plugins = plugins;
    }

    pub fn set_mods(&mut self, mods: Option<Vec<String>>)
        ensures
            *final(self) == (QuerySend { mods, ..*old(self) }),
    {
        self.mods = mods;
    }

    pub fn version(&self) -> (r: Option<&String>)
        ensures
            self.version is Some ==> (r matches Some(v) && *v == self.version->0),
            self.version is None ==> r is None,
    {
        self.version.as_ref()
    }

    pub fn player_count(&self) -> (r: Option<&String>)
        ensures
            self.player_count is Some ==> (r matches Some(v) && *v == self.player_count->0),
            self.player_count is None ==> r is None,
    {
        self.player_count.as_ref()
    }

    pub fn player_list(&self) -> (r: Option<&Vec<String>>)
        ensures
            self.player_list is Some ==> (r matches Some(v) && *v == self.player_list->0),
            self.player_list is None ==> r is None,
    {
        self.player_list.as_ref()
    }

    pub fn description(&self) -> (r: Option<&String>)
        ensures
            self.description is Some ==> (r matches Some(v) && *v == self.description->0),
            self.description is None ==> r is None,
    {
        self.description.as_ref()
    }

    pub fn map(&self) -> (r: Option<&String>)
        ensures
            self.map is Some ==> (r matches Some(v) && *v == self.map->0),
            self.map is None ==> r is None,
    {
        self.map.as_ref()
    }

    pub fn gamemode(&self) -> (r: Option<&String>)
        ensures
            self.gamemode is Some ==> (r matches Some(v) && *v == self.gamemode->0),
            self.gamemode is None ==> r is None,
    {
        self.gamemode.as_ref()
    }

    pub fn software(&self) -> (r: Option<&String>)
        ensures
            self.software is Some ==> (r matches Some(v) && *v == self.software->0),
            self.software is None ==> r is None,
    {
        self.software.as_ref()
    }

    pub fn plugins(&self) -> (r: Option<&Vec<String>>)
        ensures
            self.plugins is Some ==> (r matches Some(v) && *v == self.plugins->0),
            self.plugins is None ==> r is None,
    {
        self.plugins.as_ref()
    }

    pub fn mods(&self) -> (r: Option<&Vec<String>>)
        ensures
            self.mods is Some ==> (r matches Some(v) && *v == self.mods->0),
            self.mods is None ==> r is None,
    {
        self.mods.as_ref()
    }
}

} // verus!
