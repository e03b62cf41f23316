//! The pages the settings view is divided into.

use crate::text::str_eq;
use vstd::prelude::*;

verus! {

/// One page of the settings view.
#[derive(Debug, Clone, Copy, PartialEq, Eq, Structural)]
pub enum SettingScreen {
    WorldGeneration,
    Gameplay,
    Admin,
}

impl SettingScreen {
    /// The tag a page is named by in component identifiers.
    pub fn tag(&self) -> (r: &'static str)
        ensures
            r@ == match *self {
                SettingScreen::WorldGeneration => "world"@,
                SettingScreen::Gameplay => "gameplay"@,
                SettingScreen::Admin => "admin"@,
            },
    {
        match self {
            SettingScreen::WorldGeneration => "world",
            SettingScreen::Gameplay => "gameplay",
            SettingScreen::Admin => "admin",
        }
    }

    /// The page named by a tag, if any.
    pub fn from_tag(s: &str) -> (r: Option<SettingScreen>)
        ensures
            s@ == "world"@ ==> r == Some(SettingScreen::WorldGeneration),
            s@ == "gameplay"@ ==> r == Some(SettingScreen::Gameplay),
            s@ == "admin"@ ==> r == Some(SettingScreen::Admin),
            s@ != "world"@ && s@ != "gameplay"@ && s@ != "admin"@ ==> r is None,
    {
        proof {
            reveal_strlit("world");
            reveal_strlit("gameplay");
            reveal_strlit("admin");
            assert("world"@.len() == 5 && "gameplay"@.len() == 8 && "admin"@.len() == 5);
            assert("world"@[0] == 'w' && "admin"@[0] == 'a');
        }
        if str_eq(s, "world") {
            Some(SettingScreen::WorldGeneration)
        } else if str_eq(s, "gameplay") {
            Some(SettingScreen::Gameplay)
        } else if str_eq(s, "admin") {
            Some(SettingScreen::Admin)
        } else {
            None
        }
    }
}

} // verus!
