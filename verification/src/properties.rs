//! The editable properties of the managed process and what editing each
//! one means.
//!
//! Boolean properties are toggled; the difficulty and game-mode properties
//! advance along a fixed cycle, wrapping, with any value outside the cycle
//! treated as the cycle's first element before advancing; the rest are set
//! directly from an explicit payload.

use crate::assoc::{has_key, lemma_with_value, lookup, with_value};
use crate::text::{dec_str, spec_bool_str, spec_parse_bool, str_eq};
use vstd::prelude::*;

verus! {

/// An edit command for one property, with its payload where the new value
/// is explicit.
#[allow(non_camel_case_types)]
#[derive(Debug)]
pub enum property {
    allow_flight,
    difficulty,
    gamemode,
    hardcore,
    whitelist,
    pvp,
    generate_structures,
    motd(String),
    max_players(u32),
    allow_nether,
    max_world_size(u32),
    view_distance(u32),
    simulation_distance(u32),
    spawn_protection(u32),
    spawn_npcs,
    spawn_animals,
    spawn_monsters,
}

/// The toggled text of a boolean property value; nothing for a value that
/// is not a boolean.
pub open spec fn bool_flip(cur: Seq<char>) -> Option<Seq<char>> {
    match spec_parse_bool(cur) {
        Some(b) => Some(spec_bool_str(!b)),
        None => None,
    }
}

/// The next difficulty in the cycle peaceful, easy, normal, hard,
/// wrapping; a value outside the cycle counts as peaceful before
/// advancing.
pub open spec fn next_difficulty(cur: Seq<char>) -> Seq<char> {
    if cur == "peaceful"@ {
        "easy"@
    } else if cur == "easy"@ {
        "normal"@
    } else if cur == "normal"@ {
        "hard"@
    } else if cur == "hard"@ {
        "peaceful"@
    } else {
        "easy"@
    }
}

/// The next game mode in the cycle survival, creative, adventure,
/// spectator, wrapping; a value outside the cycle counts as survival
/// before advancing.
pub open spec fn next_gamemode(cur: Seq<char>) -> Seq<char> {
    if cur == "survival"@ {
        "creative"@
    } else if cur == "creative"@ {
        "adventure"@
    } else if cur == "adventure"@ {
        "spectator"@
    } else if cur == "spectator"@ {
        "survival"@
    } else {
        "creative"@
    }
}

/// The configuration key each edit command touches.
pub open spec fn edit_target(p: property) -> Seq<char> {
    match p {
        property::allow_flight => "allow-flight"@,
        property::difficulty => "difficulty"@,
        property::gamemode => "gamemode"@,
        property::hardcore => "hardcore"@,
        property::whitelist => "white-list"@,
        property::pvp => "pvp"@,
        property::generate_structures => "generate-structures"@,
        property::motd(_) => "motd"@,
        property::max_players(_) => "max-players"@,
        property::allow_nether => "allow-nether"@,
        property::max_world_size(_) => "max-world-size"@,
        property::view_distance(_) => "view-distance"@,
        property::simulation_distance(_) => "simulation-distance"@,
        property::spawn_protection(_) => "spawn-protection"@,
        property::spawn_npcs => "spawn-npcs"@,
        property::spawn_animals => "spawn-animals"@,
        property::spawn_monsters => "spawn-monsters"@,
    }
}

/// The value an edit command writes, given the current value of its key;
/// nothing when a toggle finds a value that is not a boolean.
pub open spec fn edited_value(p: property, cur: Seq<char>) -> Option<Seq<char>> {
    match p {
        property::allow_flight => bool_flip(cur),
        property::difficulty => Some(next_difficulty(cur)),
        property::gamemode => Some(next_gamemode(cur)),
        property::hardcore => bool_flip(cur),
        property::whitelist => bool_flip(cur),
        property::pvp => bool_flip(cur),
        property::generate_structures => bool_flip(cur),
        property::motd(s) => Some(s@),
        property::max_players(n) => Some(dec_str(n as nat)),
        property::allow_nether => bool_flip(cur),
        property::max_world_size(n) => Some(dec_str(n as nat)),
        property::view_distance(n) => Some(dec_str(n as nat)),
        property::simulation_distance(n) => Some(dec_str(n as nat)),
        property::spawn_protection(n) => Some(dec_str(n as nat)),
        property::spawn_npcs => bool_flip(cur),
        property::spawn_animals => bool_flip(cur),
        property::spawn_monsters => bool_flip(cur),
    }
}

/// The next difficulty, as text.
pub fn next_difficulty_text(cur: &str) -> (r: &'static str)
    ensures
        r@ == next_difficulty(cur@),
{
    if str_eq(cur, "peaceful") {
        "easy"
    } else if str_eq(cur, "easy") {
        "normal"
    } else if str_eq(cur, "normal") {
        "hard"
    } else if str_eq(cur, "hard") {
        "peaceful"
    } else {
        "easy"
    }
}

/// The next game mode, as text.
pub fn next_gamemode_text(cur: &str) -> (r: &'static str)
    ensures
        r@ == next_gamemode(cur@),
{
    if str_eq(cur, "survival") {
        "creative"
    } else if str_eq(cur, "creative") {
        "adventure"
    } else if str_eq(cur, "adventure") {
        "spectator"
    } else if str_eq(cur, "spectator") {
        "survival"
    } else {
        "creative"
    }
}

/// The mapping after toggling the boolean value under the key.
pub open spec fn toggled_store(m: Seq<(Seq<char>, Seq<char>)>, k: Seq<char>) -> Seq<
    (Seq<char>, Seq<char>),
> {
    with_value(m, k, bool_flip(lookup(m, k))->0)
}

/// Toggling a boolean property twice returns it to its original value,
/// and touches no other key either time.
pub proof fn lemma_toggle_twice(m: Seq<(Seq<char>, Seq<char>)>, k: Seq<char>, q: Seq<char>)
    requires
        has_key(m, k),
        bool_flip(lookup(m, k)) is Some,
    ensures
        lookup(toggled_store(toggled_store(m, k), k), k) == lookup(m, k),
        has_key(toggled_store(toggled_store(m, k), k), q) == has_key(m, q),
        q != k ==> lookup(toggled_store(toggled_store(m, k), k), q) == lookup(m, q),
{
    let b = spec_parse_bool(lookup(m, k))->0;
    let m1 = toggled_store(m, k);
    lemma_with_value(m, k, spec_bool_str(!b), k);
    lemma_with_value(m, k, spec_bool_str(!b), q);
    assert(lookup(m1, k) == spec_bool_str(!b));
    assert(bool_flip(lookup(m1, k)) == Some(spec_bool_str(b)));
    lemma_with_value(m1, k, spec_bool_str(b), k);
    lemma_with_value(m1, k, spec_bool_str(b), q);
    assert(spec_bool_str(b) == lookup(m, k));
}

/// The mapping after advancing the difficulty cycle once.
pub open spec fn advanced_difficulty_store(m: Seq<(Seq<char>, Seq<char>)>) -> Seq<
    (Seq<char>, Seq<char>),
> {
    with_value(m, "difficulty"@, next_difficulty(lookup(m, "difficulty"@)))
}

/// Advancing the difficulty cycle four times returns to the original
/// difficulty, for any difficulty in the cycle, and touches no other key.
pub proof fn lemma_difficulty_cycle(m: Seq<(Seq<char>, Seq<char>)>, q: Seq<char>)
    requires
        has_key(m, "difficulty"@),
        lookup(m, "difficulty"@) == "peaceful"@ || lookup(m, "difficulty"@) == "easy"@ || lookup(
            m,
            "difficulty"@,
        ) == "normal"@ || lookup(m, "difficulty"@) == "hard"@,
    ensures
        lookup(
            advanced_difficulty_store(
                advanced_difficulty_store(advanced_difficulty_store(advanced_difficulty_store(m))),
            ),
            "difficulty"@,
        ) == lookup(m, "difficulty"@),
        q != "difficulty"@ ==> lookup(
            advanced_difficulty_store(
                advanced_difficulty_store(advanced_difficulty_store(advanced_difficulty_store(m))),
            ),
            q,
        ) == lookup(m, q),
{
    let k = "difficulty"@;
    let m1 = advanced_difficulty_store(m);
    let m2 = advanced_difficulty_store(m1);
    let m3 = advanced_difficulty_store(m2);
    lemma_with_value(m, k, next_difficulty(lookup(m, k)), k);
    lemma_with_value(m, k, next_difficulty(lookup(m, k)), q);
    lemma_with_value(m1, k, next_difficulty(lookup(m1, k)), k);
    lemma_with_value(m1, k, next_difficulty(lookup(m1, k)), q);
    lemma_with_value(m2, k, next_difficulty(lookup(m2, k)), k);
    lemma_with_value(m2, k, next_difficulty(lookup(m2, k)), q);
    lemma_with_value(m3, k, next_difficulty(lookup(m3, k)), k);
    lemma_with_value(m3, k, next_difficulty(lookup(m3, k)), q);
    lemma_strlit_difficulty();
}

/// The four difficulty names are pairwise distinct texts.
proof fn lemma_strlit_difficulty()
    ensures
        "peaceful"@ != "easy"@,
        "peaceful"@ != "normal"@,
        "peaceful"@ != "hard"@,
        "easy"@ != "normal"@,
        "easy"@ != "hard"@,
        "normal"@ != "hard"@,
{
    reveal_strlit("peaceful");
    reveal_strlit("easy");
    reveal_strlit("normal");
    reveal_strlit("hard");
    assert("peaceful"@.len() == 8);
    assert("easy"@.len() == 4);
    assert("normal"@.len() == 6);
    assert("hard"@.len() == 4);
    assert("easy"@[0] == 'e' && "hard"@[0] == 'h');
}

} // verus!
