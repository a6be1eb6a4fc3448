//! Surface and weapon tables behind the wall-penetration estimate.
//!
//! The estimate itself multiplies these values with wall thicknesses in
//! floating point; here the tables are kept exact: modifiers and penetration
//! powers are given in tenths, base damage in whole hit points.
use vstd::prelude::*;
use crate::text::{has_prefix, same_text, starts_with};

verus! {

/// Surface type indices, as assigned by the map geometry parser.
pub const SURFACE_CONCRETE: u8 = 0;
pub const SURFACE_METAL: u8 = 1;
pub const SURFACE_SOLIDMETAL: u8 = 2;
pub const SURFACE_WOOD: u8 = 3;
pub const SURFACE_WOOD_PANEL: u8 = 4;
pub const SURFACE_WOOD_DENSE: u8 = 5;
pub const SURFACE_GLASS: u8 = 6;
pub const SURFACE_ROCK: u8 = 7;
pub const SURFACE_DIRT: u8 = 8;
pub const SURFACE_SAND: u8 = 9;
pub const SURFACE_CHAINLINK: u8 = 10;
pub const SURFACE_METALVENT: u8 = 11;
pub const SURFACE_METALPANEL: u8 = 12;
pub const SURFACE_METALVEHICLE: u8 = 13;
pub const SURFACE_TILE: u8 = 14;
pub const SURFACE_CARPET: u8 = 15;
pub const SURFACE_DEFAULT: u8 = 16;
pub const SURFACE_GRATE: u8 = 17;
pub const SURFACE_PLASTIC: u8 = 18;

// ---------------------------------------------------------------------------
// Surface names
// ---------------------------------------------------------------------------

/// What `str::to_lowercase` returns for a string (Unicode lowercase mapping).
pub uninterp spec fn unicode_lowercase(s: Seq<char>) -> Seq<char>;

/// `c` is an ASCII character.
pub open spec fn is_ascii_char(c: char) -> bool {
    (c as u32) < 128
}

/// Every character of `s` is ASCII.
pub open spec fn all_ascii(s: Seq<char>) -> bool {
    forall|i: int| 0 <= i < s.len() ==> is_ascii_char(#[trigger] s[i])
}

/// `c` with an ASCII upper-case letter turned lower-case.
pub open spec fn ascii_lower(c: char) -> char {
    if 65 <= (c as u32) && (c as u32) <= 90 {
        ((c as u32) + 32) as char
    } else {
        c
    }
}

/// `c` with an ASCII lower-case letter turned upper-case.
pub open spec fn ascii_upper(c: char) -> char {
    if 97 <= (c as u32) && (c as u32) <= 122 {
        ((c as u32) - 32) as char
    } else {
        c
    }
}

/// `s` with its ASCII letters lower-cased (`str::to_ascii_lowercase`).
pub open spec fn ascii_lowercase(s: Seq<char>) -> Seq<char> {
    s.map_values(|c: char| ascii_lower(c))
}

/// `s` with its ASCII letters upper-cased (`str::to_ascii_uppercase`).
pub open spec fn ascii_uppercase(s: Seq<char>) -> Seq<char> {
    s.map_values(|c: char| ascii_upper(c))
}

/// Calls `str::to_lowercase`. The contract claims that the result is a
/// function of the input's characters, and that an ASCII string is lowered
/// letter by letter from `A`-`Z` to `a`-`z`; the Unicode case mapping of
/// other characters is left unsaid.
#[verifier::external_body]
fn to_lowercase(s: &str) -> (res: String)
    ensures
        res@ == unicode_lowercase(s@),
        all_ascii(s@) ==> res@ == ascii_lowercase(s@),
{
    s.to_lowercase()
}

/// Lowering or raising the case of an ASCII string keeps it ASCII, and its
/// lower-case form is the same whichever way its letters were cased.
pub proof fn lemma_ascii_case_forms(s: Seq<char>)
    requires
        all_ascii(s),
    ensures
        all_ascii(ascii_lowercase(s)),
        all_ascii(ascii_uppercase(s)),
        ascii_lowercase(ascii_lowercase(s)) == ascii_lowercase(s),
        ascii_lowercase(ascii_uppercase(s)) == ascii_lowercase(s),
{
    assert(ascii_lowercase(ascii_lowercase(s)) =~= ascii_lowercase(s));
    assert(ascii_lowercase(ascii_uppercase(s)) =~= ascii_lowercase(s));
}

/// Surface names ignore the case of ASCII letters: an ASCII name, its
/// ASCII-lower-cased and its ASCII-upper-cased forms all map to the same
/// surface (each is ASCII, and the lower-cased forms agree).
pub proof fn lemma_surface_names_ignore_ascii_case(name: Seq<char>)
    requires
        all_ascii(name),
    ensures
        all_ascii(ascii_lowercase(name)),
        all_ascii(ascii_uppercase(name)),
        surface_index_of(ascii_lowercase(ascii_lowercase(name))) == surface_index_of(
            ascii_lowercase(name),
        ),
        surface_index_of(ascii_lowercase(ascii_uppercase(name))) == surface_index_of(
            ascii_lowercase(name),
        ),
{
    lemma_ascii_case_forms(name);
}

/// The surface index of an already lower-cased surface property name.
pub open spec fn surface_index_of(lower: Seq<char>) -> u8 {
    if has_prefix(lower, "concrete"@) || lower == "asphalt"@ || lower == "porcelain"@ {
        SURFACE_CONCRETE
    } else if lower == "solidmetal"@ {
        SURFACE_SOLIDMETAL
    } else if has_prefix(lower, "metal_sand"@) || has_prefix(lower, "metalvehicle"@)
        || lower == "metal_vehiclesoundoverride"@ {
        SURFACE_METALVEHICLE
    } else if lower == "metalvent"@ {
        SURFACE_METALVENT
    } else if lower == "metalpanel"@ {
        SURFACE_METALPANEL
    } else if has_prefix(lower, "metalgrate"@) || lower == "grate"@ {
        SURFACE_GRATE
    } else if has_prefix(lower, "metal"@) {
        SURFACE_METAL
    } else if lower == "wood_panel"@ {
        SURFACE_WOOD_PANEL
    } else if lower == "wood_dense"@ {
        SURFACE_WOOD_DENSE
    } else if has_prefix(lower, "wood"@) {
        SURFACE_WOOD
    } else if has_prefix(lower, "glass"@) {
        SURFACE_GLASS
    } else if has_prefix(lower, "rock"@) {
        SURFACE_ROCK
    } else if has_prefix(lower, "dirt"@) || lower == "mud"@ {
        SURFACE_DIRT
    } else if has_prefix(lower, "sand"@) {
        SURFACE_SAND
    } else if has_prefix(lower, "chainlink"@) {
        SURFACE_CHAINLINK
    } else if has_prefix(lower, "tile"@) {
        SURFACE_TILE
    } else if has_prefix(lower, "carpet"@) {
        SURFACE_CARPET
    } else if has_prefix(lower, "plastic"@) || lower == "rubber"@ || lower == "rubbertire"@ {
        SURFACE_PLASTIC
    } else {
        SURFACE_DEFAULT
    }
}

/// Maps a lower-cased surface property name to its surface index.
pub fn surface_index_from_lowercase(lower: &str) -> (idx: u8)
    ensures
        idx == surface_index_of(lower@),
{
    if starts_with(lower, "concrete") || same_text(lower, "asphalt") || same_text(lower, "porcelain") {
        SURFACE_CONCRETE
    } else if same_text(lower, "solidmetal") {
        SURFACE_SOLIDMETAL
    } else if starts_with(lower, "metal_sand") || starts_with(lower, "metalvehicle")
        || same_text(lower, "metal_vehiclesoundoverride") {
        SURFACE_METALVEHICLE
    } else if same_text(lower, "metalvent") {
        SURFACE_METALVENT
    } else if same_text(lower, "metalpanel") {
        SURFACE_METALPANEL
    } else if starts_with(lower, "metalgrate") || same_text(lower, "grate") {
        SURFACE_GRATE
    } else if starts_with(lower, "metal") {
        SURFACE_METAL
    } else if same_text(lower, "wood_panel") {
        SURFACE_WOOD_PANEL
    } else if same_text(lower, "wood_dense") {
        SURFACE_WOOD_DENSE
    } else if starts_with(lower, "wood") {
        SURFACE_WOOD
    } else if starts_with(lower, "glass") {
        SURFACE_GLASS
    } else if starts_with(lower, "rock") {
        SURFACE_ROCK
    } else if starts_with(lower, "dirt") || same_text(lower, "mud") {
        SURFACE_DIRT
    } else if starts_with(lower, "sand") {
        SURFACE_SAND
    } else if starts_with(lower, "chainlink") {
        SURFACE_CHAINLINK
    } else if starts_with(lower, "tile") {
        SURFACE_TILE
    } else if starts_with(lower, "carpet") {
        SURFACE_CARPET
    } else if starts_with(lower, "plastic") || same_text(lower, "rubber") || same_text(lower, "rubbertire") {
        SURFACE_PLASTIC
    } else {
        SURFACE_DEFAULT
    }
}

/// Maps a surface property name (from a model file) to its surface index,
/// ignoring case.
pub fn surface_name_to_index(name: &str) -> (idx: u8)
    ensures
        idx == surface_index_of(unicode_lowercase(name@)),
        all_ascii(name@) ==> idx == surface_index_of(ascii_lowercase(name@)),
{
    let lower = to_lowercase(name);
    surface_index_from_lowercase(lower.as_str())
}

} // verus!

verus! {

// ---------------------------------------------------------------------------
// Surface tables
// ---------------------------------------------------------------------------

/// Penetration modifier of a surface, in tenths: higher is easier to
/// penetrate. Unknown indices and the default surface get 5 (0.5).
pub open spec fn surface_penetration_tenths(surface_index: u8) -> u32 {
    if surface_index == SURFACE_CONCRETE {
        5
    } else if surface_index == SURFACE_METAL {
        5
    } else if surface_index == SURFACE_SOLIDMETAL {
        1
    } else if surface_index == SURFACE_WOOD {
        10
    } else if surface_index == SURFACE_WOOD_PANEL {
        10
    } else if surface_index == SURFACE_WOOD_DENSE {
        6
    } else if surface_index == SURFACE_GLASS {
        15
    } else if surface_index == SURFACE_ROCK {
        4
    } else if surface_index == SURFACE_DIRT {
        5
    } else if surface_index == SURFACE_SAND {
        5
    } else if surface_index == SURFACE_CHAINLINK {
        20
    } else if surface_index == SURFACE_METALVENT {
        12
    } else if surface_index == SURFACE_METALPANEL {
        6
    } else if surface_index == SURFACE_METALVEHICLE {
        4
    } else if surface_index == SURFACE_TILE {
        5
    } else if surface_index == SURFACE_CARPET {
        8
    } else if surface_index == SURFACE_GRATE {
        15
    } else if surface_index == SURFACE_PLASTIC {
        10
    } else {
        5
    }
}

/// Penetration modifier of a surface, in tenths: higher is easier to
/// penetrate. Unknown indices and the default surface get 5 (0.5).
pub fn surface_penetration_modifier_tenths(surface_index: u8) -> (m: u32)
    ensures
        m == surface_penetration_tenths(surface_index),
{
    match surface_index {
        SURFACE_CONCRETE => 5,
        SURFACE_METAL => 5,
        SURFACE_SOLIDMETAL => 1,
        SURFACE_WOOD => 10,
        SURFACE_WOOD_PANEL => 10,
        SURFACE_WOOD_DENSE => 6,
        SURFACE_GLASS => 15,
        SURFACE_ROCK => 4,
        SURFACE_DIRT => 5,
        SURFACE_SAND => 5,
        SURFACE_CHAINLINK => 20,
        SURFACE_METALVENT => 12,
        SURFACE_METALPANEL => 6,
        SURFACE_METALVEHICLE => 4,
        SURFACE_TILE => 5,
        SURFACE_CARPET => 8,
        SURFACE_GRATE => 15,
        SURFACE_PLASTIC => 10,
        _ => 5,
    }
}

/// Damage modifier of a surface, in tenths: the share of damage lost per
/// unit of relative thickness. Unknown indices and the default surface get 5 (0.5).
pub open spec fn surface_damage_tenths(surface_index: u8) -> u32 {
    if surface_index == SURFACE_CONCRETE {
        7
    } else if surface_index == SURFACE_METAL {
        7
    } else if surface_index == SURFACE_SOLIDMETAL {
        9
    } else if surface_index == SURFACE_WOOD {
        4
    } else if surface_index == SURFACE_WOOD_PANEL {
        3
    } else if surface_index == SURFACE_WOOD_DENSE {
        6
    } else if surface_index == SURFACE_GLASS {
        2
    } else if surface_index == SURFACE_ROCK {
        8
    } else if surface_index == SURFACE_DIRT {
        5
    } else if surface_index == SURFACE_SAND {
        5
    } else if surface_index == SURFACE_CHAINLINK {
        1
    } else if surface_index == SURFACE_METALVENT {
        3
    } else if surface_index == SURFACE_METALPANEL {
        5
    } else if surface_index == SURFACE_METALVEHICLE {
        7
    } else if surface_index == SURFACE_TILE {
        6
    } else if surface_index == SURFACE_CARPET {
        3
    } else if surface_index == SURFACE_GRATE {
        1
    } else if surface_index == SURFACE_PLASTIC {
        3
    } else {
        5
    }
}

/// Damage modifier of a surface, in tenths: the share of damage lost per
/// unit of relative thickness. Unknown indices and the default surface get 5 (0.5).
pub fn surface_damage_modifier_tenths(surface_index: u8) -> (m: u32)
    ensures
        m == surface_damage_tenths(surface_index),
{
    match surface_index {
        SURFACE_CONCRETE => 7,
        SURFACE_METAL => 7,
        SURFACE_SOLIDMETAL => 9,
        SURFACE_WOOD => 4,
        SURFACE_WOOD_PANEL => 3,
        SURFACE_WOOD_DENSE => 6,
        SURFACE_GLASS => 2,
        SURFACE_ROCK => 8,
        SURFACE_DIRT => 5,
        SURFACE_SAND => 5,
        SURFACE_CHAINLINK => 1,
        SURFACE_METALVENT => 3,
        SURFACE_METALPANEL => 5,
        SURFACE_METALVEHICLE => 7,
        SURFACE_TILE => 6,
        SURFACE_CARPET => 3,
        SURFACE_GRATE => 1,
        SURFACE_PLASTIC => 3,
        _ => 5,
    }
}

} // verus!

verus! {

// ---------------------------------------------------------------------------
// Weapon tables
// ---------------------------------------------------------------------------

/// Penetration power of a weapon, in tenths, from the game's item definitions:
/// 25 for snipers, 20 for rifles, heavy pistols and machine guns, 10 for
/// pistols, SMGs and shotguns, 0 for the taser, and 10 for unknown weapons.
pub open spec fn weapon_penetration_tenths(name: Seq<char>) -> u32 {
    if name == "awp"@ || name == "g3sg1"@ || name == "scar20"@ || name == "ssg08"@ {
        25
    } else if name == "ak47"@ || name == "aug"@ || name == "famas"@ || name == "galilar"@ || name == "m4a1"@ || name == "m4a1_silencer"@ || name == "m4a1_silencer_off"@ || name == "sg556"@ || name == "deagle"@ || name == "revolver"@ || name == "m249"@ || name == "negev"@ {
        20
    } else if name == "glock"@ || name == "hkp2000"@ || name == "usp_silencer"@ || name == "usp_silencer_off"@ || name == "p250"@ || name == "cz75a"@ || name == "tec9"@ || name == "fiveseven"@ || name == "elite"@ || name == "bizon"@ || name == "mac10"@ || name == "mp5sd"@ || name == "mp7"@ || name == "mp9"@ || name == "p90"@ || name == "ump45"@ || name == "mag7"@ || name == "nova"@ || name == "sawedoff"@ || name == "xm1014"@ {
        10
    } else if name == "taser"@ {
        0
    } else {
        10
    }
}

/// Penetration power of a weapon, in tenths, from the game's item definitions:
/// 25 for snipers, 20 for rifles, heavy pistols and machine guns, 10 for
/// pistols, SMGs and shotguns, 0 for the taser, and 10 for unknown weapons.
pub fn weapon_penetration_power_tenths(weapon_name: &str) -> (tenths: u32)
    ensures
        tenths == weapon_penetration_tenths(weapon_name@),
{
    if same_text(weapon_name, "awp") || same_text(weapon_name, "g3sg1") || same_text(weapon_name, "scar20") || same_text(weapon_name, "ssg08") {
        25
    } else if same_text(weapon_name, "ak47") || same_text(weapon_name, "aug") || same_text(weapon_name, "famas") || same_text(weapon_name, "galilar") || same_text(weapon_name, "m4a1") || same_text(weapon_name, "m4a1_silencer") || same_text(weapon_name, "m4a1_silencer_off") || same_text(weapon_name, "sg556") || same_text(weapon_name, "deagle") || same_text(weapon_name, "revolver") || same_text(weapon_name, "m249") || same_text(weapon_name, "negev") {
        20
    } else if same_text(weapon_name, "glock") || same_text(weapon_name, "hkp2000") || same_text(weapon_name, "usp_silencer") || same_text(weapon_name, "usp_silencer_off") || same_text(weapon_name, "p250") || same_text(weapon_name, "cz75a") || same_text(weapon_name, "tec9") || same_text(weapon_name, "fiveseven") || same_text(weapon_name, "elite") || same_text(weapon_name, "bizon") || same_text(weapon_name, "mac10") || same_text(weapon_name, "mp5sd") || same_text(weapon_name, "mp7") || same_text(weapon_name, "mp9") || same_text(weapon_name, "p90") || same_text(weapon_name, "ump45") || same_text(weapon_name, "mag7") || same_text(weapon_name, "nova") || same_text(weapon_name, "sawedoff") || same_text(weapon_name, "xm1014") {
        10
    } else if same_text(weapon_name, "taser") {
        0
    } else {
        10
    }
}

/// Base damage of a weapon, in hit points; 30 for unknown weapons.
pub open spec fn weapon_damage(name: Seq<char>) -> u32 {
    if name == "awp"@ {
        115
    } else if name == "g3sg1"@ || name == "scar20"@ {
        80
    } else if name == "ssg08"@ {
        88
    } else if name == "ak47"@ {
        36
    } else if name == "m4a1"@ || name == "m4a1_silencer"@ {
        33
    } else if name == "aug"@ {
        28
    } else if name == "sg556"@ {
        30
    } else if name == "famas"@ {
        26
    } else if name == "galilar"@ {
        30
    } else if name == "deagle"@ {
        63
    } else if name == "revolver"@ {
        86
    } else if name == "m249"@ {
        32
    } else if name == "negev"@ {
        35
    } else if name == "glock"@ {
        30
    } else if name == "hkp2000"@ || name == "usp_silencer"@ {
        35
    } else if name == "p250"@ {
        38
    } else if name == "cz75a"@ || name == "tec9"@ || name == "fiveseven"@ {
        33
    } else if name == "elite"@ {
        36
    } else if name == "bizon"@ {
        27
    } else if name == "mac10"@ {
        29
    } else if name == "mp5sd"@ {
        27
    } else if name == "mp7"@ {
        29
    } else if name == "mp9"@ {
        26
    } else if name == "p90"@ {
        26
    } else if name == "ump45"@ {
        35
    } else if name == "mag7"@ {
        30
    } else if name == "nova"@ {
        26
    } else if name == "sawedoff"@ {
        32
    } else if name == "xm1014"@ {
        20
    } else {
        30
    }
}

/// Base damage of a weapon, in hit points; 30 for unknown weapons.
pub fn weapon_base_damage(weapon_name: &str) -> (damage: u32)
    ensures
        damage == weapon_damage(weapon_name@),
{
    if same_text(weapon_name, "awp") {
        115
    } else if same_text(weapon_name, "g3sg1") || same_text(weapon_name, "scar20") {
        80
    } else if same_text(weapon_name, "ssg08") {
        88
    } else if same_text(weapon_name, "ak47") {
        36
    } else if same_text(weapon_name, "m4a1") || same_text(weapon_name, "m4a1_silencer") {
        33
    } else if same_text(weapon_name, "aug") {
        28
    } else if same_text(weapon_name, "sg556") {
        30
    } else if same_text(weapon_name, "famas") {
        26
    } else if same_text(weapon_name, "galilar") {
        30
    } else if same_text(weapon_name, "deagle") {
        63
    } else if same_text(weapon_name, "revolver") {
        86
    } else if same_text(weapon_name, "m249") {
        32
    } else if same_text(weapon_name, "negev") {
        35
    } else if same_text(weapon_name, "glock") {
        30
    } else if same_text(weapon_name, "hkp2000") || same_text(weapon_name, "usp_silencer") {
        35
    } else if same_text(weapon_name, "p250") {
        38
    } else if same_text(weapon_name, "cz75a") || same_text(weapon_name, "tec9") || same_text(weapon_name, "fiveseven") {
        33
    } else if same_text(weapon_name, "elite") {
        36
    } else if same_text(weapon_name, "bizon") {
        27
    } else if same_text(weapon_name, "mac10") {
        29
    } else if same_text(weapon_name, "mp5sd") {
        27
    } else if same_text(weapon_name, "mp7") {
        29
    } else if same_text(weapon_name, "mp9") {
        26
    } else if same_text(weapon_name, "p90") {
        26
    } else if same_text(weapon_name, "ump45") {
        35
    } else if same_text(weapon_name, "mag7") {
        30
    } else if same_text(weapon_name, "nova") {
        26
    } else if same_text(weapon_name, "sawedoff") {
        32
    } else if same_text(weapon_name, "xm1014") {
        20
    } else {
        30
    }
}

} // verus!

verus! {

// ---------------------------------------------------------------------------
// Properties of the tables
// ---------------------------------------------------------------------------

/// Every surface property name maps to one of the known surface indices.
pub proof fn lemma_surface_index_known(lower: Seq<char>)
    ensures
        surface_index_of(lower) <= SURFACE_PLASTIC,
{
}

/// No surface is impenetrable, and passing through any surface keeps part of
/// the damage: every penetration modifier is positive and every damage
/// modifier lies strictly between 0 and 1 (10 tenths).
pub proof fn lemma_surfaces_penetrable(surface_index: u8)
    ensures
        surface_penetration_tenths(surface_index) > 0,
        0 < surface_damage_tenths(surface_index) < 10,
{
}

/// The taser is the one weapon that cannot shoot through anything: a weapon
/// has no penetration power exactly when it is the taser.
pub proof fn lemma_only_taser_cannot_penetrate(name: Seq<char>)
    ensures
        weapon_penetration_tenths(name) == 0 <==> name == "taser"@,
{
    reveal_strlit("awp");
    reveal_strlit("g3sg1");
    reveal_strlit("scar20");
    reveal_strlit("ssg08");
    reveal_strlit("ak47");
    reveal_strlit("aug");
    reveal_strlit("famas");
    reveal_strlit("galilar");
    reveal_strlit("m4a1");
    reveal_strlit("m4a1_silencer");
    reveal_strlit("m4a1_silencer_off");
    reveal_strlit("sg556");
    reveal_strlit("deagle");
    reveal_strlit("revolver");
    reveal_strlit("m249");
    reveal_strlit("negev");
    reveal_strlit("glock");
    reveal_strlit("hkp2000");
    reveal_strlit("usp_silencer");
    reveal_strlit("usp_silencer_off");
    reveal_strlit("p250");
    reveal_strlit("cz75a");
    reveal_strlit("tec9");
    reveal_strlit("fiveseven");
    reveal_strlit("elite");
    reveal_strlit("bizon");
    reveal_strlit("mac10");
    reveal_strlit("mp5sd");
    reveal_strlit("mp7");
    reveal_strlit("mp9");
    reveal_strlit("p90");
    reveal_strlit("ump45");
    reveal_strlit("mag7");
    reveal_strlit("nova");
    reveal_strlit("sawedoff");
    reveal_strlit("xm1014");
    reveal_strlit("taser");
    if name == "taser"@ {
        lemma_len_rules_out("awp"@, "taser"@);
        lemma_char_rules_out("g3sg1"@, "taser"@, 0);
        lemma_len_rules_out("scar20"@, "taser"@);
        lemma_char_rules_out("ssg08"@, "taser"@, 0);
        lemma_len_rules_out("ak47"@, "taser"@);
        lemma_len_rules_out("aug"@, "taser"@);
        lemma_char_rules_out("famas"@, "taser"@, 0);
        lemma_len_rules_out("galilar"@, "taser"@);
        lemma_len_rules_out("m4a1"@, "taser"@);
        lemma_len_rules_out("m4a1_silencer"@, "taser"@);
        lemma_len_rules_out("m4a1_silencer_off"@, "taser"@);
        lemma_char_rules_out("sg556"@, "taser"@, 0);
        lemma_len_rules_out("deagle"@, "taser"@);
        lemma_len_rules_out("revolver"@, "taser"@);
        lemma_len_rules_out("m249"@, "taser"@);
        lemma_char_rules_out("negev"@, "taser"@, 0);
        lemma_char_rules_out("glock"@, "taser"@, 0);
        lemma_len_rules_out("hkp2000"@, "taser"@);
        lemma_len_rules_out("usp_silencer"@, "taser"@);
        lemma_len_rules_out("usp_silencer_off"@, "taser"@);
        lemma_len_rules_out("p250"@, "taser"@);
        lemma_char_rules_out("cz75a"@, "taser"@, 0);
        lemma_len_rules_out("tec9"@, "taser"@);
        lemma_len_rules_out("fiveseven"@, "taser"@);
        lemma_char_rules_out("elite"@, "taser"@, 0);
        lemma_char_rules_out("bizon"@, "taser"@, 0);
        lemma_char_rules_out("mac10"@, "taser"@, 0);
        lemma_char_rules_out("mp5sd"@, "taser"@, 0);
        lemma_len_rules_out("mp7"@, "taser"@);
        lemma_len_rules_out("mp9"@, "taser"@);
        lemma_len_rules_out("p90"@, "taser"@);
        lemma_char_rules_out("ump45"@, "taser"@, 0);
        lemma_len_rules_out("mag7"@, "taser"@);
        lemma_len_rules_out("nova"@, "taser"@);
        lemma_len_rules_out("sawedoff"@, "taser"@);
        lemma_len_rules_out("xm1014"@, "taser"@);
    }
}

} // verus!

verus! {

// ---------------------------------------------------------------------------
// The tables, value by value
// ---------------------------------------------------------------------------

/// Penetration power, weapon by weapon, in tenths: 25 for each sniper rifle,
/// 20 for each rifle, heavy pistol and machine gun, 10 for each pistol, SMG
/// and shotgun, and 0 for the taser.
pub proof fn lemma_weapon_penetration_values()
    ensures
        weapon_penetration_tenths("ak47"@) == 20,
        weapon_penetration_tenths("aug"@) == 20,
        weapon_penetration_tenths("awp"@) == 25,
        weapon_penetration_tenths("bizon"@) == 10,
        weapon_penetration_tenths("cz75a"@) == 10,
        weapon_penetration_tenths("deagle"@) == 20,
        weapon_penetration_tenths("elite"@) == 10,
        weapon_penetration_tenths("famas"@) == 20,
        weapon_penetration_tenths("fiveseven"@) == 10,
        weapon_penetration_tenths("g3sg1"@) == 25,
        weapon_penetration_tenths("galilar"@) == 20,
        weapon_penetration_tenths("glock"@) == 10,
        weapon_penetration_tenths("hkp2000"@) == 10,
        weapon_penetration_tenths("m249"@) == 20,
        weapon_penetration_tenths("m4a1"@) == 20,
        weapon_penetration_tenths("m4a1_silencer"@) == 20,
        weapon_penetration_tenths("m4a1_silencer_off"@) == 20,
        weapon_penetration_tenths("mac10"@) == 10,
        weapon_penetration_tenths("mag7"@) == 10,
        weapon_penetration_tenths("mp5sd"@) == 10,
        weapon_penetration_tenths("mp7"@) == 10,
        weapon_penetration_tenths("mp9"@) == 10,
        weapon_penetration_tenths("negev"@) == 20,
        weapon_penetration_tenths("nova"@) == 10,
        weapon_penetration_tenths("p250"@) == 10,
        weapon_penetration_tenths("p90"@) == 10,
        weapon_penetration_tenths("revolver"@) == 20,
        weapon_penetration_tenths("sawedoff"@) == 10,
        weapon_penetration_tenths("scar20"@) == 25,
        weapon_penetration_tenths("sg556"@) == 20,
        weapon_penetration_tenths("ssg08"@) == 25,
        weapon_penetration_tenths("taser"@) == 0,
        weapon_penetration_tenths("tec9"@) == 10,
        weapon_penetration_tenths("ump45"@) == 10,
        weapon_penetration_tenths("usp_silencer"@) == 10,
        weapon_penetration_tenths("usp_silencer_off"@) == 10,
        weapon_penetration_tenths("xm1014"@) == 10,
{
    reveal_strlit("ak47");
    reveal_strlit("aug");
    reveal_strlit("awp");
    reveal_strlit("bizon");
    reveal_strlit("cz75a");
    reveal_strlit("deagle");
    reveal_strlit("elite");
    reveal_strlit("famas");
    reveal_strlit("fiveseven");
    reveal_strlit("g3sg1");
    reveal_strlit("galilar");
    reveal_strlit("glock");
    reveal_strlit("hkp2000");
    reveal_strlit("m249");
    reveal_strlit("m4a1");
    reveal_strlit("m4a1_silencer");
    reveal_strlit("m4a1_silencer_off");
    reveal_strlit("mac10");
    reveal_strlit("mag7");
    reveal_strlit("mp5sd");
    reveal_strlit("mp7");
    reveal_strlit("mp9");
    reveal_strlit("negev");
    reveal_strlit("nova");
    reveal_strlit("p250");
    reveal_strlit("p90");
    reveal_strlit("revolver");
    reveal_strlit("sawedoff");
    reveal_strlit("scar20");
    reveal_strlit("sg556");
    reveal_strlit("ssg08");
    reveal_strlit("taser");
    reveal_strlit("tec9");
    reveal_strlit("ump45");
    reveal_strlit("usp_silencer");
    reveal_strlit("usp_silencer_off");
    reveal_strlit("xm1014");
    lemma_len_rules_out("ak47"@, "awp"@);
    lemma_len_rules_out("ak47"@, "g3sg1"@);
    lemma_len_rules_out("ak47"@, "scar20"@);
    lemma_len_rules_out("ak47"@, "ssg08"@);
    lemma_char_rules_out("aug"@, "awp"@, 1);
    lemma_len_rules_out("aug"@, "g3sg1"@);
    lemma_len_rules_out("aug"@, "scar20"@);
    lemma_len_rules_out("aug"@, "ssg08"@);
    lemma_len_rules_out("bizon"@, "ak47"@);
    lemma_len_rules_out("bizon"@, "aug"@);
    lemma_len_rules_out("bizon"@, "awp"@);
    lemma_len_rules_out("bizon"@, "deagle"@);
    lemma_char_rules_out("bizon"@, "famas"@, 0);
    lemma_char_rules_out("bizon"@, "g3sg1"@, 0);
    lemma_len_rules_out("bizon"@, "galilar"@);
    lemma_len_rules_out("bizon"@, "m249"@);
    lemma_len_rules_out("bizon"@, "m4a1"@);
    lemma_len_rules_out("bizon"@, "m4a1_silencer"@);
    lemma_len_rules_out("bizon"@, "m4a1_silencer_off"@);
    lemma_char_rules_out("bizon"@, "negev"@, 0);
    lemma_len_rules_out("bizon"@, "revolver"@);
    lemma_len_rules_out("bizon"@, "scar20"@);
    lemma_char_rules_out("bizon"@, "sg556"@, 0);
    lemma_char_rules_out("bizon"@, "ssg08"@, 0);
    lemma_len_rules_out("cz75a"@, "ak47"@);
    lemma_len_rules_out("cz75a"@, "aug"@);
    lemma_len_rules_out("cz75a"@, "awp"@);
    lemma_len_rules_out("cz75a"@, "deagle"@);
    lemma_char_rules_out("cz75a"@, "famas"@, 0);
    lemma_char_rules_out("cz75a"@, "g3sg1"@, 0);
    lemma_len_rules_out("cz75a"@, "galilar"@);
    lemma_len_rules_out("cz75a"@, "m249"@);
    lemma_len_rules_out("cz75a"@, "m4a1"@);
    lemma_len_rules_out("cz75a"@, "m4a1_silencer"@);
    lemma_len_rules_out("cz75a"@, "m4a1_silencer_off"@);
    lemma_char_rules_out("cz75a"@, "negev"@, 0);
    lemma_len_rules_out("cz75a"@, "revolver"@);
    lemma_len_rules_out("cz75a"@, "scar20"@);
    lemma_char_rules_out("cz75a"@, "sg556"@, 0);
    lemma_char_rules_out("cz75a"@, "ssg08"@, 0);
    lemma_len_rules_out("deagle"@, "awp"@);
    lemma_len_rules_out("deagle"@, "g3sg1"@);
    lemma_char_rules_out("deagle"@, "scar20"@, 0);
    lemma_len_rules_out("deagle"@, "ssg08"@);
    lemma_len_rules_out("elite"@, "ak47"@);
    lemma_len_rules_out("elite"@, "aug"@);
    lemma_len_rules_out("elite"@, "awp"@);
    lemma_len_rules_out("elite"@, "deagle"@);
    lemma_char_rules_out("elite"@, "famas"@, 0);
    lemma_char_rules_out("elite"@, "g3sg1"@, 0);
    lemma_len_rules_out("elite"@, "galilar"@);
    lemma_len_rules_out("elite"@, "m249"@);
    lemma_len_rules_out("elite"@, "m4a1"@);
    lemma_len_rules_out("elite"@, "m4a1_silencer"@);
    lemma_len_rules_out("elite"@, "m4a1_silencer_off"@);
    lemma_char_rules_out("elite"@, "negev"@, 0);
    lemma_len_rules_out("elite"@, "revolver"@);
    lemma_len_rules_out("elite"@, "scar20"@);
    lemma_char_rules_out("elite"@, "sg556"@, 0);
    lemma_char_rules_out("elite"@, "ssg08"@, 0);
    lemma_len_rules_out("famas"@, "awp"@);
    lemma_char_rules_out("famas"@, "g3sg1"@, 0);
    lemma_len_rules_out("famas"@, "scar20"@);
    lemma_char_rules_out("famas"@, "ssg08"@, 0);
    lemma_len_rules_out("fiveseven"@, "ak47"@);
    lemma_len_rules_out("fiveseven"@, "aug"@);
    lemma_len_rules_out("fiveseven"@, "awp"@);
    lemma_len_rules_out("fiveseven"@, "deagle"@);
    lemma_len_rules_out("fiveseven"@, "famas"@);
    lemma_len_rules_out("fiveseven"@, "g3sg1"@);
    lemma_len_rules_out("fiveseven"@, "galilar"@);
    lemma_len_rules_out("fiveseven"@, "m249"@);
    lemma_len_rules_out("fiveseven"@, "m4a1"@);
    lemma_len_rules_out("fiveseven"@, "m4a1_silencer"@);
    lemma_len_rules_out("fiveseven"@, "m4a1_silencer_off"@);
    lemma_len_rules_out("fiveseven"@, "negev"@);
    lemma_len_rules_out("fiveseven"@, "revolver"@);
    lemma_len_rules_out("fiveseven"@, "scar20"@);
    lemma_len_rules_out("fiveseven"@, "sg556"@);
    lemma_len_rules_out("fiveseven"@, "ssg08"@);
    lemma_len_rules_out("galilar"@, "awp"@);
    lemma_len_rules_out("galilar"@, "g3sg1"@);
    lemma_len_rules_out("galilar"@, "scar20"@);
    lemma_len_rules_out("galilar"@, "ssg08"@);
    lemma_len_rules_out("glock"@, "ak47"@);
    lemma_len_rules_out("glock"@, "aug"@);
    lemma_len_rules_out("glock"@, "awp"@);
    lemma_len_rules_out("glock"@, "deagle"@);
    lemma_char_rules_out("glock"@, "famas"@, 0);
    lemma_char_rules_out("glock"@, "g3sg1"@, 1);
    lemma_len_rules_out("glock"@, "galilar"@);
    lemma_len_rules_out("glock"@, "m249"@);
    lemma_len_rules_out("glock"@, "m4a1"@);
    lemma_len_rules_out("glock"@, "m4a1_silencer"@);
    lemma_len_rules_out("glock"@, "m4a1_silencer_off"@);
    lemma_char_rules_out("glock"@, "negev"@, 0);
    lemma_len_rules_out("glock"@, "revolver"@);
    lemma_len_rules_out("glock"@, "scar20"@);
    lemma_char_rules_out("glock"@, "sg556"@, 0);
    lemma_char_rules_out("glock"@, "ssg08"@, 0);
    lemma_len_rules_out("hkp2000"@, "ak47"@);
    lemma_len_rules_out("hkp2000"@, "aug"@);
    lemma_len_rules_out("hkp2000"@, "awp"@);
    lemma_len_rules_out("hkp2000"@, "deagle"@);
    lemma_len_rules_out("hkp2000"@, "famas"@);
    lemma_len_rules_out("hkp2000"@, "g3sg1"@);
    lemma_char_rules_out("hkp2000"@, "galilar"@, 0);
    lemma_len_rules_out("hkp2000"@, "m249"@);
    lemma_len_rules_out("hkp2000"@, "m4a1"@);
    lemma_len_rules_out("hkp2000"@, "m4a1_silencer"@);
    lemma_len_rules_out("hkp2000"@, "m4a1_silencer_off"@);
    lemma_len_rules_out("hkp2000"@, "negev"@);
    lemma_len_rules_out("hkp2000"@, "revolver"@);
    lemma_len_rules_out("hkp2000"@, "scar20"@);
    lemma_len_rules_out("hkp2000"@, "sg556"@);
    lemma_len_rules_out("hkp2000"@, "ssg08"@);
    lemma_len_rules_out("m249"@, "awp"@);
    lemma_len_rules_out("m249"@, "g3sg1"@);
    lemma_len_rules_out("m249"@, "scar20"@);
    lemma_len_rules_out("m249"@, "ssg08"@);
    lemma_len_rules_out("m4a1"@, "awp"@);
    lemma_len_rules_out("m4a1"@, "g3sg1"@);
    lemma_len_rules_out("m4a1"@, "scar20"@);
    lemma_len_rules_out("m4a1"@, "ssg08"@);
    lemma_len_rules_out("m4a1_silencer"@, "awp"@);
    lemma_len_rules_out("m4a1_silencer"@, "g3sg1"@);
    lemma_len_rules_out("m4a1_silencer"@, "scar20"@);
    lemma_len_rules_out("m4a1_silencer"@, "ssg08"@);
    lemma_len_rules_out("m4a1_silencer_off"@, "awp"@);
    lemma_len_rules_out("m4a1_silencer_off"@, "g3sg1"@);
    lemma_len_rules_out("m4a1_silencer_off"@, "scar20"@);
    lemma_len_rules_out("m4a1_silencer_off"@, "ssg08"@);
    lemma_len_rules_out("mac10"@, "ak47"@);
    lemma_len_rules_out("mac10"@, "aug"@);
    lemma_len_rules_out("mac10"@, "awp"@);
    lemma_len_rules_out("mac10"@, "deagle"@);
    lemma_char_rules_out("mac10"@, "famas"@, 0);
    lemma_char_rules_out("mac10"@, "g3sg1"@, 0);
    lemma_len_rules_out("mac10"@, "galilar"@);
    lemma_len_rules_out("mac10"@, "m249"@);
    lemma_len_rules_out("mac10"@, "m4a1"@);
    lemma_len_rules_out("mac10"@, "m4a1_silencer"@);
    lemma_len_rules_out("mac10"@, "m4a1_silencer_off"@);
    lemma_char_rules_out("mac10"@, "negev"@, 0);
    lemma_len_rules_out("mac10"@, "revolver"@);
    lemma_len_rules_out("mac10"@, "scar20"@);
    lemma_char_rules_out("mac10"@, "sg556"@, 0);
    lemma_char_rules_out("mac10"@, "ssg08"@, 0);
    lemma_char_rules_out("mag7"@, "ak47"@, 0);
    lemma_len_rules_out("mag7"@, "aug"@);
    lemma_len_rules_out("mag7"@, "awp"@);
    lemma_len_rules_out("mag7"@, "deagle"@);
    lemma_len_rules_out("mag7"@, "famas"@);
    lemma_len_rules_out("mag7"@, "g3sg1"@);
    lemma_len_rules_out("mag7"@, "galilar"@);
    lemma_char_rules_out("mag7"@, "m249"@, 1);
    lemma_char_rules_out("mag7"@, "m4a1"@, 1);
    lemma_len_rules_out("mag7"@, "m4a1_silencer"@);
    lemma_len_rules_out("mag7"@, "m4a1_silencer_off"@);
    lemma_len_rules_out("mag7"@, "negev"@);
    lemma_len_rules_out("mag7"@, "revolver"@);
    lemma_len_rules_out("mag7"@, "scar20"@);
    lemma_len_rules_out("mag7"@, "sg556"@);
    lemma_len_rules_out("mag7"@, "ssg08"@);
    lemma_len_rules_out("mp5sd"@, "ak47"@);
    lemma_len_rules_out("mp5sd"@, "aug"@);
    lemma_len_rules_out("mp5sd"@, "awp"@);
    lemma_len_rules_out("mp5sd"@, "deagle"@);
    lemma_char_rules_out("mp5sd"@, "famas"@, 0);
    lemma_char_rules_out("mp5sd"@, "g3sg1"@, 0);
    lemma_len_rules_out("mp5sd"@, "galilar"@);
    lemma_len_rules_out("mp5sd"@, "m249"@);
    lemma_len_rules_out("mp5sd"@, "m4a1"@);
    lemma_len_rules_out("mp5sd"@, "m4a1_silencer"@);
    lemma_len_rules_out("mp5sd"@, "m4a1_silencer_off"@);
    lemma_char_rules_out("mp5sd"@, "negev"@, 0);
    lemma_len_rules_out("mp5sd"@, "revolver"@);
    lemma_len_rules_out("mp5sd"@, "scar20"@);
    lemma_char_rules_out("mp5sd"@, "sg556"@, 0);
    lemma_char_rules_out("mp5sd"@, "ssg08"@, 0);
    lemma_len_rules_out("mp7"@, "ak47"@);
    lemma_char_rules_out("mp7"@, "aug"@, 0);
    lemma_char_rules_out("mp7"@, "awp"@, 0);
    lemma_len_rules_out("mp7"@, "deagle"@);
    lemma_len_rules_out("mp7"@, "famas"@);
    lemma_len_rules_out("mp7"@, "g3sg1"@);
    lemma_len_rules_out("mp7"@, "galilar"@);
    lemma_len_rules_out("mp7"@, "m249"@);
    lemma_len_rules_out("mp7"@, "m4a1"@);
    lemma_len_rules_out("mp7"@, "m4a1_silencer"@);
    lemma_len_rules_out("mp7"@, "m4a1_silencer_off"@);
    lemma_len_rules_out("mp7"@, "negev"@);
    lemma_len_rules_out("mp7"@, "revolver"@);
    lemma_len_rules_out("mp7"@, "scar20"@);
    lemma_len_rules_out("mp7"@, "sg556"@);
    lemma_len_rules_out("mp7"@, "ssg08"@);
    lemma_len_rules_out("mp9"@, "ak47"@);
    lemma_char_rules_out("mp9"@, "aug"@, 0);
    lemma_char_rules_out("mp9"@, "awp"@, 0);
    lemma_len_rules_out("mp9"@, "deagle"@);
    lemma_len_rules_out("mp9"@, "famas"@);
    lemma_len_rules_out("mp9"@, "g3sg1"@);
    lemma_len_rules_out("mp9"@, "galilar"@);
    lemma_len_rules_out("mp9"@, "m249"@);
    lemma_len_rules_out("mp9"@, "m4a1"@);
    lemma_len_rules_out("mp9"@, "m4a1_silencer"@);
    lemma_len_rules_out("mp9"@, "m4a1_silencer_off"@);
    lemma_len_rules_out("mp9"@, "negev"@);
    lemma_len_rules_out("mp9"@, "revolver"@);
    lemma_len_rules_out("mp9"@, "scar20"@);
    lemma_len_rules_out("mp9"@, "sg556"@);
    lemma_len_rules_out("mp9"@, "ssg08"@);
    lemma_len_rules_out("negev"@, "awp"@);
    lemma_char_rules_out("negev"@, "g3sg1"@, 0);
    lemma_len_rules_out("negev"@, "scar20"@);
    lemma_char_rules_out("negev"@, "ssg08"@, 0);
    lemma_char_rules_out("nova"@, "ak47"@, 0);
    lemma_len_rules_out("nova"@, "aug"@);
    lemma_len_rules_out("nova"@, "awp"@);
    lemma_len_rules_out("nova"@, "deagle"@);
    lemma_len_rules_out("nova"@, "famas"@);
    lemma_len_rules_out("nova"@, "g3sg1"@);
    lemma_len_rules_out("nova"@, "galilar"@);
    lemma_char_rules_out("nova"@, "m249"@, 0);
    lemma_char_rules_out("nova"@, "m4a1"@, 0);
    lemma_len_rules_out("nova"@, "m4a1_silencer"@);
    lemma_len_rules_out("nova"@, "m4a1_silencer_off"@);
    lemma_len_rules_out("nova"@, "negev"@);
    lemma_len_rules_out("nova"@, "revolver"@);
    lemma_len_rules_out("nova"@, "scar20"@);
    lemma_len_rules_out("nova"@, "sg556"@);
    lemma_len_rules_out("nova"@, "ssg08"@);
    lemma_char_rules_out("p250"@, "ak47"@, 0);
    lemma_len_rules_out("p250"@, "aug"@);
    lemma_len_rules_out("p250"@, "awp"@);
    lemma_len_rules_out("p250"@, "deagle"@);
    lemma_len_rules_out("p250"@, "famas"@);
    lemma_len_rules_out("p250"@, "g3sg1"@);
    lemma_len_rules_out("p250"@, "galilar"@);
    lemma_char_rules_out("p250"@, "m249"@, 0);
    lemma_char_rules_out("p250"@, "m4a1"@, 0);
    lemma_len_rules_out("p250"@, "m4a1_silencer"@);
    lemma_len_rules_out("p250"@, "m4a1_silencer_off"@);
    lemma_len_rules_out("p250"@, "negev"@);
    lemma_len_rules_out("p250"@, "revolver"@);
    lemma_len_rules_out("p250"@, "scar20"@);
    lemma_len_rules_out("p250"@, "sg556"@);
    lemma_len_rules_out("p250"@, "ssg08"@);
    lemma_len_rules_out("p90"@, "ak47"@);
    lemma_char_rules_out("p90"@, "aug"@, 0);
    lemma_char_rules_out("p90"@, "awp"@, 0);
    lemma_len_rules_out("p90"@, "deagle"@);
    lemma_len_rules_out("p90"@, "famas"@);
    lemma_len_rules_out("p90"@, "g3sg1"@);
    lemma_len_rules_out("p90"@, "galilar"@);
    lemma_len_rules_out("p90"@, "m249"@);
    lemma_len_rules_out("p90"@, "m4a1"@);
    lemma_len_rules_out("p90"@, "m4a1_silencer"@);
    lemma_len_rules_out("p90"@, "m4a1_silencer_off"@);
    lemma_len_rules_out("p90"@, "negev"@);
    lemma_len_rules_out("p90"@, "revolver"@);
    lemma_len_rules_out("p90"@, "scar20"@);
    lemma_len_rules_out("p90"@, "sg556"@);
    lemma_len_rules_out("p90"@, "ssg08"@);
    lemma_len_rules_out("revolver"@, "awp"@);
    lemma_len_rules_out("revolver"@, "g3sg1"@);
    lemma_len_rules_out("revolver"@, "scar20"@);
    lemma_len_rules_out("revolver"@, "ssg08"@);
    lemma_len_rules_out("sawedoff"@, "ak47"@);
    lemma_len_rules_out("sawedoff"@, "aug"@);
    lemma_len_rules_out("sawedoff"@, "awp"@);
    lemma_len_rules_out("sawedoff"@, "deagle"@);
    lemma_len_rules_out("sawedoff"@, "famas"@);
    lemma_len_rules_out("sawedoff"@, "g3sg1"@);
    lemma_len_rules_out("sawedoff"@, "galilar"@);
    lemma_len_rules_out("sawedoff"@, "m249"@);
    lemma_len_rules_out("sawedoff"@, "m4a1"@);
    lemma_len_rules_out("sawedoff"@, "m4a1_silencer"@);
    lemma_len_rules_out("sawedoff"@, "m4a1_silencer_off"@);
    lemma_len_rules_out("sawedoff"@, "negev"@);
    lemma_char_rules_out("sawedoff"@, "revolver"@, 0);
    lemma_len_rules_out("sawedoff"@, "scar20"@);
    lemma_len_rules_out("sawedoff"@, "sg556"@);
    lemma_len_rules_out("sawedoff"@, "ssg08"@);
    lemma_len_rules_out("sg556"@, "awp"@);
    lemma_char_rules_out("sg556"@, "g3sg1"@, 0);
    lemma_len_rules_out("sg556"@, "scar20"@);
    lemma_char_rules_out("sg556"@, "ssg08"@, 1);
    lemma_len_rules_out("taser"@, "ak47"@);
    lemma_len_rules_out("taser"@, "aug"@);
    lemma_len_rules_out("taser"@, "awp"@);
    lemma_char_rules_out("taser"@, "bizon"@, 0);
    lemma_char_rules_out("taser"@, "cz75a"@, 0);
    lemma_len_rules_out("taser"@, "deagle"@);
    lemma_char_rules_out("taser"@, "elite"@, 0);
    lemma_char_rules_out("taser"@, "famas"@, 0);
    lemma_len_rules_out("taser"@, "fiveseven"@);
    lemma_char_rules_out("taser"@, "g3sg1"@, 0);
    lemma_len_rules_out("taser"@, "galilar"@);
    lemma_char_rules_out("taser"@, "glock"@, 0);
    lemma_len_rules_out("taser"@, "hkp2000"@);
    lemma_len_rules_out("taser"@, "m249"@);
    lemma_len_rules_out("taser"@, "m4a1"@);
    lemma_len_rules_out("taser"@, "m4a1_silencer"@);
    lemma_len_rules_out("taser"@, "m4a1_silencer_off"@);
    lemma_char_rules_out("taser"@, "mac10"@, 0);
    lemma_len_rules_out("taser"@, "mag7"@);
    lemma_char_rules_out("taser"@, "mp5sd"@, 0);
    lemma_len_rules_out("taser"@, "mp7"@);
    lemma_len_rules_out("taser"@, "mp9"@);
    lemma_char_rules_out("taser"@, "negev"@, 0);
    lemma_len_rules_out("taser"@, "nova"@);
    lemma_len_rules_out("taser"@, "p250"@);
    lemma_len_rules_out("taser"@, "p90"@);
    lemma_len_rules_out("taser"@, "revolver"@);
    lemma_len_rules_out("taser"@, "sawedoff"@);
    lemma_len_rules_out("taser"@, "scar20"@);
    lemma_char_rules_out("taser"@, "sg556"@, 0);
    lemma_char_rules_out("taser"@, "ssg08"@, 0);
    lemma_len_rules_out("taser"@, "tec9"@);
    lemma_char_rules_out("taser"@, "ump45"@, 0);
    lemma_len_rules_out("taser"@, "usp_silencer"@);
    lemma_len_rules_out("taser"@, "usp_silencer_off"@);
    lemma_len_rules_out("taser"@, "xm1014"@);
    lemma_char_rules_out("tec9"@, "ak47"@, 0);
    lemma_len_rules_out("tec9"@, "aug"@);
    lemma_len_rules_out("tec9"@, "awp"@);
    lemma_len_rules_out("tec9"@, "deagle"@);
    lemma_len_rules_out("tec9"@, "famas"@);
    lemma_len_rules_out("tec9"@, "g3sg1"@);
    lemma_len_rules_out("tec9"@, "galilar"@);
    lemma_char_rules_out("tec9"@, "m249"@, 0);
    lemma_char_rules_out("tec9"@, "m4a1"@, 0);
    lemma_len_rules_out("tec9"@, "m4a1_silencer"@);
    lemma_len_rules_out("tec9"@, "m4a1_silencer_off"@);
    lemma_len_rules_out("tec9"@, "negev"@);
    lemma_len_rules_out("tec9"@, "revolver"@);
    lemma_len_rules_out("tec9"@, "scar20"@);
    lemma_len_rules_out("tec9"@, "sg556"@);
    lemma_len_rules_out("tec9"@, "ssg08"@);
    lemma_len_rules_out("ump45"@, "ak47"@);
    lemma_len_rules_out("ump45"@, "aug"@);
    lemma_len_rules_out("ump45"@, "awp"@);
    lemma_len_rules_out("ump45"@, "deagle"@);
    lemma_char_rules_out("ump45"@, "famas"@, 0);
    lemma_char_rules_out("ump45"@, "g3sg1"@, 0);
    lemma_len_rules_out("ump45"@, "galilar"@);
    lemma_len_rules_out("ump45"@, "m249"@);
    lemma_len_rules_out("ump45"@, "m4a1"@);
    lemma_len_rules_out("ump45"@, "m4a1_silencer"@);
    lemma_len_rules_out("ump45"@, "m4a1_silencer_off"@);
    lemma_char_rules_out("ump45"@, "negev"@, 0);
    lemma_len_rules_out("ump45"@, "revolver"@);
    lemma_len_rules_out("ump45"@, "scar20"@);
    lemma_char_rules_out("ump45"@, "sg556"@, 0);
    lemma_char_rules_out("ump45"@, "ssg08"@, 0);
    lemma_len_rules_out("usp_silencer"@, "ak47"@);
    lemma_len_rules_out("usp_silencer"@, "aug"@);
    lemma_len_rules_out("usp_silencer"@, "awp"@);
    lemma_len_rules_out("usp_silencer"@, "deagle"@);
    lemma_len_rules_out("usp_silencer"@, "famas"@);
    lemma_len_rules_out("usp_silencer"@, "g3sg1"@);
    lemma_len_rules_out("usp_silencer"@, "galilar"@);
    lemma_len_rules_out("usp_silencer"@, "m249"@);
    lemma_len_rules_out("usp_silencer"@, "m4a1"@);
    lemma_len_rules_out("usp_silencer"@, "m4a1_silencer"@);
    lemma_len_rules_out("usp_silencer"@, "m4a1_silencer_off"@);
    lemma_len_rules_out("usp_silencer"@, "negev"@);
    lemma_len_rules_out("usp_silencer"@, "revolver"@);
    lemma_len_rules_out("usp_silencer"@, "scar20"@);
    lemma_len_rules_out("usp_silencer"@, "sg556"@);
    lemma_len_rules_out("usp_silencer"@, "ssg08"@);
    lemma_len_rules_out("usp_silencer_off"@, "ak47"@);
    lemma_len_rules_out("usp_silencer_off"@, "aug"@);
    lemma_len_rules_out("usp_silencer_off"@, "awp"@);
    lemma_len_rules_out("usp_silencer_off"@, "deagle"@);
    lemma_len_rules_out("usp_silencer_off"@, "famas"@);
    lemma_len_rules_out("usp_silencer_off"@, "g3sg1"@);
    lemma_len_rules_out("usp_silencer_off"@, "galilar"@);
    lemma_len_rules_out("usp_silencer_off"@, "m249"@);
    lemma_len_rules_out("usp_silencer_off"@, "m4a1"@);
    lemma_len_rules_out("usp_silencer_off"@, "m4a1_silencer"@);
    lemma_len_rules_out("usp_silencer_off"@, "m4a1_silencer_off"@);
    lemma_len_rules_out("usp_silencer_off"@, "negev"@);
    lemma_len_rules_out("usp_silencer_off"@, "revolver"@);
    lemma_len_rules_out("usp_silencer_off"@, "scar20"@);
    lemma_len_rules_out("usp_silencer_off"@, "sg556"@);
    lemma_len_rules_out("usp_silencer_off"@, "ssg08"@);
    lemma_len_rules_out("xm1014"@, "ak47"@);
    lemma_len_rules_out("xm1014"@, "aug"@);
    lemma_len_rules_out("xm1014"@, "awp"@);
    lemma_char_rules_out("xm1014"@, "deagle"@, 0);
    lemma_len_rules_out("xm1014"@, "famas"@);
    lemma_len_rules_out("xm1014"@, "g3sg1"@);
    lemma_len_rules_out("xm1014"@, "galilar"@);
    lemma_len_rules_out("xm1014"@, "m249"@);
    lemma_len_rules_out("xm1014"@, "m4a1"@);
    lemma_len_rules_out("xm1014"@, "m4a1_silencer"@);
    lemma_len_rules_out("xm1014"@, "m4a1_silencer_off"@);
    lemma_len_rules_out("xm1014"@, "negev"@);
    lemma_len_rules_out("xm1014"@, "revolver"@);
    lemma_char_rules_out("xm1014"@, "scar20"@, 0);
    lemma_len_rules_out("xm1014"@, "sg556"@);
    lemma_len_rules_out("xm1014"@, "ssg08"@);
}

/// Base damage, weapon by weapon, in hit points.
pub proof fn lemma_weapon_damage_values()
    ensures
        weapon_damage("ak47"@) == 36,
        weapon_damage("aug"@) == 28,
        weapon_damage("awp"@) == 115,
        weapon_damage("bizon"@) == 27,
        weapon_damage("cz75a"@) == 33,
        weapon_damage("deagle"@) == 63,
        weapon_damage("elite"@) == 36,
        weapon_damage("famas"@) == 26,
        weapon_damage("fiveseven"@) == 33,
        weapon_damage("g3sg1"@) == 80,
        weapon_damage("galilar"@) == 30,
        weapon_damage("glock"@) == 30,
        weapon_damage("hkp2000"@) == 35,
        weapon_damage("m249"@) == 32,
        weapon_damage("m4a1"@) == 33,
        weapon_damage("m4a1_silencer"@) == 33,
        weapon_damage("mac10"@) == 29,
        weapon_damage("mag7"@) == 30,
        weapon_damage("mp5sd"@) == 27,
        weapon_damage("mp7"@) == 29,
        weapon_damage("mp9"@) == 26,
        weapon_damage("negev"@) == 35,
        weapon_damage("nova"@) == 26,
        weapon_damage("p250"@) == 38,
        weapon_damage("p90"@) == 26,
        weapon_damage("revolver"@) == 86,
        weapon_damage("sawedoff"@) == 32,
        weapon_damage("scar20"@) == 80,
        weapon_damage("sg556"@) == 30,
        weapon_damage("ssg08"@) == 88,
        weapon_damage("tec9"@) == 33,
        weapon_damage("ump45"@) == 35,
        weapon_damage("usp_silencer"@) == 35,
        weapon_damage("xm1014"@) == 20,
{
    reveal_strlit("ak47");
    reveal_strlit("aug");
    reveal_strlit("awp");
    reveal_strlit("bizon");
    reveal_strlit("cz75a");
    reveal_strlit("deagle");
    reveal_strlit("elite");
    reveal_strlit("famas");
    reveal_strlit("fiveseven");
    reveal_strlit("g3sg1");
    reveal_strlit("galilar");
    reveal_strlit("glock");
    reveal_strlit("hkp2000");
    reveal_strlit("m249");
    reveal_strlit("m4a1");
    reveal_strlit("m4a1_silencer");
    reveal_strlit("mac10");
    reveal_strlit("mag7");
    reveal_strlit("mp5sd");
    reveal_strlit("mp7");
    reveal_strlit("mp9");
    reveal_strlit("negev");
    reveal_strlit("nova");
    reveal_strlit("p250");
    reveal_strlit("p90");
    reveal_strlit("revolver");
    reveal_strlit("sawedoff");
    reveal_strlit("scar20");
    reveal_strlit("sg556");
    reveal_strlit("ssg08");
    reveal_strlit("tec9");
    reveal_strlit("ump45");
    reveal_strlit("usp_silencer");
    reveal_strlit("xm1014");
    lemma_len_rules_out("ak47"@, "awp"@);
    lemma_len_rules_out("ak47"@, "g3sg1"@);
    lemma_len_rules_out("ak47"@, "scar20"@);
    lemma_len_rules_out("ak47"@, "ssg08"@);
    lemma_len_rules_out("aug"@, "ak47"@);
    lemma_char_rules_out("aug"@, "awp"@, 1);
    lemma_len_rules_out("aug"@, "g3sg1"@);
    lemma_len_rules_out("aug"@, "m4a1"@);
    lemma_len_rules_out("aug"@, "m4a1_silencer"@);
    lemma_len_rules_out("aug"@, "scar20"@);
    lemma_len_rules_out("aug"@, "ssg08"@);
    lemma_len_rules_out("bizon"@, "ak47"@);
    lemma_len_rules_out("bizon"@, "aug"@);
    lemma_len_rules_out("bizon"@, "awp"@);
    lemma_char_rules_out("bizon"@, "cz75a"@, 0);
    lemma_len_rules_out("bizon"@, "deagle"@);
    lemma_char_rules_out("bizon"@, "elite"@, 0);
    lemma_char_rules_out("bizon"@, "famas"@, 0);
    lemma_len_rules_out("bizon"@, "fiveseven"@);
    lemma_char_rules_out("bizon"@, "g3sg1"@, 0);
    lemma_len_rules_out("bizon"@, "galilar"@);
    lemma_char_rules_out("bizon"@, "glock"@, 0);
    lemma_len_rules_out("bizon"@, "hkp2000"@);
    lemma_len_rules_out("bizon"@, "m249"@);
    lemma_len_rules_out("bizon"@, "m4a1"@);
    lemma_len_rules_out("bizon"@, "m4a1_silencer"@);
    lemma_char_rules_out("bizon"@, "negev"@, 0);
    lemma_len_rules_out("bizon"@, "p250"@);
    lemma_len_rules_out("bizon"@, "revolver"@);
    lemma_len_rules_out("bizon"@, "scar20"@);
    lemma_char_rules_out("bizon"@, "sg556"@, 0);
    lemma_char_rules_out("bizon"@, "ssg08"@, 0);
    lemma_len_rules_out("bizon"@, "tec9"@);
    lemma_len_rules_out("bizon"@, "usp_silencer"@);
    lemma_len_rules_out("cz75a"@, "ak47"@);
    lemma_len_rules_out("cz75a"@, "aug"@);
    lemma_len_rules_out("cz75a"@, "awp"@);
    lemma_len_rules_out("cz75a"@, "deagle"@);
    lemma_char_rules_out("cz75a"@, "famas"@, 0);
    lemma_char_rules_out("cz75a"@, "g3sg1"@, 0);
    lemma_len_rules_out("cz75a"@, "galilar"@);
    lemma_char_rules_out("cz75a"@, "glock"@, 0);
    lemma_len_rules_out("cz75a"@, "hkp2000"@);
    lemma_len_rules_out("cz75a"@, "m249"@);
    lemma_len_rules_out("cz75a"@, "m4a1"@);
    lemma_len_rules_out("cz75a"@, "m4a1_silencer"@);
    lemma_char_rules_out("cz75a"@, "negev"@, 0);
    lemma_len_rules_out("cz75a"@, "p250"@);
    lemma_len_rules_out("cz75a"@, "revolver"@);
    lemma_len_rules_out("cz75a"@, "scar20"@);
    lemma_char_rules_out("cz75a"@, "sg556"@, 0);
    lemma_char_rules_out("cz75a"@, "ssg08"@, 0);
    lemma_len_rules_out("cz75a"@, "usp_silencer"@);
    lemma_len_rules_out("deagle"@, "ak47"@);
    lemma_len_rules_out("deagle"@, "aug"@);
    lemma_len_rules_out("deagle"@, "awp"@);
    lemma_len_rules_out("deagle"@, "famas"@);
    lemma_len_rules_out("deagle"@, "g3sg1"@);
    lemma_len_rules_out("deagle"@, "galilar"@);
    lemma_len_rules_out("deagle"@, "m4a1"@);
    lemma_len_rules_out("deagle"@, "m4a1_silencer"@);
    lemma_char_rules_out("deagle"@, "scar20"@, 0);
    lemma_len_rules_out("deagle"@, "sg556"@);
    lemma_len_rules_out("deagle"@, "ssg08"@);
    lemma_len_rules_out("elite"@, "ak47"@);
    lemma_len_rules_out("elite"@, "aug"@);
    lemma_len_rules_out("elite"@, "awp"@);
    lemma_char_rules_out("elite"@, "cz75a"@, 0);
    lemma_len_rules_out("elite"@, "deagle"@);
    lemma_char_rules_out("elite"@, "famas"@, 0);
    lemma_len_rules_out("elite"@, "fiveseven"@);
    lemma_char_rules_out("elite"@, "g3sg1"@, 0);
    lemma_len_rules_out("elite"@, "galilar"@);
    lemma_char_rules_out("elite"@, "glock"@, 0);
    lemma_len_rules_out("elite"@, "hkp2000"@);
    lemma_len_rules_out("elite"@, "m249"@);
    lemma_len_rules_out("elite"@, "m4a1"@);
    lemma_len_rules_out("elite"@, "m4a1_silencer"@);
    lemma_char_rules_out("elite"@, "negev"@, 0);
    lemma_len_rules_out("elite"@, "p250"@);
    lemma_len_rules_out("elite"@, "revolver"@);
    lemma_len_rules_out("elite"@, "scar20"@);
    lemma_char_rules_out("elite"@, "sg556"@, 0);
    lemma_char_rules_out("elite"@, "ssg08"@, 0);
    lemma_len_rules_out("elite"@, "tec9"@);
    lemma_len_rules_out("elite"@, "usp_silencer"@);
    lemma_len_rules_out("famas"@, "ak47"@);
    lemma_len_rules_out("famas"@, "aug"@);
    lemma_len_rules_out("famas"@, "awp"@);
    lemma_char_rules_out("famas"@, "g3sg1"@, 0);
    lemma_len_rules_out("famas"@, "m4a1"@);
    lemma_len_rules_out("famas"@, "m4a1_silencer"@);
    lemma_len_rules_out("famas"@, "scar20"@);
    lemma_char_rules_out("famas"@, "sg556"@, 0);
    lemma_char_rules_out("famas"@, "ssg08"@, 0);
    lemma_len_rules_out("fiveseven"@, "ak47"@);
    lemma_len_rules_out("fiveseven"@, "aug"@);
    lemma_len_rules_out("fiveseven"@, "awp"@);
    lemma_len_rules_out("fiveseven"@, "deagle"@);
    lemma_len_rules_out("fiveseven"@, "famas"@);
    lemma_len_rules_out("fiveseven"@, "g3sg1"@);
    lemma_len_rules_out("fiveseven"@, "galilar"@);
    lemma_len_rules_out("fiveseven"@, "glock"@);
    lemma_len_rules_out("fiveseven"@, "hkp2000"@);
    lemma_len_rules_out("fiveseven"@, "m249"@);
    lemma_len_rules_out("fiveseven"@, "m4a1"@);
    lemma_len_rules_out("fiveseven"@, "m4a1_silencer"@);
    lemma_len_rules_out("fiveseven"@, "negev"@);
    lemma_len_rules_out("fiveseven"@, "p250"@);
    lemma_len_rules_out("fiveseven"@, "revolver"@);
    lemma_len_rules_out("fiveseven"@, "scar20"@);
    lemma_len_rules_out("fiveseven"@, "sg556"@);
    lemma_len_rules_out("fiveseven"@, "ssg08"@);
    lemma_len_rules_out("fiveseven"@, "usp_silencer"@);
    lemma_len_rules_out("g3sg1"@, "awp"@);
    lemma_len_rules_out("galilar"@, "ak47"@);
    lemma_len_rules_out("galilar"@, "aug"@);
    lemma_len_rules_out("galilar"@, "awp"@);
    lemma_len_rules_out("galilar"@, "famas"@);
    lemma_len_rules_out("galilar"@, "g3sg1"@);
    lemma_len_rules_out("galilar"@, "m4a1"@);
    lemma_len_rules_out("galilar"@, "m4a1_silencer"@);
    lemma_len_rules_out("galilar"@, "scar20"@);
    lemma_len_rules_out("galilar"@, "sg556"@);
    lemma_len_rules_out("galilar"@, "ssg08"@);
    lemma_len_rules_out("glock"@, "ak47"@);
    lemma_len_rules_out("glock"@, "aug"@);
    lemma_len_rules_out("glock"@, "awp"@);
    lemma_len_rules_out("glock"@, "deagle"@);
    lemma_char_rules_out("glock"@, "famas"@, 0);
    lemma_char_rules_out("glock"@, "g3sg1"@, 1);
    lemma_len_rules_out("glock"@, "galilar"@);
    lemma_len_rules_out("glock"@, "m249"@);
    lemma_len_rules_out("glock"@, "m4a1"@);
    lemma_len_rules_out("glock"@, "m4a1_silencer"@);
    lemma_char_rules_out("glock"@, "negev"@, 0);
    lemma_len_rules_out("glock"@, "revolver"@);
    lemma_len_rules_out("glock"@, "scar20"@);
    lemma_char_rules_out("glock"@, "sg556"@, 0);
    lemma_char_rules_out("glock"@, "ssg08"@, 0);
    lemma_len_rules_out("hkp2000"@, "ak47"@);
    lemma_len_rules_out("hkp2000"@, "aug"@);
    lemma_len_rules_out("hkp2000"@, "awp"@);
    lemma_len_rules_out("hkp2000"@, "deagle"@);
    lemma_len_rules_out("hkp2000"@, "famas"@);
    lemma_len_rules_out("hkp2000"@, "g3sg1"@);
    lemma_char_rules_out("hkp2000"@, "galilar"@, 0);
    lemma_len_rules_out("hkp2000"@, "glock"@);
    lemma_len_rules_out("hkp2000"@, "m249"@);
    lemma_len_rules_out("hkp2000"@, "m4a1"@);
    lemma_len_rules_out("hkp2000"@, "m4a1_silencer"@);
    lemma_len_rules_out("hkp2000"@, "negev"@);
    lemma_len_rules_out("hkp2000"@, "revolver"@);
    lemma_len_rules_out("hkp2000"@, "scar20"@);
    lemma_len_rules_out("hkp2000"@, "sg556"@);
    lemma_len_rules_out("hkp2000"@, "ssg08"@);
    lemma_char_rules_out("m249"@, "ak47"@, 0);
    lemma_len_rules_out("m249"@, "aug"@);
    lemma_len_rules_out("m249"@, "awp"@);
    lemma_len_rules_out("m249"@, "deagle"@);
    lemma_len_rules_out("m249"@, "famas"@);
    lemma_len_rules_out("m249"@, "g3sg1"@);
    lemma_len_rules_out("m249"@, "galilar"@);
    lemma_char_rules_out("m249"@, "m4a1"@, 1);
    lemma_len_rules_out("m249"@, "m4a1_silencer"@);
    lemma_len_rules_out("m249"@, "revolver"@);
    lemma_len_rules_out("m249"@, "scar20"@);
    lemma_len_rules_out("m249"@, "sg556"@);
    lemma_len_rules_out("m249"@, "ssg08"@);
    lemma_char_rules_out("m4a1"@, "ak47"@, 0);
    lemma_len_rules_out("m4a1"@, "awp"@);
    lemma_len_rules_out("m4a1"@, "g3sg1"@);
    lemma_len_rules_out("m4a1"@, "scar20"@);
    lemma_len_rules_out("m4a1"@, "ssg08"@);
    lemma_len_rules_out("m4a1_silencer"@, "ak47"@);
    lemma_len_rules_out("m4a1_silencer"@, "awp"@);
    lemma_len_rules_out("m4a1_silencer"@, "g3sg1"@);
    lemma_len_rules_out("m4a1_silencer"@, "scar20"@);
    lemma_len_rules_out("m4a1_silencer"@, "ssg08"@);
    lemma_len_rules_out("mac10"@, "ak47"@);
    lemma_len_rules_out("mac10"@, "aug"@);
    lemma_len_rules_out("mac10"@, "awp"@);
    lemma_char_rules_out("mac10"@, "bizon"@, 0);
    lemma_char_rules_out("mac10"@, "cz75a"@, 0);
    lemma_len_rules_out("mac10"@, "deagle"@);
    lemma_char_rules_out("mac10"@, "elite"@, 0);
    lemma_char_rules_out("mac10"@, "famas"@, 0);
    lemma_len_rules_out("mac10"@, "fiveseven"@);
    lemma_char_rules_out("mac10"@, "g3sg1"@, 0);
    lemma_len_rules_out("mac10"@, "galilar"@);
    lemma_char_rules_out("mac10"@, "glock"@, 0);
    lemma_len_rules_out("mac10"@, "hkp2000"@);
    lemma_len_rules_out("mac10"@, "m249"@);
    lemma_len_rules_out("mac10"@, "m4a1"@);
    lemma_len_rules_out("mac10"@, "m4a1_silencer"@);
    lemma_char_rules_out("mac10"@, "negev"@, 0);
    lemma_len_rules_out("mac10"@, "p250"@);
    lemma_len_rules_out("mac10"@, "revolver"@);
    lemma_len_rules_out("mac10"@, "scar20"@);
    lemma_char_rules_out("mac10"@, "sg556"@, 0);
    lemma_char_rules_out("mac10"@, "ssg08"@, 0);
    lemma_len_rules_out("mac10"@, "tec9"@);
    lemma_len_rules_out("mac10"@, "usp_silencer"@);
    lemma_char_rules_out("mag7"@, "ak47"@, 0);
    lemma_len_rules_out("mag7"@, "aug"@);
    lemma_len_rules_out("mag7"@, "awp"@);
    lemma_len_rules_out("mag7"@, "bizon"@);
    lemma_len_rules_out("mag7"@, "cz75a"@);
    lemma_len_rules_out("mag7"@, "deagle"@);
    lemma_len_rules_out("mag7"@, "elite"@);
    lemma_len_rules_out("mag7"@, "famas"@);
    lemma_len_rules_out("mag7"@, "fiveseven"@);
    lemma_len_rules_out("mag7"@, "g3sg1"@);
    lemma_len_rules_out("mag7"@, "galilar"@);
    lemma_len_rules_out("mag7"@, "glock"@);
    lemma_len_rules_out("mag7"@, "hkp2000"@);
    lemma_char_rules_out("mag7"@, "m249"@, 1);
    lemma_char_rules_out("mag7"@, "m4a1"@, 1);
    lemma_len_rules_out("mag7"@, "m4a1_silencer"@);
    lemma_len_rules_out("mag7"@, "mac10"@);
    lemma_len_rules_out("mag7"@, "mp5sd"@);
    lemma_len_rules_out("mag7"@, "mp7"@);
    lemma_len_rules_out("mag7"@, "mp9"@);
    lemma_len_rules_out("mag7"@, "negev"@);
    lemma_char_rules_out("mag7"@, "p250"@, 0);
    lemma_len_rules_out("mag7"@, "p90"@);
    lemma_len_rules_out("mag7"@, "revolver"@);
    lemma_len_rules_out("mag7"@, "scar20"@);
    lemma_len_rules_out("mag7"@, "sg556"@);
    lemma_len_rules_out("mag7"@, "ssg08"@);
    lemma_char_rules_out("mag7"@, "tec9"@, 0);
    lemma_len_rules_out("mag7"@, "ump45"@);
    lemma_len_rules_out("mag7"@, "usp_silencer"@);
    lemma_len_rules_out("mp5sd"@, "ak47"@);
    lemma_len_rules_out("mp5sd"@, "aug"@);
    lemma_len_rules_out("mp5sd"@, "awp"@);
    lemma_char_rules_out("mp5sd"@, "bizon"@, 0);
    lemma_char_rules_out("mp5sd"@, "cz75a"@, 0);
    lemma_len_rules_out("mp5sd"@, "deagle"@);
    lemma_char_rules_out("mp5sd"@, "elite"@, 0);
    lemma_char_rules_out("mp5sd"@, "famas"@, 0);
    lemma_len_rules_out("mp5sd"@, "fiveseven"@);
    lemma_char_rules_out("mp5sd"@, "g3sg1"@, 0);
    lemma_len_rules_out("mp5sd"@, "galilar"@);
    lemma_char_rules_out("mp5sd"@, "glock"@, 0);
    lemma_len_rules_out("mp5sd"@, "hkp2000"@);
    lemma_len_rules_out("mp5sd"@, "m249"@);
    lemma_len_rules_out("mp5sd"@, "m4a1"@);
    lemma_len_rules_out("mp5sd"@, "m4a1_silencer"@);
    lemma_char_rules_out("mp5sd"@, "mac10"@, 1);
    lemma_char_rules_out("mp5sd"@, "negev"@, 0);
    lemma_len_rules_out("mp5sd"@, "p250"@);
    lemma_len_rules_out("mp5sd"@, "revolver"@);
    lemma_len_rules_out("mp5sd"@, "scar20"@);
    lemma_char_rules_out("mp5sd"@, "sg556"@, 0);
    lemma_char_rules_out("mp5sd"@, "ssg08"@, 0);
    lemma_len_rules_out("mp5sd"@, "tec9"@);
    lemma_len_rules_out("mp5sd"@, "usp_silencer"@);
    lemma_len_rules_out("mp7"@, "ak47"@);
    lemma_char_rules_out("mp7"@, "aug"@, 0);
    lemma_char_rules_out("mp7"@, "awp"@, 0);
    lemma_len_rules_out("mp7"@, "bizon"@);
    lemma_len_rules_out("mp7"@, "cz75a"@);
    lemma_len_rules_out("mp7"@, "deagle"@);
    lemma_len_rules_out("mp7"@, "elite"@);
    lemma_len_rules_out("mp7"@, "famas"@);
    lemma_len_rules_out("mp7"@, "fiveseven"@);
    lemma_len_rules_out("mp7"@, "g3sg1"@);
    lemma_len_rules_out("mp7"@, "galilar"@);
    lemma_len_rules_out("mp7"@, "glock"@);
    lemma_len_rules_out("mp7"@, "hkp2000"@);
    lemma_len_rules_out("mp7"@, "m249"@);
    lemma_len_rules_out("mp7"@, "m4a1"@);
    lemma_len_rules_out("mp7"@, "m4a1_silencer"@);
    lemma_len_rules_out("mp7"@, "mac10"@);
    lemma_len_rules_out("mp7"@, "mp5sd"@);
    lemma_len_rules_out("mp7"@, "negev"@);
    lemma_len_rules_out("mp7"@, "p250"@);
    lemma_len_rules_out("mp7"@, "revolver"@);
    lemma_len_rules_out("mp7"@, "scar20"@);
    lemma_len_rules_out("mp7"@, "sg556"@);
    lemma_len_rules_out("mp7"@, "ssg08"@);
    lemma_len_rules_out("mp7"@, "tec9"@);
    lemma_len_rules_out("mp7"@, "usp_silencer"@);
    lemma_len_rules_out("mp9"@, "ak47"@);
    lemma_char_rules_out("mp9"@, "aug"@, 0);
    lemma_char_rules_out("mp9"@, "awp"@, 0);
    lemma_len_rules_out("mp9"@, "bizon"@);
    lemma_len_rules_out("mp9"@, "cz75a"@);
    lemma_len_rules_out("mp9"@, "deagle"@);
    lemma_len_rules_out("mp9"@, "elite"@);
    lemma_len_rules_out("mp9"@, "famas"@);
    lemma_len_rules_out("mp9"@, "fiveseven"@);
    lemma_len_rules_out("mp9"@, "g3sg1"@);
    lemma_len_rules_out("mp9"@, "galilar"@);
    lemma_len_rules_out("mp9"@, "glock"@);
    lemma_len_rules_out("mp9"@, "hkp2000"@);
    lemma_len_rules_out("mp9"@, "m249"@);
    lemma_len_rules_out("mp9"@, "m4a1"@);
    lemma_len_rules_out("mp9"@, "m4a1_silencer"@);
    lemma_len_rules_out("mp9"@, "mac10"@);
    lemma_len_rules_out("mp9"@, "mp5sd"@);
    lemma_char_rules_out("mp9"@, "mp7"@, 2);
    lemma_len_rules_out("mp9"@, "negev"@);
    lemma_len_rules_out("mp9"@, "p250"@);
    lemma_len_rules_out("mp9"@, "revolver"@);
    lemma_len_rules_out("mp9"@, "scar20"@);
    lemma_len_rules_out("mp9"@, "sg556"@);
    lemma_len_rules_out("mp9"@, "ssg08"@);
    lemma_len_rules_out("mp9"@, "tec9"@);
    lemma_len_rules_out("mp9"@, "usp_silencer"@);
    lemma_len_rules_out("negev"@, "ak47"@);
    lemma_len_rules_out("negev"@, "aug"@);
    lemma_len_rules_out("negev"@, "awp"@);
    lemma_len_rules_out("negev"@, "deagle"@);
    lemma_char_rules_out("negev"@, "famas"@, 0);
    lemma_char_rules_out("negev"@, "g3sg1"@, 0);
    lemma_len_rules_out("negev"@, "galilar"@);
    lemma_len_rules_out("negev"@, "m249"@);
    lemma_len_rules_out("negev"@, "m4a1"@);
    lemma_len_rules_out("negev"@, "m4a1_silencer"@);
    lemma_len_rules_out("negev"@, "revolver"@);
    lemma_len_rules_out("negev"@, "scar20"@);
    lemma_char_rules_out("negev"@, "sg556"@, 0);
    lemma_char_rules_out("negev"@, "ssg08"@, 0);
    lemma_char_rules_out("nova"@, "ak47"@, 0);
    lemma_len_rules_out("nova"@, "aug"@);
    lemma_len_rules_out("nova"@, "awp"@);
    lemma_len_rules_out("nova"@, "bizon"@);
    lemma_len_rules_out("nova"@, "cz75a"@);
    lemma_len_rules_out("nova"@, "deagle"@);
    lemma_len_rules_out("nova"@, "elite"@);
    lemma_len_rules_out("nova"@, "famas"@);
    lemma_len_rules_out("nova"@, "fiveseven"@);
    lemma_len_rules_out("nova"@, "g3sg1"@);
    lemma_len_rules_out("nova"@, "galilar"@);
    lemma_len_rules_out("nova"@, "glock"@);
    lemma_len_rules_out("nova"@, "hkp2000"@);
    lemma_char_rules_out("nova"@, "m249"@, 0);
    lemma_char_rules_out("nova"@, "m4a1"@, 0);
    lemma_len_rules_out("nova"@, "m4a1_silencer"@);
    lemma_len_rules_out("nova"@, "mac10"@);
    lemma_char_rules_out("nova"@, "mag7"@, 0);
    lemma_len_rules_out("nova"@, "mp5sd"@);
    lemma_len_rules_out("nova"@, "mp7"@);
    lemma_len_rules_out("nova"@, "mp9"@);
    lemma_len_rules_out("nova"@, "negev"@);
    lemma_char_rules_out("nova"@, "p250"@, 0);
    lemma_len_rules_out("nova"@, "p90"@);
    lemma_len_rules_out("nova"@, "revolver"@);
    lemma_len_rules_out("nova"@, "scar20"@);
    lemma_len_rules_out("nova"@, "sg556"@);
    lemma_len_rules_out("nova"@, "ssg08"@);
    lemma_char_rules_out("nova"@, "tec9"@, 0);
    lemma_len_rules_out("nova"@, "ump45"@);
    lemma_len_rules_out("nova"@, "usp_silencer"@);
    lemma_char_rules_out("p250"@, "ak47"@, 0);
    lemma_len_rules_out("p250"@, "aug"@);
    lemma_len_rules_out("p250"@, "awp"@);
    lemma_len_rules_out("p250"@, "deagle"@);
    lemma_len_rules_out("p250"@, "famas"@);
    lemma_len_rules_out("p250"@, "g3sg1"@);
    lemma_len_rules_out("p250"@, "galilar"@);
    lemma_len_rules_out("p250"@, "glock"@);
    lemma_len_rules_out("p250"@, "hkp2000"@);
    lemma_char_rules_out("p250"@, "m249"@, 0);
    lemma_char_rules_out("p250"@, "m4a1"@, 0);
    lemma_len_rules_out("p250"@, "m4a1_silencer"@);
    lemma_len_rules_out("p250"@, "negev"@);
    lemma_len_rules_out("p250"@, "revolver"@);
    lemma_len_rules_out("p250"@, "scar20"@);
    lemma_len_rules_out("p250"@, "sg556"@);
    lemma_len_rules_out("p250"@, "ssg08"@);
    lemma_len_rules_out("p250"@, "usp_silencer"@);
    lemma_len_rules_out("p90"@, "ak47"@);
    lemma_char_rules_out("p90"@, "aug"@, 0);
    lemma_char_rules_out("p90"@, "awp"@, 0);
    lemma_len_rules_out("p90"@, "bizon"@);
    lemma_len_rules_out("p90"@, "cz75a"@);
    lemma_len_rules_out("p90"@, "deagle"@);
    lemma_len_rules_out("p90"@, "elite"@);
    lemma_len_rules_out("p90"@, "famas"@);
    lemma_len_rules_out("p90"@, "fiveseven"@);
    lemma_len_rules_out("p90"@, "g3sg1"@);
    lemma_len_rules_out("p90"@, "galilar"@);
    lemma_len_rules_out("p90"@, "glock"@);
    lemma_len_rules_out("p90"@, "hkp2000"@);
    lemma_len_rules_out("p90"@, "m249"@);
    lemma_len_rules_out("p90"@, "m4a1"@);
    lemma_len_rules_out("p90"@, "m4a1_silencer"@);
    lemma_len_rules_out("p90"@, "mac10"@);
    lemma_len_rules_out("p90"@, "mp5sd"@);
    lemma_char_rules_out("p90"@, "mp7"@, 0);
    lemma_char_rules_out("p90"@, "mp9"@, 0);
    lemma_len_rules_out("p90"@, "negev"@);
    lemma_len_rules_out("p90"@, "p250"@);
    lemma_len_rules_out("p90"@, "revolver"@);
    lemma_len_rules_out("p90"@, "scar20"@);
    lemma_len_rules_out("p90"@, "sg556"@);
    lemma_len_rules_out("p90"@, "ssg08"@);
    lemma_len_rules_out("p90"@, "tec9"@);
    lemma_len_rules_out("p90"@, "usp_silencer"@);
    lemma_len_rules_out("revolver"@, "ak47"@);
    lemma_len_rules_out("revolver"@, "aug"@);
    lemma_len_rules_out("revolver"@, "awp"@);
    lemma_len_rules_out("revolver"@, "deagle"@);
    lemma_len_rules_out("revolver"@, "famas"@);
    lemma_len_rules_out("revolver"@, "g3sg1"@);
    lemma_len_rules_out("revolver"@, "galilar"@);
    lemma_len_rules_out("revolver"@, "m4a1"@);
    lemma_len_rules_out("revolver"@, "m4a1_silencer"@);
    lemma_len_rules_out("revolver"@, "scar20"@);
    lemma_len_rules_out("revolver"@, "sg556"@);
    lemma_len_rules_out("revolver"@, "ssg08"@);
    lemma_len_rules_out("sawedoff"@, "ak47"@);
    lemma_len_rules_out("sawedoff"@, "aug"@);
    lemma_len_rules_out("sawedoff"@, "awp"@);
    lemma_len_rules_out("sawedoff"@, "bizon"@);
    lemma_len_rules_out("sawedoff"@, "cz75a"@);
    lemma_len_rules_out("sawedoff"@, "deagle"@);
    lemma_len_rules_out("sawedoff"@, "elite"@);
    lemma_len_rules_out("sawedoff"@, "famas"@);
    lemma_len_rules_out("sawedoff"@, "fiveseven"@);
    lemma_len_rules_out("sawedoff"@, "g3sg1"@);
    lemma_len_rules_out("sawedoff"@, "galilar"@);
    lemma_len_rules_out("sawedoff"@, "glock"@);
    lemma_len_rules_out("sawedoff"@, "hkp2000"@);
    lemma_len_rules_out("sawedoff"@, "m249"@);
    lemma_len_rules_out("sawedoff"@, "m4a1"@);
    lemma_len_rules_out("sawedoff"@, "m4a1_silencer"@);
    lemma_len_rules_out("sawedoff"@, "mac10"@);
    lemma_len_rules_out("sawedoff"@, "mag7"@);
    lemma_len_rules_out("sawedoff"@, "mp5sd"@);
    lemma_len_rules_out("sawedoff"@, "mp7"@);
    lemma_len_rules_out("sawedoff"@, "mp9"@);
    lemma_len_rules_out("sawedoff"@, "negev"@);
    lemma_len_rules_out("sawedoff"@, "nova"@);
    lemma_len_rules_out("sawedoff"@, "p250"@);
    lemma_len_rules_out("sawedoff"@, "p90"@);
    lemma_char_rules_out("sawedoff"@, "revolver"@, 0);
    lemma_len_rules_out("sawedoff"@, "scar20"@);
    lemma_len_rules_out("sawedoff"@, "sg556"@);
    lemma_len_rules_out("sawedoff"@, "ssg08"@);
    lemma_len_rules_out("sawedoff"@, "tec9"@);
    lemma_len_rules_out("sawedoff"@, "ump45"@);
    lemma_len_rules_out("sawedoff"@, "usp_silencer"@);
    lemma_len_rules_out("scar20"@, "awp"@);
    lemma_len_rules_out("sg556"@, "ak47"@);
    lemma_len_rules_out("sg556"@, "aug"@);
    lemma_len_rules_out("sg556"@, "awp"@);
    lemma_char_rules_out("sg556"@, "g3sg1"@, 0);
    lemma_len_rules_out("sg556"@, "m4a1"@);
    lemma_len_rules_out("sg556"@, "m4a1_silencer"@);
    lemma_len_rules_out("sg556"@, "scar20"@);
    lemma_char_rules_out("sg556"@, "ssg08"@, 1);
    lemma_len_rules_out("ssg08"@, "awp"@);
    lemma_char_rules_out("ssg08"@, "g3sg1"@, 0);
    lemma_len_rules_out("ssg08"@, "scar20"@);
    lemma_char_rules_out("tec9"@, "ak47"@, 0);
    lemma_len_rules_out("tec9"@, "aug"@);
    lemma_len_rules_out("tec9"@, "awp"@);
    lemma_len_rules_out("tec9"@, "deagle"@);
    lemma_len_rules_out("tec9"@, "famas"@);
    lemma_len_rules_out("tec9"@, "g3sg1"@);
    lemma_len_rules_out("tec9"@, "galilar"@);
    lemma_len_rules_out("tec9"@, "glock"@);
    lemma_len_rules_out("tec9"@, "hkp2000"@);
    lemma_char_rules_out("tec9"@, "m249"@, 0);
    lemma_char_rules_out("tec9"@, "m4a1"@, 0);
    lemma_len_rules_out("tec9"@, "m4a1_silencer"@);
    lemma_len_rules_out("tec9"@, "negev"@);
    lemma_char_rules_out("tec9"@, "p250"@, 0);
    lemma_len_rules_out("tec9"@, "revolver"@);
    lemma_len_rules_out("tec9"@, "scar20"@);
    lemma_len_rules_out("tec9"@, "sg556"@);
    lemma_len_rules_out("tec9"@, "ssg08"@);
    lemma_len_rules_out("tec9"@, "usp_silencer"@);
    lemma_len_rules_out("ump45"@, "ak47"@);
    lemma_len_rules_out("ump45"@, "aug"@);
    lemma_len_rules_out("ump45"@, "awp"@);
    lemma_char_rules_out("ump45"@, "bizon"@, 0);
    lemma_char_rules_out("ump45"@, "cz75a"@, 0);
    lemma_len_rules_out("ump45"@, "deagle"@);
    lemma_char_rules_out("ump45"@, "elite"@, 0);
    lemma_char_rules_out("ump45"@, "famas"@, 0);
    lemma_len_rules_out("ump45"@, "fiveseven"@);
    lemma_char_rules_out("ump45"@, "g3sg1"@, 0);
    lemma_len_rules_out("ump45"@, "galilar"@);
    lemma_char_rules_out("ump45"@, "glock"@, 0);
    lemma_len_rules_out("ump45"@, "hkp2000"@);
    lemma_len_rules_out("ump45"@, "m249"@);
    lemma_len_rules_out("ump45"@, "m4a1"@);
    lemma_len_rules_out("ump45"@, "m4a1_silencer"@);
    lemma_char_rules_out("ump45"@, "mac10"@, 0);
    lemma_char_rules_out("ump45"@, "mp5sd"@, 0);
    lemma_len_rules_out("ump45"@, "mp7"@);
    lemma_len_rules_out("ump45"@, "mp9"@);
    lemma_char_rules_out("ump45"@, "negev"@, 0);
    lemma_len_rules_out("ump45"@, "p250"@);
    lemma_len_rules_out("ump45"@, "p90"@);
    lemma_len_rules_out("ump45"@, "revolver"@);
    lemma_len_rules_out("ump45"@, "scar20"@);
    lemma_char_rules_out("ump45"@, "sg556"@, 0);
    lemma_char_rules_out("ump45"@, "ssg08"@, 0);
    lemma_len_rules_out("ump45"@, "tec9"@);
    lemma_len_rules_out("ump45"@, "usp_silencer"@);
    lemma_len_rules_out("usp_silencer"@, "ak47"@);
    lemma_len_rules_out("usp_silencer"@, "aug"@);
    lemma_len_rules_out("usp_silencer"@, "awp"@);
    lemma_len_rules_out("usp_silencer"@, "deagle"@);
    lemma_len_rules_out("usp_silencer"@, "famas"@);
    lemma_len_rules_out("usp_silencer"@, "g3sg1"@);
    lemma_len_rules_out("usp_silencer"@, "galilar"@);
    lemma_len_rules_out("usp_silencer"@, "glock"@);
    lemma_len_rules_out("usp_silencer"@, "m249"@);
    lemma_len_rules_out("usp_silencer"@, "m4a1"@);
    lemma_len_rules_out("usp_silencer"@, "m4a1_silencer"@);
    lemma_len_rules_out("usp_silencer"@, "negev"@);
    lemma_len_rules_out("usp_silencer"@, "revolver"@);
    lemma_len_rules_out("usp_silencer"@, "scar20"@);
    lemma_len_rules_out("usp_silencer"@, "sg556"@);
    lemma_len_rules_out("usp_silencer"@, "ssg08"@);
    lemma_len_rules_out("xm1014"@, "ak47"@);
    lemma_len_rules_out("xm1014"@, "aug"@);
    lemma_len_rules_out("xm1014"@, "awp"@);
    lemma_len_rules_out("xm1014"@, "bizon"@);
    lemma_len_rules_out("xm1014"@, "cz75a"@);
    lemma_char_rules_out("xm1014"@, "deagle"@, 0);
    lemma_len_rules_out("xm1014"@, "elite"@);
    lemma_len_rules_out("xm1014"@, "famas"@);
    lemma_len_rules_out("xm1014"@, "fiveseven"@);
    lemma_len_rules_out("xm1014"@, "g3sg1"@);
    lemma_len_rules_out("xm1014"@, "galilar"@);
    lemma_len_rules_out("xm1014"@, "glock"@);
    lemma_len_rules_out("xm1014"@, "hkp2000"@);
    lemma_len_rules_out("xm1014"@, "m249"@);
    lemma_len_rules_out("xm1014"@, "m4a1"@);
    lemma_len_rules_out("xm1014"@, "m4a1_silencer"@);
    lemma_len_rules_out("xm1014"@, "mac10"@);
    lemma_len_rules_out("xm1014"@, "mag7"@);
    lemma_len_rules_out("xm1014"@, "mp5sd"@);
    lemma_len_rules_out("xm1014"@, "mp7"@);
    lemma_len_rules_out("xm1014"@, "mp9"@);
    lemma_len_rules_out("xm1014"@, "negev"@);
    lemma_len_rules_out("xm1014"@, "nova"@);
    lemma_len_rules_out("xm1014"@, "p250"@);
    lemma_len_rules_out("xm1014"@, "p90"@);
    lemma_len_rules_out("xm1014"@, "revolver"@);
    lemma_len_rules_out("xm1014"@, "sawedoff"@);
    lemma_char_rules_out("xm1014"@, "scar20"@, 0);
    lemma_len_rules_out("xm1014"@, "sg556"@);
    lemma_len_rules_out("xm1014"@, "ssg08"@);
    lemma_len_rules_out("xm1014"@, "tec9"@);
    lemma_len_rules_out("xm1014"@, "ump45"@);
    lemma_len_rules_out("xm1014"@, "usp_silencer"@);
}

/// A weapon that is none of the listed ones is assumed to have penetration
/// power 10 tenths (1.0) and base damage 30.
pub proof fn lemma_unknown_weapon_defaults(name: Seq<char>)
    requires
        name != "ak47"@ && name != "aug"@ && name != "awp"@ && name != "bizon"@ && name != "cz75a"@ && name != "deagle"@ && name != "elite"@ && name != "famas"@ && name != "fiveseven"@ && name != "g3sg1"@ && name != "galilar"@ && name != "glock"@ && name != "hkp2000"@ && name != "m249"@ && name != "m4a1"@ && name != "m4a1_silencer"@ && name != "m4a1_silencer_off"@ && name != "mac10"@ && name != "mag7"@ && name != "mp5sd"@ && name != "mp7"@ && name != "mp9"@ && name != "negev"@ && name != "nova"@ && name != "p250"@ && name != "p90"@ && name != "revolver"@ && name != "sawedoff"@ && name != "scar20"@ && name != "sg556"@ && name != "ssg08"@ && name != "taser"@ && name != "tec9"@ && name != "ump45"@ && name != "usp_silencer"@ && name != "usp_silencer_off"@ && name != "xm1014"@,
    ensures
        weapon_penetration_tenths(name) == 10,
        weapon_damage(name) == 30,
{
}

/// Penetration modifier, surface index by surface index, in tenths; every
/// index past the last surface gets 5.
pub proof fn lemma_surface_penetration_values()
    ensures
        surface_penetration_tenths(0) == 5,
        surface_penetration_tenths(1) == 5,
        surface_penetration_tenths(2) == 1,
        surface_penetration_tenths(3) == 10,
        surface_penetration_tenths(4) == 10,
        surface_penetration_tenths(5) == 6,
        surface_penetration_tenths(6) == 15,
        surface_penetration_tenths(7) == 4,
        surface_penetration_tenths(8) == 5,
        surface_penetration_tenths(9) == 5,
        surface_penetration_tenths(10) == 20,
        surface_penetration_tenths(11) == 12,
        surface_penetration_tenths(12) == 6,
        surface_penetration_tenths(13) == 4,
        surface_penetration_tenths(14) == 5,
        surface_penetration_tenths(15) == 8,
        surface_penetration_tenths(16) == 5,
        surface_penetration_tenths(17) == 15,
        surface_penetration_tenths(18) == 10,
        forall|i: u8| i > 18 ==> surface_penetration_tenths(i) == 5,
{
}

/// Damage modifier, surface index by surface index, in tenths; every index
/// past the last surface gets 5.
pub proof fn lemma_surface_damage_values()
    ensures
        surface_damage_tenths(0) == 7,
        surface_damage_tenths(1) == 7,
        surface_damage_tenths(2) == 9,
        surface_damage_tenths(3) == 4,
        surface_damage_tenths(4) == 3,
        surface_damage_tenths(5) == 6,
        surface_damage_tenths(6) == 2,
        surface_damage_tenths(7) == 8,
        surface_damage_tenths(8) == 5,
        surface_damage_tenths(9) == 5,
        surface_damage_tenths(10) == 1,
        surface_damage_tenths(11) == 3,
        surface_damage_tenths(12) == 5,
        surface_damage_tenths(13) == 7,
        surface_damage_tenths(14) == 6,
        surface_damage_tenths(15) == 3,
        surface_damage_tenths(16) == 5,
        surface_damage_tenths(17) == 1,
        surface_damage_tenths(18) == 3,
        forall|i: u8| i > 18 ==> surface_damage_tenths(i) == 5,
{
}

} // verus!

verus! {

// ---------------------------------------------------------------------------
// Surface name rules
// ---------------------------------------------------------------------------

/// A string extended by any suffix has the string as a prefix.
proof fn lemma_concat_prefix(p: Seq<char>, s: Seq<char>)
    ensures
        has_prefix(p + s, p),
{
    assert((p + s).subrange(0, p.len() as int) =~= p);
}

/// Two strings with the same beginning compare as their remainders do.
proof fn lemma_concat_common(p: Seq<char>, s: Seq<char>, q: Seq<char>)
    ensures
        has_prefix(p + s, p + q) == has_prefix(s, q),
        (p + s == p + q) == (s == q),
{
    if has_prefix(s, q) {
        assert((p + s).subrange(0, (p + q).len() as int) =~= p + q);
    }
    if has_prefix(p + s, p + q) {
        assert forall|i: int| 0 <= i < q.len() implies s[i] == q[i] by {
            assert((p + s).subrange(0, (p + q).len() as int)[p.len() + i] == (p + q)[p.len() + i]);
        }
        assert(s.subrange(0, q.len() as int) =~= q);
    }
    if p + s == p + q {
        assert(s =~= (p + s).subrange(p.len() as int, (p + s).len() as int));
        assert(q =~= (p + q).subrange(p.len() as int, (p + q).len() as int));
    }
}

/// Strings of different lengths differ.
proof fn lemma_len_rules_out(a: Seq<char>, b: Seq<char>)
    requires
        a.len() != b.len(),
    ensures
        a != b,
{
}

/// A string that differs from `b` at a position both have neither equals
/// `b` nor begins with it.
proof fn lemma_char_rules_out(a: Seq<char>, b: Seq<char>, i: int)
    requires
        0 <= i < a.len(),
        i < b.len(),
        a[i] != b[i],
    ensures
        !has_prefix(a, b),
        a != b,
{
    if has_prefix(a, b) {
        assert(a.subrange(0, b.len() as int)[i] == a[i]);
    }
}

/// A name that begins with the name of one of these materials is of that
/// material, whatever follows: carpet 15, chainlink 10, concrete 0, dirt 8,
/// glass 6, plastic 18, rock 7, sand 9, tile 14.
pub proof fn lemma_surface_prefix_rules(s: Seq<char>)
    ensures
        surface_index_of("carpet"@ + s) == 15,
        surface_index_of("chainlink"@ + s) == 10,
        surface_index_of("concrete"@ + s) == 0,
        surface_index_of("dirt"@ + s) == 8,
        surface_index_of("glass"@ + s) == 6,
        surface_index_of("plastic"@ + s) == 18,
        surface_index_of("rock"@ + s) == 7,
        surface_index_of("sand"@ + s) == 9,
        surface_index_of("tile"@ + s) == 14,
{
    reveal_strlit("asphalt");
    reveal_strlit("carpet");
    reveal_strlit("chainlink");
    reveal_strlit("concrete");
    reveal_strlit("dirt");
    reveal_strlit("glass");
    reveal_strlit("grate");
    reveal_strlit("metal");
    reveal_strlit("metal_sand");
    reveal_strlit("metal_vehiclesoundoverride");
    reveal_strlit("metalgrate");
    reveal_strlit("metalpanel");
    reveal_strlit("metalvehicle");
    reveal_strlit("metalvent");
    reveal_strlit("mud");
    reveal_strlit("plastic");
    reveal_strlit("porcelain");
    reveal_strlit("rock");
    reveal_strlit("rubber");
    reveal_strlit("rubbertire");
    reveal_strlit("sand");
    reveal_strlit("solidmetal");
    reveal_strlit("tile");
    reveal_strlit("wood");
    reveal_strlit("wood_dense");
    reveal_strlit("wood_panel");
    lemma_char_rules_out("carpet"@ + s, "asphalt"@, 0);
    lemma_char_rules_out("carpet"@ + s, "chainlink"@, 1);
    lemma_char_rules_out("carpet"@ + s, "concrete"@, 1);
    lemma_char_rules_out("carpet"@ + s, "dirt"@, 0);
    lemma_char_rules_out("carpet"@ + s, "glass"@, 0);
    lemma_char_rules_out("carpet"@ + s, "grate"@, 0);
    lemma_char_rules_out("carpet"@ + s, "metal"@, 0);
    lemma_char_rules_out("carpet"@ + s, "metal_sand"@, 0);
    lemma_char_rules_out("carpet"@ + s, "metal_vehiclesoundoverride"@, 0);
    lemma_char_rules_out("carpet"@ + s, "metalgrate"@, 0);
    lemma_char_rules_out("carpet"@ + s, "metalpanel"@, 0);
    lemma_char_rules_out("carpet"@ + s, "metalvehicle"@, 0);
    lemma_char_rules_out("carpet"@ + s, "metalvent"@, 0);
    lemma_char_rules_out("carpet"@ + s, "mud"@, 0);
    lemma_char_rules_out("carpet"@ + s, "porcelain"@, 0);
    lemma_char_rules_out("carpet"@ + s, "rock"@, 0);
    lemma_char_rules_out("carpet"@ + s, "sand"@, 0);
    lemma_char_rules_out("carpet"@ + s, "solidmetal"@, 0);
    lemma_char_rules_out("carpet"@ + s, "tile"@, 0);
    lemma_char_rules_out("carpet"@ + s, "wood"@, 0);
    lemma_char_rules_out("carpet"@ + s, "wood_dense"@, 0);
    lemma_char_rules_out("carpet"@ + s, "wood_panel"@, 0);
    lemma_char_rules_out("chainlink"@ + s, "asphalt"@, 0);
    lemma_char_rules_out("chainlink"@ + s, "concrete"@, 1);
    lemma_char_rules_out("chainlink"@ + s, "dirt"@, 0);
    lemma_char_rules_out("chainlink"@ + s, "glass"@, 0);
    lemma_char_rules_out("chainlink"@ + s, "grate"@, 0);
    lemma_char_rules_out("chainlink"@ + s, "metal"@, 0);
    lemma_char_rules_out("chainlink"@ + s, "metal_sand"@, 0);
    lemma_char_rules_out("chainlink"@ + s, "metal_vehiclesoundoverride"@, 0);
    lemma_char_rules_out("chainlink"@ + s, "metalgrate"@, 0);
    lemma_char_rules_out("chainlink"@ + s, "metalpanel"@, 0);
    lemma_char_rules_out("chainlink"@ + s, "metalvehicle"@, 0);
    lemma_char_rules_out("chainlink"@ + s, "metalvent"@, 0);
    lemma_char_rules_out("chainlink"@ + s, "mud"@, 0);
    lemma_char_rules_out("chainlink"@ + s, "porcelain"@, 0);
    lemma_char_rules_out("chainlink"@ + s, "rock"@, 0);
    lemma_char_rules_out("chainlink"@ + s, "sand"@, 0);
    lemma_char_rules_out("chainlink"@ + s, "solidmetal"@, 0);
    lemma_char_rules_out("chainlink"@ + s, "wood"@, 0);
    lemma_char_rules_out("chainlink"@ + s, "wood_dense"@, 0);
    lemma_char_rules_out("chainlink"@ + s, "wood_panel"@, 0);
    lemma_char_rules_out("dirt"@ + s, "asphalt"@, 0);
    lemma_char_rules_out("dirt"@ + s, "concrete"@, 0);
    lemma_char_rules_out("dirt"@ + s, "glass"@, 0);
    lemma_char_rules_out("dirt"@ + s, "grate"@, 0);
    lemma_char_rules_out("dirt"@ + s, "metal"@, 0);
    lemma_char_rules_out("dirt"@ + s, "metal_sand"@, 0);
    lemma_char_rules_out("dirt"@ + s, "metal_vehiclesoundoverride"@, 0);
    lemma_char_rules_out("dirt"@ + s, "metalgrate"@, 0);
    lemma_char_rules_out("dirt"@ + s, "metalpanel"@, 0);
    lemma_char_rules_out("dirt"@ + s, "metalvehicle"@, 0);
    lemma_char_rules_out("dirt"@ + s, "metalvent"@, 0);
    lemma_char_rules_out("dirt"@ + s, "porcelain"@, 0);
    lemma_char_rules_out("dirt"@ + s, "rock"@, 0);
    lemma_char_rules_out("dirt"@ + s, "solidmetal"@, 0);
    lemma_char_rules_out("dirt"@ + s, "wood"@, 0);
    lemma_char_rules_out("dirt"@ + s, "wood_dense"@, 0);
    lemma_char_rules_out("dirt"@ + s, "wood_panel"@, 0);
    lemma_char_rules_out("glass"@ + s, "asphalt"@, 0);
    lemma_char_rules_out("glass"@ + s, "concrete"@, 0);
    lemma_char_rules_out("glass"@ + s, "grate"@, 1);
    lemma_char_rules_out("glass"@ + s, "metal"@, 0);
    lemma_char_rules_out("glass"@ + s, "metal_sand"@, 0);
    lemma_char_rules_out("glass"@ + s, "metal_vehiclesoundoverride"@, 0);
    lemma_char_rules_out("glass"@ + s, "metalgrate"@, 0);
    lemma_char_rules_out("glass"@ + s, "metalpanel"@, 0);
    lemma_char_rules_out("glass"@ + s, "metalvehicle"@, 0);
    lemma_char_rules_out("glass"@ + s, "metalvent"@, 0);
    lemma_char_rules_out("glass"@ + s, "porcelain"@, 0);
    lemma_char_rules_out("glass"@ + s, "solidmetal"@, 0);
    lemma_char_rules_out("glass"@ + s, "wood"@, 0);
    lemma_char_rules_out("glass"@ + s, "wood_dense"@, 0);
    lemma_char_rules_out("glass"@ + s, "wood_panel"@, 0);
    lemma_char_rules_out("plastic"@ + s, "asphalt"@, 0);
    lemma_char_rules_out("plastic"@ + s, "carpet"@, 0);
    lemma_char_rules_out("plastic"@ + s, "chainlink"@, 0);
    lemma_char_rules_out("plastic"@ + s, "concrete"@, 0);
    lemma_char_rules_out("plastic"@ + s, "dirt"@, 0);
    lemma_char_rules_out("plastic"@ + s, "glass"@, 0);
    lemma_char_rules_out("plastic"@ + s, "grate"@, 0);
    lemma_char_rules_out("plastic"@ + s, "metal"@, 0);
    lemma_char_rules_out("plastic"@ + s, "metal_sand"@, 0);
    lemma_char_rules_out("plastic"@ + s, "metal_vehiclesoundoverride"@, 0);
    lemma_char_rules_out("plastic"@ + s, "metalgrate"@, 0);
    lemma_char_rules_out("plastic"@ + s, "metalpanel"@, 0);
    lemma_char_rules_out("plastic"@ + s, "metalvehicle"@, 0);
    lemma_char_rules_out("plastic"@ + s, "metalvent"@, 0);
    lemma_char_rules_out("plastic"@ + s, "mud"@, 0);
    lemma_char_rules_out("plastic"@ + s, "porcelain"@, 1);
    lemma_char_rules_out("plastic"@ + s, "rock"@, 0);
    lemma_char_rules_out("plastic"@ + s, "sand"@, 0);
    lemma_char_rules_out("plastic"@ + s, "solidmetal"@, 0);
    lemma_char_rules_out("plastic"@ + s, "tile"@, 0);
    lemma_char_rules_out("plastic"@ + s, "wood"@, 0);
    lemma_char_rules_out("plastic"@ + s, "wood_dense"@, 0);
    lemma_char_rules_out("plastic"@ + s, "wood_panel"@, 0);
    lemma_char_rules_out("rock"@ + s, "asphalt"@, 0);
    lemma_char_rules_out("rock"@ + s, "concrete"@, 0);
    lemma_char_rules_out("rock"@ + s, "glass"@, 0);
    lemma_char_rules_out("rock"@ + s, "grate"@, 0);
    lemma_char_rules_out("rock"@ + s, "metal"@, 0);
    lemma_char_rules_out("rock"@ + s, "metal_sand"@, 0);
    lemma_char_rules_out("rock"@ + s, "metal_vehiclesoundoverride"@, 0);
    lemma_char_rules_out("rock"@ + s, "metalgrate"@, 0);
    lemma_char_rules_out("rock"@ + s, "metalpanel"@, 0);
    lemma_char_rules_out("rock"@ + s, "metalvehicle"@, 0);
    lemma_char_rules_out("rock"@ + s, "metalvent"@, 0);
    lemma_char_rules_out("rock"@ + s, "porcelain"@, 0);
    lemma_char_rules_out("rock"@ + s, "solidmetal"@, 0);
    lemma_char_rules_out("rock"@ + s, "wood"@, 0);
    lemma_char_rules_out("rock"@ + s, "wood_dense"@, 0);
    lemma_char_rules_out("rock"@ + s, "wood_panel"@, 0);
    lemma_char_rules_out("sand"@ + s, "asphalt"@, 0);
    lemma_char_rules_out("sand"@ + s, "concrete"@, 0);
    lemma_char_rules_out("sand"@ + s, "dirt"@, 0);
    lemma_char_rules_out("sand"@ + s, "glass"@, 0);
    lemma_char_rules_out("sand"@ + s, "grate"@, 0);
    lemma_char_rules_out("sand"@ + s, "metal"@, 0);
    lemma_char_rules_out("sand"@ + s, "metal_sand"@, 0);
    lemma_char_rules_out("sand"@ + s, "metal_vehiclesoundoverride"@, 0);
    lemma_char_rules_out("sand"@ + s, "metalgrate"@, 0);
    lemma_char_rules_out("sand"@ + s, "metalpanel"@, 0);
    lemma_char_rules_out("sand"@ + s, "metalvehicle"@, 0);
    lemma_char_rules_out("sand"@ + s, "metalvent"@, 0);
    lemma_char_rules_out("sand"@ + s, "mud"@, 0);
    lemma_char_rules_out("sand"@ + s, "porcelain"@, 0);
    lemma_char_rules_out("sand"@ + s, "rock"@, 0);
    lemma_char_rules_out("sand"@ + s, "solidmetal"@, 1);
    lemma_char_rules_out("sand"@ + s, "wood"@, 0);
    lemma_char_rules_out("sand"@ + s, "wood_dense"@, 0);
    lemma_char_rules_out("sand"@ + s, "wood_panel"@, 0);
    lemma_char_rules_out("tile"@ + s, "asphalt"@, 0);
    lemma_char_rules_out("tile"@ + s, "chainlink"@, 0);
    lemma_char_rules_out("tile"@ + s, "concrete"@, 0);
    lemma_char_rules_out("tile"@ + s, "dirt"@, 0);
    lemma_char_rules_out("tile"@ + s, "glass"@, 0);
    lemma_char_rules_out("tile"@ + s, "grate"@, 0);
    lemma_char_rules_out("tile"@ + s, "metal"@, 0);
    lemma_char_rules_out("tile"@ + s, "metal_sand"@, 0);
    lemma_char_rules_out("tile"@ + s, "metal_vehiclesoundoverride"@, 0);
    lemma_char_rules_out("tile"@ + s, "metalgrate"@, 0);
    lemma_char_rules_out("tile"@ + s, "metalpanel"@, 0);
    lemma_char_rules_out("tile"@ + s, "metalvehicle"@, 0);
    lemma_char_rules_out("tile"@ + s, "metalvent"@, 0);
    lemma_char_rules_out("tile"@ + s, "mud"@, 0);
    lemma_char_rules_out("tile"@ + s, "porcelain"@, 0);
    lemma_char_rules_out("tile"@ + s, "rock"@, 0);
    lemma_char_rules_out("tile"@ + s, "sand"@, 0);
    lemma_char_rules_out("tile"@ + s, "solidmetal"@, 0);
    lemma_char_rules_out("tile"@ + s, "wood"@, 0);
    lemma_char_rules_out("tile"@ + s, "wood_dense"@, 0);
    lemma_char_rules_out("tile"@ + s, "wood_panel"@, 0);
    lemma_concat_prefix("carpet"@, s);
    lemma_concat_prefix("chainlink"@, s);
    lemma_concat_prefix("concrete"@, s);
    lemma_concat_prefix("dirt"@, s);
    lemma_concat_prefix("glass"@, s);
    lemma_concat_prefix("plastic"@, s);
    lemma_concat_prefix("rock"@, s);
    lemma_concat_prefix("sand"@, s);
    lemma_concat_prefix("tile"@, s);
}

/// Names classified only when they match exactly: asphalt and porcelain are
/// concrete (0), grate is a grate (17), mud is dirt (8), rubber and
/// rubbertire are plastic (18), solidmetal is solid metal (2).
pub proof fn lemma_surface_exact_names()
    ensures
        surface_index_of("asphalt"@) == 0,
        surface_index_of("grate"@) == 17,
        surface_index_of("mud"@) == 8,
        surface_index_of("porcelain"@) == 0,
        surface_index_of("rubber"@) == 18,
        surface_index_of("rubbertire"@) == 18,
        surface_index_of("solidmetal"@) == 2,
{
    reveal_strlit("asphalt");
    reveal_strlit("carpet");
    reveal_strlit("chainlink");
    reveal_strlit("concrete");
    reveal_strlit("dirt");
    reveal_strlit("glass");
    reveal_strlit("grate");
    reveal_strlit("metal");
    reveal_strlit("metal_sand");
    reveal_strlit("metal_vehiclesoundoverride");
    reveal_strlit("metalgrate");
    reveal_strlit("metalpanel");
    reveal_strlit("metalvehicle");
    reveal_strlit("metalvent");
    reveal_strlit("mud");
    reveal_strlit("plastic");
    reveal_strlit("porcelain");
    reveal_strlit("rock");
    reveal_strlit("rubber");
    reveal_strlit("rubbertire");
    reveal_strlit("sand");
    reveal_strlit("solidmetal");
    reveal_strlit("tile");
    reveal_strlit("wood");
    reveal_strlit("wood_dense");
    reveal_strlit("wood_panel");
    lemma_char_rules_out("grate"@, "asphalt"@, 0);
    lemma_char_rules_out("grate"@, "concrete"@, 0);
    lemma_char_rules_out("grate"@, "metal_sand"@, 0);
    lemma_char_rules_out("grate"@, "metal_vehiclesoundoverride"@, 0);
    lemma_char_rules_out("grate"@, "metalpanel"@, 0);
    lemma_char_rules_out("grate"@, "metalvehicle"@, 0);
    lemma_char_rules_out("grate"@, "metalvent"@, 0);
    lemma_char_rules_out("grate"@, "porcelain"@, 0);
    lemma_char_rules_out("grate"@, "solidmetal"@, 0);
    lemma_char_rules_out("mud"@, "asphalt"@, 0);
    lemma_char_rules_out("mud"@, "concrete"@, 0);
    lemma_char_rules_out("mud"@, "glass"@, 0);
    lemma_char_rules_out("mud"@, "grate"@, 0);
    lemma_char_rules_out("mud"@, "metal"@, 1);
    lemma_char_rules_out("mud"@, "metal_sand"@, 1);
    lemma_char_rules_out("mud"@, "metal_vehiclesoundoverride"@, 1);
    lemma_char_rules_out("mud"@, "metalgrate"@, 1);
    lemma_char_rules_out("mud"@, "metalpanel"@, 1);
    lemma_char_rules_out("mud"@, "metalvehicle"@, 1);
    lemma_char_rules_out("mud"@, "metalvent"@, 1);
    lemma_char_rules_out("mud"@, "porcelain"@, 0);
    lemma_char_rules_out("mud"@, "rock"@, 0);
    lemma_char_rules_out("mud"@, "solidmetal"@, 0);
    lemma_char_rules_out("mud"@, "wood"@, 0);
    lemma_char_rules_out("mud"@, "wood_dense"@, 0);
    lemma_char_rules_out("mud"@, "wood_panel"@, 0);
    lemma_char_rules_out("rubber"@, "asphalt"@, 0);
    lemma_char_rules_out("rubber"@, "carpet"@, 0);
    lemma_char_rules_out("rubber"@, "chainlink"@, 0);
    lemma_char_rules_out("rubber"@, "concrete"@, 0);
    lemma_char_rules_out("rubber"@, "dirt"@, 0);
    lemma_char_rules_out("rubber"@, "glass"@, 0);
    lemma_char_rules_out("rubber"@, "grate"@, 0);
    lemma_char_rules_out("rubber"@, "metal"@, 0);
    lemma_char_rules_out("rubber"@, "metal_sand"@, 0);
    lemma_char_rules_out("rubber"@, "metal_vehiclesoundoverride"@, 0);
    lemma_char_rules_out("rubber"@, "metalgrate"@, 0);
    lemma_char_rules_out("rubber"@, "metalpanel"@, 0);
    lemma_char_rules_out("rubber"@, "metalvehicle"@, 0);
    lemma_char_rules_out("rubber"@, "metalvent"@, 0);
    lemma_char_rules_out("rubber"@, "mud"@, 0);
    lemma_char_rules_out("rubber"@, "porcelain"@, 0);
    lemma_char_rules_out("rubber"@, "rock"@, 1);
    lemma_char_rules_out("rubber"@, "sand"@, 0);
    lemma_char_rules_out("rubber"@, "solidmetal"@, 0);
    lemma_char_rules_out("rubber"@, "tile"@, 0);
    lemma_char_rules_out("rubber"@, "wood"@, 0);
    lemma_char_rules_out("rubber"@, "wood_dense"@, 0);
    lemma_char_rules_out("rubber"@, "wood_panel"@, 0);
    lemma_char_rules_out("rubbertire"@, "asphalt"@, 0);
    lemma_char_rules_out("rubbertire"@, "carpet"@, 0);
    lemma_char_rules_out("rubbertire"@, "chainlink"@, 0);
    lemma_char_rules_out("rubbertire"@, "concrete"@, 0);
    lemma_char_rules_out("rubbertire"@, "dirt"@, 0);
    lemma_char_rules_out("rubbertire"@, "glass"@, 0);
    lemma_char_rules_out("rubbertire"@, "grate"@, 0);
    lemma_char_rules_out("rubbertire"@, "metal"@, 0);
    lemma_char_rules_out("rubbertire"@, "metal_sand"@, 0);
    lemma_char_rules_out("rubbertire"@, "metal_vehiclesoundoverride"@, 0);
    lemma_char_rules_out("rubbertire"@, "metalgrate"@, 0);
    lemma_char_rules_out("rubbertire"@, "metalpanel"@, 0);
    lemma_char_rules_out("rubbertire"@, "metalvehicle"@, 0);
    lemma_char_rules_out("rubbertire"@, "metalvent"@, 0);
    lemma_char_rules_out("rubbertire"@, "mud"@, 0);
    lemma_char_rules_out("rubbertire"@, "porcelain"@, 0);
    lemma_char_rules_out("rubbertire"@, "rock"@, 1);
    lemma_char_rules_out("rubbertire"@, "sand"@, 0);
    lemma_char_rules_out("rubbertire"@, "solidmetal"@, 0);
    lemma_char_rules_out("rubbertire"@, "tile"@, 0);
    lemma_char_rules_out("rubbertire"@, "wood"@, 0);
    lemma_char_rules_out("rubbertire"@, "wood_dense"@, 0);
    lemma_char_rules_out("rubbertire"@, "wood_panel"@, 0);
    lemma_char_rules_out("solidmetal"@, "asphalt"@, 0);
    lemma_char_rules_out("solidmetal"@, "concrete"@, 0);
    lemma_char_rules_out("solidmetal"@, "porcelain"@, 0);
}

/// A name that begins with "metal" is metal (1), except the vehicle metals
/// (followed by "_sand…" or "vehicle…", or exactly
/// "metal_vehiclesoundoverride": 13), the vent (exactly "metalvent": 11),
/// the panel (exactly "metalpanel": 12) and the grates ("metalgrate…": 17).
pub proof fn lemma_surface_metal_rules(s: Seq<char>)
    ensures
        surface_index_of("metal"@ + s) == (if has_prefix(s, "_sand"@) || has_prefix(s, "vehicle"@)
            || s == "_vehiclesoundoverride"@ {
            13u8
        } else if s == "vent"@ {
            11u8
        } else if s == "panel"@ {
            12u8
        } else if has_prefix(s, "grate"@) {
            17u8
        } else {
            1u8
        }),
{
    reveal_strlit("asphalt");
    reveal_strlit("carpet");
    reveal_strlit("chainlink");
    reveal_strlit("concrete");
    reveal_strlit("dirt");
    reveal_strlit("glass");
    reveal_strlit("grate");
    reveal_strlit("metal");
    reveal_strlit("metal_sand");
    reveal_strlit("metal_vehiclesoundoverride");
    reveal_strlit("metalgrate");
    reveal_strlit("metalpanel");
    reveal_strlit("metalvehicle");
    reveal_strlit("metalvent");
    reveal_strlit("mud");
    reveal_strlit("plastic");
    reveal_strlit("porcelain");
    reveal_strlit("rock");
    reveal_strlit("rubber");
    reveal_strlit("rubbertire");
    reveal_strlit("sand");
    reveal_strlit("solidmetal");
    reveal_strlit("tile");
    reveal_strlit("wood");
    reveal_strlit("wood_dense");
    reveal_strlit("wood_panel");
    reveal_strlit("_sand");
    reveal_strlit("_vehiclesoundoverride");
    reveal_strlit("panel");
    reveal_strlit("vehicle");
    reveal_strlit("vent");
    lemma_char_rules_out("metal"@ + s, "asphalt"@, 0);
    lemma_char_rules_out("metal"@ + s, "concrete"@, 0);
    lemma_char_rules_out("metal"@ + s, "porcelain"@, 0);
    lemma_char_rules_out("metal"@ + s, "solidmetal"@, 0);
    lemma_char_rules_out("metal"@ + s, "grate"@, 0);
    assert("metal_sand"@ =~= "metal"@ + "_sand"@);
    assert("metalvehicle"@ =~= "metal"@ + "vehicle"@);
    assert("metal_vehiclesoundoverride"@ =~= "metal"@ + "_vehiclesoundoverride"@);
    assert("metalvent"@ =~= "metal"@ + "vent"@);
    assert("metalpanel"@ =~= "metal"@ + "panel"@);
    assert("metalgrate"@ =~= "metal"@ + "grate"@);
    lemma_concat_common("metal"@, s, "_sand"@);
    lemma_concat_common("metal"@, s, "vehicle"@);
    lemma_concat_common("metal"@, s, "_vehiclesoundoverride"@);
    lemma_concat_common("metal"@, s, "vent"@);
    lemma_concat_common("metal"@, s, "panel"@);
    lemma_concat_common("metal"@, s, "grate"@);
    lemma_concat_prefix("metal"@, s);
}

/// A name that begins with "wood" is wood (3), except exactly "wood_panel"
/// (4) and exactly "wood_dense" (5).
pub proof fn lemma_surface_wood_rules(s: Seq<char>)
    ensures
        surface_index_of("wood"@ + s) == (if s == "_panel"@ {
            4u8
        } else if s == "_dense"@ {
            5u8
        } else {
            3u8
        }),
{
    reveal_strlit("asphalt");
    reveal_strlit("carpet");
    reveal_strlit("chainlink");
    reveal_strlit("concrete");
    reveal_strlit("dirt");
    reveal_strlit("glass");
    reveal_strlit("grate");
    reveal_strlit("metal");
    reveal_strlit("metal_sand");
    reveal_strlit("metal_vehiclesoundoverride");
    reveal_strlit("metalgrate");
    reveal_strlit("metalpanel");
    reveal_strlit("metalvehicle");
    reveal_strlit("metalvent");
    reveal_strlit("mud");
    reveal_strlit("plastic");
    reveal_strlit("porcelain");
    reveal_strlit("rock");
    reveal_strlit("rubber");
    reveal_strlit("rubbertire");
    reveal_strlit("sand");
    reveal_strlit("solidmetal");
    reveal_strlit("tile");
    reveal_strlit("wood");
    reveal_strlit("wood_dense");
    reveal_strlit("wood_panel");
    reveal_strlit("_dense");
    reveal_strlit("_panel");
    lemma_char_rules_out("wood"@ + s, "asphalt"@, 0);
    lemma_char_rules_out("wood"@ + s, "concrete"@, 0);
    lemma_char_rules_out("wood"@ + s, "grate"@, 0);
    lemma_char_rules_out("wood"@ + s, "metal"@, 0);
    lemma_char_rules_out("wood"@ + s, "metal_sand"@, 0);
    lemma_char_rules_out("wood"@ + s, "metal_vehiclesoundoverride"@, 0);
    lemma_char_rules_out("wood"@ + s, "metalgrate"@, 0);
    lemma_char_rules_out("wood"@ + s, "metalpanel"@, 0);
    lemma_char_rules_out("wood"@ + s, "metalvehicle"@, 0);
    lemma_char_rules_out("wood"@ + s, "metalvent"@, 0);
    lemma_char_rules_out("wood"@ + s, "porcelain"@, 0);
    lemma_char_rules_out("wood"@ + s, "solidmetal"@, 0);
    assert("wood_panel"@ =~= "wood"@ + "_panel"@);
    assert("wood_dense"@ =~= "wood"@ + "_dense"@);
    lemma_concat_common("wood"@, s, "_panel"@);
    lemma_concat_common("wood"@, s, "_dense"@);
    lemma_concat_prefix("wood"@, s);
}

/// A name that begins with no material's name and is none of the exact
/// names is of the default surface (16).
pub proof fn lemma_surface_default_name(lower: Seq<char>)
    requires
        !has_prefix(lower, "carpet"@),
        !has_prefix(lower, "chainlink"@),
        !has_prefix(lower, "concrete"@),
        !has_prefix(lower, "dirt"@),
        !has_prefix(lower, "glass"@),
        !has_prefix(lower, "metal"@),
        !has_prefix(lower, "metal_sand"@),
        !has_prefix(lower, "metalgrate"@),
        !has_prefix(lower, "metalvehicle"@),
        !has_prefix(lower, "plastic"@),
        !has_prefix(lower, "rock"@),
        !has_prefix(lower, "sand"@),
        !has_prefix(lower, "tile"@),
        !has_prefix(lower, "wood"@),
        lower != "asphalt"@,
        lower != "grate"@,
        lower != "metal_vehiclesoundoverride"@,
        lower != "metalpanel"@,
        lower != "metalvent"@,
        lower != "mud"@,
        lower != "porcelain"@,
        lower != "rubber"@,
        lower != "rubbertire"@,
        lower != "solidmetal"@,
        lower != "wood_dense"@,
        lower != "wood_panel"@,
    ensures
        surface_index_of(lower) == 16,
{
}

} // verus!
