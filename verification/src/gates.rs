//! The decisions that let the aimbot aim and the triggerbot fire: plain
//! checks over the settings and over what was read from the game.
use vstd::prelude::*;

verus! {

/// The class of the weapon the local player holds.
#[derive(Debug, Clone, Copy, PartialEq, Eq, Structural)]
pub enum WeaponClass {
    Unknown,
    Knife,
    Pistol,
    Smg,
    Heavy,
    Shotgun,
    Rifle,
    Sniper,
    Grenade,
}

/// Whether the aimbot may aim with a weapon of this class: not with an
/// unknown weapon, a knife or a grenade.
pub fn aims_with(class: WeaponClass) -> (ok: bool)
    ensures
        ok == !(class is Unknown || class is Knife || class is Grenade),
{
    match class {
        WeaponClass::Unknown | WeaponClass::Knife | WeaponClass::Grenade => false,
        _ => true,
    }
}

/// The aimbot's settings that gate aiming.
#[derive(Debug, Clone, Copy, PartialEq, Eq)]
pub struct AimGates {
    pub enabled: bool,
    /// Whether the hotkey (in the configured activation mode) currently
    /// holds the aimbot active.
    pub hotkey_active: bool,
    pub flash_check: bool,
    pub visibility_check: bool,
    pub autowall: bool,
    /// The first bullet of a spray the aimbot helps with.
    pub start_bullet: i32,
}

/// What was read from the game for one aimbot tick.
#[derive(Debug, Clone, Copy, PartialEq, Eq)]
pub struct AimReadings {
    pub has_target: bool,
    pub target_valid: bool,
    pub has_local_player: bool,
    pub weapon_class: WeaponClass,
    pub flashed: bool,
    /// The target is in line of sight.
    pub visible: bool,
    /// The held weapon can shoot through the cover in between.
    pub penetrable: bool,
    pub shots_fired: i32,
}

/// Whether the aimbot may aim on this tick: it is enabled and held active, a
/// valid target and a local player exist, the weapon can aim, the player is
/// not flashed (when checked), the target is visible or, with autowall,
/// penetrable (when visibility is checked), and the spray has reached the
/// start bullet.
pub fn aim_allowed(g: &AimGates, r: &AimReadings) -> (ok: bool)
    ensures
        ok == (g.enabled && g.hotkey_active && r.has_target && r.target_valid
            && r.has_local_player && !(r.weapon_class is Unknown || r.weapon_class is Knife
            || r.weapon_class is Grenade) && !(g.flash_check && r.flashed) && !(
        g.visibility_check && !r.visible && !(g.autowall && r.penetrable))
            && r.shots_fired >= g.start_bullet),
{
    if !g.enabled || !g.hotkey_active {
        return false;
    }
    if !r.has_target || !r.target_valid || !r.has_local_player {
        return false;
    }
    if !aims_with(r.weapon_class) {
        return false;
    }
    if g.flash_check && r.flashed {
        return false;
    }
    if g.visibility_check && !r.visible && !(g.autowall && r.penetrable) {
        return false;
    }
    r.shots_fired >= g.start_bullet
}

/// The triggerbot's settings that gate firing.
#[derive(Debug, Clone, Copy, PartialEq, Eq)]
pub struct TriggerGates {
    pub enabled: bool,
    /// Whether the hotkey (in the configured activation mode) currently
    /// holds the triggerbot active.
    pub hotkey_active: bool,
    pub flash_check: bool,
    pub scope_check: bool,
    pub velocity_check: bool,
    pub head_only: bool,
}

/// What was read from the game for one triggerbot tick.
#[derive(Debug, Clone, Copy, PartialEq, Eq)]
pub struct TriggerReadings {
    pub has_local_player: bool,
    pub flashed: bool,
    /// The local player holds a sniper rifle.
    pub is_sniper: bool,
    pub scoped: bool,
    /// The local player moves faster than the configured threshold.
    pub over_velocity_threshold: bool,
    /// A player is under the crosshair.
    pub has_crosshair_target: bool,
    /// Free-for-all: every player is an enemy.
    pub ffa: bool,
    pub target_team: u8,
    pub local_team: u8,
    /// The crosshair lies within the target's head radius.
    pub head_in_fov: bool,
}

/// The player under the crosshair counts as an enemy: there is one, and it
/// is free-for-all or the player is on the other team.
pub open spec fn is_enemy(has_target: bool, ffa: bool, target_team: u8, local_team: u8) -> bool {
    has_target && (ffa || target_team != local_team)
}

/// Whether the player under the crosshair is an enemy.
pub fn enemy_under_crosshair(has_target: bool, ffa: bool, target_team: u8, local_team: u8) -> (ok:
    bool)
    ensures
        ok == is_enemy(has_target, ffa, target_team, local_team),
{
    has_target && (ffa || target_team != local_team)
}

/// The triggerbot's gates after arming: a local player exists and is not
/// flashed (when checked), holds no unscoped sniper (when checked), does not
/// move too fast (when checked), an enemy is under the crosshair, and in
/// head-only mode the crosshair is on the head.
pub open spec fn trigger_readings_pass(g: TriggerGates, r: TriggerReadings) -> bool {
    &&& r.has_local_player
    &&& !(g.flash_check && r.flashed)
    &&& !(g.scope_check && r.is_sniper && !r.scoped)
    &&& !(g.velocity_check && r.over_velocity_threshold)
    &&& is_enemy(r.has_crosshair_target, r.ffa, r.target_team, r.local_team)
    &&& !(g.head_only && !r.head_in_fov)
}

/// Whether the triggerbot's gates after arming let it fire.
pub fn trigger_readings_allow(g: &TriggerGates, r: &TriggerReadings) -> (ok: bool)
    ensures
        ok == trigger_readings_pass(*g, *r),
{
    if !r.has_local_player {
        return false;
    }
    if g.flash_check && r.flashed {
        return false;
    }
    if g.scope_check && r.is_sniper && !r.scoped {
        return false;
    }
    if g.velocity_check && r.over_velocity_threshold {
        return false;
    }
    if !enemy_under_crosshair(r.has_crosshair_target, r.ffa, r.target_team, r.local_team) {
        return false;
    }
    !(g.head_only && !r.head_in_fov)
}

/// Whether the triggerbot may fire on this tick, pending shots and the
/// refire cooldown aside: it is enabled and held active, and every gate over
/// the readings passes.
pub fn trigger_allowed(g: &TriggerGates, r: &TriggerReadings) -> (ok: bool)
    ensures
        ok == (g.enabled && g.hotkey_active && r.has_local_player && !(g.flash_check
            && r.flashed) && !(g.scope_check && r.is_sniper && !r.scoped) && !(g.velocity_check
            && r.over_velocity_threshold) && r.has_crosshair_target && (r.ffa || r.target_team
            != r.local_team) && !(g.head_only && !r.head_in_fov)),
{
    g.enabled && g.hotkey_active && trigger_readings_allow(g, r)
}

} // verus!
