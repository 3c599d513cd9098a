//! Weapon kinds and their timing table.

use vstd::prelude::*;

verus! {

/// The weapons a character can hold. The weapon selects the upper-body
/// animation set and the length of its reload and fire actions.
#[derive(Debug, Clone, Copy, PartialEq, Eq, Structural, Hash)]
pub enum WeaponType {
    Rifle,
    Pistol,
    Sniper,
    Knife,
}

impl Default for WeaponType {
    fn default() -> (weapon: Self)
        ensures
            weapon == WeaponType::Rifle,
    {
        WeaponType::Rifle
    }
}

impl WeaponType {
    /// The four weapons in selection-key order.
    pub open spec fn spec_all() -> Seq<WeaponType> {
        seq![WeaponType::Rifle, WeaponType::Pistol, WeaponType::Sniper, WeaponType::Knife]
    }

    /// Milliseconds a reload of this weapon takes; zero for the knife,
    /// which has no reload.
    pub open spec fn spec_reload_duration(&self) -> u32 {
        match self {
            WeaponType::Rifle => 2500,
            WeaponType::Pistol => 1800,
            WeaponType::Sniper => 3500,
            WeaponType::Knife => 0,
        }
    }

    /// Milliseconds that must pass after a shot before the next one.
    pub open spec fn spec_fire_cooldown(&self) -> u32 {
        match self {
            WeaponType::Rifle => 100,
            WeaponType::Pistol => 150,
            WeaponType::Sniper => 1500,
            WeaponType::Knife => 500,
        }
    }

    /// Every weapon, in selection-key order.
    pub fn all() -> (list: &'static [WeaponType])
        ensures
            list@ == Self::spec_all(),
    {
        &[WeaponType::Rifle, WeaponType::Pistol, WeaponType::Sniper, WeaponType::Knife]
    }

    /// Reload duration in milliseconds. The knife does not reload.
    #[verifier::when_used_as_spec(spec_reload_duration)]
    pub fn reload_duration(&self) -> (ms: u32)
        ensures
            ms == self.spec_reload_duration(),
    {
        match self {
            WeaponType::Rifle => 2500,
            WeaponType::Pistol => 1800,
            WeaponType::Sniper => 3500,
            WeaponType::Knife => 0,
        }
    }

    /// Fire cooldown in milliseconds.
    #[verifier::when_used_as_spec(spec_fire_cooldown)]
    pub fn fire_cooldown(&self) -> (ms: u32)
        ensures
            ms == self.spec_fire_cooldown(),
    {
        match self {
            WeaponType::Rifle => 100,
            WeaponType::Pistol => 150,
            WeaponType::Sniper => 1500,
            WeaponType::Knife => 500,
        }
    }

    /// Only the knife has no reload, and every weapon, the knife included,
    /// has a cooldown between shots.
    pub proof fn timing_table_is_positive(weapon: WeaponType)
        ensures
            weapon.reload_duration() == 0 <==> weapon == WeaponType::Knife,
            weapon.fire_cooldown() > 0,
    {
    }
}

} // verus!
