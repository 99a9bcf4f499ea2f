use vstd::prelude::*;

verus! {

/// Unique identifier for a player in the game.
pub type PlayerId = usize;

/// Available ammunition types.
#[derive(Debug, Clone, Copy, PartialEq, Eq, Structural)]
pub enum AmmoType {
    /// Heavy projectile: high damage on direct hit, no splash, less affected by wind.
    Cannonball,
    /// Lighter projectile: moderate damage with splash radius, more affected by wind.
    Explosive,
}

impl AmmoType {
    /// The name shown for this ammunition in the HUD.
    pub fn display_name(self) -> (name: &'static str)
        ensures
            self == AmmoType::Cannonball ==> name@ == "Cannonball"@,
            self == AmmoType::Explosive ==> name@ == "Explosive"@,
    {
        match self {
            AmmoType::Cannonball => "Cannonball",
            AmmoType::Explosive => "Explosive",
        }
    }

    /// The other ammunition type: what the ammo switch selects next.
    pub fn switched(self) -> (next: AmmoType)
        ensures
            next == other_ammo(self),
    {
        match self {
            AmmoType::Cannonball => AmmoType::Explosive,
            AmmoType::Explosive => AmmoType::Cannonball,
        }
    }
}

/// The ammunition type that is not `ammo`.
pub open spec fn other_ammo(ammo: AmmoType) -> AmmoType {
    if ammo == AmmoType::Cannonball {
        AmmoType::Explosive
    } else {
        AmmoType::Cannonball
    }
}

/// Switching ammunition twice brings back the first choice, and a switch
/// always changes the selection.
pub proof fn law_switch_ammo_twice(ammo: AmmoType)
    ensures
        other_ammo(ammo) != ammo,
        other_ammo(other_ammo(ammo)) == ammo,
{
}

/// AI difficulty level: controls how accurate the computer's aim is.
#[derive(Debug, Clone, Copy, PartialEq, Eq, Structural)]
pub enum AiDifficulty {
    Easy,
    Medium,
    Hard,
}

} // verus!
