use vstd::prelude::*;
use vstd::string::*;

use crate::map::Actor;

verus! {

/// What one boomerang throw takes off a defender's hit points.
pub const BOOMERANG_DAMAGE: u32 = 3;

/// The weapons that an attack can be made with.
#[derive(Clone, Copy, Debug, PartialEq, Eq, Structural)]
pub enum Weapon {
    Boomerang,
}

pub open spec fn weapon_name(w: Weapon) -> Seq<char> {
    match w {
        Weapon::Boomerang => "Boomerang"@,
    }
}

pub open spec fn base_damage(w: Weapon) -> u32 {
    match w {
        Weapon::Boomerang => BOOMERANG_DAMAGE,
    }
}

/// The damage that `w` applies to a defender with `hp` hit points: its base
/// damage, but never more than the defender has left.
pub open spec fn damage_dealt(w: Weapon, hp: u32) -> u32 {
    if base_damage(w) <= hp {
        base_damage(w)
    } else {
        hp
    }
}

/// `new` is `old` after taking `damage` points of damage.
pub open spec fn took_damage(old: Actor, new: Actor, damage: u32) -> bool {
    new == Actor { hp: (old.hp - damage) as u32, ..old }
}

impl Weapon {
    pub fn boomerang() -> (r: Weapon)
        ensures
            r == Weapon::Boomerang,
    {
        Weapon::Boomerang
    }

    pub fn get_name(&self) -> (r: String)
        ensures
            r@ == weapon_name(*self),
    {
        match self {
            Weapon::Boomerang => String::from_str("Boomerang"),
        }
    }

    /// Applies this weapon's damage to `defender` and returns the amount applied.
    pub fn deal_damage(&self, defender: &mut Actor) -> (r: u32)
        ensures
            r == damage_dealt(*self, old(defender).hp),
            took_damage(*old(defender), *final(defender), r),
    {
        let base = match self {
            Weapon::Boomerang => BOOMERANG_DAMAGE,
        };
        let applied = if base <= defender.hp {
            base
        } else {
            defender.hp
        };
        defender.hp = defender.hp - applied;
        applied
    }
}

} // verus!
