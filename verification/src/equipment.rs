//! Static catalog types for weapons and armor.

use vstd::prelude::*;

use crate::abilities::AbilityScore;
use crate::currency::Coin;

verus! {

/// Whether a weapon is swung or shot.
#[derive(Copy, Clone, Debug, PartialEq, Eq, Structural)]
pub enum WeaponType {
    Melee,
    Ranged,
}

/// The proficiency category a weapon falls under.
#[derive(Copy, Clone, Debug, PartialEq, Eq, Structural)]
pub enum WeaponCategory {
    Shields,
    SimpleWeapons,
    MartialWeapons,
}

/// A property a weapon can carry.
#[derive(Copy, Clone, Debug, PartialEq, Eq, Structural)]
pub enum WeaponProperty {
    Ammunition,
    Finesse,
    Heavy,
    Light,
    Loading,
    Range,
    Reach,
    Special,
    Thrown,
    TwoHanded,
    Versatile,
}

/// The damage a weapon deals, as an inclusive range.
#[derive(Copy, Clone, Debug, PartialEq, Eq, Structural)]
pub struct DamageRange {
    pub min: u32,
    pub max: u32,
}

/// One weapon of the catalog.
#[derive(Clone, Debug)]
pub struct Weapon {
    pub name: &'static str,
    pub cost: u32,
    pub damage: DamageRange,
    pub weapon_type: WeaponType,
    pub category: WeaponCategory,
    pub properties: Vec<WeaponProperty>,
}

/// The weight class of a piece of armor, which decides how the Dexterity
/// modifier enters the armor class.
#[derive(Copy, Clone, Debug, PartialEq, Eq, Structural)]
pub enum ArmorCategory {
    LightArmor,
    MediumArmor,
    HeavyArmor,
}

/// The concrete kind of a piece of armor.
#[derive(Copy, Clone, Debug, PartialEq, Eq, Structural)]
pub enum ArmorType {
    Padded,
    Leather,
    StuddedLeather,
    Hide,
    ChainShirt,
    ScaleMail,
    Breastplate,
    HalfPlate,
    RingMail,
    ChainMail,
    Splint,
    Plate,
}

/// One piece of armor of the catalog.
#[derive(Copy, Clone, Debug)]
pub struct Armor {
    pub armor_type: ArmorType,
    pub category: ArmorCategory,
    pub cost: Coin,
    pub base_armor_class: u16,
    pub weight: u32,
    pub ability_requirement: Option<AbilityScore>,
    pub has_stealth_disadvantage: bool,
}

} // verus!
