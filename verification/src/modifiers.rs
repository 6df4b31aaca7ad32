//! Racial traits and the proficiency modifiers they grant. The three
//! modifier kinds share one capability set — name, value, kind — dispatched
//! through a common trait over the payload type.

use vstd::prelude::*;

use crate::equipment::ArmorCategory;
use crate::equipment::WeaponType;

verus! {

/// The kind tag distinguishing the concrete modifier variants.
#[derive(Copy, Clone, Debug, PartialEq, Eq, Structural)]
pub enum ModifierType {
    WeaponProficiency,
    ArmorProficiency,
    Ability,
}

/// The capability set every modifier offers: a name, a payload value, and
/// the kind tag.
pub trait Modifier<T> {
    /// The name the getter returns.
    spec fn spec_name(&self) -> Seq<char>;

    /// The value the getter returns.
    spec fn spec_value(&self) -> T;

    /// The kind tag the getter returns.
    spec fn spec_modifier_type(&self) -> ModifierType;

    fn get_name(&self) -> (r: String)
        ensures
            r@ == self.spec_name(),
    ;

    fn get_value(&self) -> (r: T)
        ensures
            r == self.spec_value(),
    ;

    fn get_modifier_type(&self) -> (r: ModifierType)
        ensures
            r == self.spec_modifier_type(),
    ;
}

/// Grants proficiency with a weapon type.
#[derive(Clone, Debug)]
pub struct WeaponProficiencyModifier {
    pub name: String,
    pub value: WeaponType,
}

/// Grants proficiency with an armor category.
#[derive(Clone, Debug)]
pub struct ArmorProficiencyModifier {
    pub name: String,
    pub value: ArmorCategory,
}

impl Modifier<WeaponType> for WeaponProficiencyModifier {
    open spec fn spec_name(&self) -> Seq<char> {
        self.name@
    }

    open spec fn spec_value(&self) -> WeaponType {
        self.value
    }

    open spec fn spec_modifier_type(&self) -> ModifierType {
        ModifierType::WeaponProficiency
    }

    fn get_name(&self) -> (r: String) {
        self.name.clone()
    }

    fn get_value(&self) -> (r: WeaponType) {
        self.value
    }

    fn get_modifier_type(&self) -> (r: ModifierType) {
        ModifierType::WeaponProficiency
    }
}

impl Modifier<ArmorCategory> for ArmorProficiencyModifier {
    open spec fn spec_name(&self) -> Seq<char> {
        self.name@
    }

    open spec fn spec_value(&self) -> ArmorCategory {
        self.value
    }

    open spec fn spec_modifier_type(&self) -> ModifierType {
        ModifierType::ArmorProficiency
    }

    fn get_name(&self) -> (r: String) {
        self.name.clone()
    }

    fn get_value(&self) -> (r: ArmorCategory) {
        self.value
    }

    fn get_modifier_type(&self) -> (r: ModifierType) {
        ModifierType::ArmorProficiency
    }
}

/// A racial trait: a named feature carrying the proficiency modifiers it
/// grants.
#[derive(Clone, Debug)]
pub struct Trait {
    pub name: String,
    pub description: String,
    pub weapon_proficiency_modifiers: Vec<WeaponProficiencyModifier>,
    pub armor_proficiency_modifiers: Vec<ArmorProficiencyModifier>,
}

} // verus!
