//! A verified character-sheet rules engine for a tabletop role-playing game:
//! ability-score modifiers, experience-driven advancement, spell-slot
//! allotment, armor-class calculation, and exact fixed-point currency.

pub mod abilities;
pub mod advancement;
pub mod armor_class;
pub mod character;
pub mod currency;
pub mod dice;
pub mod equipment;
pub mod modifiers;
pub mod spells;

use vstd::prelude::*;

verus! {

/// A capability the rules engine does not model yet. It is surfaced as an
/// explicit outcome, distinguishable from a computed answer of zero.
#[derive(Copy, Clone, Debug, PartialEq, Eq, Structural)]
pub enum UnimplementedCapability {
    /// Spell slots for a class whose table is not populated.
    SpellSlotsForClass,
    /// Per-level class features, not yet modeled.
    ClassFeaturesPerLevel,
}

} // verus!
