//! The armor class calculator and the armor-proficiency gate.

use vstd::prelude::*;

use crate::abilities::Ability;
use crate::character::Character;
use crate::equipment::Armor;
use crate::equipment::ArmorCategory;
use crate::modifiers::Trait;

verus! {

/// How much of the Dexterity modifier enters the armor class: all of it for
/// light armor, capped at +2 for medium armor — the cap bounds only the
/// bonus, a negative modifier applies in full — and none for heavy armor.
pub open spec fn armor_class_dexterity_bonus(category: ArmorCategory, modifier: int) -> int {
    match category {
        ArmorCategory::LightArmor => modifier,
        ArmorCategory::MediumArmor => if modifier > 2 {
            2
        } else {
            modifier
        },
        ArmorCategory::HeavyArmor => 0,
    }
}

/// The armor class a character has in a piece of armor: the armor's base
/// value plus the category's share of the Dexterity modifier.
pub open spec fn spec_base_armor_class(armor: Armor, character: Character) -> int {
    armor.base_armor_class + armor_class_dexterity_bonus(
        armor.category,
        character.ability_scores.spec_index(Ability::Dexterity).modifier as int,
    )
}

/// Computes the armor class for a character wearing a piece of armor.
///
/// The result must fit the armor-class range; a base value so extreme that
/// the modifier pushes the total outside [0, u16::MAX] is excluded by the
/// machine limits of the representation.
pub fn calculate_base_armor_class_for_character(armor: Armor, character: Character) -> (ac: u16)
    requires
        character.wf(),
        0 <= spec_base_armor_class(armor, character) <= u16::MAX,
    ensures
        ac as int == spec_base_armor_class(armor, character),
{
    match armor.category {
        ArmorCategory::LightArmor => {
            let dexterity = character.get_ability_score(Ability::Dexterity);
            let total: i32 = armor.base_armor_class as i32 + dexterity.modifier as i32;
            total as u16
        },
        ArmorCategory::MediumArmor => {
            // The Dexterity bonus is capped at +2, but a negative modifier
            // still lowers the armor class in full.
            let dexterity = character.get_ability_score(Ability::Dexterity);
            let armor_class_bonus: i32 = if dexterity.modifier > 2 {
                2
            } else {
                dexterity.modifier as i32
            };
            let total: i32 = armor.base_armor_class as i32 + armor_class_bonus;
            total as u16
        },
        ArmorCategory::HeavyArmor => armor.base_armor_class,
    }
}

/// Whether some trait of the character grants proficiency with the armor's
/// category.
pub open spec fn spec_has_armor_proficiency(traits: Seq<Trait>, category: ArmorCategory) -> bool {
    exists|i: int, j: int|
        0 <= i < traits.len() && 0 <= j < traits[i].armor_proficiency_modifiers@.len()
            && (#[trigger] traits[i].armor_proficiency_modifiers@[j]).value == category
}

/// Decides whether the character may wear the armor without penalty: true
/// exactly when one of its traits carries an armor-proficiency modifier for
/// the armor's category. This gate is independent of the armor-class value;
/// the caller decides what a missing proficiency entails.
pub fn has_proficiency_for_armor(armor: Armor, character: Character) -> (r: bool)
    ensures
        r == spec_has_armor_proficiency(character.traits@, armor.category),
{
    let mut i: usize = 0;
    while i < character.traits.len()
        invariant
            i <= character.traits@.len(),
            forall|p: int, q: int|
                0 <= p < i && 0 <= q < character.traits@[p].armor_proficiency_modifiers@.len()
                    ==> (#[trigger] character.traits@[p].armor_proficiency_modifiers@[q]).value
                    != armor.category,
        decreases character.traits@.len() - i,
    {
        let character_trait = &character.traits[i];
        let mut j: usize = 0;
        while j < character_trait.armor_proficiency_modifiers.len()
            invariant
                i < character.traits@.len(),
                character_trait == character.traits@[i as int],
                j <= character_trait.armor_proficiency_modifiers@.len(),
                forall|q: int|
                    0 <= q < j ==> (#[trigger] character_trait.armor_proficiency_modifiers@[q]).value
                        != armor.category,
            decreases character_trait.armor_proficiency_modifiers@.len() - j,
        {
            if character_trait.armor_proficiency_modifiers[j].value == armor.category {
                return true;
            }
            j = j + 1;
        }
        i = i + 1;
    }
    false
}

} // verus!
