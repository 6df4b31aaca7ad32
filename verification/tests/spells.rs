use character_sheet::UnimplementedCapability;
use character_sheet::dice::Die;
use character_sheet::spells::Class;
use character_sheet::spells::ClassFeatures;
use character_sheet::spells::ClassType;
use character_sheet::spells::find_spell_splots_for_spell_level;
use character_sheet::spells::get_number_of_spell_slots_for_spell_level;
use character_sheet::spells::wizard_spell_slots_per_spell_level;

fn class_of(class_type: ClassType) -> Class {
    Class {
        class_type,
        features: ClassFeatures {
            hit_dice: Die { min: 0, max: 6 },
            hit_points_starting: 0,
            hit_points_from_level: Die { min: 0, max: 6 },
        },
    }
}

#[test]
fn wizard_spell_slot_lookups() {
    let wizard = class_of(ClassType::Wizard);
    assert_eq!(get_number_of_spell_slots_for_spell_level(wizard, 1, 1), Ok(3));
    assert_eq!(get_number_of_spell_slots_for_spell_level(wizard, 20, 9), Ok(1));
    assert_eq!(get_number_of_spell_slots_for_spell_level(wizard, 9, 6), Ok(1));
}

#[test]
fn wizard_zero_slots_is_a_computed_answer() {
    let wizard = class_of(ClassType::Wizard);
    assert_eq!(get_number_of_spell_slots_for_spell_level(wizard, 1, 3), Ok(0));
    assert_eq!(get_number_of_spell_slots_for_spell_level(wizard, 5, 9), Ok(0));
}

#[test]
fn non_wizard_spell_slots_are_unimplemented() {
    for class_type in [
        ClassType::Barbarian,
        ClassType::Bard,
        ClassType::Cleric,
        ClassType::Druid,
        ClassType::Fighter,
        ClassType::Monk,
        ClassType::Paladin,
        ClassType::Ranger,
        ClassType::Rogue,
        ClassType::Sorceror,
        ClassType::Warlock,
    ] {
        assert_eq!(
            get_number_of_spell_slots_for_spell_level(class_of(class_type), 5, 1),
            Err(UnimplementedCapability::SpellSlotsForClass)
        );
    }
}

#[test]
fn unmatched_character_level_defaults_to_zero() {
    let table = wizard_spell_slots_per_spell_level();
    assert_eq!(find_spell_splots_for_spell_level(&table, 25, 1), 0);
    assert_eq!(find_spell_splots_for_spell_level(&table, 0, 1), 0);
}
