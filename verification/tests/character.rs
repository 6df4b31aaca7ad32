use character_sheet::UnimplementedCapability;
use character_sheet::abilities::Ability;
use character_sheet::abilities::CharacterAbilities;
use character_sheet::character::Alignment;
use character_sheet::character::Character;
use character_sheet::character::Language;
use character_sheet::character::Race;
use character_sheet::character::Size;
use character_sheet::character::sample_races;
use character_sheet::dice::Die;
use character_sheet::dice::roll_die;
use character_sheet::modifiers::ArmorProficiencyModifier;
use character_sheet::modifiers::Modifier;
use character_sheet::modifiers::ModifierType;
use character_sheet::modifiers::WeaponProficiencyModifier;
use character_sheet::equipment::ArmorCategory;
use character_sheet::equipment::WeaponType;

fn character_with_experience(experience_points: u64, level: u32) -> Character {
    Character {
        race: Race::Dwarf,
        name: String::from("Tishros"),
        age: 80,
        class: Vec::new(),
        alignment: Alignment::ChaoticNeutral,
        size: Size::Medium,
        speed: 25,
        languages: vec![Language::Dwarvish],
        experience_points,
        level,
        ability_scores: CharacterAbilities::from_scores(10, 10, 10, 10, 10, 10),
        traits: Vec::new(),
        roll_hit_points: false,
    }
}

#[test]
fn derived_queries_follow_the_experience() {
    let character = character_with_experience(900, 3);
    assert_eq!(character.get_current_level(), 3);
    assert_eq!(character.get_proficiency_bonus(), 2);
    let seasoned = character_with_experience(48000, 9);
    assert_eq!(seasoned.get_current_level(), 9);
    assert_eq!(seasoned.get_proficiency_bonus(), 4);
}

#[test]
fn get_ability_score_returns_the_matching_entry() {
    let character = character_with_experience(0, 1);
    let strength = character.get_ability_score(Ability::Strength);
    assert_eq!(strength.ability, Ability::Strength);
    assert_eq!(strength.score, 10);
    assert_eq!(strength.modifier, 0);
}

#[test]
fn gain_level_at_target_is_idempotent() {
    let mut character = character_with_experience(300, 2);
    assert_eq!(character.gain_level(), Ok(()));
    assert_eq!(character.level, 2);
    assert!(!character.roll_hit_points);
}

#[test]
fn gain_level_when_over_leveled_is_a_no_op() {
    let mut character = character_with_experience(0, 5);
    assert_eq!(character.gain_level(), Ok(()));
    assert_eq!(character.level, 5);
    assert!(!character.roll_hit_points);
}

#[test]
fn gain_level_when_under_leveled_reports_missing_class_features() {
    let mut character = character_with_experience(900, 1);
    assert_eq!(
        character.gain_level(),
        Err(UnimplementedCapability::ClassFeaturesPerLevel)
    );
    assert_eq!(character.level, 1);
    assert!(!character.roll_hit_points);
}

#[test]
fn add_class_features_is_explicitly_unimplemented() {
    let character = character_with_experience(0, 1);
    assert_eq!(
        character.add_class_features_for_level(),
        Err(UnimplementedCapability::ClassFeaturesPerLevel)
    );
}

#[test]
fn sample_race_catalog_holds_the_dwarf() {
    let races = sample_races();
    assert_eq!(races.len(), 1);
    assert_eq!(races[0].race, Race::Dwarf);
    assert_eq!(races[0].age, 80);
    assert_eq!(races[0].alignment, Alignment::ChaoticNeutral);
    assert_eq!(races[0].size, Size::Medium);
    assert_eq!(races[0].speed, 25);
    assert_eq!(races[0].languages, vec![Language::Dwarvish]);
}

#[test]
fn roll_die_stays_inside_the_half_open_range() {
    let singleton = Die { min: 3, max: 4 };
    assert_eq!(roll_die(singleton), 3);
    let d6 = Die { min: 1, max: 7 };
    for _ in 0..100 {
        let roll = roll_die(d6);
        assert!((1..=6).contains(&roll));
    }
}

#[test]
fn modifiers_expose_name_value_and_kind() {
    let weapon_modifier = WeaponProficiencyModifier {
        name: String::from("battleaxe"),
        value: WeaponType::Melee,
    };
    assert_eq!(weapon_modifier.get_name(), "battleaxe");
    assert_eq!(weapon_modifier.get_value(), WeaponType::Melee);
    assert_eq!(
        weapon_modifier.get_modifier_type(),
        ModifierType::WeaponProficiency
    );

    let armor_modifier = ArmorProficiencyModifier {
        name: String::from("light armor"),
        value: ArmorCategory::LightArmor,
    };
    assert_eq!(armor_modifier.get_name(), "light armor");
    assert_eq!(armor_modifier.get_value(), ArmorCategory::LightArmor);
    assert_eq!(
        armor_modifier.get_modifier_type(),
        ModifierType::ArmorProficiency
    );
}
