use character_sheet::abilities::Ability;
use character_sheet::abilities::AbilityScore;
use character_sheet::abilities::CharacterAbilities;
use character_sheet::abilities::derive_ability_modifier_from_ability_score;

#[test]
fn verify_ability_score_calculation() {
    let score_modifier_table: [i8; 30] = [
        -5, // 1
        -4, // 2
        -4, // 3
        -3, // 4
        -3, // 4
        -2, // 6
        -2, // 7
        -1, // 8
        -1, // 0
        0,  // 10
        0,  // 11
        1,  // 12
        1,  // 13
        2,  // 14
        2,  // 15
        3,  // 16
        3,  // 17
        4,  // 18
        4,  // 19
        5,  // 20
        5,  // 21
        6,  // 22
        6,  // 23
        7,  // 24
        7,  // 25
        8,  // 26
        8,  // 27
        9,  // 28
        9,  // 29
        10, // 30
    ];
    for (index, &score_modifier) in score_modifier_table.iter().enumerate() {
        assert_eq!(
            derive_ability_modifier_from_ability_score(index as u8 + 1),
            score_modifier
        );
    }
}

#[test]
fn ability_modifier_at_score_zero() {
    assert_eq!(derive_ability_modifier_from_ability_score(0), -5);
}

#[test]
fn ability_score_entry_carries_derived_modifier() {
    let entry = AbilityScore::new(Ability::Dexterity, 16);
    assert_eq!(entry.ability, Ability::Dexterity);
    assert_eq!(entry.score, 16);
    assert_eq!(entry.modifier, 3);
}

#[test]
fn ability_lookup_finds_each_kind() {
    let abilities = CharacterAbilities::from_scores(8, 10, 12, 14, 16, 18);
    assert_eq!(abilities.index(Ability::Strength).score, 8);
    assert_eq!(abilities.index(Ability::Dexterity).score, 10);
    assert_eq!(abilities.index(Ability::Constitution).score, 12);
    assert_eq!(abilities.index(Ability::Intelligence).score, 14);
    assert_eq!(abilities.index(Ability::Wisdom).score, 16);
    assert_eq!(abilities.index(Ability::Charisma).score, 18);
    assert_eq!(abilities.index(Ability::Charisma).modifier, 4);
}
