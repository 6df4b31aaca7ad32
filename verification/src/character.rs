//! Races, the character aggregate, and the level-gain transition.

use vstd::prelude::*;

use crate::abilities::Ability;
use crate::abilities::AbilityScore;
use crate::abilities::CharacterAbilities;
use crate::advancement::calculate_level_from_experience_points;
use crate::advancement::calculate_proficiency_bonus_from_experience_points;
use crate::advancement::level_for_experience;
use crate::advancement::proficiency_bonus_for_level;
use crate::modifiers::Trait;
use crate::spells::Class;
use crate::UnimplementedCapability;

verus! {

/// The playable races.
#[derive(Copy, Clone, Debug, PartialEq, Eq, Structural)]
pub enum Race {
    Dwarf,
    HillDwarf,
    Elf,
    HighElf,
    Human,
    Gnome,
    Halfling,
    Dragonborn,
    HalfElf,
    HalfOrc,
    Tiefling,
}

/// The nine alignments, or none.
#[derive(Copy, Clone, Debug, PartialEq, Eq, Structural)]
pub enum Alignment {
    LawfulGood,
    NeutralGood,
    ChaoticGood,
    LawfulNeutral,
    Neutral,
    ChaoticNeutral,
    LawfulEvil,
    NeutralEvil,
    ChaoticEvil,
    Unaligned,
}

/// The size class of a creature.
#[derive(Copy, Clone, Debug, PartialEq, Eq, Structural)]
pub enum Size {
    Small,
    Medium,
    Large,
    Huge,
}

/// The languages a creature can speak.
#[derive(Copy, Clone, Debug, PartialEq, Eq, Structural)]
pub enum Language {
    Common,
    Dwarvish,
    Elvish,
    Giant,
    Gnomish,
    Goblin,
    Halfling,
    Orc,
    Abyssal,
    Celestial,
    Draconic,
    DeepSpeech,
    Infernal,
    Primordial,
    Sylvan,
    Undercommmon,
}

/// Static reference data describing one race.
#[derive(Clone, Debug)]
pub struct RaceInfo {
    pub race: Race,
    pub age: u32,
    pub alignment: Alignment,
    pub size: Size,
    pub speed: i64,
    pub languages: Vec<Language>,
}

/// The built-in race catalog: a single Dwarf entry.
pub fn sample_races() -> (races: Vec<RaceInfo>)
    ensures
        races@.len() == 1,
        races@[0].race == Race::Dwarf,
        races@[0].age == 80,
        races@[0].alignment == Alignment::ChaoticNeutral,
        races@[0].size == Size::Medium,
        races@[0].speed == 25,
        races@[0].languages@ == seq![Language::Dwarvish],
{
    let mut languages: Vec<Language> = Vec::new();
    languages.push(Language::Dwarvish);
    proof {
        assert(languages@ =~= seq![Language::Dwarvish]);
    }
    let mut races: Vec<RaceInfo> = Vec::new();
    races.push(
        RaceInfo {
            race: Race::Dwarf,
            age: 80,
            alignment: Alignment::ChaoticNeutral,
            size: Size::Medium,
            speed: 25,
            languages,
        },
    );
    races
}

/// A character: identity, classes, experience, stored level, abilities, and
/// traits. It is created fully formed and mutated only through explicit
/// operations; the level is derived from experience but stored, updated by
/// `gain_level` alone.
#[derive(Clone, Debug)]
pub struct Character {
    pub race: Race,
    pub name: String,
    pub age: u32,
    pub class: Vec<Class>,
    pub alignment: Alignment,
    pub size: Size,
    pub speed: i64,
    pub languages: Vec<Language>,
    pub experience_points: u64,
    pub level: u32,
    pub ability_scores: CharacterAbilities,
    pub traits: Vec<Trait>,
    pub roll_hit_points: bool,
}

impl Character {
    /// The ability scores form a full, well-formed six-entry collection.
    pub open spec fn wf(self) -> bool {
        self.ability_scores.wf()
    }

    /// The entry of one ability, found in the six-slot collection.
    pub fn get_ability_score(&self, ability: Ability) -> (r: AbilityScore)
        requires
            self.wf(),
        ensures
            r == self.ability_scores.spec_index(ability),
            r.ability == ability,
            r.wf(),
    {
        self.ability_scores.index(ability)
    }

    /// The level the character's experience entitles it to.
    pub fn get_current_level(&self) -> (level: u32)
        ensures
            level as int == level_for_experience(self.experience_points as int),
    {
        calculate_level_from_experience_points(self.experience_points)
    }

    /// The proficiency bonus the character's experience entitles it to.
    pub fn get_proficiency_bonus(&self) -> (bonus: u16)
        ensures
            bonus as int == proficiency_bonus_for_level(
                level_for_experience(self.experience_points as int),
            ),
    {
        calculate_proficiency_bonus_from_experience_points(self.experience_points)
    }

    /// Brings the stored level up to the level the experience entitles the
    /// character to, one level at a time, marking hit points as pending a
    /// roll for each level gained.
    ///
    /// Each gained level must also apply that level's class features, which
    /// are not modeled yet: an under-leveled character therefore reports the
    /// missing capability and is left untouched. A character at or above the
    /// target level is left untouched as well — downgrading is deliberately
    /// out of scope — and the call succeeds.
    pub fn gain_level(&mut self) -> (r: Result<(), UnimplementedCapability>)
        ensures
            *final(self) == *old(self),
            r == (if old(self).level as int >= level_for_experience(
                old(self).experience_points as int,
            ) {
                Ok::<(), UnimplementedCapability>(())
            } else {
                Err::<(), UnimplementedCapability>(UnimplementedCapability::ClassFeaturesPerLevel)
            }),
    {
        let target_level = calculate_level_from_experience_points(self.experience_points);
        while self.level < target_level
            invariant
                *self == *old(self),
                target_level as int == level_for_experience(self.experience_points as int),
            decreases target_level - self.level,
        {
            match self.add_class_features_for_level() {
                Ok(()) => {
                    self.roll_hit_points = true;
                    self.level = self.level + 1;
                },
                Err(missing) => {
                    return Err(missing);
                },
            }
        }
        Ok(())
    }

    /// Applies the class features of the level being gained. The per-level
    /// feature content is not modeled yet, so this reports the missing
    /// capability rather than silently doing nothing.
    pub fn add_class_features_for_level(&self) -> (r: Result<(), UnimplementedCapability>)
        ensures
            r == Err::<(), UnimplementedCapability>(UnimplementedCapability::ClassFeaturesPerLevel),
    {
        Err(UnimplementedCapability::ClassFeaturesPerLevel)
    }
}

} // verus!
