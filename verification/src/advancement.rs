//! The character advancement table and the experience-driven resolvers for
//! level, proficiency bonus, and experience still owed toward the next level.

use vstd::prelude::*;

verus! {

pub const EFFECTIVE_LEVEL_MIN: u32 = 1;
pub const EFFECTIVE_LEVEL_MAX: u32 = 20;

/// Experience points at which each level is reached (SRD progression).
/// Levels at or below 1 share the floor of 0; levels at or above 20 share the
/// final threshold.
pub open spec fn required_experience_for_level(level: int) -> int {
    if level <= 1 {
        0
    } else if level == 2 {
        300
    } else if level == 3 {
        900
    } else if level == 4 {
        2700
    } else if level == 5 {
        6500
    } else if level == 6 {
        14000
    } else if level == 7 {
        23000
    } else if level == 8 {
        34000
    } else if level == 9 {
        48000
    } else if level == 10 {
        64000
    } else if level == 11 {
        85000
    } else if level == 12 {
        100000
    } else if level == 13 {
        120000
    } else if level == 14 {
        140000
    } else if level == 15 {
        165000
    } else if level == 16 {
        195000
    } else if level == 17 {
        225000
    } else if level == 18 {
        265000
    } else if level == 19 {
        305000
    } else {
        355000
    }
}

/// The proficiency bonus granted at each level: a non-decreasing step
/// function over the 1-20 range.
pub open spec fn proficiency_bonus_for_level(level: int) -> int {
    if level >= 17 {
        6
    } else if level >= 13 {
        5
    } else if level >= 9 {
        4
    } else if level >= 5 {
        3
    } else {
        2
    }
}

/// The level of the last advancement entry whose threshold the experience
/// meets: the highest level `l` with `required_experience_for_level(l) <= xp`.
pub open spec fn level_for_experience(xp: int) -> int {
    if xp >= 355000 {
        20
    } else if xp >= 305000 {
        19
    } else if xp >= 265000 {
        18
    } else if xp >= 225000 {
        17
    } else if xp >= 195000 {
        16
    } else if xp >= 165000 {
        15
    } else if xp >= 140000 {
        14
    } else if xp >= 120000 {
        13
    } else if xp >= 100000 {
        12
    } else if xp >= 85000 {
        11
    } else if xp >= 64000 {
        10
    } else if xp >= 48000 {
        9
    } else if xp >= 34000 {
        8
    } else if xp >= 23000 {
        7
    } else if xp >= 14000 {
        6
    } else if xp >= 6500 {
        5
    } else if xp >= 2700 {
        4
    } else if xp >= 900 {
        3
    } else if xp >= 300 {
        2
    } else {
        1
    }
}

/// Experience still missing until the next level: 0 once the final threshold
/// is met.
pub open spec fn experience_to_next_level(xp: int) -> int {
    if xp >= 355000 {
        0
    } else {
        required_experience_for_level(level_for_experience(xp) + 1) - xp
    }
}

/// The thresholds start at 0 for level 1, rise strictly from level to level,
/// and the proficiency bonus never decreases with the level.
pub proof fn lemma_advancement_table_well_formed(level: int)
    requires
        1 <= level < 20,
    ensures
        required_experience_for_level(1) == 0,
        required_experience_for_level(level) < required_experience_for_level(level + 1),
        proficiency_bonus_for_level(level) <= proficiency_bonus_for_level(level + 1),
{
}

/// The thresholds are a non-decreasing function of the level.
pub proof fn lemma_required_experience_monotonic(l1: int, l2: int)
    requires
        l1 <= l2,
    ensures
        required_experience_for_level(l1) <= required_experience_for_level(l2),
{
}

/// The resolved level meets its own threshold and, below level 20, falls
/// short of the next one; it always lies in [1, 20].
pub proof fn lemma_level_for_experience_characterization(xp: int)
    requires
        xp >= 0,
    ensures
        1 <= level_for_experience(xp) <= 20,
        xp >= required_experience_for_level(level_for_experience(xp)),
        level_for_experience(xp) < 20 ==> xp < required_experience_for_level(
            level_for_experience(xp) + 1,
        ),
{
}

/// A level bracketed by its own threshold and the next one is the resolved
/// level: the characterization pins the level down uniquely.
pub proof fn lemma_level_from_bracket(xp: int, level: int)
    requires
        1 <= level <= 20,
        xp >= required_experience_for_level(level),
        level < 20 ==> xp < required_experience_for_level(level + 1),
    ensures
        level_for_experience(xp) == level,
{
}

/// The resolved level never decreases as experience grows, and always lies
/// in [1, 20].
pub proof fn lemma_level_for_experience_monotonic(xp1: int, xp2: int)
    requires
        0 <= xp1 <= xp2,
    ensures
        level_for_experience(xp1) <= level_for_experience(xp2),
        1 <= level_for_experience(xp1) <= 20,
        1 <= level_for_experience(xp2) <= 20,
{
}

/// One row of the advancement table.
#[derive(Copy, Clone, Debug, PartialEq, Eq, Structural)]
pub struct CharacterAdvancementEntry {
    pub level: u32,
    pub required_experience_points: u64,
    pub proficiency_bonus: u16,
}

/// Whether `t` is the canonical 20-row advancement table.
pub open spec fn is_advancement_table(t: Seq<CharacterAdvancementEntry>) -> bool {
    &&& t.len() == 20
    &&& forall|i: int|
        0 <= i < 20 ==> {
            let e = #[trigger] t[i];
            &&& e.level == i + 1
            &&& e.required_experience_points == required_experience_for_level(i + 1)
            &&& e.proficiency_bonus == proficiency_bonus_for_level(i + 1)
        }
}

/// The required experience for one level, as runnable code.
fn required_experience_points_for_level(level: u32) -> (xp: u64)
    requires
        EFFECTIVE_LEVEL_MIN <= level <= EFFECTIVE_LEVEL_MAX,
    ensures
        xp as int == required_experience_for_level(level as int),
{
    if level <= 1 {
        0
    } else if level == 2 {
        300
    } else if level == 3 {
        900
    } else if level == 4 {
        2700
    } else if level == 5 {
        6500
    } else if level == 6 {
        14000
    } else if level == 7 {
        23000
    } else if level == 8 {
        34000
    } else if level == 9 {
        48000
    } else if level == 10 {
        64000
    } else if level == 11 {
        85000
    } else if level == 12 {
        100000
    } else if level == 13 {
        120000
    } else if level == 14 {
        140000
    } else if level == 15 {
        165000
    } else if level == 16 {
        195000
    } else if level == 17 {
        225000
    } else if level == 18 {
        265000
    } else if level == 19 {
        305000
    } else {
        355000
    }
}

/// The proficiency bonus for one level, as runnable code.
fn proficiency_bonus_at_level(level: u32) -> (bonus: u16)
    requires
        EFFECTIVE_LEVEL_MIN <= level <= EFFECTIVE_LEVEL_MAX,
    ensures
        bonus as int == proficiency_bonus_for_level(level as int),
{
    if level >= 17 {
        6
    } else if level >= 13 {
        5
    } else if level >= 9 {
        4
    } else if level >= 5 {
        3
    } else {
        2
    }
}

/// Builds the canonical advancement table, one row per level.
pub fn character_advancement_table() -> (t: Vec<CharacterAdvancementEntry>)
    ensures
        is_advancement_table(t@),
{
    let mut t: Vec<CharacterAdvancementEntry> = Vec::new();
    let mut level: u32 = 1;
    while level <= 20
        invariant
            1 <= level <= 21,
            t@.len() == level - 1,
            forall|i: int|
                0 <= i < level - 1 ==> {
                    let e = #[trigger] t@[i];
                    &&& e.level == i + 1
                    &&& e.required_experience_points == required_experience_for_level(i + 1)
                    &&& e.proficiency_bonus == proficiency_bonus_for_level(i + 1)
                },
        decreases 21 - level,
    {
        let entry = CharacterAdvancementEntry {
            level,
            required_experience_points: required_experience_points_for_level(level),
            proficiency_bonus: proficiency_bonus_at_level(level),
        };
        t.push(entry);
        level = level + 1;
    }
    t
}

/// Resolves the level for an amount of experience: the level of the last
/// table row whose threshold the experience meets, with level 1 as the floor.
pub fn calculate_level_from_experience_points(experience_points: u64) -> (level: u32)
    ensures
        level as int == level_for_experience(experience_points as int),
        EFFECTIVE_LEVEL_MIN <= level <= EFFECTIVE_LEVEL_MAX,
{
    let table = character_advancement_table();
    let mut expected_level: u32 = EFFECTIVE_LEVEL_MIN;
    let mut i: usize = 0;
    while i < table.len()
        invariant
            is_advancement_table(table@),
            i <= 20,
            1 <= expected_level <= 20,
            experience_points as int >= required_experience_for_level(expected_level as int),
            forall|l: int|
                1 <= l <= i ==> (experience_points as int >= required_experience_for_level(l)
                    ==> l <= expected_level),
        decreases 20 - i,
    {
        let entry = table[i];
        if experience_points >= entry.required_experience_points {
            expected_level = entry.level;
        }
        i = i + 1;
    }
    proof {
        let xp = experience_points as int;
        lemma_level_for_experience_characterization(xp);
        let target = level_for_experience(xp);
        assert(target <= expected_level);
        if expected_level as int > target {
            lemma_required_experience_monotonic(target + 1, expected_level as int);
        }
    }
    expected_level
}

/// Resolves the proficiency bonus for an amount of experience: the bonus of
/// the last table row whose threshold the experience meets. The starting
/// value of 1 is a defensive default that the canonical table, whose first
/// threshold is 0, always overwrites.
pub fn calculate_proficiency_bonus_from_experience_points(experience_points: u64) -> (bonus: u16)
    ensures
        bonus as int == proficiency_bonus_for_level(
            level_for_experience(experience_points as int),
        ),
{
    let table = character_advancement_table();
    let mut bonus: u16 = 1;
    let ghost mut reached_level: int = 1;
    let mut i: usize = 0;
    while i < table.len()
        invariant
            is_advancement_table(table@),
            i <= 20,
            1 <= reached_level <= 20,
            experience_points as int >= required_experience_for_level(reached_level),
            forall|l: int|
                1 <= l <= i ==> (experience_points as int >= required_experience_for_level(l)
                    ==> l <= reached_level),
            i > 0 ==> bonus as int == proficiency_bonus_for_level(reached_level),
        decreases 20 - i,
    {
        let entry = table[i];
        if experience_points >= entry.required_experience_points {
            bonus = entry.proficiency_bonus;
            proof {
                reached_level = i + 1;
            }
        }
        i = i + 1;
    }
    proof {
        let xp = experience_points as int;
        lemma_level_for_experience_characterization(xp);
        let target = level_for_experience(xp);
        assert(target <= reached_level);
        if reached_level > target {
            lemma_required_experience_monotonic(target + 1, reached_level);
        }
    }
    bonus
}

/// Resolves how much experience is still missing until the next level: the
/// distance to the first threshold above the experience, or 0 at or beyond
/// the final threshold.
pub fn calculate_experience_points_required_for_next_level(experience_points: u64) -> (delta: u64)
    ensures
        delta as int == experience_to_next_level(experience_points as int),
{
    let table = character_advancement_table();
    let mut required_experience_points: u64 = 0;
    let mut i: usize = 0;
    while i < table.len()
        invariant_except_break
            is_advancement_table(table@),
            i <= 20,
            required_experience_points == 0,
            forall|l: int|
                1 <= l <= i ==> experience_points as int >= required_experience_for_level(l),
            i == 20 ==> experience_points as int >= required_experience_for_level(20),
        ensures
            required_experience_points as int == experience_to_next_level(
                experience_points as int,
            ),
        decreases 20 - i,
    {
        let entry = table[i];
        if experience_points < entry.required_experience_points {
            required_experience_points = entry.required_experience_points - experience_points;
            proof {
                let xp = experience_points as int;
                assert(xp >= required_experience_for_level(i as int));
                lemma_level_from_bracket(xp, i as int);
                lemma_required_experience_monotonic(i + 1, 20);
            }
            break;
        }
        i = i + 1;
    }
    required_experience_points
}

} // verus!
