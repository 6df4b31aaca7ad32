//! Character classes and the per-class spell-slot table lookup. Only the
//! Wizard table is populated; every other class reports an explicit
//! not-implemented outcome, never a silent zero.

use vstd::prelude::*;

use crate::dice::Die;
use crate::UnimplementedCapability;

verus! {

pub const EFFECTIVE_SPELL_LEVEL_MIN: u8 = 1;
pub const EFFECTIVE_SPELL_LEVEL_MAX: u8 = 9;

/// The kinds of character class.
#[derive(Copy, Clone, Debug, PartialEq, Eq, Structural)]
pub enum ClassType {
    Barbarian,
    Bard,
    Cleric,
    Druid,
    Fighter,
    Monk,
    Paladin,
    Ranger,
    Rogue,
    Sorceror,
    Warlock,
    Wizard,
}

/// Hit-point growth data of a class.
#[derive(Copy, Clone, Debug, PartialEq, Eq, Structural)]
pub struct ClassFeatures {
    pub hit_dice: Die,
    pub hit_points_starting: u16,
    pub hit_points_from_level: Die,
}

/// One class a character has levels in.
#[derive(Copy, Clone, Debug, PartialEq, Eq, Structural)]
pub struct Class {
    pub class_type: ClassType,
    pub features: ClassFeatures,
}

/// A spell known at one spell level.
#[derive(Copy, Clone, Debug, PartialEq, Eq, Structural)]
pub struct Spell {
    pub level: u8,
}

/// One row of a spell-slot table: the ten per-slot counts stored for one
/// character level, read by the lookup at index `spell_level - 1`.
#[derive(Copy, Clone, Debug)]
pub struct SpellSlotEntry {
    pub level: u32,
    pub spell_level_count: [u8; 10],
}

/// The stored counts of the Wizard row for one character level (SRD
/// progression). Levels at or below 1 share the first row; levels at or
/// above 20 share the last.
pub open spec fn wizard_slot_row(level: int) -> Seq<u8> {
    if level <= 1 {
        seq![3u8, 2, 0, 0, 0, 0, 0, 0, 0, 0]
    } else if level == 2 {
        seq![3u8, 3, 0, 0, 0, 0, 0, 0, 0, 0]
    } else if level == 3 {
        seq![3u8, 4, 2, 0, 0, 0, 0, 0, 0, 0]
    } else if level == 4 {
        seq![4u8, 4, 3, 0, 0, 0, 0, 0, 0, 0]
    } else if level == 5 {
        seq![4u8, 4, 3, 2, 0, 0, 0, 0, 0, 0]
    } else if level == 6 {
        seq![4u8, 4, 3, 3, 0, 0, 0, 0, 0, 0]
    } else if level == 7 {
        seq![4u8, 4, 3, 3, 1, 0, 0, 0, 0, 0]
    } else if level == 8 {
        seq![4u8, 4, 3, 3, 2, 0, 0, 0, 0, 0]
    } else if level == 9 {
        seq![4u8, 4, 3, 3, 3, 1, 0, 0, 0, 0]
    } else if level == 10 {
        seq![5u8, 4, 3, 3, 3, 2, 0, 0, 0, 0]
    } else if level == 11 {
        seq![5u8, 4, 3, 3, 3, 2, 1, 0, 0, 0]
    } else if level == 12 {
        seq![5u8, 4, 3, 3, 3, 2, 1, 0, 0, 0]
    } else if level == 13 {
        seq![5u8, 4, 3, 3, 3, 2, 1, 1, 0, 0]
    } else if level == 14 {
        seq![5u8, 4, 3, 3, 3, 2, 1, 1, 0, 0]
    } else if level == 15 {
        seq![5u8, 4, 3, 3, 3, 2, 1, 1, 1, 0]
    } else if level == 16 {
        seq![5u8, 4, 3, 3, 3, 2, 1, 1, 1, 0]
    } else if level == 17 {
        seq![5u8, 4, 3, 3, 3, 2, 1, 1, 1, 1]
    } else if level == 18 {
        seq![5u8, 4, 3, 3, 3, 3, 1, 1, 1, 1]
    } else if level == 19 {
        seq![5u8, 4, 3, 3, 3, 3, 2, 1, 1, 1]
    } else {
        seq![5u8, 4, 3, 3, 3, 3, 2, 2, 1, 1]
    }
}

/// The number of Wizard slots at one character level and spell level: the
/// stored count at index `spell_level - 1`, or 0 when no row matches the
/// character level.
pub open spec fn wizard_slots(level: int, spell_level: int) -> int {
    if 1 <= level <= 20 {
        wizard_slot_row(level)[spell_level - 1] as int
    } else {
        0
    }
}

/// Whether `t` is the canonical 20-row Wizard spell-slot table.
pub open spec fn is_wizard_spell_slot_table(t: Seq<SpellSlotEntry>) -> bool {
    &&& t.len() == 20
    &&& forall|i: int|
        0 <= i < 20 ==> {
            let e = #[trigger] t[i];
            &&& e.level == i + 1
            &&& e.spell_level_count@ == wizard_slot_row(i + 1)
        }
}

/// Builds the canonical Wizard spell-slot table, one row per level.
pub fn wizard_spell_slots_per_spell_level() -> (t: Vec<SpellSlotEntry>)
    ensures
        is_wizard_spell_slot_table(t@),
{
    let rows: [[u8; 10]; 20] = [
        [3, 2, 0, 0, 0, 0, 0, 0, 0, 0],
        [3, 3, 0, 0, 0, 0, 0, 0, 0, 0],
        [3, 4, 2, 0, 0, 0, 0, 0, 0, 0],
        [4, 4, 3, 0, 0, 0, 0, 0, 0, 0],
        [4, 4, 3, 2, 0, 0, 0, 0, 0, 0],
        [4, 4, 3, 3, 0, 0, 0, 0, 0, 0],
        [4, 4, 3, 3, 1, 0, 0, 0, 0, 0],
        [4, 4, 3, 3, 2, 0, 0, 0, 0, 0],
        [4, 4, 3, 3, 3, 1, 0, 0, 0, 0],
        [5, 4, 3, 3, 3, 2, 0, 0, 0, 0],
        [5, 4, 3, 3, 3, 2, 1, 0, 0, 0],
        [5, 4, 3, 3, 3, 2, 1, 0, 0, 0],
        [5, 4, 3, 3, 3, 2, 1, 1, 0, 0],
        [5, 4, 3, 3, 3, 2, 1, 1, 0, 0],
        [5, 4, 3, 3, 3, 2, 1, 1, 1, 0],
        [5, 4, 3, 3, 3, 2, 1, 1, 1, 0],
        [5, 4, 3, 3, 3, 2, 1, 1, 1, 1],
        [5, 4, 3, 3, 3, 3, 1, 1, 1, 1],
        [5, 4, 3, 3, 3, 3, 2, 1, 1, 1],
        [5, 4, 3, 3, 3, 3, 2, 2, 1, 1],
    ];
    let mut t: Vec<SpellSlotEntry> = Vec::new();
    let mut level: u32 = 1;
    while level <= 20
        invariant
            1 <= level <= 21,
            t@.len() == level - 1,
            forall|i: int| 0 <= i < 20 ==> #[trigger] rows@[i]@ == wizard_slot_row(i + 1),
            forall|i: int|
                0 <= i < level - 1 ==> {
                    let e = #[trigger] t@[i];
                    &&& e.level == i + 1
                    &&& e.spell_level_count@ == wizard_slot_row(i + 1)
                },
        decreases 21 - level,
    {
        let entry = SpellSlotEntry { level, spell_level_count: rows[(level - 1) as usize] };
        t.push(entry);
        level = level + 1;
    }
    t
}

/// Looks up the slot count for a spell level in a spell-slot table: the
/// stored count of the first row matching the character level, or 0 when no
/// row matches.
///
/// A spell level outside [1, 9] is a programming error (cantrips, spell
/// level 0, are out of this lookup's scope) and is excluded here.
pub fn find_spell_splots_for_spell_level(
    spell_slots_per_spell_level_table: &Vec<SpellSlotEntry>,
    level: u32,
    spell_level: u8,
) -> (r: u8)
    requires
        EFFECTIVE_SPELL_LEVEL_MIN <= spell_level <= EFFECTIVE_SPELL_LEVEL_MAX,
    ensures
        (forall|i: int|
            0 <= i < spell_slots_per_spell_level_table@.len()
                ==> (#[trigger] spell_slots_per_spell_level_table@[i]).level != level) ==> r == 0,
        forall|i: int|
            (0 <= i < spell_slots_per_spell_level_table@.len()
                && (#[trigger] spell_slots_per_spell_level_table@[i]).level == level && (forall|
                j: int,
            |
                0 <= j < i ==> spell_slots_per_spell_level_table@[j].level != level)) ==> r
                == spell_slots_per_spell_level_table@[i].spell_level_count@[spell_level - 1],
{
    let indexed_spell_level = spell_level - 1;
    let mut i: usize = 0;
    while i < spell_slots_per_spell_level_table.len()
        invariant
            EFFECTIVE_SPELL_LEVEL_MIN <= spell_level <= EFFECTIVE_SPELL_LEVEL_MAX,
            indexed_spell_level == spell_level - 1,
            i <= spell_slots_per_spell_level_table@.len(),
            forall|j: int|
                0 <= j < i ==> (#[trigger] spell_slots_per_spell_level_table@[j]).level != level,
        decreases spell_slots_per_spell_level_table@.len() - i,
    {
        let entry = &spell_slots_per_spell_level_table[i];
        if level == entry.level {
            return entry.spell_level_count[indexed_spell_level as usize];
        }
        i = i + 1;
    }
    0
}

/// Resolves the spell-slot count for a class: the Wizard lookup proceeds
/// over the populated table; every other class is explicitly unimplemented.
pub fn get_number_of_spell_slots_for_spell_level(class: Class, level: u32, spell_level: u8) -> (r:
    Result<u8, UnimplementedCapability>)
    requires
        EFFECTIVE_SPELL_LEVEL_MIN <= spell_level <= EFFECTIVE_SPELL_LEVEL_MAX,
    ensures
        class.class_type == ClassType::Wizard ==> r == Ok::<u8, UnimplementedCapability>(
            wizard_slots(level as int, spell_level as int) as u8,
        ),
        class.class_type != ClassType::Wizard ==> r == Err::<u8, UnimplementedCapability>(
            UnimplementedCapability::SpellSlotsForClass,
        ),
{
    match class.class_type {
        ClassType::Barbarian => Err(UnimplementedCapability::SpellSlotsForClass),
        ClassType::Cleric => Err(UnimplementedCapability::SpellSlotsForClass),
        ClassType::Fighter => Err(UnimplementedCapability::SpellSlotsForClass),
        ClassType::Monk => Err(UnimplementedCapability::SpellSlotsForClass),
        ClassType::Paladin => Err(UnimplementedCapability::SpellSlotsForClass),
        ClassType::Ranger => Err(UnimplementedCapability::SpellSlotsForClass),
        ClassType::Rogue => Err(UnimplementedCapability::SpellSlotsForClass),
        ClassType::Sorceror => Err(UnimplementedCapability::SpellSlotsForClass),
        ClassType::Bard => Err(UnimplementedCapability::SpellSlotsForClass),
        ClassType::Druid => Err(UnimplementedCapability::SpellSlotsForClass),
        ClassType::Warlock => Err(UnimplementedCapability::SpellSlotsForClass),
        ClassType::Wizard => {
            let table = wizard_spell_slots_per_spell_level();
            let count = find_spell_splots_for_spell_level(&table, level, spell_level);
            proof {
                if 1 <= level <= 20 {
                    assert(table@[level - 1].level == level);
                    assert(forall|j: int| 0 <= j < level - 1 ==> (#[trigger] table@[j]).level != level);
                } else {
                    assert(forall|i: int| 0 <= i < 20 ==> (#[trigger] table@[i]).level != level);
                }
            }
            Ok(count)
        },
    }
}

} // verus!
