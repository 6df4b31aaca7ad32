//! Ability kinds, ability scores, and the score-to-modifier derivation.

use vstd::prelude::*;

verus! {

/// The six fixed abilities of a character.
#[derive(Copy, Clone, Debug, PartialEq, Eq, Structural)]
pub enum Ability {
    Strength,
    Dexterity,
    Constitution,
    Intelligence,
    Wisdom,
    Charisma,
}

pub const EFFECTIVE_ABILITY_SCORE_MIN: u8 = 0;
pub const EFFECTIVE_ABILITY_SCORE_MAX: u8 = 30;
pub const INITIAL_ABILITY_SCORE: u8 = 10;
pub const MIN_ABILITY_MODIFIER_LEVEL: i8 = -5;
pub const MAX_ABILITY_MODIFIER_LEVEL: i8 = 10;

/// The modifier belonging to an ability score: floor((score - 10) / 2).
/// Division on `int` rounds toward negative infinity, so this is the floor.
pub open spec fn ability_modifier(score: int) -> int {
    (score - 10) / 2
}

/// Every score in the effective range [0, 30] yields a modifier in [-5, 10].
pub proof fn lemma_ability_modifier_bounds(score: int)
    requires
        EFFECTIVE_ABILITY_SCORE_MIN <= score <= EFFECTIVE_ABILITY_SCORE_MAX,
    ensures
        MIN_ABILITY_MODIFIER_LEVEL <= ability_modifier(score) <= MAX_ABILITY_MODIFIER_LEVEL,
{
}

/// Derives the modifier from a raw ability score.
///
/// The declared modifier range is [-5, 10]; a score whose modifier would fall
/// outside it (one above 31) is a programming error and is excluded here.
pub fn derive_ability_modifier_from_ability_score(score: u8) -> (modifier: i8)
    requires
        ability_modifier(score as int) <= MAX_ABILITY_MODIFIER_LEVEL as int,
    ensures
        modifier as int == ability_modifier(score as int),
        MIN_ABILITY_MODIFIER_LEVEL <= modifier <= MAX_ABILITY_MODIFIER_LEVEL,
{
    if score >= INITIAL_ABILITY_SCORE {
        ((score - INITIAL_ABILITY_SCORE) / 2) as i8
    } else {
        let deficit = INITIAL_ABILITY_SCORE - score;
        -(((deficit + 1) / 2) as i8)
    }
}

/// One ability together with its score and the modifier derived from it.
#[derive(Copy, Clone, Debug, PartialEq, Eq, Structural)]
pub struct AbilityScore {
    pub ability: Ability,
    pub score: u8,
    pub modifier: i8,
}

impl AbilityScore {
    /// The score lies in the effective range and the modifier is the one the
    /// score derives to.
    pub open spec fn wf(self) -> bool {
        &&& self.score <= EFFECTIVE_ABILITY_SCORE_MAX
        &&& self.modifier as int == ability_modifier(self.score as int)
    }

    /// Builds a well-formed entry for one ability.
    pub fn new(ability: Ability, score: u8) -> (r: AbilityScore)
        requires
            score <= EFFECTIVE_ABILITY_SCORE_MAX,
        ensures
            r.wf(),
            r.ability == ability,
            r.score == score,
    {
        let modifier = derive_ability_modifier_from_ability_score(score);
        AbilityScore { ability, score, modifier }
    }
}

/// Whether some entry of `s` belongs to the ability `a`.
pub open spec fn contains_ability(s: Seq<AbilityScore>, a: Ability) -> bool {
    exists|i: int| 0 <= i < s.len() && #[trigger] s[i].ability == a
}

/// Exactly six ability-score entries, one per ability kind.
#[derive(Copy, Clone, Debug)]
pub struct CharacterAbilities(pub [AbilityScore; 6]);

impl CharacterAbilities {
    /// Each entry is well formed, the kinds are pairwise distinct, and every
    /// ability kind is present.
    pub open spec fn wf(self) -> bool {
        &&& forall|i: int| 0 <= i < 6 ==> (#[trigger] self.0@[i]).wf()
        &&& forall|i: int, j: int|
            0 <= i < 6 && 0 <= j < 6 && i != j ==> self.0@[i].ability != self.0@[j].ability
        &&& contains_ability(self.0@, Ability::Strength)
        &&& contains_ability(self.0@, Ability::Dexterity)
        &&& contains_ability(self.0@, Ability::Constitution)
        &&& contains_ability(self.0@, Ability::Intelligence)
        &&& contains_ability(self.0@, Ability::Wisdom)
        &&& contains_ability(self.0@, Ability::Charisma)
    }

    /// The unique entry belonging to the ability `a`.
    pub open spec fn spec_index(self, a: Ability) -> AbilityScore {
        self.0@[choose|i: int| 0 <= i < 6 && #[trigger] self.0@[i].ability == a]
    }

    /// Builds the collection from one score per ability, in canonical order.
    pub fn from_scores(
        strength: u8,
        dexterity: u8,
        constitution: u8,
        intelligence: u8,
        wisdom: u8,
        charisma: u8,
    ) -> (r: CharacterAbilities)
        requires
            strength <= EFFECTIVE_ABILITY_SCORE_MAX,
            dexterity <= EFFECTIVE_ABILITY_SCORE_MAX,
            constitution <= EFFECTIVE_ABILITY_SCORE_MAX,
            intelligence <= EFFECTIVE_ABILITY_SCORE_MAX,
            wisdom <= EFFECTIVE_ABILITY_SCORE_MAX,
            charisma <= EFFECTIVE_ABILITY_SCORE_MAX,
        ensures
            r.wf(),
            r.spec_index(Ability::Strength).score == strength,
            r.spec_index(Ability::Dexterity).score == dexterity,
            r.spec_index(Ability::Constitution).score == constitution,
            r.spec_index(Ability::Intelligence).score == intelligence,
            r.spec_index(Ability::Wisdom).score == wisdom,
            r.spec_index(Ability::Charisma).score == charisma,
    {
        let entries = [
            AbilityScore::new(Ability::Strength, strength),
            AbilityScore::new(Ability::Dexterity, dexterity),
            AbilityScore::new(Ability::Constitution, constitution),
            AbilityScore::new(Ability::Intelligence, intelligence),
            AbilityScore::new(Ability::Wisdom, wisdom),
            AbilityScore::new(Ability::Charisma, charisma),
        ];
        let r = CharacterAbilities(entries);
        proof {
            assert(r.0@[0].ability == Ability::Strength);
            assert(r.0@[1].ability == Ability::Dexterity);
            assert(r.0@[2].ability == Ability::Constitution);
            assert(r.0@[3].ability == Ability::Intelligence);
            assert(r.0@[4].ability == Ability::Wisdom);
            assert(r.0@[5].ability == Ability::Charisma);
            lemma_unique_lookup(r, Ability::Strength, 0);
            lemma_unique_lookup(r, Ability::Dexterity, 1);
            lemma_unique_lookup(r, Ability::Constitution, 2);
            lemma_unique_lookup(r, Ability::Intelligence, 3);
            lemma_unique_lookup(r, Ability::Wisdom, 4);
            lemma_unique_lookup(r, Ability::Charisma, 5);
        }
        r
    }

    /// Looks up the entry for one ability by scanning the six slots.
    ///
    /// A well-formed collection holds exactly one entry per kind, so the
    /// lookup cannot miss.
    pub fn index(&self, ability: Ability) -> (r: AbilityScore)
        requires
            self.wf(),
        ensures
            r == self.spec_index(ability),
            r.ability == ability,
            r.wf(),
    {
        let mut i: usize = 0;
        while i < 6
            invariant
                self.wf(),
                i <= 6,
                forall|j: int| 0 <= j < i ==> self.0@[j].ability != ability,
            decreases 6 - i,
        {
            let entry = self.0[i];
            if entry.ability == ability {
                proof {
                    lemma_unique_lookup(*self, ability, i as int);
                }
                return entry;
            }
            i = i + 1;
        }
        proof {
            assert(contains_ability(self.0@, ability)) by {
                match ability {
                    Ability::Strength => {},
                    Ability::Dexterity => {},
                    Ability::Constitution => {},
                    Ability::Intelligence => {},
                    Ability::Wisdom => {},
                    Ability::Charisma => {},
                }
            }
            let k = choose|k: int| 0 <= k < 6 && #[trigger] self.0@[k].ability == ability;
            assert(self.0@[k].ability != ability);
        }
        self.0[0]
    }
}

/// In a collection with pairwise-distinct kinds, an index whose entry carries
/// the ability `a` is the one `spec_index` selects.
proof fn lemma_unique_lookup(c: CharacterAbilities, a: Ability, i: int)
    requires
        forall|p: int, q: int|
            0 <= p < 6 && 0 <= q < 6 && p != q ==> c.0@[p].ability != c.0@[q].ability,
        0 <= i < 6,
        c.0@[i].ability == a,
    ensures
        c.spec_index(a) == c.0@[i],
{
    let k = choose|k: int| 0 <= k < 6 && #[trigger] c.0@[k].ability == a;
    assert(c.0@[i].ability == a);
    if k != i {
        assert(c.0@[k].ability != c.0@[i].ability);
    }
}

} // verus!
