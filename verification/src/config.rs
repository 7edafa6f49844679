//! The modifier tables: what each rarity, range and effect is worth.

use vstd::prelude::*;
use rand::rngs::ThreadRng;
use crate::choices::{Effect, Range, Rarity};
use crate::multiplier::Multiplier;
use crate::random::draw_ratio;

verus! {

/// The power a rarity rolls: one of the two ends. Where both ends are equal
/// the power is fixed.
#[derive(Clone, Copy, Debug, PartialEq, Eq, Structural)]
pub struct PowerRange {
    pub min: i32,
    pub max: i32,
}

/// The power range of each rarity.
#[derive(Clone, Copy, Debug, PartialEq, Eq, Structural)]
pub struct RarityRanges {
    pub common: PowerRange,
    pub uncommon: PowerRange,
    pub rare: PowerRange,
    pub epic: PowerRange,
    pub legendary: PowerRange,
}

/// For each rarity, the factor from allocated points to lost priority.
#[derive(Clone, Copy, Debug, PartialEq, Eq, Structural)]
pub struct RarityPriorityModifiers {
    pub common: Multiplier,
    pub uncommon: Multiplier,
    pub rare: Multiplier,
    pub epic: Multiplier,
    pub legendary: Multiplier,
}

/// For one kind of effect, the factor by which each range prices it.
#[derive(Clone, Copy, Debug, PartialEq, Eq, Structural)]
pub struct RangeModifiers {
    pub single: Multiplier,
    pub multiple: Multiplier,
    pub aoe: Multiplier,
    pub aoe_extended: Multiplier,
}

/// All the tables of one run. The engine reads them and never changes them.
#[derive(Clone, Copy, Debug, PartialEq, Eq, Structural)]
pub struct Config {
    pub rarity_ranges: RarityRanges,
    pub power_to_priority: RarityPriorityModifiers,
    pub damage_range_modifiers: RangeModifiers,
    pub heal_range_modifiers: RangeModifiers,
    pub acid_heal_range_modifiers: RangeModifiers,
    pub shield_heal_range_modifiers: RangeModifiers,
}

/// What the store of the tables held when the run began.
#[derive(Clone, Copy, Debug, PartialEq, Eq, Structural)]
pub enum Stored {
    /// Nothing but blanks.
    Blank,
    /// Something that is no set of tables.
    Corrupt,
    /// These tables.
    Valid(Config),
}

/// The tables that a run uses, and what is to be done to the store.
#[derive(Clone, Copy, Debug, PartialEq, Eq, Structural)]
pub struct Loaded {
    pub config: Config,
    /// The store is to be emptied first.
    pub truncate: bool,
    /// The tables are to be written to the store.
    pub rewrite: bool,
}

impl Stored {
    /// The tables to use and what to do to the store: valid tables are
    /// never written over, and anything else gives way to the defaults.
    pub open spec fn spec_settle(stored: Stored) -> Loaded {
        match stored {
            Stored::Valid(config) => Loaded { config, truncate: false, rewrite: false },
            Stored::Blank => Loaded {
                config: Config::spec_default(),
                truncate: false,
                rewrite: true,
            },
            Stored::Corrupt => Loaded {
                config: Config::spec_default(),
                truncate: true,
                rewrite: true,
            },
        }
    }
}

impl PowerRange {
    /// Whether the two ends are in order, so that the range is not empty.
    pub open spec fn ordered(self) -> bool {
        self.min <= self.max
    }

    /// The end that a draw selects: the lower one on a hit.
    pub open spec fn end(self, low: bool) -> i32 {
        if low {
            self.min
        } else {
            self.max
        }
    }

    /// The range with the ends `min` and `max`.
    pub fn new(min: i32, max: i32) -> (range: PowerRange)
        ensures
            range == (PowerRange { min, max }),
    {
        PowerRange { min, max }
    }

    /// The end of the range that the draw `low` selects.
    pub fn pick(&self, low: bool) -> (power: i32)
        ensures
            power == self.end(low),
    {
        if low {
            self.min
        } else {
            self.max
        }
    }

    /// One of the two ends, each with an even chance.
    pub fn get(&self, rng: &mut ThreadRng) -> (power: i32)
        ensures
            power == self.min || power == self.max,
            self.ordered() ==> self.min <= power <= self.max,
    {
        let low = draw_ratio(rng, 1, 2);
        self.pick(low)
    }
}

impl RarityRanges {
    /// The power range of `rarity`.
    pub open spec fn spec_range(self, rarity: Rarity) -> PowerRange {
        match rarity {
            Rarity::Common => self.common,
            Rarity::Uncommon => self.uncommon,
            Rarity::Rare => self.rare,
            Rarity::Epic => self.epic,
            Rarity::Legendary => self.legendary,
        }
    }

    /// The table that is used where none is given.
    pub open spec fn spec_default() -> RarityRanges {
        RarityRanges {
            common: PowerRange { min: 4, max: 4 },
            uncommon: PowerRange { min: 5, max: 8 },
            rare: PowerRange { min: 10, max: 12 },
            epic: PowerRange { min: 14, max: 16 },
            legendary: PowerRange { min: 18, max: 20 },
        }
    }

    /// The power range of `rarity`.
    #[verifier::when_used_as_spec(spec_range)]
    pub fn range(self, rarity: Rarity) -> (range: PowerRange)
        ensures
            range == self.spec_range(rarity),
    {
        match rarity {
            Rarity::Common => self.common,
            Rarity::Uncommon => self.uncommon,
            Rarity::Rare => self.rare,
            Rarity::Epic => self.epic,
            Rarity::Legendary => self.legendary,
        }
    }

    /// The power that a card of `rarity` rolls: one end of the rarity's range.
    pub fn get_power(&self, rng: &mut ThreadRng, rarity: &Rarity) -> (power: i32)
        ensures
            power == self.spec_range(*rarity).min || power == self.spec_range(*rarity).max,
            self.spec_range(*rarity).ordered() ==> self.spec_range(*rarity).min <= power
                <= self.spec_range(*rarity).max,
    {
        match rarity {
            Rarity::Common => self.common.get(rng),
            Rarity::Uncommon => self.uncommon.get(rng),
            Rarity::Rare => self.rare.get(rng),
            Rarity::Epic => self.epic.get(rng),
            Rarity::Legendary => self.legendary.get(rng),
        }
    }
}

impl Default for RarityRanges {
    fn default() -> (ranges: RarityRanges)
        ensures
            ranges == RarityRanges::spec_default(),
    {
        RarityRanges {
            common: PowerRange::new(4, 4),
            uncommon: PowerRange::new(5, 8),
            rare: PowerRange::new(10, 12),
            epic: PowerRange::new(14, 16),
            legendary: PowerRange::new(18, 20),
        }
    }
}

impl RarityPriorityModifiers {
    /// The factor of `rarity`.
    pub open spec fn spec_modifier(self, rarity: Rarity) -> Multiplier {
        match rarity {
            Rarity::Common => self.common,
            Rarity::Uncommon => self.uncommon,
            Rarity::Rare => self.rare,
            Rarity::Epic => self.epic,
            Rarity::Legendary => self.legendary,
        }
    }

    /// The table that is used where none is given: 4, 3.5, 1.75, 1.5 and
    /// 0.75.
    pub open spec fn spec_default() -> RarityPriorityModifiers {
        RarityPriorityModifiers {
            common: Multiplier { num: 4, den: 1 },
            uncommon: Multiplier { num: 7, den: 2 },
            rare: Multiplier { num: 7, den: 4 },
            epic: Multiplier { num: 3, den: 2 },
            legendary: Multiplier { num: 3, den: 4 },
        }
    }

    /// The factor of `rarity`.
    pub fn get_modifier(&self, rarity: &Rarity) -> (modifier: Multiplier)
        ensures
            modifier == self.spec_modifier(*rarity),
    {
        match rarity {
            Rarity::Common => self.common,
            Rarity::Uncommon => self.uncommon,
            Rarity::Rare => self.rare,
            Rarity::Epic => self.epic,
            Rarity::Legendary => self.legendary,
        }
    }
}

impl Default for RarityPriorityModifiers {
    fn default() -> (modifiers: RarityPriorityModifiers)
        ensures
            modifiers == RarityPriorityModifiers::spec_default(),
    {
        RarityPriorityModifiers {
            common: Multiplier::new(4, 1),
            uncommon: Multiplier::new(7, 2),
            rare: Multiplier::new(7, 4),
            epic: Multiplier::new(3, 2),
            legendary: Multiplier::new(3, 4),
        }
    }
}

impl RangeModifiers {
    /// The factor of `range`.
    pub open spec fn spec_modifier(self, range: Range) -> Multiplier {
        match range {
            Range::Single => self.single,
            Range::Multiple => self.multiple,
            Range::AoE => self.aoe,
            Range::ExtendedAoE => self.aoe_extended,
        }
    }

    /// The table that is used for the kind of `effect` where none is given.
    pub open spec fn spec_new(effect: Effect) -> RangeModifiers {
        match effect {
            Effect::Damage(_) => RangeModifiers {
                single: Multiplier { num: 1, den: 1 },
                multiple: Multiplier { num: 5, den: 4 },
                aoe: Multiplier { num: 7, den: 8 },
                aoe_extended: Multiplier { num: 3, den: 4 },
            },
            Effect::Heal(_) => RangeModifiers {
                single: Multiplier { num: 3, den: 2 },
                multiple: Multiplier { num: 2, den: 1 },
                aoe: Multiplier { num: 5, den: 4 },
                aoe_extended: Multiplier { num: 3, den: 2 },
            },
            Effect::AcidHeal(_) => RangeModifiers {
                single: Multiplier { num: 5, den: 4 },
                multiple: Multiplier { num: 5, den: 4 },
                aoe: Multiplier { num: 7, den: 4 },
                aoe_extended: Multiplier { num: 2, den: 1 },
            },
            Effect::Shield(_) => RangeModifiers {
                single: Multiplier { num: 3, den: 2 },
                multiple: Multiplier { num: 2, den: 1 },
                aoe: Multiplier { num: 5, den: 4 },
                aoe_extended: Multiplier { num: 3, den: 2 },
            },
        }
    }

    /// The table that prices every range alike, with the factor one.
    pub open spec fn spec_default() -> RangeModifiers {
        RangeModifiers {
            single: Multiplier { num: 1, den: 1 },
            multiple: Multiplier { num: 1, den: 1 },
            aoe: Multiplier { num: 1, den: 1 },
            aoe_extended: Multiplier { num: 1, den: 1 },
        }
    }

    /// The factor of `range`.
    pub fn get_modifier(&self, range: &Range) -> (modifier: Multiplier)
        ensures
            modifier == self.spec_modifier(*range),
    {
        match range {
            Range::Single => self.single,
            Range::Multiple => self.multiple,
            Range::AoE => self.aoe,
            Range::ExtendedAoE => self.aoe_extended,
        }
    }

    /// The table that is used for the kind of `effect` where none is given.
    pub fn new(effect: Effect) -> (modifiers: RangeModifiers)
        ensures
            modifiers == RangeModifiers::spec_new(effect),
    {
        match effect {
            Effect::Damage(_) => RangeModifiers {
                single: Multiplier::new(1, 1),
                multiple: Multiplier::new(5, 4),
                aoe: Multiplier::new(7, 8),
                aoe_extended: Multiplier::new(3, 4),
            },
            Effect::Heal(_) => RangeModifiers {
                single: Multiplier::new(3, 2),
                multiple: Multiplier::new(2, 1),
                aoe: Multiplier::new(5, 4),
                aoe_extended: Multiplier::new(3, 2),
            },
            Effect::AcidHeal(_) => RangeModifiers {
                single: Multiplier::new(5, 4),
                multiple: Multiplier::new(5, 4),
                aoe: Multiplier::new(7, 4),
                aoe_extended: Multiplier::new(2, 1),
            },
            Effect::Shield(_) => RangeModifiers {
                single: Multiplier::new(3, 2),
                multiple: Multiplier::new(2, 1),
                aoe: Multiplier::new(5, 4),
                aoe_extended: Multiplier::new(3, 2),
            },
        }
    }
}

impl Default for RangeModifiers {
    fn default() -> (modifiers: RangeModifiers)
        ensures
            modifiers == RangeModifiers::spec_default(),
    {
        RangeModifiers {
            single: Multiplier::new(1, 1),
            multiple: Multiplier::new(1, 1),
            aoe: Multiplier::new(1, 1),
            aoe_extended: Multiplier::new(1, 1),
        }
    }
}

impl Config {
    /// The factor by which `range` prices the kind of `effect`.
    pub open spec fn effect_range_modifier(self, effect: Effect, range: Range) -> Multiplier {
        match effect {
            Effect::Heal(_) => self.heal_range_modifiers.spec_modifier(range),
            Effect::AcidHeal(_) => self.acid_heal_range_modifiers.spec_modifier(range),
            Effect::Damage(_) => self.damage_range_modifiers.spec_modifier(range),
            Effect::Shield(_) => self.shield_heal_range_modifiers.spec_modifier(range),
        }
    }

    /// The tables that are used where none are given.
    pub open spec fn spec_default() -> Config {
        Config {
            rarity_ranges: RarityRanges::spec_default(),
            power_to_priority: RarityPriorityModifiers::spec_default(),
            damage_range_modifiers: RangeModifiers::spec_new(Effect::Damage(0)),
            heal_range_modifiers: RangeModifiers::spec_new(Effect::Heal(0)),
            acid_heal_range_modifiers: RangeModifiers::spec_new(Effect::AcidHeal(0)),
            shield_heal_range_modifiers: RangeModifiers::spec_new(Effect::Shield(0)),
        }
    }

    /// The factor by which `range` prices the kind of `effect`.
    pub fn get_effect_range_modifier(&self, effect: &Effect, range: &Range) -> (modifier:
        Multiplier)
        ensures
            modifier == self.effect_range_modifier(*effect, *range),
    {
        match effect {
            Effect::Heal(_) => self.heal_range_modifiers.get_modifier(range),
            Effect::AcidHeal(_) => self.acid_heal_range_modifiers.get_modifier(range),
            Effect::Damage(_) => self.damage_range_modifiers.get_modifier(range),
            Effect::Shield(_) => self.shield_heal_range_modifiers.get_modifier(range),
        }
    }

    /// The tables of a run from what the store held. Tables that were read
    /// are used and left alone. Where the store was blank or held no usable
    /// tables, the defaults are used and written back, over what was there
    /// where that was unusable.
    pub fn settle(stored: Stored) -> (loaded: Loaded)
        ensures
            loaded == Stored::spec_settle(stored),
    {
        match stored {
            Stored::Valid(config) => Loaded { config, truncate: false, rewrite: false },
            Stored::Blank => Loaded { config: Config::default(), truncate: false, rewrite: true },
            Stored::Corrupt => Loaded { config: Config::default(), truncate: true, rewrite: true },
        }
    }
}

impl Default for Config {
    fn default() -> (config: Config)
        ensures
            config == Config::spec_default(),
    {
        Config {
            rarity_ranges: RarityRanges::default(),
            power_to_priority: RarityPriorityModifiers::default(),
            damage_range_modifiers: RangeModifiers::new(Effect::Damage(0)),
            heal_range_modifiers: RangeModifiers::new(Effect::Heal(0)),
            acid_heal_range_modifiers: RangeModifiers::new(Effect::AcidHeal(0)),
            shield_heal_range_modifiers: RangeModifiers::new(Effect::Shield(0)),
        }
    }
}

} // verus!
