//! The choices a designer makes for a card, and the fixed tables behind them.

use vstd::prelude::*;
use crate::multiplier::{apply_multiplier, Multiplier};
use crate::text::{decimal, push_decimal};

verus! {

/// The priority of a card that has spent nothing on speed.
pub const DEFAULT_PRIORITY: i32 = 11;

/// The width in bytes of one column of a menu.
pub const PADDING: usize = 36;

/// The cast cost that stands for "not computed": no effect has been chosen.
pub const UNRESOLVED_BARNACLES: i32 = 100000000;

/// The tier of a card: it selects the power range and the price of speed.
#[derive(Clone, Copy, Debug, PartialEq, Eq, Structural)]
pub enum Rarity {
    Common,
    Uncommon,
    Rare,
    Epic,
    Legendary,
}

/// How well a card turns power into budget, and budget into cast cost.
#[derive(Clone, Copy, Debug, PartialEq, Eq, Structural)]
pub enum Efficiency {
    Bad,
    Normal,
    Good,
}

/// The targeting breadth of a card's effect.
#[derive(Clone, Copy, Debug, PartialEq, Eq, Structural)]
pub enum Range {
    Single,
    Multiple,
    AoE,
    ExtendedAoE,
}

/// What a card does, with its magnitude. A designer chooses the variant with
/// magnitude zero; the engine fills the magnitude in.
#[derive(Clone, Copy, Debug, PartialEq, Eq, Structural)]
pub enum Effect {
    Heal(i32),
    AcidHeal(i32),
    Damage(i32),
    Shield(i32),
}

impl Rarity {
    /// The rarity's name as it is shown and used in default card names.
    pub open spec fn spec_name(self) -> Seq<char> {
        match self {
            Rarity::Common => "Common"@,
            Rarity::Uncommon => "Uncommon"@,
            Rarity::Rare => "Rare"@,
            Rarity::Epic => "Epic"@,
            Rarity::Legendary => "Legendary"@,
        }
    }

    /// The rarity's name.
    pub fn name(&self) -> (text: String)
        ensures
            text@ == self.spec_name(),
    {
        match self {
            Rarity::Common => "Common".to_owned(),
            Rarity::Uncommon => "Uncommon".to_owned(),
            Rarity::Rare => "Rare".to_owned(),
            Rarity::Epic => "Epic".to_owned(),
            Rarity::Legendary => "Legendary".to_owned(),
        }
    }
}

impl Efficiency {
    /// The factor from rolled power to budget: 0.75, 1 or 1.5.
    pub open spec fn multiplier(self) -> Multiplier {
        match self {
            Efficiency::Bad => Multiplier { num: 3, den: 4 },
            Efficiency::Normal => Multiplier { num: 1, den: 1 },
            Efficiency::Good => Multiplier { num: 3, den: 2 },
        }
    }
}

/// The factor from rolled power to budget.
pub fn multiplier_from_efficiency(efficiency: &Efficiency) -> (multiplier: Multiplier)
    ensures
        multiplier == efficiency.multiplier(),
{
    match efficiency {
        Efficiency::Bad => Multiplier::new(3, 4),
        Efficiency::Normal => Multiplier::new(1, 1),
        Efficiency::Good => Multiplier::new(3, 2),
    }
}

impl Range {
    /// The flat number of points that the range takes from the budget.
    pub open spec fn cost(self) -> int {
        match self {
            Range::Single => 0,
            Range::Multiple => 1,
            Range::AoE => 2,
            Range::ExtendedAoE => 4,
        }
    }

    /// The range's name as it is shown on a card.
    pub open spec fn spec_name(self) -> Seq<char> {
        match self {
            Range::Single => "Single"@,
            Range::Multiple => "Multiple"@,
            Range::AoE => "AoE"@,
            Range::ExtendedAoE => "ExtendedAoE"@,
        }
    }

    /// The range's name.
    pub fn name(&self) -> (text: String)
        ensures
            text@ == self.spec_name(),
    {
        match self {
            Range::Single => "Single".to_owned(),
            Range::Multiple => "Multiple".to_owned(),
            Range::AoE => "AoE".to_owned(),
            Range::ExtendedAoE => "ExtendedAoE".to_owned(),
        }
    }
}

/// The flat number of points that `range` takes from the budget.
pub fn cost_from_range(range: &Range) -> (cost: i32)
    ensures
        cost == range.cost(),
{
    match range {
        Range::Single => 0,
        Range::Multiple => 1,
        Range::AoE => 2,
        Range::ExtendedAoE => 4,
    }
}

impl Effect {
    /// The magnitude of the effect.
    pub open spec fn magnitude(self) -> i32 {
        match self {
            Effect::Heal(magnitude) => magnitude,
            Effect::AcidHeal(magnitude) => magnitude,
            Effect::Damage(magnitude) => magnitude,
            Effect::Shield(magnitude) => magnitude,
        }
    }

    /// The same kind of effect with the magnitude `magnitude`.
    pub open spec fn spec_with_magnitude(self, magnitude: i32) -> Effect {
        match self {
            Effect::Heal(_) => Effect::Heal(magnitude),
            Effect::AcidHeal(_) => Effect::AcidHeal(magnitude),
            Effect::Damage(_) => Effect::Damage(magnitude),
            Effect::Shield(_) => Effect::Shield(magnitude),
        }
    }

    /// The factor from magnitude to cast cost. It is a table of its own, not
    /// the one that prices an effect against the budget.
    pub open spec fn barnacle_rate(self) -> Multiplier {
        match self {
            Effect::Heal(_) => Multiplier { num: 5, den: 4 },
            Effect::AcidHeal(_) => Multiplier { num: 9, den: 8 },
            Effect::Damage(_) => Multiplier { num: 1, den: 1 },
            Effect::Shield(_) => Multiplier { num: 11, den: 8 },
        }
    }

    /// The cast cost that the effect alone stands for.
    pub open spec fn barnacles(self) -> int {
        self.barnacle_rate().times(self.magnitude() as int)
    }

    /// The name of the kind of effect.
    pub open spec fn label(self) -> Seq<char> {
        match self {
            Effect::Heal(_) => "Heal"@,
            Effect::AcidHeal(_) => "Acid Heal"@,
            Effect::Damage(_) => "Damage"@,
            Effect::Shield(_) => "Shield"@,
        }
    }

    /// The effect as a card shows it: the kind, then the magnitude in
    /// round brackets.
    pub open spec fn text(self) -> Seq<char> {
        self.label() + " ("@ + decimal(self.magnitude() as int) + ")"@
    }

    /// The same kind of effect with the magnitude `magnitude`.
    #[verifier::when_used_as_spec(spec_with_magnitude)]
    pub fn with_magnitude(self, magnitude: i32) -> (effect: Effect)
        ensures
            effect == self.spec_with_magnitude(magnitude),
    {
        match self {
            Effect::Heal(_) => Effect::Heal(magnitude),
            Effect::AcidHeal(_) => Effect::AcidHeal(magnitude),
            Effect::Damage(_) => Effect::Damage(magnitude),
            Effect::Shield(_) => Effect::Shield(magnitude),
        }
    }

    /// The effect as a card shows it.
    pub fn to_string(&self) -> (text: String)
        ensures
            text@ == self.text(),
    {
        let (label, magnitude) = match self {
            Effect::Heal(magnitude) => ("Heal", *magnitude),
            Effect::AcidHeal(magnitude) => ("Acid Heal", *magnitude),
            Effect::Damage(magnitude) => ("Damage", *magnitude),
            Effect::Shield(magnitude) => ("Shield", *magnitude),
        };
        let mut text = label.to_owned();
        text.append(" (");
        push_decimal(&mut text, magnitude as i64);
        text.append(")");
        text
    }
}

/// The cast cost that stands for an effect, if one is chosen.
pub open spec fn effect_barnacles(effect: Option<Effect>) -> int {
    match effect {
        Some(effect) => effect.barnacles(),
        None => UNRESOLVED_BARNACLES as int,
    }
}

/// The cast cost that `effect` stands for: its magnitude at the rate of its
/// kind, or `UNRESOLVED_BARNACLES` where there is no effect.
pub fn barnacles_from_effect(effect: &Option<Effect>) -> (barnacles: i32)
    ensures
        barnacles == effect_barnacles(*effect),
{
    match effect {
        None => UNRESOLVED_BARNACLES,
        Some(Effect::Heal(magnitude)) => apply_multiplier(*magnitude, Multiplier::new(5, 4)),
        Some(Effect::AcidHeal(magnitude)) => apply_multiplier(*magnitude, Multiplier::new(9, 8)),
        Some(Effect::Damage(magnitude)) => {
            assert((*magnitude as int) * 1 / 1 == *magnitude as int);
            *magnitude
        },
        Some(Effect::Shield(magnitude)) => apply_multiplier(*magnitude, Multiplier::new(11, 8)),
    }
}

} // verus!
