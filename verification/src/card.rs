//! The budget engine: from a rolled power and a designer's choices to a card
//! with its cast cost and priority.
//!
//! A card starts with the budget that its rarity rolls and its efficiency
//! scales. Priority allocation, range and effect then each take their price
//! from the budget, in that order and one at a time. `build` ends the card: it
//! derives priority and cast cost, or says why the card cannot be.

use vstd::prelude::*;
use crate::choices::{
    barnacles_from_effect, cost_from_range, effect_barnacles, multiplier_from_efficiency, Effect,
    Efficiency, Range, Rarity, DEFAULT_PRIORITY, UNRESOLVED_BARNACLES,
};
use crate::config::Config;
use crate::multiplier::{apply_multiplier, Multiplier};
use crate::text::{decimal, push_decimal};

verus! {

/// A card in the making, or a finished one.
#[derive(Debug)]
pub struct Card {
    pub name: String,
    pub budget: i32,
    pub efficiency: Efficiency,
    pub priority: i32,
    pub barnacles: i32,
    pub rarity: Rarity,
    pub priority_allocation: i32,
    pub range: Option<Range>,
    pub effect: Option<Effect>,
    pub config: Config,
}

/// What a card is, with its numbers as integers without bounds.
pub struct CardView {
    pub name: Seq<char>,
    pub budget: int,
    pub efficiency: Efficiency,
    pub priority: int,
    pub barnacles: int,
    pub rarity: Rarity,
    pub priority_allocation: int,
    pub range: Option<Range>,
    pub effect: Option<Effect>,
    pub config: Config,
}

/// Why `build` gave no card.
#[derive(Clone, Copy, Debug, PartialEq, Eq, Structural)]
pub enum BuildError {
    /// The card bought no priority, or its cast cost is zero. The two numbers
    /// are the card's priority and what was left of its budget.
    Infeasible { priority: i32, budget: i32 },
    /// The card has no range or no effect yet.
    Unresolved,
    /// A price is more than the budget can go down by within an `i32`.
    OutOfRange,
}

/// A result of the engine, with the card in it as its view.
pub open spec fn outcome_view(result: Result<Card, BuildError>) -> Result<CardView, BuildError> {
    match result {
        Ok(card) => Ok(card@),
        Err(error) => Err(error),
    }
}

impl View for Card {
    type V = CardView;

    open spec fn view(&self) -> CardView {
        CardView {
            name: self.name@,
            budget: self.budget as int,
            efficiency: self.efficiency,
            priority: self.priority as int,
            barnacles: self.barnacles as int,
            rarity: self.rarity,
            priority_allocation: self.priority_allocation as int,
            range: self.range,
            effect: self.effect,
            config: self.config,
        }
    }
}

/// The magnitude that `budget` buys of `effect` at `range`: the budget
/// divided by the range's factor for the effect, cut toward zero.
pub open spec fn effect_magnitude(effect: Effect, budget: int, range: Range, config: Config) -> int {
    config.effect_range_modifier(effect, range).spec_inverse().times(budget)
}

/// What the effect takes from the budget: its magnitude multiplied by the
/// factor again, cut toward zero. The two cuts do not undo each other, so
/// this may be less than the budget.
pub open spec fn effect_debit(effect: Effect, budget: int, range: Range, config: Config) -> int {
    config.effect_range_modifier(effect, range).times(
        effect_magnitude(effect, budget, range, config),
    )
}

/// The priority that `allocation` points buy off a card of `rarity`.
///
/// Nothing is bought with no points. Otherwise the points are multiplied by
/// the rarity's factor, brought into `1 ..= DEFAULT_PRIORITY`, and an even
/// result is raised by one: the outcome is an odd number.
pub open spec fn priority_reduction(allocation: int, rarity: Rarity, config: Config) -> int {
    if allocation <= 0 {
        0
    } else {
        let scaled = config.power_to_priority.spec_modifier(rarity).times(allocation);
        let held = if scaled < 1 {
            1
        } else if scaled > DEFAULT_PRIORITY {
            DEFAULT_PRIORITY as int
        } else {
            scaled
        };
        if held % 2 == 0 {
            held + 1
        } else {
            held
        }
    }
}

/// The cast cost of an effect at a range for a card of `efficiency`: what
/// the effect stands for plus the range's flat cost, divided by the
/// efficiency's factor and cut toward zero. A missing effect counts as
/// `UNRESOLVED_BARNACLES`, a missing range as `Range::Single`.
pub open spec fn cast_cost(effect: Option<Effect>, range: Option<Range>, efficiency: Efficiency) -> int {
    let flat = match range {
        Some(range) => range.cost(),
        None => Range::Single.cost(),
    };
    efficiency.multiplier().spec_inverse().times(effect_barnacles(effect) + flat)
}

/// The cost of taking a card of cast cost `barnacles` back: a third of it,
/// cut toward zero, and at least one.
pub open spec fn withdraw_cost(barnacles: int) -> int {
    let third = (Multiplier { num: 1, den: 3 }).times(barnacles);
    if third < 1 {
        1
    } else {
        third
    }
}

impl CardView {
    /// The card as it starts: the budget is `power` scaled by the
    /// efficiency, nothing is chosen, the priority is untouched.
    pub open spec fn fresh(
        name: Seq<char>,
        rarity: Rarity,
        efficiency: Efficiency,
        power: int,
        config: Config,
    ) -> CardView {
        CardView {
            name,
            budget: efficiency.multiplier().times(power),
            efficiency,
            priority: DEFAULT_PRIORITY as int,
            barnacles: UNRESOLVED_BARNACLES as int,
            rarity,
            priority_allocation: 0,
            range: None,
            effect: None,
            config,
        }
    }

    /// The card after `allocation` points went from the budget to priority.
    pub open spec fn allocate(self, allocation: int) -> CardView {
        CardView { priority_allocation: allocation, budget: self.budget - allocation, ..self }
    }

    /// The card after `range` was chosen and paid for.
    pub open spec fn select_range(self, range: Range) -> CardView {
        CardView { range: Some(range), budget: self.budget - range.cost(), ..self }
    }

    /// The card after the kind of `effect` was chosen: the effect has the
    /// magnitude that the budget buys at the card's range, and the budget
    /// has paid the debit.
    pub open spec fn select_effect(self, effect: Effect) -> CardView
        recommends
            self.range is Some,
    {
        let range = self.range->0;
        let magnitude = effect_magnitude(effect, self.budget, range, self.config);
        CardView {
            effect: Some(effect.spec_with_magnitude(magnitude as i32)),
            budget: self.budget - effect_debit(effect, self.budget, range, self.config),
            ..self
        }
    }

    /// Whether range and effect are both chosen.
    pub open spec fn resolved(self) -> bool {
        self.range is Some && self.effect is Some
    }

    /// The card with the priority and cast cost that its choices give.
    pub open spec fn built(self) -> CardView {
        CardView {
            priority: DEFAULT_PRIORITY - priority_reduction(
                self.priority_allocation,
                self.rarity,
                self.config,
            ),
            barnacles: cast_cost(self.effect, self.range, self.efficiency),
            ..self
        }
    }

    /// The card as `build` leaves it: built where range and effect are
    /// chosen, and as it was where they are not.
    pub open spec fn after_build(self) -> CardView {
        if self.resolved() {
            self.built()
        } else {
            self
        }
    }

    /// Whether a built card cannot be played: its priority is untouched or
    /// its cast cost is zero.
    pub open spec fn infeasible(self) -> bool {
        self.priority == DEFAULT_PRIORITY || self.barnacles == 0
    }

    /// What `build` makes of the card.
    pub open spec fn outcome(self) -> Result<CardView, BuildError> {
        if !self.resolved() {
            Err(BuildError::Unresolved)
        } else if self.built().infeasible() {
            Err(
                BuildError::Infeasible {
                    priority: self.built().priority as i32,
                    budget: self.built().budget as i32,
                },
            )
        } else {
            Ok(self.built())
        }
    }

    /// The card's report.
    pub open spec fn text(self) -> Seq<char>
        recommends
            self.resolved(),
    {
        self.name + ": \n\tPriority: "@ + decimal(self.priority) + "\n\tRarity: "@
            + self.rarity.spec_name() + "\n\tCast: "@ + decimal(self.barnacles)
            + " barnacles\n\tWithdraw: "@ + decimal(withdraw_cost(self.barnacles))
            + " barnacles\n\tEffect: "@ + self.effect->0.text() + ", Range: "@
            + self.range->0.spec_name()
    }

    /// The line that shows the budget.
    pub open spec fn budget_text(self) -> Seq<char> {
        "Card power budget: "@ + decimal(self.budget)
    }
}

impl BuildError {
    /// The error as a line of text.
    pub open spec fn text(self) -> Seq<char> {
        match self {
            BuildError::Infeasible { priority, budget } => "Card prio "@ + decimal(priority as int)
                + " due to budget: "@ + decimal(budget as int),
            BuildError::Unresolved => "Card has no range or no effect"@,
            BuildError::OutOfRange => "Card budget out of range"@,
        }
    }

    /// The error as a line of text.
    pub fn to_string(&self) -> (text: String)
        ensures
            text@ == self.text(),
    {
        match self {
            BuildError::Infeasible { priority, budget } => {
                let mut text = "Card prio ".to_owned();
                push_decimal(&mut text, *priority as i64);
                text.append(" due to budget: ");
                push_decimal(&mut text, *budget as i64);
                text
            },
            BuildError::Unresolved => "Card has no range or no effect".to_owned(),
            BuildError::OutOfRange => "Card budget out of range".to_owned(),
        }
    }
}

/// The effect with the magnitude that `budget` buys at `range`, and what it
/// takes from the budget.
pub fn cost_from_effect(effect: Effect, budget: i32, range: &Option<Range>, config: &Config) -> (cost:
    (Option<Effect>, i32))
    requires
        range is Some,
    ensures
        cost.0 == Some(
            effect.spec_with_magnitude(
                effect_magnitude(effect, budget as int, range->0, *config) as i32,
            ),
        ),
        cost.1 == effect_debit(effect, budget as int, range->0, *config),
{
    let effect_modifier = match range {
        Some(range) => config.get_effect_range_modifier(&effect, range),
        None => Multiplier::new(1, 1),
    };
    let magnitude = apply_multiplier(budget, effect_modifier.inverse());
    (Some(effect.with_magnitude(magnitude)), apply_multiplier(magnitude, effect_modifier))
}

/// The priority that `budget` allocated points buy off a card of `rarity`.
pub fn priority_from_budget(budget: i32, rarity: &Rarity, config: &Config) -> (reduction: i32)
    ensures
        reduction == priority_reduction(budget as int, *rarity, *config),
        0 <= reduction <= DEFAULT_PRIORITY,
{
    if budget <= 0 {
        0
    } else {
        let scaled = apply_multiplier(budget, config.power_to_priority.get_modifier(rarity));
        let value = if scaled < 1 {
            1
        } else if scaled > DEFAULT_PRIORITY {
            DEFAULT_PRIORITY
        } else {
            scaled
        };
        if value % 2 == 0 {
            value + 1
        } else {
            value
        }
    }
}

/// The cast cost that the card's effect, range and efficiency give.
pub fn get_barnacles(card: &Card) -> (barnacles: i32)
    ensures
        barnacles == cast_cost(card.effect, card.range, card.efficiency),
{
    let flat = match &card.range {
        Some(range) => cost_from_range(range),
        None => cost_from_range(&Range::Single),
    };
    let sum: i64 = barnacles_from_effect(&card.effect) as i64 + flat as i64;
    multiplier_from_efficiency(&card.efficiency).inverse().scale(sum)
}

impl Clone for Card {
    fn clone(&self) -> (card: Card)
        ensures
            card == *self,
    {
        Card {
            name: self.name.clone(),
            budget: self.budget,
            efficiency: self.efficiency,
            priority: self.priority,
            barnacles: self.barnacles,
            rarity: self.rarity,
            priority_allocation: self.priority_allocation,
            range: self.range,
            effect: self.effect,
            config: self.config,
        }
    }
}

impl Card {
    /// A card that starts from the rolled power `power`.
    pub fn with_power(
        name: String,
        rarity: Rarity,
        efficiency: Efficiency,
        power: i32,
        config: Config,
    ) -> (card: Card)
        ensures
            card@ == CardView::fresh(name@, rarity, efficiency, power as int, config),
    {
        Card {
            name,
            budget: apply_multiplier(power, multiplier_from_efficiency(&efficiency)),
            rarity,
            priority: DEFAULT_PRIORITY,
            efficiency,
            priority_allocation: 0,
            barnacles: UNRESOLVED_BARNACLES,
            range: None,
            effect: None,
            config,
        }
    }

    /// A card that starts from the power that its rarity rolls: one end of
    /// the rarity's power range.
    pub fn new(name: String, rarity: Rarity, efficiency: Efficiency, config: Config) -> (card: Card)
        ensures
            card@ == CardView::fresh(
                name@,
                rarity,
                efficiency,
                config.rarity_ranges.spec_range(rarity).min as int,
                config,
            ) || card@ == CardView::fresh(
                name@,
                rarity,
                efficiency,
                config.rarity_ranges.spec_range(rarity).max as int,
                config,
            ),
    {
        let mut rng = rand::thread_rng();
        let power = config.rarity_ranges.get_power(&mut rng, &rarity);
        Card::with_power(name, rarity, efficiency, power, config)
    }

    /// Spends `priority_allocation` points of the budget on priority.
    pub fn with_priority_allocation(&mut self, priority_allocation: i32) -> (card: &mut Card)
        requires
            i32::MIN <= old(self).budget - priority_allocation <= i32::MAX,
        ensures
            card@ == old(self)@.allocate(priority_allocation as int),
            *final(self) == *final(card),
    {
        self.priority_allocation = priority_allocation;
        self.budget -= priority_allocation;
        self
    }

    /// Chooses the range and pays its flat cost.
    pub fn with_range(&mut self, range: Range) -> (card: &mut Card)
        requires
            i32::MIN <= old(self).budget - range.cost(),
        ensures
            card@ == old(self)@.select_range(range),
            *final(self) == *final(card),
    {
        let cost = cost_from_range(&range);
        self.range = Some(range);
        self.budget -= cost;
        self
    }

    /// Chooses the kind of effect. The budget left, divided by the factor
    /// of the card's range for that kind, is the magnitude; the magnitude
    /// times the factor is what the budget pays.
    pub fn with_effect(&mut self, effect: Effect) -> (card: &mut Card)
        requires
            old(self).range is Some,
        ensures
            card@ == old(self)@.select_effect(effect),
            *final(self) == *final(card),
    {
        let (created_effect, used) = cost_from_effect(
            effect,
            self.budget,
            &self.range,
            &self.config,
        );
        proof {
            self.config.effect_range_modifier(effect, self.range->0).lemma_there_and_back(
                self.budget as int,
            );
        }
        self.budget -= used;
        self.effect = created_effect;
        self
    }

    /// Ends the card. Where range and effect are chosen, the priority
    /// becomes `DEFAULT_PRIORITY` less what the allocation buys, and the
    /// cast cost is derived; the card is then returned, unless it bought no
    /// priority or costs nothing to cast. A card without range or effect is
    /// left as it is. Building a built card changes nothing and gives the
    /// same answer again.
    pub fn build(&mut self) -> (result: Result<Card, BuildError>)
        ensures
            final(self)@ == old(self)@.after_build(),
            outcome_view(result) == old(self)@.outcome(),
            result matches Ok(card) ==> card == *final(self),
    {
        if self.range.is_none() || self.effect.is_none() {
            return Err(BuildError::Unresolved);
        }
        let reduction = priority_from_budget(self.priority_allocation, &self.rarity, &self.config);
        self.priority = DEFAULT_PRIORITY - reduction;
        self.barnacles = get_barnacles(self);
        if self.priority == DEFAULT_PRIORITY || self.barnacles == 0 {
            Err(BuildError::Infeasible { priority: self.priority, budget: self.budget })
        } else {
            Ok(self.clone())
        }
    }

    /// The card's report: name, priority, rarity, cast and withdraw cost,
    /// effect and range.
    pub fn to_string(&self) -> (text: String)
        requires
            self.range is Some,
            self.effect is Some,
        ensures
            text@ == self@.text(),
    {
        let mut text = self.name.clone();
        text.append(": \n\tPriority: ");
        push_decimal(&mut text, self.priority as i64);
        text.append("\n\tRarity: ");
        text.append(self.rarity.name().as_str());
        text.append("\n\tCast: ");
        push_decimal(&mut text, self.barnacles as i64);
        text.append(" barnacles\n\tWithdraw: ");
        push_decimal(&mut text, self.get_withdraw() as i64);
        text.append(" barnacles\n\tEffect: ");
        match &self.effect {
            Some(effect) => text.append(effect.to_string().as_str()),
            None => {},
        }
        text.append(", Range: ");
        match &self.range {
            Some(range) => text.append(range.name().as_str()),
            None => {},
        }
        text
    }

    /// The cost of taking the card back.
    pub fn get_withdraw(&self) -> (cost: i32)
        ensures
            cost == withdraw_cost(self.barnacles as int),
    {
        let third = apply_multiplier(self.barnacles, Multiplier::new(3, 1).inverse());
        if third < 1 {
            1
        } else {
            third
        }
    }

    /// The line that shows the budget.
    pub fn budget_line(&self) -> (text: String)
        ensures
            text@ == self@.budget_text(),
    {
        let mut text = "Card power budget: ".to_owned();
        push_decimal(&mut text, self.budget as i64);
        text
    }
}

} // verus!
