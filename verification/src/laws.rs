//! What holds of the engine for every card and every table.

use vstd::prelude::*;
use crate::card::{
    cast_cost, effect_debit, effect_magnitude, priority_reduction, BuildError, CardView,
};
use crate::choices::{Effect, Efficiency, Range, Rarity, DEFAULT_PRIORITY};
use crate::config::{Config, PowerRange, RangeModifiers};
use crate::multiplier::Multiplier;

verus! {

/// A rolled power lies within its range, both ends included, wherever the
/// ends of the range are in order.
pub proof fn law_power_within_range(range: PowerRange, low: bool)
    requires
        range.ordered(),
    ensures
        range.min <= range.end(low) <= range.max,
{
}

/// A card starts with a budget on the side of its power: efficiency never
/// turns a positive power into debt.
pub proof fn law_fresh_budget_keeps_sign(
    name: Seq<char>,
    rarity: Rarity,
    efficiency: Efficiency,
    power: int,
    config: Config,
)
    ensures
        i32::MIN <= CardView::fresh(name, rarity, efficiency, power, config).budget <= i32::MAX,
        power >= 0 ==> CardView::fresh(name, rarity, efficiency, power, config).budget >= 0,
        power <= 0 ==> CardView::fresh(name, rarity, efficiency, power, config).budget <= 0,
{
    efficiency.multiplier().lemma_times_sign(power);
}

/// An effect never takes more than the budget holds, and never adds to it:
/// of a budget that is not in debt, what is left lies between nothing and
/// the whole. The magnitude is cut when the budget is divided, and the debit
/// is cut again when the magnitude is multiplied back.
pub proof fn law_effect_spends_within_budget(card: CardView, effect: Effect)
    requires
        card.range is Some,
    ensures
        card.budget >= 0 ==> 0 <= card.select_effect(effect).budget <= card.budget,
        card.budget <= 0 ==> card.budget <= card.select_effect(effect).budget <= 0,
{
    card.config.effect_range_modifier(effect, card.range->0).lemma_there_and_back(card.budget);
}

/// A greater budget never buys a smaller magnitude of the same effect at
/// the same range.
pub proof fn law_magnitude_grows_with_budget(
    effect: Effect,
    low: int,
    high: int,
    range: Range,
    config: Config,
)
    requires
        low <= high,
    ensures
        effect_magnitude(effect, low, range, config) <= effect_magnitude(
            effect,
            high,
            range,
            config,
        ),
{
    config.effect_range_modifier(effect, range).spec_inverse().lemma_times_monotonic(low, high);
}

/// The priority that an allocation buys lies between nothing and the whole
/// priority of a card, is nothing exactly where no point is allocated, and
/// is an odd number otherwise.
pub proof fn law_priority_reduction(allocation: int, rarity: Rarity, config: Config)
    ensures
        0 <= priority_reduction(allocation, rarity, config) <= DEFAULT_PRIORITY,
        priority_reduction(allocation, rarity, config) == 0 <==> allocation <= 0,
        allocation > 0 ==> priority_reduction(allocation, rarity, config) % 2 == 1,
{
}

/// A built card has a priority between nothing and the untouched priority.
pub proof fn law_built_priority(card: CardView)
    ensures
        0 <= card.built().priority <= DEFAULT_PRIORITY,
{
    law_priority_reduction(card.priority_allocation, card.rarity, card.config);
}

/// A card with range and effect cannot be built exactly where it allocated
/// no point to priority or costs nothing to cast; a card without range or
/// effect is never built.
pub proof fn law_build_fails_exactly(card: CardView)
    ensures
        card.outcome() is Ok <==> card.resolved() && card.priority_allocation > 0 && cast_cost(
            card.effect,
            card.range,
            card.efficiency,
        ) != 0,
        card.outcome() is Ok ==> card.outcome() == Ok::<CardView, BuildError>(card.built()),
        !card.resolved() ==> card.outcome() == Err::<CardView, BuildError>(BuildError::Unresolved),
{
    law_priority_reduction(card.priority_allocation, card.rarity, card.config);
}

/// Building a card a second time changes nothing and gives the same answer
/// as the first time.
pub proof fn law_build_is_idempotent(card: CardView)
    ensures
        card.after_build().after_build() == card.after_build(),
        card.after_build().outcome() == card.outcome(),
{
}

/// The order of range and effect matters: there is a card, already with a
/// range, that ends with another cast cost when a new range is chosen
/// before the effect than when it is chosen after it.
pub proof fn law_order_matters()
    ensures
        exists|card: CardView, range: Range, effect: Effect|
            card.range is Some && (#[trigger] card.select_range(range).select_effect(
                effect,
            )).built().barnacles != card.select_effect(effect).select_range(range).built().barnacles,
{
    let config = Config::spec_default();
    let card = CardView {
        range: Some(Range::Single),
        ..CardView::fresh(Seq::<char>::empty(), Rarity::Rare, Efficiency::Normal, 10, config)
    };
    let range = Range::AoE;
    let effect = Effect::Damage(0);
    let single = config.effect_range_modifier(effect, Range::Single);
    let wide = config.effect_range_modifier(effect, Range::AoE);
    assert(single == Multiplier { num: 1, den: 1 });
    assert(wide == Multiplier { num: 7, den: 8 });
    assert(card.budget == 10);
    let first = card.select_range(range).select_effect(effect);
    assert(first.budget == 8 - effect_debit(effect, 8, Range::AoE, config));
    assert(wide.spec_inverse().times(8) == 9);
    assert(first.effect == Some(Effect::Damage(9)));
    let second = card.select_effect(effect).select_range(range);
    assert(single.spec_inverse().times(10) == 10);
    assert(second.effect == Some(Effect::Damage(10)));
    let one = Multiplier { num: 1, den: 1 };
    assert(Effect::Damage(9).barnacle_rate() == one);
    assert(Effect::Damage(10).barnacle_rate() == one);
    assert(Efficiency::Normal.multiplier().spec_inverse() == one);
    one.lemma_times_one(9);
    one.lemma_times_one(10);
    one.lemma_times_one(11);
    one.lemma_times_one(12);
    assert(first.built().barnacles == 11);
    assert(second.built().barnacles == 12);
}

/// The table that prices every range alike changes no budget: the effect
/// takes exactly what the budget holds.
pub proof fn law_unit_modifier_spends_all(budget: int)
    requires
        i32::MIN <= budget <= i32::MAX,
    ensures
        RangeModifiers::spec_default().single.times(
            RangeModifiers::spec_default().single.spec_inverse().times(budget),
        ) == budget,
{
    let one = RangeModifiers::spec_default().single;
    one.lemma_times_one(budget);
    one.spec_inverse().lemma_times_one(budget);
}

} // verus!
