use card_generator::card::{
    cost_from_effect, get_barnacles, priority_from_budget, BuildError, Card,
};
use card_generator::choices::{
    barnacles_from_effect, cost_from_range, multiplier_from_efficiency, Effect, Efficiency, Range,
    Rarity, DEFAULT_PRIORITY, UNRESOLVED_BARNACLES,
};
use card_generator::config::{Config, PowerRange};
use card_generator::multiplier::{apply_multiplier, Multiplier};

fn fixed_common(power: i32) -> Config {
    let mut config = Config::default();
    config.rarity_ranges.common = PowerRange::new(power, power);
    config
}

#[test]
fn zero_allocation_card_is_infeasible() {
    let mut card = Card::new(
        String::from("plain"),
        Rarity::Common,
        Efficiency::Normal,
        fixed_common(4),
    );
    assert_eq!(card.budget, 4);
    card.with_range(Range::Single);
    assert_eq!(card.budget, 4);
    card.with_effect(Effect::Damage(0));
    assert_eq!(card.effect, Some(Effect::Damage(4)));
    assert_eq!(card.budget, 0);
    let result = card.build();
    assert_eq!(
        result.err(),
        Some(BuildError::Infeasible { priority: DEFAULT_PRIORITY, budget: 0 })
    );
    assert_eq!(card.priority, DEFAULT_PRIORITY);
}

#[test]
fn allocation_of_two_builds_a_card() {
    let mut card = Card::new(
        String::from("quick"),
        Rarity::Common,
        Efficiency::Normal,
        fixed_common(4),
    );
    card.with_priority_allocation(2);
    assert_eq!(card.budget, 2);
    card.with_range(Range::Single).with_effect(Effect::Damage(0));
    assert_eq!(card.effect, Some(Effect::Damage(2)));
    assert_eq!(card.budget, 0);
    let built = card.build().expect("the card can be built");
    assert!(built.priority < DEFAULT_PRIORITY);
    assert_eq!(built.priority, 2);
    assert_ne!(built.barnacles, 0);
    assert_eq!(built.barnacles, 2);
    assert_eq!(built.name, "quick");
}

#[test]
fn every_product_is_cut_at_once() {
    // 5 * 1.5 = 7.5 is cut to 7 before anything else is computed from it
    let mut card = Card::with_power(
        String::from("steps"),
        Rarity::Uncommon,
        Efficiency::Good,
        5,
        Config::default(),
    );
    assert_eq!(card.budget, 7);
    card.with_range(Range::Single);
    card.with_effect(Effect::Heal(0));
    // 7 / 1.5 = 4.66 is cut to 4; 4 * 1.5 = 6 is what the budget pays
    assert_eq!(card.effect, Some(Effect::Heal(4)));
    assert_eq!(card.budget, 1);
    // in one step, 5 * 1.5 / 1.5 would be 5
    assert_ne!(card.effect, Some(Effect::Heal(5)));
}

#[test]
fn range_before_effect_differs_from_effect_before_range() {
    let start = || {
        let mut card = Card::with_power(
            String::from("order"),
            Rarity::Rare,
            Efficiency::Normal,
            10,
            Config::default(),
        );
        card.with_priority_allocation(1).with_range(Range::Single);
        card.budget = 10;
        card
    };
    let mut first = start();
    first.with_range(Range::AoE).with_effect(Effect::Damage(0));
    let mut second = start();
    second.with_effect(Effect::Damage(0)).with_range(Range::AoE);
    assert_eq!(first.range, second.range);
    let first = first.build().expect("range first");
    let second = second.build().expect("effect first");
    assert_eq!(first.effect, Some(Effect::Damage(9)));
    assert_eq!(second.effect, Some(Effect::Damage(10)));
    assert_eq!(first.barnacles, 11);
    assert_eq!(second.barnacles, 12);
    assert_ne!(first.barnacles, second.barnacles);
}

#[test]
fn building_twice_changes_nothing() {
    let mut card = Card::with_power(
        String::from("twice"),
        Rarity::Epic,
        Efficiency::Bad,
        16,
        Config::default(),
    );
    card.with_priority_allocation(3).with_range(Range::Multiple).with_effect(Effect::Shield(0));
    let first = card.build().expect("first build");
    let after_first = card.clone();
    let second = card.build().expect("second build");
    assert_eq!(first.priority, second.priority);
    assert_eq!(first.barnacles, second.barnacles);
    assert_eq!(first.budget, second.budget);
    assert_eq!(first.effect, second.effect);
    assert_eq!(card.priority, after_first.priority);
    assert_eq!(card.barnacles, after_first.barnacles);
    assert_eq!(card.budget, after_first.budget);
}

#[test]
fn failing_twice_gives_the_same_error() {
    let mut card = Card::with_power(
        String::from("none"),
        Rarity::Common,
        Efficiency::Normal,
        4,
        Config::default(),
    );
    card.with_range(Range::Single).with_effect(Effect::Damage(0));
    let first = card.build().err();
    let second = card.build().err();
    assert_eq!(first, second);
    assert_eq!(first, Some(BuildError::Infeasible { priority: 11, budget: 0 }));
}

#[test]
fn card_without_choices_is_unresolved() {
    let mut card = Card::with_power(
        String::from("bare"),
        Rarity::Common,
        Efficiency::Normal,
        4,
        Config::default(),
    );
    assert_eq!(card.barnacles, UNRESOLVED_BARNACLES);
    assert_eq!(card.build().err(), Some(BuildError::Unresolved));
    assert_eq!(card.priority, DEFAULT_PRIORITY);
    assert_eq!(card.barnacles, UNRESOLVED_BARNACLES);
    card.with_range(Range::AoE);
    assert_eq!(card.build().err(), Some(BuildError::Unresolved));
}

#[test]
fn zero_cast_cost_is_infeasible() {
    let mut card = Card::with_power(
        String::from("free"),
        Rarity::Common,
        Efficiency::Normal,
        1,
        Config::default(),
    );
    card.with_priority_allocation(1).with_range(Range::Single).with_effect(Effect::Damage(0));
    assert_eq!(card.effect, Some(Effect::Damage(0)));
    assert_eq!(
        card.build().err(),
        Some(BuildError::Infeasible { priority: 6, budget: 0 })
    );
}

#[test]
fn fresh_card_scales_power_by_efficiency() {
    let config = Config::default();
    let bad = Card::with_power(String::from("a"), Rarity::Rare, Efficiency::Bad, 10, config);
    let normal = Card::with_power(String::from("b"), Rarity::Rare, Efficiency::Normal, 10, config);
    let good = Card::with_power(String::from("c"), Rarity::Rare, Efficiency::Good, 11, config);
    assert_eq!(bad.budget, 7);
    assert_eq!(normal.budget, 10);
    assert_eq!(good.budget, 16);
    assert_eq!(good.priority, 11);
    assert_eq!(good.priority_allocation, 0);
    assert_eq!(good.range, None);
    assert_eq!(good.effect, None);
}

#[test]
fn range_costs_are_flat() {
    assert_eq!(cost_from_range(&Range::Single), 0);
    assert_eq!(cost_from_range(&Range::Multiple), 1);
    assert_eq!(cost_from_range(&Range::AoE), 2);
    assert_eq!(cost_from_range(&Range::ExtendedAoE), 4);
    let mut card = Card::with_power(
        String::from("wide"),
        Rarity::Common,
        Efficiency::Normal,
        3,
        Config::default(),
    );
    card.with_range(Range::ExtendedAoE);
    assert_eq!(card.budget, -1);
    assert_eq!(card.range, Some(Range::ExtendedAoE));
}

#[test]
fn negative_budget_flows_through_the_effect() {
    let mut card = Card::with_power(
        String::from("debt"),
        Rarity::Common,
        Efficiency::Normal,
        1,
        Config::default(),
    );
    card.with_range(Range::ExtendedAoE);
    assert_eq!(card.budget, -3);
    card.with_effect(Effect::Heal(0));
    // -3 / 1.5 = -2; -2 * 1.5 = -3
    assert_eq!(card.effect, Some(Effect::Heal(-2)));
    assert_eq!(card.budget, 0);
}

#[test]
fn products_are_cut_toward_zero() {
    assert_eq!(apply_multiplier(7, Multiplier::new(3, 2)), 10);
    assert_eq!(apply_multiplier(-7, Multiplier::new(3, 2)), -10);
    assert_eq!(apply_multiplier(5, Multiplier::new(3, 2).inverse()), 3);
    assert_eq!(apply_multiplier(-5, Multiplier::new(3, 2).inverse()), -3);
    assert_eq!(apply_multiplier(10, Multiplier::new(1, 3)), 3);
    assert_eq!(apply_multiplier(0, Multiplier::new(9, 8)), 0);
}

#[test]
fn products_stay_in_range() {
    assert_eq!(apply_multiplier(i32::MAX, Multiplier::new(3, 2)), i32::MAX);
    assert_eq!(apply_multiplier(i32::MIN, Multiplier::new(3, 2)), i32::MIN);
    assert_eq!(apply_multiplier(i32::MIN, Multiplier::new(u32::MAX, 1)), i32::MIN);
    assert_eq!(Multiplier::new(u32::MAX, 1).scale(i64::MAX), i32::MAX);
    assert_eq!(Multiplier::new(1, u32::MAX).scale(i64::MIN), -2147483648);
    assert_eq!(Multiplier::new(1, 1).scale(-5), -5);
}

#[test]
fn inverse_of_zero_is_beyond_every_bound() {
    let zero = Multiplier::new(0, 4);
    assert_eq!(zero.inverse(), Multiplier::new(4, 0));
    assert_eq!(apply_multiplier(3, zero), 0);
    assert_eq!(apply_multiplier(3, zero.inverse()), i32::MAX);
    assert_eq!(apply_multiplier(-3, zero.inverse()), i32::MIN);
    assert_eq!(apply_multiplier(0, zero.inverse()), 0);
    assert_eq!(apply_multiplier(3, Multiplier::new(0, 0)), 0);
}

#[test]
fn effect_cost_divides_then_multiplies() {
    let config = Config::default();
    assert_eq!(
        cost_from_effect(Effect::Heal(0), 7, &Some(Range::Single), &config),
        (Some(Effect::Heal(4)), 6)
    );
    assert_eq!(
        cost_from_effect(Effect::Damage(0), 8, &Some(Range::AoE), &config),
        (Some(Effect::Damage(9)), 7)
    );
    assert_eq!(
        cost_from_effect(Effect::AcidHeal(0), 10, &Some(Range::ExtendedAoE), &config),
        (Some(Effect::AcidHeal(5)), 10)
    );
    assert_eq!(
        cost_from_effect(Effect::Shield(3), 9, &Some(Range::Multiple), &config),
        (Some(Effect::Shield(4)), 8)
    );
}

#[test]
fn effect_never_takes_more_than_the_budget() {
    let config = Config::default();
    let effects = [Effect::Heal(0), Effect::AcidHeal(0), Effect::Damage(0), Effect::Shield(0)];
    let ranges = [Range::Single, Range::Multiple, Range::AoE, Range::ExtendedAoE];
    for effect in effects {
        for range in ranges {
            for budget in 0..60 {
                let (_, used) = cost_from_effect(effect, budget, &Some(range), &config);
                assert!(0 <= used && used <= budget);
                let (_, owed) = cost_from_effect(effect, -budget, &Some(range), &config);
                assert!(-budget <= owed && owed <= 0);
            }
        }
    }
}

#[test]
fn priority_reduction_is_zero_or_odd() {
    let config = Config::default();
    assert_eq!(priority_from_budget(0, &Rarity::Common, &config), 0);
    assert_eq!(priority_from_budget(-3, &Rarity::Common, &config), 0);
    assert_eq!(priority_from_budget(1, &Rarity::Common, &config), 5);
    assert_eq!(priority_from_budget(2, &Rarity::Common, &config), 9);
    assert_eq!(priority_from_budget(3, &Rarity::Common, &config), 11);
    assert_eq!(priority_from_budget(1, &Rarity::Uncommon, &config), 3);
    assert_eq!(priority_from_budget(1, &Rarity::Rare, &config), 1);
    assert_eq!(priority_from_budget(4, &Rarity::Rare, &config), 7);
    assert_eq!(priority_from_budget(1, &Rarity::Legendary, &config), 1);
    assert_eq!(priority_from_budget(8, &Rarity::Epic, &config), 11);
    assert_eq!(priority_from_budget(i32::MAX, &Rarity::Legendary, &config), 11);
    for allocation in 1..40 {
        for rarity in [Rarity::Common, Rarity::Uncommon, Rarity::Rare, Rarity::Epic, Rarity::Legendary] {
            let reduction = priority_from_budget(allocation, &rarity, &config);
            assert!(1 <= reduction && reduction <= DEFAULT_PRIORITY);
            assert_eq!(reduction % 2, 1);
        }
    }
}

#[test]
fn cast_cost_has_its_own_rates() {
    assert_eq!(barnacles_from_effect(&Some(Effect::Heal(4))), 5);
    assert_eq!(barnacles_from_effect(&Some(Effect::AcidHeal(8))), 9);
    assert_eq!(barnacles_from_effect(&Some(Effect::Damage(7))), 7);
    assert_eq!(barnacles_from_effect(&Some(Effect::Shield(8))), 11);
    assert_eq!(barnacles_from_effect(&Some(Effect::Heal(3))), 3);
    assert_eq!(barnacles_from_effect(&None), 100000000);
    assert_eq!(multiplier_from_efficiency(&Efficiency::Bad), Multiplier::new(3, 4));
    assert_eq!(multiplier_from_efficiency(&Efficiency::Normal), Multiplier::new(1, 1));
    assert_eq!(multiplier_from_efficiency(&Efficiency::Good), Multiplier::new(3, 2));
}

#[test]
fn cast_cost_divides_by_efficiency() {
    let mut card = Card::with_power(
        String::from("cost"),
        Rarity::Legendary,
        Efficiency::Good,
        20,
        Config::default(),
    );
    card.with_priority_allocation(4).with_range(Range::ExtendedAoE).with_effect(Effect::Heal(0));
    // budget 30 - 4 - 4 = 22; 22 / 1.5 = 14; 14 * 1.5 = 21
    assert_eq!(card.effect, Some(Effect::Heal(14)));
    assert_eq!(card.budget, 1);
    // (14 * 1.25 = 17, + 4) / 1.5 = 14
    assert_eq!(get_barnacles(&card), 14);
    let built = card.build().expect("built");
    assert_eq!(built.barnacles, 14);
    // 4 * 0.75 = 3
    assert_eq!(built.priority, 8);
    assert_eq!(built.get_withdraw(), 4);
}

#[test]
fn withdraw_is_a_third_and_at_least_one() {
    let mut card = Card::with_power(
        String::from("back"),
        Rarity::Common,
        Efficiency::Normal,
        4,
        Config::default(),
    );
    card.barnacles = 10;
    assert_eq!(card.get_withdraw(), 3);
    card.barnacles = 2;
    assert_eq!(card.get_withdraw(), 1);
    card.barnacles = 0;
    assert_eq!(card.get_withdraw(), 1);
    card.barnacles = 9;
    assert_eq!(card.get_withdraw(), 3);
    card.barnacles = UNRESOLVED_BARNACLES;
    assert_eq!(card.get_withdraw(), 33333333);
}

#[test]
fn more_budget_buys_no_smaller_magnitude() {
    let config = Config::default();
    let magnitude = |effect: Effect, budget: i32, range: Range| {
        match cost_from_effect(effect, budget, &Some(range), &config).0 {
            Some(Effect::Heal(m)) | Some(Effect::AcidHeal(m)) | Some(Effect::Damage(m))
            | Some(Effect::Shield(m)) => m,
            None => panic!("an effect was chosen"),
        }
    };
    for effect in [Effect::Heal(0), Effect::AcidHeal(0), Effect::Damage(0), Effect::Shield(0)] {
        for range in [Range::Single, Range::Multiple, Range::AoE, Range::ExtendedAoE] {
            for budget in -40..40 {
                assert!(magnitude(effect, budget, range) <= magnitude(effect, budget + 1, range));
            }
        }
    }
    assert_eq!(magnitude(Effect::Damage(0), 7, Range::ExtendedAoE), 9);
    assert_eq!(magnitude(Effect::AcidHeal(0), 7, Range::ExtendedAoE), 3);
}
