use card_generator::card::Card;
use card_generator::choices::{Effect, Efficiency, Range, Rarity};
use card_generator::config::{
    Config, Loaded, PowerRange, RangeModifiers, RarityPriorityModifiers, RarityRanges, Stored,
};
use card_generator::multiplier::Multiplier;

#[test]
fn rolled_power_lies_within_its_range() {
    let config = Config::default();
    let mut rng = rand::thread_rng();
    for rarity in [Rarity::Common, Rarity::Uncommon, Rarity::Rare, Rarity::Epic, Rarity::Legendary] {
        let range = config.rarity_ranges.range(rarity);
        for _ in 0..200 {
            let power = config.rarity_ranges.get_power(&mut rng, &rarity);
            assert!(range.min <= power && power <= range.max);
            assert!(power == range.min || power == range.max);
        }
    }
}

#[test]
fn both_ends_of_a_range_are_rolled() {
    let range = PowerRange::new(5, 8);
    let mut rng = rand::thread_rng();
    let mut low = false;
    let mut high = false;
    for _ in 0..400 {
        let power = range.get(&mut rng);
        assert!(power == 5 || power == 8);
        low = low || power == 5;
        high = high || power == 8;
    }
    assert!(low && high);
}

#[test]
fn pick_takes_the_low_end_on_a_hit() {
    let range = PowerRange::new(10, 12);
    assert_eq!(range.pick(true), 10);
    assert_eq!(range.pick(false), 12);
    let swapped = PowerRange::new(9, 3);
    assert_eq!(swapped.pick(true), 9);
    assert_eq!(swapped.pick(false), 3);
}

#[test]
fn fixed_range_rolls_one_power() {
    let range = PowerRange::new(4, 4);
    let mut rng = rand::thread_rng();
    for _ in 0..20 {
        assert_eq!(range.get(&mut rng), 4);
    }
}

#[test]
fn new_card_starts_from_an_end_of_the_range() {
    for _ in 0..50 {
        let card = Card::new(
            String::from("any"),
            Rarity::Uncommon,
            Efficiency::Good,
            Config::default(),
        );
        // 5 * 1.5 = 7, 8 * 1.5 = 12
        assert!(card.budget == 7 || card.budget == 12);
        assert_eq!(card.priority, 11);
    }
}

#[test]
fn default_ranges() {
    let ranges = RarityRanges::default();
    assert_eq!(ranges.common, PowerRange::new(4, 4));
    assert_eq!(ranges.uncommon, PowerRange::new(5, 8));
    assert_eq!(ranges.rare, PowerRange::new(10, 12));
    assert_eq!(ranges.epic, PowerRange::new(14, 16));
    assert_eq!(ranges.legendary, PowerRange::new(18, 20));
    assert_eq!(ranges.range(Rarity::Epic), PowerRange::new(14, 16));
}

#[test]
fn default_priority_modifiers() {
    let modifiers = RarityPriorityModifiers::default();
    assert_eq!(modifiers.get_modifier(&Rarity::Common), Multiplier::new(4, 1));
    assert_eq!(modifiers.get_modifier(&Rarity::Uncommon), Multiplier::new(7, 2));
    assert_eq!(modifiers.get_modifier(&Rarity::Rare), Multiplier::new(7, 4));
    assert_eq!(modifiers.get_modifier(&Rarity::Epic), Multiplier::new(3, 2));
    assert_eq!(modifiers.get_modifier(&Rarity::Legendary), Multiplier::new(3, 4));
}

#[test]
fn default_range_modifiers() {
    let damage = RangeModifiers::new(Effect::Damage(0));
    assert_eq!(damage.get_modifier(&Range::Single), Multiplier::new(1, 1));
    assert_eq!(damage.get_modifier(&Range::Multiple), Multiplier::new(5, 4));
    assert_eq!(damage.get_modifier(&Range::AoE), Multiplier::new(7, 8));
    assert_eq!(damage.get_modifier(&Range::ExtendedAoE), Multiplier::new(3, 4));
    let heal = RangeModifiers::new(Effect::Heal(7));
    assert_eq!(heal.single, Multiplier::new(3, 2));
    assert_eq!(heal.multiple, Multiplier::new(2, 1));
    assert_eq!(heal.aoe, Multiplier::new(5, 4));
    assert_eq!(heal.aoe_extended, Multiplier::new(3, 2));
    let acid = RangeModifiers::new(Effect::AcidHeal(0));
    assert_eq!(acid.single, Multiplier::new(5, 4));
    assert_eq!(acid.multiple, Multiplier::new(5, 4));
    assert_eq!(acid.aoe, Multiplier::new(7, 4));
    assert_eq!(acid.aoe_extended, Multiplier::new(2, 1));
    assert_eq!(RangeModifiers::new(Effect::Shield(0)), heal);
    let flat = RangeModifiers::default();
    assert_eq!(flat.single, Multiplier::new(1, 1));
    assert_eq!(flat.aoe_extended, Multiplier::new(1, 1));
}

#[test]
fn config_picks_the_table_of_the_effect() {
    let config = Config::default();
    assert_eq!(
        config.get_effect_range_modifier(&Effect::Heal(0), &Range::Multiple),
        Multiplier::new(2, 1)
    );
    assert_eq!(
        config.get_effect_range_modifier(&Effect::AcidHeal(0), &Range::AoE),
        Multiplier::new(7, 4)
    );
    assert_eq!(
        config.get_effect_range_modifier(&Effect::Damage(0), &Range::AoE),
        Multiplier::new(7, 8)
    );
    assert_eq!(
        config.get_effect_range_modifier(&Effect::Shield(0), &Range::Single),
        Multiplier::new(3, 2)
    );
}

#[test]
fn missing_tables_become_the_defaults() {
    assert_eq!(
        Config::settle(Stored::Blank),
        Loaded { config: Config::default(), truncate: false, rewrite: true }
    );
    assert_eq!(
        Config::settle(Stored::Corrupt),
        Loaded { config: Config::default(), truncate: true, rewrite: true }
    );
}

#[test]
fn valid_tables_are_left_alone() {
    let mut custom = Config::default();
    custom.power_to_priority.rare = Multiplier::new(9, 4);
    custom.rarity_ranges.epic = PowerRange::new(1, 2);
    assert_ne!(custom, Config::default());
    assert_eq!(
        Config::settle(Stored::Valid(custom)),
        Loaded { config: custom, truncate: false, rewrite: false }
    );
}
