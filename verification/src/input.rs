//! What the designer is asked and how an answer is read: the menus as text,
//! and the choice that each entered number stands for.

use vstd::prelude::*;
use vstd::std_specs::cmp::{PartialOrdIs, PartialOrdSpec};
use vstd::utf8::is_ascii_chars;
use crate::card::{cost_from_effect, effect_debit, Card};
use crate::choices::{cost_from_range, Effect, Efficiency, Range, Rarity, PADDING};
use crate::text::{
    byte_len, decimal, decimal_string, lemma_decimal_ascii, lemma_decimal_len, pad_right,
    push_decimal, repeated,
};

verus! {

/// Whether `value` lies between `min` and `max`, both included.
pub fn in_range<T>(value: T, min: T, max: T) -> (inside: bool) where T: PartialOrd
    ensures
        T::obeys_partial_cmp_spec() ==> (inside <==> value.is_ge(&min) && value.is_le(&max)),
{
    value >= min && value <= max
}

/// Whether `allocation` points can go from the card's budget to priority:
/// at least one, and less than the whole budget.
pub fn valid_priority_allocation(card: &Card, allocation: i32) -> (valid: bool)
    ensures
        valid <==> 1 <= allocation < card.budget,
{
    1 <= allocation && allocation < card.budget
}

/// The range that the menu entry `choice` stands for: 1 to 4 in the order
/// of the menu, and `Range::Single` for every other number.
pub open spec fn range_of_choice(choice: int) -> Range {
    if choice == 2 {
        Range::Multiple
    } else if choice == 3 {
        Range::AoE
    } else if choice == 4 {
        Range::ExtendedAoE
    } else {
        Range::Single
    }
}

/// The efficiency that the menu entry `choice` stands for: 1 to 3 in the
/// order of the menu, and `Efficiency::Bad` for every other number.
pub open spec fn efficiency_of_choice(choice: int) -> Efficiency {
    if choice == 2 {
        Efficiency::Normal
    } else if choice == 3 {
        Efficiency::Good
    } else {
        Efficiency::Bad
    }
}

/// The rarity that the menu entry `choice` stands for: 1 to 5 in the order
/// of the menu, and `Rarity::Common` for every other number.
pub open spec fn rarity_of_choice(choice: int) -> Rarity {
    if choice == 2 {
        Rarity::Uncommon
    } else if choice == 3 {
        Rarity::Rare
    } else if choice == 4 {
        Rarity::Epic
    } else if choice == 5 {
        Rarity::Legendary
    } else {
        Rarity::Common
    }
}

/// The kind of effect that the menu entry `choice` stands for, with no
/// magnitude yet: 1 to 3 in the order of the menu, and damage for every
/// other number.
pub open spec fn effect_of_choice(choice: int) -> Effect {
    if choice == 2 {
        Effect::Heal(0)
    } else if choice == 3 {
        Effect::AcidHeal(0)
    } else {
        Effect::Damage(0)
    }
}

/// The range that the menu entry `choice` stands for.
pub fn get_range(choice: i32) -> (range: Range)
    ensures
        range == range_of_choice(choice as int),
{
    match choice {
        2 => Range::Multiple,
        3 => Range::AoE,
        4 => Range::ExtendedAoE,
        _ => Range::Single,
    }
}

/// The efficiency that the menu entry `choice` stands for.
pub fn get_efficiency(choice: i32) -> (efficiency: Efficiency)
    ensures
        efficiency == efficiency_of_choice(choice as int),
{
    match choice {
        2 => Efficiency::Normal,
        3 => Efficiency::Good,
        _ => Efficiency::Bad,
    }
}

/// The rarity that the menu entry `choice` stands for.
pub fn get_rarity(choice: i32) -> (rarity: Rarity)
    ensures
        rarity == rarity_of_choice(choice as int),
{
    match choice {
        2 => Rarity::Uncommon,
        3 => Rarity::Rare,
        4 => Rarity::Epic,
        5 => Rarity::Legendary,
        _ => Rarity::Common,
    }
}

/// The kind of effect that the menu entry `choice` stands for.
pub fn get_effect(choice: i32) -> (effect: Effect)
    ensures
        effect == effect_of_choice(choice as int),
{
    match choice {
        2 => Effect::Heal(0),
        3 => Effect::AcidHeal(0),
        _ => Effect::Damage(0),
    }
}

/// What an effect would take from the budget, as a menu shows it: the
/// number, or `N/A` where there is no effect.
pub open spec fn effect_cost_text(effect_data: (Option<Effect>, i32)) -> Seq<char> {
    if effect_data.0 is Some {
        decimal(effect_data.1 as int)
    } else {
        "N/A"@
    }
}

/// What an effect would take from the budget, as a menu shows it.
pub fn display_effect_cost(effect_data: (Option<Effect>, i32)) -> (text: String)
    ensures
        text@ == effect_cost_text(effect_data),
{
    if effect_data.0.is_some() {
        decimal_string(effect_data.1)
    } else {
        "N/A".to_owned()
    }
}

/// `text` as one column of a menu: filled with blanks to `PADDING` bytes.
pub open spec fn column(text: Seq<char>) -> Seq<char> {
    text + repeated(' ', (PADDING - byte_len(text)) as nat)
}

/// The column of a menu entry that shows a price: the label, the price and
/// a closing bracket.
pub open spec fn priced_column(label: Seq<char>, price: Seq<char>) -> Seq<char> {
    column(label + price + ")"@)
}

/// The menu of ranges with their flat costs, and the question.
pub open spec fn range_prompt_text() -> Seq<char> {
    priced_column("1: Single (Cost: "@, decimal(Range::Single.cost())) + priced_column(
        "2: Multiple (2) (Cost: "@,
        decimal(Range::Multiple.cost()),
    ) + priced_column("3: AoE (room) (Cost: "@, decimal(Range::AoE.cost())) + priced_column(
        "4: AoE (Extended) (Cost: "@,
        decimal(Range::ExtendedAoE.cost()),
    ) + "\nEnter range type: (1..4).. "@
}

/// The menu of efficiencies, and the question.
pub open spec fn efficiency_prompt_text() -> Seq<char> {
    column("1: Bad"@) + column("2: Normal"@) + column("3: Good"@)
        + "\nEnter efficiency: (1..3).. "@
}

/// The menu of rarities, and the question.
pub open spec fn rarity_prompt_text() -> Seq<char> {
    column("1: Common"@) + column("2: Uncommon"@) + column("3: Rare"@) + column("4: Epic"@)
        + column("5: Legendary"@) + "\nEnter rarity: (1..5).. "@
}

/// The menu of effects with what each would take from the budget `budget`
/// at `range`, and the question.
pub open spec fn effect_prompt_text(budget: int, range: Range, config: crate::config::Config) -> Seq<char> {
    priced_column(
        "1: Damage (Cost: "@,
        decimal(effect_debit(Effect::Damage(0), budget, range, config)),
    ) + priced_column("2: Heal (Cost: "@, decimal(effect_debit(Effect::Heal(0), budget, range, config)))
        + priced_column(
        "3: Acid Healing (Cost: "@,
        decimal(effect_debit(Effect::AcidHeal(0), budget, range, config)),
    ) + "\nEnter effect type: (1..3).. "@
}

/// The question for the priority allocation of a card with the budget
/// `budget`.
pub open spec fn priority_allocation_prompt_text(budget: int) -> Seq<char> {
    "Enter priority allocation (1.."@ + decimal(budget - 1) + "): "@
}

fn plain_column(label: &str) -> (text: String)
    requires
        is_ascii_chars(label@),
        label@.len() <= PADDING,
    ensures
        text@ == column(label@),
{
    proof {
        vstd::utf8::is_ascii_chars_encode_utf8(label@);
    }
    pad_right(label.to_owned(), PADDING, ' ')
}

fn price_column(label: &str, price: &str) -> (text: String)
    requires
        is_ascii_chars(label@),
        is_ascii_chars(price@),
        label@.len() + price@.len() < PADDING,
    ensures
        text@ == priced_column(label@, price@),
{
    let mut entry = label.to_owned();
    entry.append(price);
    entry.append(")");
    proof {
        reveal_strlit(")");
        assert(is_ascii_chars(entry@));
        vstd::utf8::is_ascii_chars_encode_utf8(entry@);
    }
    pad_right(entry, PADDING, ' ')
}

fn range_column(label: &str, range: Range) -> (text: String)
    requires
        is_ascii_chars(label@),
        label@.len() <= 34,
    ensures
        text@ == priced_column(label@, decimal(range.cost())),
{
    let price = decimal_string(cost_from_range(&range));
    proof {
        lemma_decimal_ascii(range.cost());
        assert(decimal(range.cost()).len() == 1);
    }
    price_column(label, price.as_str())
}

fn effect_column(label: &str, effect: Effect, card: &Card) -> (text: String)
    requires
        is_ascii_chars(label@),
        label@.len() <= 24,
        card.range is Some,
    ensures
        text@ == priced_column(
            label@,
            decimal(effect_debit(effect, card.budget as int, card.range->0, card.config)),
        ),
{
    let price = display_effect_cost(cost_from_effect(effect, card.budget, &card.range, &card.config));
    proof {
        let debit = effect_debit(effect, card.budget as int, card.range->0, card.config);
        lemma_decimal_ascii(debit);
        lemma_decimal_len(debit);
    }
    price_column(label, price.as_str())
}

/// The menu of ranges, and the question.
pub fn range_prompt() -> (text: String)
    ensures
        text@ == range_prompt_text(),
{
    proof {
        reveal_strlit("1: Single (Cost: ");
        reveal_strlit("2: Multiple (2) (Cost: ");
        reveal_strlit("3: AoE (room) (Cost: ");
        reveal_strlit("4: AoE (Extended) (Cost: ");
    }
    let mut text = range_column("1: Single (Cost: ", Range::Single);
    text.append(range_column("2: Multiple (2) (Cost: ", Range::Multiple).as_str());
    text.append(range_column("3: AoE (room) (Cost: ", Range::AoE).as_str());
    text.append(range_column("4: AoE (Extended) (Cost: ", Range::ExtendedAoE).as_str());
    text.append("\nEnter range type: (1..4).. ");
    text
}

/// The menu of efficiencies, and the question.
pub fn efficiency_prompt() -> (text: String)
    ensures
        text@ == efficiency_prompt_text(),
{
    proof {
        reveal_strlit("1: Bad");
        reveal_strlit("2: Normal");
        reveal_strlit("3: Good");
    }
    let mut text = plain_column("1: Bad");
    text.append(plain_column("2: Normal").as_str());
    text.append(plain_column("3: Good").as_str());
    text.append("\nEnter efficiency: (1..3).. ");
    text
}

/// The menu of rarities, and the question.
pub fn rarity_prompt() -> (text: String)
    ensures
        text@ == rarity_prompt_text(),
{
    proof {
        reveal_strlit("1: Common");
        reveal_strlit("2: Uncommon");
        reveal_strlit("3: Rare");
        reveal_strlit("4: Epic");
        reveal_strlit("5: Legendary");
    }
    let mut text = plain_column("1: Common");
    text.append(plain_column("2: Uncommon").as_str());
    text.append(plain_column("3: Rare").as_str());
    text.append(plain_column("4: Epic").as_str());
    text.append(plain_column("5: Legendary").as_str());
    text.append("\nEnter rarity: (1..5).. ");
    text
}

/// The menu of effects for `card`, priced against its budget at its range.
pub fn effect_prompt(card: &Card) -> (text: String)
    requires
        card.range is Some,
    ensures
        text@ == effect_prompt_text(card.budget as int, card.range->0, card.config),
{
    proof {
        reveal_strlit("1: Damage (Cost: ");
        reveal_strlit("2: Heal (Cost: ");
        reveal_strlit("3: Acid Healing (Cost: ");
    }
    let mut text = effect_column("1: Damage (Cost: ", Effect::Damage(0), card);
    text.append(effect_column("2: Heal (Cost: ", Effect::Heal(0), card).as_str());
    text.append(effect_column("3: Acid Healing (Cost: ", Effect::AcidHeal(0), card).as_str());
    text.append("\nEnter effect type: (1..3).. ");
    text
}

/// The question for the priority allocation of `card`.
pub fn priority_allocation_prompt(card: &Card) -> (text: String)
    ensures
        text@ == priority_allocation_prompt_text(card.budget as int),
{
    let mut text = "Enter priority allocation (1..".to_owned();
    push_decimal(&mut text, card.budget as i64 - 1);
    text.append("): ");
    text
}

} // verus!
