//! Deck assembly: a roster of five cards on a rarity curve, filled slot by
//! slot through the budget engine.

use vstd::prelude::*;
use crate::card::{outcome_view, BuildError, Card, CardView};
use crate::choices::{cost_from_range, Effect, Efficiency, Range, Rarity};
use crate::config::Config;
use crate::text::{decimal, push_decimal};

verus! {

/// The tier of a deck: it fixes the rarity of each of the five slots.
#[derive(Clone, Copy, Debug, PartialEq, Eq, Structural)]
pub enum DeckType {
    Starter,
    Journeyman,
    Legendary,
}

/// The choices for one card, as a template holds them.
#[derive(Debug)]
pub struct CardInput {
    pub name: String,
    pub rarity: Rarity,
    pub efficiency: Efficiency,
    pub priority_allocation: i32,
    pub range: Range,
    pub effect: Effect,
}

/// What a card's choices are, with the name as a sequence of characters.
pub struct CardInputView {
    pub name: Seq<char>,
    pub rarity: Rarity,
    pub efficiency: Efficiency,
    pub priority_allocation: int,
    pub range: Range,
    pub effect: Effect,
}

/// The template of a deck: the choices for its five cards, in slot order.
#[derive(Debug)]
pub struct DeckInputs {
    pub inputs: [CardInput; 5],
}

impl View for CardInput {
    type V = CardInputView;

    open spec fn view(&self) -> CardInputView {
        CardInputView {
            name: self.name@,
            rarity: self.rarity,
            efficiency: self.efficiency,
            priority_allocation: self.priority_allocation as int,
            range: self.range,
            effect: self.effect,
        }
    }
}

impl View for DeckInputs {
    type V = Seq<CardInputView>;

    open spec fn view(&self) -> Seq<CardInputView> {
        Seq::new(5, |i: int| self.inputs@[i]@)
    }
}

impl DeckType {
    /// The rarity of the slot `slot` of a deck of this tier.
    pub open spec fn rarity_at(self, slot: int) -> Rarity {
        match self {
            DeckType::Starter => if slot < 2 {
                Rarity::Rare
            } else if slot < 4 {
                Rarity::Uncommon
            } else {
                Rarity::Common
            },
            DeckType::Journeyman => if slot < 2 {
                Rarity::Epic
            } else if slot < 4 {
                Rarity::Rare
            } else {
                Rarity::Uncommon
            },
            DeckType::Legendary => if slot < 1 {
                Rarity::Legendary
            } else if slot < 3 {
                Rarity::Epic
            } else if slot < 4 {
                Rarity::Uncommon
            } else {
                Rarity::Rare
            },
        }
    }

    /// The tier's name.
    pub open spec fn spec_name(self) -> Seq<char> {
        match self {
            DeckType::Starter => "Starter"@,
            DeckType::Journeyman => "Journeyman"@,
            DeckType::Legendary => "Legendary"@,
        }
    }

    /// The tier that the menu entry `choice` stands for: 2 is Journeyman,
    /// 3 is Legendary, and every other number is Starter.
    pub open spec fn spec_from_choice(choice: int) -> DeckType {
        if choice == 3 {
            DeckType::Legendary
        } else if choice == 2 {
            DeckType::Journeyman
        } else {
            DeckType::Starter
        }
    }

    /// The tier's name.
    pub fn name(&self) -> (text: String)
        ensures
            text@ == self.spec_name(),
    {
        match self {
            DeckType::Starter => "Starter".to_owned(),
            DeckType::Journeyman => "Journeyman".to_owned(),
            DeckType::Legendary => "Legendary".to_owned(),
        }
    }

    /// The tier that the menu entry `choice` stands for.
    pub fn from_choice(choice: i32) -> (deck_type: DeckType)
        ensures
            deck_type == DeckType::spec_from_choice(choice as int),
    {
        if choice == 3 {
            DeckType::Legendary
        } else if choice == 2 {
            DeckType::Journeyman
        } else {
            DeckType::Starter
        }
    }

    /// The name of the file that holds the blank template of this tier.
    pub fn template_file_name(&self) -> (text: String)
        ensures
            text@ == self.spec_name() + " Template.json"@,
    {
        let mut text = self.name();
        text.append(" Template.json");
        text
    }
}

impl Default for DeckType {
    fn default() -> (deck_type: DeckType)
        ensures
            deck_type == DeckType::Starter,
    {
        DeckType::Starter
    }
}

impl CardInputView {
    /// The choices that a blank template holds for a card of `rarity`: the
    /// rarity's name, bad efficiency, one point of priority, a single target
    /// and damage.
    pub open spec fn blank(rarity: Rarity) -> CardInputView {
        CardInputView {
            name: rarity.spec_name(),
            rarity,
            efficiency: Efficiency::Bad,
            priority_allocation: 1,
            range: Range::Single,
            effect: Effect::Damage(0),
        }
    }

    /// The choices that led to `card`, for the same rarity.
    pub open spec fn configured(self, card: CardView) -> CardInputView
        recommends
            card.resolved(),
    {
        CardInputView {
            name: card.name,
            rarity: self.rarity,
            efficiency: card.efficiency,
            priority_allocation: card.priority_allocation,
            range: card.range->0,
            effect: card.effect->0,
        }
    }
}

impl Clone for CardInput {
    fn clone(&self) -> (input: CardInput)
        ensures
            input == *self,
    {
        CardInput {
            name: self.name.clone(),
            rarity: self.rarity,
            efficiency: self.efficiency,
            priority_allocation: self.priority_allocation,
            range: self.range,
            effect: self.effect,
        }
    }
}

impl CardInput {
    /// The choices of a blank template for a card of `rarity`.
    pub fn new(rarity: Rarity) -> (input: CardInput)
        ensures
            input@ == CardInputView::blank(rarity),
    {
        CardInput {
            name: rarity.name(),
            rarity,
            efficiency: Efficiency::Bad,
            priority_allocation: 1,
            range: Range::Single,
            effect: Effect::Damage(0),
        }
    }

    /// Takes over the choices that led to `card`.
    pub fn apply_configuration(&mut self, card: &Card)
        requires
            old(self).rarity == card.rarity,
            card.range is Some,
            card.effect is Some,
        ensures
            final(self)@ == old(self)@.configured(card@),
    {
        self.name = card.name.clone();
        self.efficiency = card.efficiency;
        self.priority_allocation = card.priority_allocation;
        match card.range {
            Some(range) => {
                self.range = range;
            },
            None => {},
        }
        match card.effect {
            Some(effect) => {
                self.effect = effect;
            },
            None => {},
        }
    }
}

impl CardInputView {
    /// What the engine makes of these choices from the rolled power
    /// `power`: the card starts, pays for priority, range and effect in turn,
    /// and is built. Where priority or range would take the budget out of
    /// the `i32` range the choices are refused.
    pub open spec fn replay(self, power: int, config: Config) -> Result<CardView, BuildError> {
        let fresh = CardView::fresh(self.name, self.rarity, self.efficiency, power, config);
        let allocated = fresh.allocate(self.priority_allocation);
        let ranged = allocated.select_range(self.range);
        if allocated.budget < i32::MIN || allocated.budget > i32::MAX || ranged.budget < i32::MIN {
            Err(BuildError::OutOfRange)
        } else {
            ranged.select_effect(self.effect).outcome()
        }
    }

    /// Whether `power` is one of the two powers that the rarity of these
    /// choices can roll.
    pub open spec fn rolls(self, power: int, config: Config) -> bool {
        power == config.rarity_ranges.spec_range(self.rarity).min || power
            == config.rarity_ranges.spec_range(self.rarity).max
    }
}

impl CardInput {
    /// The card that these choices give from the rolled power `power`.
    pub fn build_with_power(&self, power: i32, config: Config) -> (result: Result<Card, BuildError>)
        ensures
            outcome_view(result) == self@.replay(power as int, config),
    {
        let mut card = Card::with_power(
            self.name.clone(),
            self.rarity,
            self.efficiency,
            power,
            config,
        );
        let allocated: i64 = card.budget as i64 - self.priority_allocation as i64;
        if allocated < i32::MIN as i64 || allocated > i32::MAX as i64 {
            return Err(BuildError::OutOfRange);
        }
        if allocated - (cost_from_range(&self.range) as i64) < i32::MIN as i64 {
            return Err(BuildError::OutOfRange);
        }
        card.with_priority_allocation(self.priority_allocation);
        card.with_range(self.range);
        card.with_effect(self.effect);
        card.build()
    }

    /// The card that these choices give from the power that the rarity
    /// rolls.
    pub fn build(&self, config: Config) -> (result: Result<Card, BuildError>)
        ensures
            exists|power: int| #[trigger]
                self@.rolls(power, config) && outcome_view(result) == self@.replay(power, config),
    {
        let mut rng = rand::thread_rng();
        let power = config.rarity_ranges.get_power(&mut rng, &self.rarity);
        let result = self.build_with_power(power, config);
        assert(self@.rolls(power as int, config));
        result
    }
}

impl DeckInputs {
    /// The blank template of a deck of tier `deck_type`.
    pub open spec fn template(deck_type: DeckType) -> Seq<CardInputView> {
        Seq::new(5, |i: int| CardInputView::blank(deck_type.rarity_at(i)))
    }

    /// The blank template of a deck of tier `deck_type`.
    pub fn new(deck_type: DeckType) -> (deck: DeckInputs)
        ensures
            deck@ == DeckInputs::template(deck_type),
    {
        let deck = DeckInputs {
            inputs: match deck_type {
                DeckType::Starter => [
                    CardInput::new(Rarity::Rare),
                    CardInput::new(Rarity::Rare),
                    CardInput::new(Rarity::Uncommon),
                    CardInput::new(Rarity::Uncommon),
                    CardInput::new(Rarity::Common),
                ],
                DeckType::Journeyman => [
                    CardInput::new(Rarity::Epic),
                    CardInput::new(Rarity::Epic),
                    CardInput::new(Rarity::Rare),
                    CardInput::new(Rarity::Rare),
                    CardInput::new(Rarity::Uncommon),
                ],
                DeckType::Legendary => [
                    CardInput::new(Rarity::Legendary),
                    CardInput::new(Rarity::Epic),
                    CardInput::new(Rarity::Epic),
                    CardInput::new(Rarity::Uncommon),
                    CardInput::new(Rarity::Rare),
                ],
            },
        };
        assert(deck@ =~= DeckInputs::template(deck_type));
        deck
    }
}

/// The number that tells a card from the cards of its rarity before it in
/// the deck: nothing for the first of a rarity, then 2, 3 and so on.
/// `last_card` is the rarity of the card resolved last and how many cards of
/// that rarity were resolved in a row.
pub open spec fn card_suffix(last_card: Option<(Rarity, i32)>, current_rarity: Rarity) -> Seq<char> {
    match last_card {
        Some((rarity, count)) => if rarity == current_rarity {
            decimal(count + 1)
        } else {
            Seq::<char>::empty()
        },
        None => Seq::<char>::empty(),
    }
}

/// The name that a card of `current_rarity` gets where the designer gives
/// none: the rarity's name and the suffix.
pub open spec fn default_name(last_card: Option<(Rarity, i32)>, current_rarity: Rarity) -> Seq<char> {
    current_rarity.spec_name() + card_suffix(last_card, current_rarity)
}

/// What is remembered once a card of `rarity` is resolved: the rarity, and
/// the length of the run of that rarity.
pub open spec fn run_after(last_card: Option<(Rarity, i32)>, rarity: Rarity) -> (Rarity, int) {
    match last_card {
        Some((last, count)) => if last == rarity {
            (rarity, count + 1)
        } else {
            (rarity, 1)
        },
        None => (rarity, 1),
    }
}

/// The suffix that tells the next card, of `current_rarity`, from the cards
/// of its rarity before it. `last_card` is left as it is.
pub fn get_card_suffix(last_card: &mut Option<(Rarity, i32)>, current_rarity: &Rarity) -> (suffix:
    String)
    requires
        (*old(last_card)) matches Some((_, count)) ==> count < i32::MAX,
    ensures
        suffix@ == card_suffix(*old(last_card), *current_rarity),
        *final(last_card) == *old(last_card),
{
    let mut suffix = String::new();
    match last_card {
        Some((rarity, count)) => {
            if *rarity == *current_rarity {
                push_decimal(&mut suffix, (*count + 1) as i64);
            }
        },
        None => {},
    }
    suffix
}

/// The default name of the next card, of `current_rarity`.
pub fn default_card_name(last_card: &Option<(Rarity, i32)>, current_rarity: &Rarity) -> (name:
    String)
    requires
        (*last_card) matches Some((_, count)) ==> count < i32::MAX,
    ensures
        name@ == default_name(*last_card, *current_rarity),
{
    let mut name = current_rarity.name();
    match last_card {
        Some((rarity, count)) => {
            if *rarity == *current_rarity {
                push_decimal(&mut name, (*count + 1) as i64);
            }
        },
        None => {},
    }
    name
}

/// Remembers that a card of `rarity` was resolved.
pub fn record_card(last_card: &mut Option<(Rarity, i32)>, rarity: Rarity)
    requires
        (*old(last_card)) matches Some((_, count)) ==> count < i32::MAX,
    ensures
        (*final(last_card)) matches Some((last, count)) && (last, count as int) == run_after(
            *old(last_card),
            rarity,
        ),
{
    let count = match last_card {
        Some((last, count)) => if *last == rarity {
            *count + 1
        } else {
            1
        },
        None => 1,
    };
    *last_card = Some((rarity, count));
}

/// Why a deck could not be made from a template.
#[derive(Clone, Copy, Debug, PartialEq, Eq, Structural)]
pub enum TemplateError {
    /// No template was found.
    Missing,
    /// What was found is no template.
    Unparseable,
}

/// The views of the cards `cards`, in order.
pub open spec fn card_views(cards: Seq<Card>) -> Seq<CardView> {
    Seq::new(cards.len(), |i: int| cards[i]@)
}

/// The cards that the choices `inputs` give from the rolled powers
/// `powers`, slot by slot: each slot whose card can be built adds its card,
/// every other slot adds nothing.
pub open spec fn built_cards(inputs: Seq<CardInputView>, powers: Seq<i32>, config: Config) -> Seq<
    CardView,
>
    decreases inputs.len(),
{
    if inputs.len() == 0 {
        Seq::<CardView>::empty()
    } else {
        let before = built_cards(inputs.drop_last(), powers.drop_last(), config);
        match inputs.last().replay(powers.last() as int, config) {
            Ok(card) => before.push(card),
            Err(_) => before,
        }
    }
}

/// Whether `powers` holds, for each of the choices `inputs`, a power that
/// the rarity of the slot can roll.
pub open spec fn rolled_powers(inputs: Seq<CardInputView>, powers: Seq<i32>, config: Config) -> bool {
    &&& powers.len() == inputs.len()
    &&& forall|i: int| 0 <= i < inputs.len() ==> (#[trigger] inputs[i]).rolls(powers[i] as int, config)
}

/// The cards of the deck `deck` from the rolled powers `powers`, one power
/// for each slot.
pub fn cards_with_powers(deck: &DeckInputs, powers: &Vec<i32>, config: Config) -> (cards: Vec<Card>)
    requires
        powers.len() == 5,
    ensures
        card_views(cards@) == built_cards(deck@, powers@, config),
{
    let mut cards: Vec<Card> = Vec::new();
    let mut i: usize = 0;
    while i < 5
        invariant
            i <= 5,
            powers.len() == 5,
            card_views(cards@) == built_cards(deck@.take(i as int), powers@.take(i as int), config),
        decreases 5 - i,
    {
        let result = deck.inputs[i].build_with_power(powers[i], config);
        proof {
            let inputs = deck@.take(i + 1);
            let rolled = powers@.take(i + 1);
            assert(inputs.drop_last() == deck@.take(i as int));
            assert(rolled.drop_last() == powers@.take(i as int));
            assert(inputs.last() == deck.inputs@[i as int]@);
            assert(rolled.last() == powers@[i as int]);
        }
        match result {
            Ok(card) => {
                let ghost before = cards@;
                cards.push(card);
                assert(card_views(cards@) == card_views(before).push(card@));
            },
            Err(_) => {},
        }
        i = i + 1;
    }
    assert(deck@.take(5) == deck@);
    assert(powers@.take(5) == powers@);
    cards
}

/// The cards of a deck from its template, each from the power that its
/// rarity rolls. Without a template there is no deck and no card.
pub fn generate_deck_from_template(template: Result<DeckInputs, TemplateError>, config: Config) -> (result:
    Result<Vec<Card>, TemplateError>)
    ensures
        match template {
            Ok(deck) => result matches Ok(cards) && exists|powers: Seq<i32>|
                rolled_powers(deck@, powers, config) && card_views(cards@) == #[trigger] built_cards(
                    deck@,
                    powers,
                    config,
                ),
            Err(error) => result == Err::<Vec<Card>, TemplateError>(error),
        },
{
    match template {
        Err(error) => Err(error),
        Ok(deck) => {
            let mut rng = rand::thread_rng();
            let mut powers: Vec<i32> = Vec::new();
            let mut i: usize = 0;
            while i < 5
                invariant
                    i <= 5,
                    powers.len() == i,
                    forall|j: int| 0 <= j < i ==> (#[trigger] deck@[j]).rolls(powers@[j] as int, config),
                decreases 5 - i,
            {
                let power = config.rarity_ranges.get_power(&mut rng, &deck.inputs[i].rarity);
                powers.push(power);
                i = i + 1;
            }
            let cards = cards_with_powers(&deck, &powers, config);
            assert(rolled_powers(deck@, powers@, config));
            Ok(cards)
        },
    }
}

/// Where the assembly of a deck stands.
#[derive(Clone, Copy, Debug, PartialEq, Eq, Structural)]
pub enum DeckState {
    /// Nothing has been asked yet.
    Empty,
    /// The choices for the slot are being collected.
    Collecting(usize),
    /// The card of the slot is built.
    Resolved(usize),
    /// Every slot has its card.
    Complete,
    /// The assembly was given up.
    Aborted,
}

/// A deck in assembly: the template as far as it is filled in, the state,
/// and the run of equal rarities that the card names go by.
#[derive(Debug)]
pub struct DeckAssembly {
    pub deck: DeckInputs,
    pub state: DeckState,
    pub last_card: Option<(Rarity, i32)>,
}

/// What a deck in assembly is.
pub struct DeckAssemblyView {
    pub deck: Seq<CardInputView>,
    pub state: DeckState,
    pub last_card: Option<(Rarity, i32)>,
}

impl View for DeckAssembly {
    type V = DeckAssemblyView;

    open spec fn view(&self) -> DeckAssemblyView {
        DeckAssemblyView { deck: self.deck@, state: self.state, last_card: self.last_card }
    }
}

impl DeckState {
    /// The number of slots that have their card.
    pub open spec fn resolved_slots(self) -> int {
        match self {
            DeckState::Empty => 0,
            DeckState::Collecting(slot) => slot as int,
            DeckState::Resolved(slot) => slot + 1,
            DeckState::Complete => 5,
            DeckState::Aborted => 5,
        }
    }
}

impl DeckAssemblyView {
    /// The state names a slot of the deck, and no run of equal rarities is
    /// longer than the number of cards built.
    pub open spec fn wf(self) -> bool {
        &&& self.deck.len() == 5
        &&& 0 <= self.state.resolved_slots() <= 5
        &&& self.state matches DeckState::Collecting(slot) ==> slot < 5
        &&& self.last_card matches Some((_, count)) ==> 1 <= count <= self.state.resolved_slots()
    }

    /// The assembly of a deck of tier `deck_type`, before anything is asked.
    pub open spec fn start(deck_type: DeckType) -> DeckAssemblyView {
        DeckAssemblyView {
            deck: DeckInputs::template(deck_type),
            state: DeckState::Empty,
            last_card: None,
        }
    }

    /// The assembly one step on: from the start and from a built card to
    /// the next slot, and after the last slot to the end.
    pub open spec fn advanced(self) -> DeckAssemblyView {
        let state = match self.state {
            DeckState::Empty => DeckState::Collecting(0),
            DeckState::Resolved(slot) => if slot + 1 < 5 {
                DeckState::Collecting((slot + 1) as usize)
            } else {
                DeckState::Complete
            },
            other => other,
        };
        DeckAssemblyView { state, ..self }
    }

    /// The assembly given up.
    pub open spec fn aborted(self) -> DeckAssemblyView {
        DeckAssemblyView { state: DeckState::Aborted, ..self }
    }

    /// The choices that an attempt at the slot `slot` stands for.
    pub open spec fn attempt(
        self,
        slot: int,
        name: Seq<char>,
        efficiency: Efficiency,
        priority_allocation: int,
        range: Range,
        effect: Effect,
    ) -> CardInputView {
        CardInputView {
            name,
            rarity: self.deck[slot].rarity,
            efficiency,
            priority_allocation,
            range,
            effect,
        }
    }

    /// The assembly after `card` was built for the slot `slot`: the slot
    /// holds the card's choices, and the run of rarities counts the card.
    pub open spec fn resolved(self, slot: int, card: CardView) -> DeckAssemblyView {
        let run = run_after(self.last_card, self.deck[slot].rarity);
        DeckAssemblyView {
            deck: self.deck.update(slot, self.deck[slot].configured(card)),
            state: DeckState::Resolved(slot as usize),
            last_card: Some((run.0, run.1 as i32)),
        }
    }

    /// The name that the card in the making gets where none is given.
    pub open spec fn label(self) -> Seq<char>
        recommends
            self.state is Collecting,
    {
        default_name(self.last_card, self.deck[self.state->Collecting_0 as int].rarity)
    }
}

impl DeckAssembly {
    /// The assembly of a deck of tier `deck_type`, before anything is asked.
    pub fn new(deck_type: DeckType) -> (assembly: DeckAssembly)
        ensures
            assembly@ == DeckAssemblyView::start(deck_type),
            assembly@.wf(),
    {
        DeckAssembly { deck: DeckInputs::new(deck_type), state: DeckState::Empty, last_card: None }
    }

    /// Goes on to the next slot, or to the end after the last one.
    pub fn advance(&mut self)
        requires
            old(self)@.wf(),
        ensures
            final(self)@ == old(self)@.advanced(),
            final(self)@.wf(),
    {
        match self.state {
            DeckState::Empty => {
                self.state = DeckState::Collecting(0);
            },
            DeckState::Resolved(slot) => {
                if slot < 4 {
                    self.state = DeckState::Collecting(slot + 1);
                } else {
                    self.state = DeckState::Complete;
                }
            },
            _ => {},
        }
    }

    /// Gives the assembly up.
    pub fn abort(&mut self)
        requires
            old(self)@.wf(),
        ensures
            final(self)@ == old(self)@.aborted(),
            final(self)@.wf(),
    {
        self.state = DeckState::Aborted;
    }

    /// The name that the card in the making gets where none is given.
    pub fn label(&self) -> (name: String)
        requires
            self@.wf(),
            self.state is Collecting,
        ensures
            name@ == self@.label(),
    {
        match self.state {
            DeckState::Collecting(slot) => default_card_name(
                &self.last_card,
                &self.deck.inputs[slot].rarity,
            ),
            _ => String::new(),
        }
    }

    /// One attempt at the card of the slot that is being collected, from
    /// the rolled power `power`. Where the engine builds the card, the slot
    /// takes the choices over and counts as resolved; where it does not,
    /// nothing changes and the same slot can be tried again.
    pub fn configure_card(
        &mut self,
        name: String,
        efficiency: Efficiency,
        priority_allocation: i32,
        range: Range,
        effect: Effect,
        power: i32,
        config: Config,
    ) -> (result: Result<Card, BuildError>)
        requires
            old(self)@.wf(),
            old(self).state is Collecting,
        ensures
            outcome_view(result) == old(self)@.attempt(
                old(self).state->Collecting_0 as int,
                name@,
                efficiency,
                priority_allocation as int,
                range,
                effect,
            ).replay(power as int, config),
            final(self)@ == match result {
                Ok(card) => old(self)@.resolved(old(self).state->Collecting_0 as int, card@),
                Err(_) => old(self)@,
            },
            final(self)@.wf(),
    {
        let slot = match self.state {
            DeckState::Collecting(slot) => slot,
            _ => 0,
        };
        let rarity = self.deck.inputs[slot].rarity;
        let mut input = CardInput { name, rarity, efficiency, priority_allocation, range, effect };
        let result = input.build_with_power(power, config);
        match &result {
            Ok(card) => {
                input.apply_configuration(card);
                let ghost before = self.deck@;
                self.deck.inputs[slot] = input;
                record_card(&mut self.last_card, rarity);
                self.state = DeckState::Resolved(slot);
                assert(self.deck@ =~= before.update(slot as int, before[slot as int].configured(card@)));
            },
            Err(_) => {},
        }
        result
    }
}

} // verus!
