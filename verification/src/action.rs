use vstd::prelude::*;
use std::collections::HashMap;
use crate::card::Card;
use crate::card::CardId;
use crate::game::Game;
use crate::game::GameView;
use crate::invalid_action_error::ActionResult;
use crate::invalid_action_error::ErrorKind;
use crate::invalid_action_error::InvalidActionError;
use crate::mutation::all_fit;
use crate::mutation::Mutation;
use crate::mutation::NormalMutation;
use crate::mutation::outcome_of_all;
use crate::mutation_helper::settled;
use crate::resource::Resource;
use crate::rules::passed;
use crate::rules::tile_placed;
use crate::rules::Verdict;
use crate::rules::verdict_fits;
use crate::tile::Tile;

verus! {

/// The projects that are open to the player whatever cards are in the hand.
#[derive(Debug, Clone, Copy, PartialEq, Eq, Structural)]
pub enum StandardProject {
    City,
    Greenery,
    Aquifer,
    Asteroid,
    PowerPlant,
}

/// What is done for a price: the price in `resource` is paid, then `effects` take place.
pub open spec fn bought(resource: Resource, price: i32, effects: Seq<NormalMutation>) -> Seq<
    NormalMutation,
> {
    seq![NormalMutation::ResourceMutation(resource, (-price) as i32)] + effects
}

impl StandardProject {
    /// What the project costs and does.
    pub open spec fn effects(self) -> Seq<NormalMutation> {
        match self {
            StandardProject::City => bought(
                Resource::MegaCredit,
                25,
                seq![
                    NormalMutation::TileQueuingMutation(Tile::City),
                    NormalMutation::ProductionMutation(Resource::MegaCredit, 1),
                ],
            ),
            StandardProject::Greenery => bought(
                Resource::MegaCredit,
                23,
                seq![NormalMutation::TileQueuingMutation(Tile::Greenery)],
            ),
            StandardProject::Aquifer => bought(
                Resource::MegaCredit,
                18,
                seq![NormalMutation::TileQueuingMutation(Tile::Ocean)],
            ),
            StandardProject::Asteroid => bought(
                Resource::MegaCredit,
                14,
                seq![NormalMutation::TemperatureIncreaseMutation(1)],
            ),
            StandardProject::PowerPlant => bought(
                Resource::MegaCredit,
                11,
                seq![NormalMutation::ProductionMutation(Resource::Energy, 1)],
            ),
        }
    }

    /// The request that carries the project out.
    pub fn mutation(&self) -> (mutation: Mutation)
        ensures
            is_request_for(mutation, self.effects()),
    {
        match self {
            StandardProject::City => {
                let effects = vec![
                    NormalMutation::TileQueuingMutation(Tile::City),
                    NormalMutation::ProductionMutation(Resource::MegaCredit, 1),
                ];
                purchase(Resource::MegaCredit, 25, effects)
            },
            StandardProject::Greenery => purchase(
                Resource::MegaCredit,
                23,
                single(NormalMutation::TileQueuingMutation(Tile::Greenery)),
            ),
            StandardProject::Aquifer => purchase(
                Resource::MegaCredit,
                18,
                single(NormalMutation::TileQueuingMutation(Tile::Ocean)),
            ),
            StandardProject::Asteroid => purchase(
                Resource::MegaCredit,
                14,
                single(NormalMutation::TemperatureIncreaseMutation(1)),
            ),
            StandardProject::PowerPlant => purchase(
                Resource::MegaCredit,
                11,
                single(NormalMutation::ProductionMutation(Resource::Energy, 1)),
            ),
        }
    }
}

/// The list of one effect.
fn single(effect: NormalMutation) -> (effects: Vec<NormalMutation>)
    ensures
        effects@ == seq![effect],
{
    let mut effects: Vec<NormalMutation> = Vec::new();
    effects.push(effect);
    effects
}

/// The mutation is the request for the list `effects`, to take place together or not at
/// all.
pub open spec fn is_request_for(mutation: Mutation, effects: Seq<NormalMutation>) -> bool {
    mutation matches Mutation::Normal(NormalMutation::CompositeMutation(mutations)) && mutations@
        == effects
}

/// The request to pay `price` in `resource` and then to let `effects` take place.
fn purchase(resource: Resource, price: i32, effects: Vec<NormalMutation>) -> (mutation: Mutation)
    requires
        price > i32::MIN,
    ensures
        is_request_for(mutation, bought(resource, price, effects@)),
{
    let mut mutations: Vec<NormalMutation> = Vec::new();
    mutations.push(NormalMutation::ResourceMutation(resource, -price));
    let mut effects = effects;
    mutations.append(&mut effects);
    Mutation::Normal(NormalMutation::CompositeMutation(mutations))
}

/// What the player can do in a turn.
#[derive(Debug, Clone, Copy)]
pub enum Action {
    Card(CardId),
    StandardPowerPlant,
    StandardAsteroid,
    StandardAquifer,
    StandardGreenery,
    StandardCity,
    HeatConversion,
    PlantConversion,
    TilePlacement((usize, usize)),
    Pass,
}

/// What a list of effects, asked for as one request, makes of `state`.
pub open spec fn requested(effects: Seq<NormalMutation>, state: GameView) -> Verdict {
    if state.over() {
        Err(ErrorKind::GameOver)
    } else if !state.idle() {
        Err(ErrorKind::AwaitingPlacement)
    } else {
        outcome_of_all(effects, state)
    }
}

/// No state that the request for `effects` passes through is too large for the machine.
pub open spec fn request_fits(effects: Seq<NormalMutation>, state: GameView) -> bool {
    !state.over() && state.idle() ==> all_fit(effects, state)
}

/// The request for a list of effects does what the list does, behind the two gates.
pub proof fn lemma_request(mutation: Mutation, effects: Seq<NormalMutation>, state: GameView)
    requires
        is_request_for(mutation, effects),
    ensures
        mutation.outcome(state) == requested(effects, state),
        mutation.fits(state) == request_fits(effects, state),
{
}

/// A list of effects that ends no generation needs no credit.
proof fn lemma_no_generation_ends(effects: Seq<NormalMutation>, state: GameView)
    requires
        forall|i: int|
            0 <= i < effects.len() ==> !(#[trigger] effects[i] is PassMutation) && !(
            effects[i] is CompositeMutation),
    ensures
        crate::mutation::all_keep_credit(effects, state),
    decreases effects.len(),
{
    if effects.len() > 0 {
        assert(effects[0].keeps_credit(state));
        if let Ok(next) = effects[0].outcome(state) {
            lemma_no_generation_ends(effects.skip(1), next);
        }
    }
}

impl Action {
    /// The effects of an action that neither plays a card nor places a tile.
    pub open spec fn effects(self) -> Seq<NormalMutation> {
        match self {
            Action::StandardPowerPlant => StandardProject::PowerPlant.effects(),
            Action::StandardAsteroid => StandardProject::Asteroid.effects(),
            Action::StandardAquifer => StandardProject::Aquifer.effects(),
            Action::StandardGreenery => StandardProject::Greenery.effects(),
            Action::StandardCity => StandardProject::City.effects(),
            Action::HeatConversion => bought(
                Resource::Heat,
                8,
                seq![NormalMutation::TemperatureIncreaseMutation(1)],
            ),
            Action::PlantConversion => bought(
                Resource::Plant,
                8,
                seq![NormalMutation::TileQueuingMutation(Tile::Greenery)],
            ),
            _ => seq![NormalMutation::PassMutation],
        }
    }

    /// What the action makes of `state`, with the cards of `compendium`.
    pub open spec fn outcome(self, state: GameView, compendium: Map<CardId, Card>) -> Verdict {
        match self {
            Action::Card(card_id) => if compendium.contains_key(card_id) {
                compendium[card_id].outcome(state)
            } else {
                Err(ErrorKind::UnknownCard)
            },
            Action::TilePlacement(position) => if state.over() {
                Err(ErrorKind::GameOver)
            } else {
                tile_placed(state, position)
            },
            Action::Pass => if state.over() {
                Err(ErrorKind::GameOver)
            } else {
                passed(state)
            },
            _ => requested(self.effects(), state),
        }
    }

    /// No state that the action passes through is too large for the machine.
    pub open spec fn fits(self, state: GameView, compendium: Map<CardId, Card>) -> bool {
        match self {
            Action::Card(card_id) => compendium.contains_key(card_id) ==> compendium[card_id].fits(
                state,
            ),
            Action::TilePlacement(_) | Action::Pass => verdict_fits(
                self.outcome(state, compendium),
            ),
            _ => request_fits(self.effects(), state),
        }
    }

    /// Every generation that the action ends is paid for.
    pub open spec fn keeps_credit(self, state: GameView, compendium: Map<CardId, Card>) -> bool {
        match self {
            Action::Card(card_id) => compendium.contains_key(card_id)
                ==> compendium[card_id].keeps_credit(state),
            Action::Pass => !state.over() && state.idle() ==> crate::rules::pass_pays(state),
            _ => true,
        }
    }

    /// The request that the action stands for, where it is neither a card nor a placement.
    fn mutation(&self) -> (mutation: Mutation)
        requires
            !(self is Card),
            !(self is TilePlacement),
        ensures
            forall|state: GameView, compendium: Map<CardId, Card>|
                #![trigger self.outcome(state, compendium)]
                mutation.outcome(state) == self.outcome(state, compendium) && mutation.fits(state)
                    == self.fits(state, compendium) && (self.keeps_credit(state, compendium)
                    ==> mutation.keeps_credit(state)),
    {
        let mutation = match self {
            Action::StandardPowerPlant => StandardProject::PowerPlant.mutation(),
            Action::StandardAsteroid => StandardProject::Asteroid.mutation(),
            Action::StandardAquifer => StandardProject::Aquifer.mutation(),
            Action::StandardGreenery => StandardProject::Greenery.mutation(),
            Action::StandardCity => StandardProject::City.mutation(),
            Action::HeatConversion => purchase(
                Resource::Heat,
                8,
                single(NormalMutation::TemperatureIncreaseMutation(1)),
            ),
            Action::PlantConversion => purchase(
                Resource::Plant,
                8,
                single(NormalMutation::TileQueuingMutation(Tile::Greenery)),
            ),
            _ => Mutation::Normal(NormalMutation::PassMutation),
        };
        proof {
            assert forall|state: GameView, compendium: Map<CardId, Card>|
                #![trigger self.outcome(state, compendium)]
                mutation.outcome(state) == self.outcome(state, compendium) && mutation.fits(state)
                    == self.fits(state, compendium) && (self.keeps_credit(state, compendium)
                    ==> mutation.keeps_credit(state)) by {
                if !(self is Pass) {
                    lemma_no_generation_ends(self.effects(), state);
                }
            }
        }
        mutation
    }

    /// Carries the action out, or leaves the game untouched and says why.
    pub fn execute(&self, game: &mut Game, compendium: &HashMap<CardId, Card>) -> (result:
        ActionResult)
        requires
            old(game).wf(),
            self.fits(old(game)@, compendium@),
        ensures
            final(game).wf(),
            settled(*old(game), *final(game), result, self.outcome(old(game)@, compendium@)),
            old(game)@.solvent() && self.keeps_credit(old(game)@, compendium@)
                ==> final(game)@.solvent(),
    {
        match self {
            Action::Card(card_id) => {
                if let Some(card) = compendium.get(card_id) {
                    card.play(game)
                } else {
                    InvalidActionError::new(ErrorKind::UnknownCard).into_err()
                }
            },
            Action::TilePlacement(position) => {
                let tile = if game.tile_stack.len() > 0 {
                    game.tile_stack[game.tile_stack.len() - 1]
                } else {
                    Tile::Empty
                };
                Mutation::TilePlacing(tile, *position).apply(game)
            },
            _ => self.mutation().apply(game),
        }
    }
}

impl Action {
    /// Carries the action out as `execute` does where it fits the machine; where it does
    /// not, nothing is returned and the game is left untouched.
    pub fn checked_execute(&self, game: &mut Game, compendium: &HashMap<CardId, Card>) -> (result:
        Option<ActionResult>)
        requires
            old(game).wf(),
        ensures
            final(game).wf(),
            match result {
                Some(done) => self.fits(old(game)@, compendium@) && settled(
                    *old(game),
                    *final(game),
                    done,
                    self.outcome(old(game)@, compendium@),
                ),
                None => !self.fits(old(game)@, compendium@) && *final(game) == *old(game),
            },
    {
        match self {
            Action::Card(card_id) => {
                if let Some(card) = compendium.get(card_id) {
                    card.checked_play(game)
                } else {
                    Some(InvalidActionError::new(ErrorKind::UnknownCard).into_err())
                }
            },
            Action::TilePlacement(position) => {
                let tile = if game.tile_stack.len() > 0 {
                    game.tile_stack[game.tile_stack.len() - 1]
                } else {
                    Tile::Empty
                };
                Mutation::TilePlacing(tile, *position).checked_apply(game)
            },
            _ => self.mutation().checked_apply(game),
        }
    }
}

} // verus!
