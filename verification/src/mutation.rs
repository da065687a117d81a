use vstd::prelude::*;
use crate::card::CardId;
use crate::game::Game;
use crate::game::GameView;
use crate::game::MAX_OXYGEN;
use crate::game::MAX_TEMPERATURE;
use crate::invalid_action_error::ActionResult;
use crate::invalid_action_error::ErrorKind;
use crate::invalid_action_error::InvalidActionError;
use crate::invalid_action_error::refused;
use crate::mutation_helper::draw_cards;
use crate::mutation_helper::increase_oxygen_if_not_maxed_out;
use crate::mutation_helper::increase_temperature_if_not_maxed_out;
use crate::mutation_helper::increase_tr;
use crate::mutation_helper::minimum_production_value_of;
use crate::mutation_helper::mixed_payment;
use crate::mutation_helper::mixed_payment_fits;
use crate::mutation_helper::pass;
use crate::mutation_helper::pass_fits;
use crate::mutation_helper::place_tile;
use crate::mutation_helper::place_tile_fits;
use crate::mutation_helper::play_card;
use crate::mutation_helper::production_change;
use crate::mutation_helper::queue_tile;
use crate::mutation_helper::resource_change;
use crate::mutation_helper::settled;
use crate::resource::Resource;
use crate::rules::card_played;
use crate::rules::cards_drawn;
use crate::rules::oxygenated;
use crate::rules::paid;
use crate::rules::passed;
use crate::rules::points_scored;
use crate::rules::production_changed;
use crate::rules::rating_raised;
use crate::rules::resource_changed;
use crate::rules::tag_counted;
use crate::rules::tile_placed;
use crate::rules::tile_queued;
use crate::rules::Verdict;
use crate::rules::verdict_fits;
use crate::rules::warmed;
use crate::tag::Tag;
use crate::tile::Tile;

verus! {

/// What one unit of steel is worth in megacredits when a building is paid for.
pub const STEEL_VALUE: i32 = 2;

/// What one unit of titanium is worth in megacredits when a space project is paid for.
pub const TITANIUM_VALUE: i32 = 3;

/// An effect on the game, or a list of effects that take place together or not at all.
#[derive(Debug)]
pub enum NormalMutation {
    CompositeMutation(Vec<NormalMutation>),
    ProductionMutation(Resource, i32),
    ResourceMutation(Resource, i32),
    BuilderCardPaymentMutation(i32),
    SpaceCardPaymentMutation(i32),
    TrMutation(i32),
    TemperatureIncreaseMutation(u32),
    OxygenIncreaseMutation(u32),
    VictoryPointMutation(i32),
    TileQueuingMutation(Tile),
    TagMutation(Tag),
    CardDrawMutation(i32),
    CardPlayMutation(CardId),
    PassMutation,
}

impl NormalMutation {
    /// What the effect makes of `state`. The parts of a list take effect in order, each on
    /// what the one before it left, and the first that is refused refuses the list.
    pub open spec fn outcome(self, state: GameView) -> Verdict
        decreases self,
    {
        match self {
            NormalMutation::CompositeMutation(mutations) => outcome_of_all(mutations@, state),
            NormalMutation::ProductionMutation(resource, delta) => production_changed(
                state,
                resource,
                delta as int,
            ),
            NormalMutation::ResourceMutation(resource, delta) => resource_changed(
                state,
                resource,
                delta as int,
            ),
            NormalMutation::BuilderCardPaymentMutation(cost) => paid(
                state,
                cost as int,
                Resource::Steel,
                STEEL_VALUE as int,
            ),
            NormalMutation::SpaceCardPaymentMutation(cost) => paid(
                state,
                cost as int,
                Resource::Titanium,
                TITANIUM_VALUE as int,
            ),
            NormalMutation::TrMutation(amount) => Ok(rating_raised(state, amount as int)),
            NormalMutation::TemperatureIncreaseMutation(amount) => Ok(warmed(state, amount as nat)),
            NormalMutation::OxygenIncreaseMutation(amount) => Ok(oxygenated(state, amount as nat)),
            NormalMutation::VictoryPointMutation(amount) => Ok(
                points_scored(state, amount as int),
            ),
            NormalMutation::TileQueuingMutation(tile) => Ok(tile_queued(state, tile)),
            NormalMutation::TagMutation(tag) => Ok(tag_counted(state, tag)),
            NormalMutation::CardDrawMutation(amount) => cards_drawn(state, amount as int),
            NormalMutation::CardPlayMutation(card_id) => card_played(state, card_id),
            NormalMutation::PassMutation => passed(state),
        }
    }

    /// No state that the effect passes through holds a number too large for the machine.
    pub open spec fn fits(self, state: GameView) -> bool
        decreases self,
    {
        match self {
            NormalMutation::CompositeMutation(mutations) => all_fit(mutations@, state),
            _ => verdict_fits(self.outcome(state)),
        }
    }
}

/// What a list of effects makes of `state`.
pub open spec fn outcome_of_all(mutations: Seq<NormalMutation>, state: GameView) -> Verdict
    decreases mutations,
{
    if mutations.len() == 0 {
        Ok(state)
    } else {
        match mutations[0].outcome(state) {
            Ok(next) => outcome_of_all(mutations.skip(1), next),
            Err(kind) => Err(kind),
        }
    }
}

/// No state that the list passes through, up to its first refusal, is too large for the
/// machine.
pub open spec fn all_fit(mutations: Seq<NormalMutation>, state: GameView) -> bool
    decreases mutations,
{
    mutations.len() == 0 || (mutations[0].fits(state) && (mutations[0].outcome(state) matches Ok(
        next,
    ) ==> all_fit(mutations.skip(1), next)))
}

/// Whether raising the rating and the victory points by `amount` stays within the machine.
fn rating_has_room(game: &Game, amount: i64) -> (room: bool)
    requires
        i32::MIN <= amount <= i32::MAX,
    ensures
        room == rating_raised(game@, amount as int).representable(),
{
    proof {
        game.lemma_representable();
    }
    let tr: i64 = game.tr as i64 + amount;
    let victory_points: i64 = game.victory_points as i64 + amount;
    -0x8000_0000 <= tr && tr <= 0x7fff_ffff && -0x8000_0000 <= victory_points && victory_points
        <= 0x7fff_ffff
}

impl NormalMutation {
    /// Carries the effect out as far as it goes. Nothing is returned, and nothing is said of
    /// the game but that it is well formed, where the effect does not fit the machine; where
    /// it is refused, the game is left as the parts before the refusal made it.
    fn unsafe_apply(&self, game: &mut Game) -> (result: Option<ActionResult>)
        requires
            old(game).wf(),
        ensures
            final(game).wf(),
            result is None <==> !self.fits(old(game)@),
            result matches Some(done) ==> match self.outcome(old(game)@) {
                Ok(state) => done is Ok && final(game)@ == state,
                Err(kind) => done == refused(kind),
            },
        decreases self,
    {
        proof {
            game.lemma_representable();
        }
        match self {
            NormalMutation::CompositeMutation(mutations) => {
                let mut i: usize = 0;
                assert(mutations@.skip(0) == mutations@);
                while i < mutations.len()
                    invariant
                        game.wf(),
                        i <= mutations.len(),
                        decreases_to!(*self => *mutations),
                        self.outcome(old(game)@) == outcome_of_all(mutations@.skip(i as int), game@),
                        self.fits(old(game)@) == all_fit(mutations@.skip(i as int), game@),
                    decreases mutations.len() - i,
                {
                    assert(mutations@.skip(i as int).skip(1) == mutations@.skip(i + 1));
                    match mutations[i].unsafe_apply(game) {
                        None => {
                            return None;
                        },
                        Some(Err(error)) => {
                            return Some(Err(error));
                        },
                        Some(Ok(())) => {},
                    }
                    i = i + 1;
                }
                Some(Ok(()))
            },
            NormalMutation::ProductionMutation(resource, delta) => {
                let amount: i64 = game.productions.get(*resource) as i64 + *delta as i64;
                proof {
                    if let Ok(state) = self.outcome(game@) {
                        assert(state.productions.get(*resource) == amount);
                        if amount <= i32::MAX {
                            assert forall|other: Resource|
                                i32::MIN <= #[trigger] state.productions.get(other)
                                    <= i32::MAX by {
                                assert(i32::MIN <= game@.productions.get(other) <= i32::MAX);
                            }
                        }
                    }
                }
                if amount >= minimum_production_value_of(resource) as i64 && amount > 0x7fff_ffff {
                    return None;
                }
                Some(production_change(game, resource, *delta))
            },
            NormalMutation::ResourceMutation(resource, delta) => {
                let amount: i64 = game.resources.get(*resource) as i64 + *delta as i64;
                proof {
                    if let Ok(state) = self.outcome(game@) {
                        assert(state.resources.get(*resource) == amount);
                        if amount <= i32::MAX {
                            assert forall|other: Resource|
                                i32::MIN <= #[trigger] state.resources.get(other) <= i32::MAX by {
                                assert(i32::MIN <= game@.resources.get(other) <= i32::MAX);
                            }
                        }
                    }
                }
                if amount > 0x7fff_ffff {
                    return None;
                }
                Some(resource_change(game, resource, *delta))
            },
            NormalMutation::BuilderCardPaymentMutation(cost) => {
                if !mixed_payment_fits(game, *cost, Resource::Steel, STEEL_VALUE) {
                    return None;
                }
                Some(mixed_payment(game, *cost, Resource::Steel, STEEL_VALUE))
            },
            NormalMutation::SpaceCardPaymentMutation(cost) => {
                if !mixed_payment_fits(game, *cost, Resource::Titanium, TITANIUM_VALUE) {
                    return None;
                }
                Some(mixed_payment(game, *cost, Resource::Titanium, TITANIUM_VALUE))
            },
            NormalMutation::TrMutation(amount) => {
                if !rating_has_room(game, *amount as i64) {
                    return None;
                }
                increase_tr(game, *amount);
                Some(Ok(()))
            },
            NormalMutation::TemperatureIncreaseMutation(amount) => {
                let reach: i64 = (MAX_TEMPERATURE as i64 - game.temperature as i64 + 1) / 2;
                let steps: i64 = if game.temperature >= MAX_TEMPERATURE {
                    0
                } else if (*amount as i64) <= reach {
                    *amount as i64
                } else {
                    reach
                };
                if !rating_has_room(game, steps) {
                    return None;
                }
                increase_temperature_if_not_maxed_out(game, *amount);
                Some(Ok(()))
            },
            NormalMutation::OxygenIncreaseMutation(amount) => {
                let reach: i64 = MAX_OXYGEN as i64 - game.oxygen as i64;
                let steps: i64 = if game.oxygen >= MAX_OXYGEN {
                    0
                } else if (*amount as i64) <= reach {
                    *amount as i64
                } else {
                    reach
                };
                if !rating_has_room(game, steps) {
                    return None;
                }
                increase_oxygen_if_not_maxed_out(game, *amount);
                Some(Ok(()))
            },
            NormalMutation::VictoryPointMutation(amount) => {
                let points: i64 = game.victory_points as i64 + *amount as i64;
                if points < -0x8000_0000 || points > 0x7fff_ffff {
                    return None;
                }
                game.victory_points = game.victory_points + *amount;
                Some(Ok(()))
            },
            NormalMutation::TileQueuingMutation(tile) => {
                queue_tile(game, *tile);
                Some(Ok(()))
            },
            NormalMutation::TagMutation(tag) => {
                let count = game.tags.get(*tag);
                proof {
                    assert(tag_counted(game@, *tag).tags.get(*tag) == count + 1);
                    if count < i32::MAX {
                        assert forall|other: Tag|
                            i32::MIN <= #[trigger] tag_counted(game@, *tag).tags.get(other)
                                <= i32::MAX by {
                            assert(i32::MIN <= game@.tags.get(other) <= i32::MAX);
                        }
                    }
                }
                if count == 0x7fff_ffff {
                    return None;
                }
                game.tags.set(*tag, count + 1);
                Some(Ok(()))
            },
            NormalMutation::CardDrawMutation(amount) => {
                Some(draw_cards(game, *amount))
            },
            NormalMutation::CardPlayMutation(card_id) => {
                Some(play_card(game, *card_id))
            },
            NormalMutation::PassMutation => {
                if !pass_fits(game) {
                    return None;
                }
                Some(pass(game))
            },
        }
    }

    /// Carries the effect out, or leaves the game untouched: where the effect, or a part of
    /// a list of effects, is refused, nothing of it remains.
    pub fn apply(&self, game: &mut Game) -> (result: ActionResult)
        requires
            old(game).wf(),
            self.fits(old(game)@),
        ensures
            final(game).wf(),
            settled(*old(game), *final(game), result, self.outcome(old(game)@)),
            old(game)@.solvent() && self.keeps_credit(old(game)@) ==> final(game)@.solvent(),
            final(game)@.cards() == old(game)@.cards(),
    {
        proof {
            if game@.solvent() && self.keeps_credit(game@) {
                lemma_outcome_keeps_solvent(*self, game@);
            }
            lemma_outcome_keeps_wf(*self, game@);
        }
        self.checked_apply(game).unwrap()
    }

    /// Carries the effect out as `apply` does where it fits the machine, and says so; where
    /// it does not, nothing is returned and the game is left untouched.
    pub fn checked_apply(&self, game: &mut Game) -> (result: Option<ActionResult>)
        requires
            old(game).wf(),
        ensures
            final(game).wf(),
            match result {
                Some(done) => self.fits(old(game)@) && settled(
                    *old(game),
                    *final(game),
                    done,
                    self.outcome(old(game)@),
                ),
                None => !self.fits(old(game)@) && *final(game) == *old(game),
            },
    {
        let mut trial = game.clone();
        let result = self.unsafe_apply(&mut trial);
        if let Some(Ok(())) = result {
            *game = trial;
        }
        result
    }
}

impl NormalMutation {
    /// Every generation that the effect ends is paid for by the rating, the stock of
    /// megacredits and their production.
    pub open spec fn keeps_credit(self, state: GameView) -> bool
        decreases self,
    {
        match self {
            NormalMutation::CompositeMutation(mutations) => all_keep_credit(mutations@, state),
            NormalMutation::PassMutation => crate::rules::pass_pays(state),
            _ => true,
        }
    }
}

/// Every generation that the list ends, up to its first refusal, is paid for.
pub open spec fn all_keep_credit(mutations: Seq<NormalMutation>, state: GameView) -> bool
    decreases mutations,
{
    mutations.len() == 0 || (mutations[0].keeps_credit(state) && (mutations[0].outcome(
        state,
    ) matches Ok(next) ==> all_keep_credit(mutations.skip(1), next)))
}

/// An effect that takes place leaves the game well formed, and every card where the rules
/// put it: in the hand, among the played cards or in the draw pile, and in one of them only.
/// No effect takes the game back to an earlier generation.
pub proof fn lemma_outcome_keeps_wf(mutation: NormalMutation, state: GameView)
    requires
        state.wf(),
    ensures
        mutation.outcome(state) matches Ok(next) ==> next.wf() && next.cards() == state.cards()
            && next.generation >= state.generation,
    decreases mutation,
{
    match mutation {
        NormalMutation::CompositeMutation(mutations) => {
            lemma_outcome_of_all_keeps_wf(mutations@, state);
        },
        NormalMutation::TemperatureIncreaseMutation(amount) => {
        },
        NormalMutation::OxygenIncreaseMutation(amount) => {
        },
        NormalMutation::TileQueuingMutation(tile) => {
        },
        NormalMutation::CardDrawMutation(amount) => {
            crate::rules::lemma_cards_drawn_keeps_wf(state, amount as int);
        },
        NormalMutation::CardPlayMutation(card_id) => {
        },
        NormalMutation::PassMutation => {
            crate::rules::lemma_passed_keeps_wf(state);
        },
        _ => {},
    }
}

/// A list of effects that takes place leaves the game well formed.
pub proof fn lemma_outcome_of_all_keeps_wf(mutations: Seq<NormalMutation>, state: GameView)
    requires
        state.wf(),
    ensures
        outcome_of_all(mutations, state) matches Ok(next) ==> next.wf() && next.cards()
            == state.cards() && next.generation >= state.generation,
    decreases mutations,
{
    if mutations.len() > 0 {
        lemma_outcome_keeps_wf(mutations[0], state);
        if let Ok(next) = mutations[0].outcome(state) {
            lemma_outcome_of_all_keeps_wf(mutations.skip(1), next);
        }
    }
}

/// No effect that takes place leaves a stock below zero or a production below its floor,
/// as long as every generation that it ends is paid for.
pub proof fn lemma_outcome_keeps_solvent(mutation: NormalMutation, state: GameView)
    requires
        state.solvent(),
        mutation.keeps_credit(state),
    ensures
        mutation.outcome(state) matches Ok(next) ==> next.solvent(),
    decreases mutation,
{
    if let Ok(next) = mutation.outcome(state) {
        match mutation {
            NormalMutation::CompositeMutation(mutations) => {
                lemma_outcome_of_all_keeps_solvent(mutations@, state);
            },
            NormalMutation::ProductionMutation(resource, delta) => {
                assert forall|other: Resource| #[trigger]
                    next.productions.get(other) >= crate::game::production_floor(other) by {
                    assert(state.productions.get(other) >= crate::game::production_floor(other));
                }
            },
            NormalMutation::ResourceMutation(resource, delta) => {
                assert forall|other: Resource| #[trigger] next.resources.get(other) >= 0 by {
                    assert(state.resources.get(other) >= 0);
                }
            },
            NormalMutation::BuilderCardPaymentMutation(cost) => {
                crate::rules::lemma_paid_keeps_solvent(
                    state,
                    cost as int,
                    Resource::Steel,
                    STEEL_VALUE as int,
                );
            },
            NormalMutation::SpaceCardPaymentMutation(cost) => {
                crate::rules::lemma_paid_keeps_solvent(
                    state,
                    cost as int,
                    Resource::Titanium,
                    TITANIUM_VALUE as int,
                );
            },
            NormalMutation::PassMutation => {
                crate::rules::lemma_passed_keeps_solvent(state);
            },
            _ => {},
        }
    }
}

/// No list of effects that takes place leaves a stock below zero or a production below its
/// floor, as long as every generation that it ends is paid for.
pub proof fn lemma_outcome_of_all_keeps_solvent(mutations: Seq<NormalMutation>, state: GameView)
    requires
        state.solvent(),
        all_keep_credit(mutations, state),
    ensures
        outcome_of_all(mutations, state) matches Ok(next) ==> next.solvent(),
    decreases mutations,
{
    if mutations.len() > 0 {
        lemma_outcome_keeps_solvent(mutations[0], state);
        if let Ok(next) = mutations[0].outcome(state) {
            lemma_outcome_of_all_keeps_solvent(mutations.skip(1), next);
        }
    }
}

/// What a player may ask of the game: an effect, or the placement of the tile that waits.
#[derive(Debug)]
pub enum Mutation {
    Normal(NormalMutation),
    TilePlacing(Tile, (usize, usize)),
}

impl Mutation {
    /// What the request makes of `state`. Nothing is done once the game is over. While a
    /// tile waits, only that tile can be placed; while none waits, none can.
    pub open spec fn outcome(self, state: GameView) -> Verdict {
        if state.over() {
            Err(ErrorKind::GameOver)
        } else {
            match self {
                Mutation::Normal(mutation) => if state.idle() {
                    mutation.outcome(state)
                } else {
                    Err(ErrorKind::AwaitingPlacement)
                },
                Mutation::TilePlacing(tile, position) => if !state.idle() && state.tile_queue.last()
                    == tile {
                    tile_placed(state, position)
                } else {
                    Err(ErrorKind::IllegalTilePlacement(tile, position.0, position.1))
                },
            }
        }
    }

    /// No state that the request passes through holds a number too large for the machine.
    pub open spec fn fits(self, state: GameView) -> bool {
        match self {
            Mutation::Normal(mutation) => !state.over() && state.idle() ==> mutation.fits(state),
            Mutation::TilePlacing(tile, position) => verdict_fits(self.outcome(state)),
        }
    }

    /// Every generation that the request ends is paid for.
    pub open spec fn keeps_credit(self, state: GameView) -> bool {
        match self {
            Mutation::Normal(mutation) => !state.over() && state.idle() ==> mutation.keeps_credit(
                state,
            ),
            Mutation::TilePlacing(tile, position) => true,
        }
    }
}

impl Mutation {
    /// Carries the request out, or leaves the game untouched.
    pub fn apply(&self, game: &mut Game) -> (result: ActionResult)
        requires
            old(game).wf(),
            self.fits(old(game)@),
        ensures
            final(game).wf(),
            settled(*old(game), *final(game), result, self.outcome(old(game)@)),
            old(game)@.solvent() && self.keeps_credit(old(game)@) ==> final(game)@.solvent(),
            final(game)@.cards() == old(game)@.cards(),
    {
        proof {
            if let Mutation::Normal(mutation) = self {
                if game@.solvent() && self.keeps_credit(game@) && !game@.over() && game@.idle() {
                    lemma_outcome_keeps_solvent(*mutation, game@);
                }
                lemma_outcome_keeps_wf(*mutation, game@);
            }
        }
        self.checked_apply(game).unwrap()
    }

    /// Carries the request out as `apply` does where it fits the machine; where it does
    /// not, nothing is returned and the game is left untouched.
    pub fn checked_apply(&self, game: &mut Game) -> (result: Option<ActionResult>)
        requires
            old(game).wf(),
        ensures
            final(game).wf(),
            match result {
                Some(done) => self.fits(old(game)@) && settled(
                    *old(game),
                    *final(game),
                    done,
                    self.outcome(old(game)@),
                ),
                None => !self.fits(old(game)@) && *final(game) == *old(game),
            },
    {
        proof {
            game.lemma_representable();
        }
        if game.is_over() {
            return Some(InvalidActionError::new(ErrorKind::GameOver).into_err());
        }
        match self {
            Mutation::TilePlacing(tile, position) => {
                let waits = game.tile_stack.len() > 0 && game.tile_stack[game.tile_stack.len()
                    - 1] == *tile;
                if !waits {
                    Some(
                        InvalidActionError::new(
                            ErrorKind::IllegalTilePlacement(*tile, position.0, position.1),
                        ).into_err(),
                    )
                } else if place_tile_fits(game, *position) {
                    proof {
                        crate::rules::lemma_tile_placed_keeps_wf(game@, *position);
                    }
                    Some(place_tile(game, *position))
                } else {
                    None
                }
            },
            Mutation::Normal(normal_mutation) => {
                if game.tile_stack.len() > 0 {
                    return Some(InvalidActionError::new(ErrorKind::AwaitingPlacement).into_err());
                }
                normal_mutation.checked_apply(game)
            },
        }
    }
}

} // verus!
