use vstd::prelude::*;
use crate::card::CardId;
use crate::game::Game;
use crate::game::MAX_OXYGEN;
use crate::game::MAX_TEMPERATURE;
use crate::game::production_floor;
use crate::invalid_action_error::ActionResult;
use crate::invalid_action_error::ErrorKind;
use crate::invalid_action_error::InvalidActionError;
use crate::invalid_action_error::refused;
use crate::resource::Resource;
use crate::rules::card_played;
use crate::rules::cards_drawn;
use crate::rules::oxygen_steps;
use crate::rules::oxygenated;
use crate::rules::paid;
use crate::rules::passed;
use crate::rules::production_changed;
use crate::rules::pruned;
use crate::rules::rating_raised;
use crate::rules::resource_changed;
use crate::rules::tile_placed;
use crate::rules::tile_queued;
use crate::rules::Verdict;
use crate::rules::verdict_fits;
use crate::rules::warmed;
use crate::rules::warming_steps;
use crate::tile::Tile;

verus! {

/// A function that may refuse has done what the rule says: on success the game is in the
/// state of the verdict; on refusal the error is that of the verdict, and the game is
/// untouched.
pub open spec fn settled(before: Game, after: Game, result: ActionResult, verdict: Verdict) -> bool {
    match verdict {
        Ok(state) => result is Ok && after@ == state,
        Err(kind) => result == refused(kind) && after == before,
    }
}

/// The lowest value that the production of `resource` may take.
pub fn minimum_production_value_of(resource: &Resource) -> (floor: i32)
    ensures
        floor == production_floor(*resource),
{
    match resource {
        Resource::MegaCredit => -5,
        _ => 0,
    }
}

/// Raises the terraforming rating by `amount`, and the victory points with it.
pub fn increase_tr(game: &mut Game, amount: i32)
    requires
        rating_raised(old(game)@, amount as int).representable(),
    ensures
        final(game)@ == rating_raised(old(game)@, amount as int),
{
    game.tr = game.tr + amount;
    game.victory_points = game.victory_points + amount;
}

/// Raises the oxygen by up to `amount` steps, and the rating by one for each step taken.
pub fn increase_oxygen_if_not_maxed_out(game: &mut Game, amount: u32)
    requires
        oxygenated(old(game)@, amount as nat).representable(),
    ensures
        final(game)@ == oxygenated(old(game)@, amount as nat),
{
    let mut amount = amount;
    let ghost asked = amount;
    while game.oxygen < MAX_OXYGEN && amount > 0
        invariant
            amount <= asked,
            oxygenated(old(game)@, asked as nat).representable(),
            asked - amount <= oxygen_steps(old(game)@, asked as nat),
            game@ == rating_raised(
                crate::game::GameView {
                    oxygen: old(game)@.oxygen + (asked - amount),
                    ..old(game)@
                },
                asked - amount,
            ),
        decreases amount,
    {
        game.oxygen = game.oxygen + 1;
        increase_tr(game, 1);
        amount = amount - 1;
    }
}

/// Raises the temperature by up to `amount` steps of two degrees, and the rating by one for
/// each step taken.
pub fn increase_temperature_if_not_maxed_out(game: &mut Game, amount: u32)
    requires
        warmed(old(game)@, amount as nat).representable(),
    ensures
        final(game)@ == warmed(old(game)@, amount as nat),
{
    let mut amount = amount;
    let ghost asked = amount;
    while game.temperature < MAX_TEMPERATURE && amount > 0
        invariant
            amount <= asked,
            warmed(old(game)@, asked as nat).representable(),
            asked - amount <= warming_steps(old(game)@, asked as nat),
            game@ == rating_raised(
                crate::game::GameView {
                    temperature: old(game)@.temperature + 2 * (asked - amount),
                    ..old(game)@
                },
                asked - amount,
            ),
        decreases amount,
    {
        game.temperature = game.temperature + 2;
        amount = amount - 1;
        increase_tr(game, 1);
    }
}

/// Changes the production of `resource` by `delta`, unless it would fall below its floor.
pub fn production_change(game: &mut Game, resource: &Resource, delta: i32) -> (result: ActionResult)
    requires
        verdict_fits(production_changed(old(game)@, *resource, delta as int)),
    ensures
        settled(
            *old(game),
            *final(game),
            result,
            production_changed(old(game)@, *resource, delta as int),
        ),
{
    let amount: i64 = game.productions.get(*resource) as i64 + delta as i64;
    let min_val = minimum_production_value_of(resource);
    if amount < min_val as i64 {
        InvalidActionError::new(ErrorKind::ProductionBelowFloor(*resource)).into_err()
    } else {
        proof {
            let after = production_changed(old(game)@, *resource, delta as int)->Ok_0;
            assert(after.productions.get(*resource) == amount);
        }
        game.productions.set(*resource, amount as i32);
        Ok(())
    }
}

/// Changes the stock of `resource` by `delta`, unless it would fall below zero.
pub fn resource_change(game: &mut Game, resource: &Resource, delta: i32) -> (result: ActionResult)
    requires
        verdict_fits(resource_changed(old(game)@, *resource, delta as int)),
    ensures
        settled(
            *old(game),
            *final(game),
            result,
            resource_changed(old(game)@, *resource, delta as int),
        ),
{
    let amount: i64 = game.resources.get(*resource) as i64 + delta as i64;
    if amount < 0 {
        InvalidActionError::new(ErrorKind::InsufficientResource(*resource)).into_err()
    } else {
        proof {
            let after = resource_changed(old(game)@, *resource, delta as int)->Ok_0;
            assert(after.resources.get(*resource) == amount);
        }
        game.resources.set(*resource, amount as i32);
        Ok(())
    }
}

/// The cards from `from` on, as a set, are the card at `from` and those after it.
proof fn lemma_skip_to_set(pile: Seq<CardId>, from: int)
    requires
        0 <= from < pile.len(),
    ensures
        pile.skip(from).to_set() == pile.skip(from + 1).to_set().insert(pile[from]),
{
    let all = pile.skip(from);
    let rest = pile.skip(from + 1);
    assert forall|card: CardId| all.to_set().contains(card) <==> rest.to_set().insert(
        pile[from],
    ).contains(card) by {
        if all.to_set().contains(card) {
            let i = choose|i: int| 0 <= i < all.len() && all[i] == card;
            if i > 0 {
                assert(rest[i - 1] == card);
            }
        }
        if rest.to_set().contains(card) {
            let i = choose|i: int| 0 <= i < rest.len() && rest[i] == card;
            assert(all[i + 1] == card);
        }
        if card == pile[from] {
            assert(all[0] == card);
        }
    }
}

/// Moves the last `count` cards of the draw pile to the hand, unless the pile holds fewer.
pub fn draw_cards(game: &mut Game, count: i32) -> (result: ActionResult)
    ensures
        settled(*old(game), *final(game), result, cards_drawn(old(game)@, count as int)),
{
    if count <= 0 {
        return Ok(());
    }
    let size = game.cards_to_be_drawn.len();
    if count as usize > size {
        return InvalidActionError::new(ErrorKind::DeckExhausted).into_err();
    }
    let ghost before = game@;
    let mut drawn: usize = 0;
    proof {
        assert(before.draw_pile.skip(size as int).to_set() =~= Set::<CardId>::empty());
        assert(before.hand.union(Set::<CardId>::empty()) =~= before.hand);
        assert(before.draw_pile.take(size as int) == before.draw_pile);
    }
    while drawn < count as usize
        invariant
            count > 0,
            count as usize <= size,
            size == before.draw_pile.len(),
            drawn <= count as usize,
            game@ == (crate::game::GameView {
                hand: before.hand.union(before.draw_pile.skip(size - drawn).to_set()),
                draw_pile: before.draw_pile.take(size - drawn),
                ..before
            }),
        decreases count as usize - drawn,
    {
        let ghost top = size - drawn - 1;
        let card_id = game.cards_to_be_drawn.pop().unwrap();
        game.cards_in_hand.insert(card_id);
        drawn = drawn + 1;
        proof {
            lemma_skip_to_set(before.draw_pile, top);
            assert(before.draw_pile.take(top + 1).drop_last() == before.draw_pile.take(top));
            assert(before.hand.union(before.draw_pile.skip(top + 1).to_set()).insert(card_id)
                =~= before.hand.union(before.draw_pile.skip(top).to_set()));
        }
    }
    Ok(())
}

/// Moves the card from the hand to the played cards, unless it is not in the hand.
pub fn play_card(game: &mut Game, card_id: CardId) -> (result: ActionResult)
    ensures
        settled(*old(game), *final(game), result, card_played(old(game)@, card_id)),
{
    if game.cards_in_hand.contains(&card_id) {
        game.cards_in_hand.remove(&card_id);
        game.played_cards.insert(card_id);
        Ok(())
    } else {
        InvalidActionError::new(ErrorKind::CardNotInHand(card_id)).into_err()
    }
}

/// Queues `tile` for placement if the board has a cell for it, and drops it if it has none.
pub fn queue_tile(game: &mut Game, tile: Tile)
    requires
        old(game).wf(),
    ensures
        final(game)@ == tile_queued(old(game)@, tile),
{
    if game.can_place(&tile) {
        game.tile_stack.push(tile);
    }
}

/// The quotient of `cost` by `rate`, rounded down.
fn floor_div(cost: i32, rate: i32) -> (quotient: i64)
    requires
        rate > 0,
    ensures
        quotient == cost as int / rate as int,
        i32::MIN <= quotient <= i32::MAX,
{
    assert(i32::MIN <= cost as int / rate as int <= i32::MAX) by (nonlinear_arith)
        requires
            rate > 0,
            i32::MIN <= cost <= i32::MAX,
    ;
    if cost >= 0 {
        (cost / rate) as i64
    } else {
        let positive: i64 = -(cost as i64);
        let divisor: i64 = rate as i64;
        let up: i64 = (positive + divisor - 1) / divisor;
        assert(-(up as int) == cost as int / rate as int) by (nonlinear_arith)
            requires
                cost < 0,
                rate > 0,
                positive == -(cost as int),
                divisor == rate as int,
                up == (positive + divisor - 1) as int / divisor as int,
        ;
        -up
    }
}

/// What `paid` leaves of `resource` and of megacredits, or nothing where it refuses.
pub open spec fn payment_plan(verdict: Verdict, resource: Resource) -> Option<(int, int)> {
    match verdict {
        Ok(state) => Some(
            (state.resources.get(resource), state.resources.get(Resource::MegaCredit)),
        ),
        Err(_) => None,
    }
}

/// Works out a payment without making it: what it leaves of `resource` and of megacredits.
fn plan_payment(game: &Game, cost: i32, resource: Resource, resource_value: i32) -> (plan: Option<
    (i64, i64),
>)
    requires
        resource_value > 0,
    ensures
        match plan {
            Some((secondary, megacredits)) => payment_plan(
                paid(game@, cost as int, resource, resource_value as int),
                resource,
            ) == Some((secondary as int, megacredits as int)),
            None => paid(game@, cost as int, resource, resource_value as int) is Err,
        },
        paid(game@, cost as int, resource, resource_value as int) matches Ok(state) ==> state
            == (crate::game::GameView {
            resources: game@.resources.set(resource, state.resources.get(resource)).set(
                Resource::MegaCredit,
                state.resources.get(Resource::MegaCredit),
            ),
            ..game@
        }),
{
    let optimal_resource_cost: i64 = floor_div(cost, resource_value);
    let resource_amount: i64 = game.resources.get(resource) as i64;
    let resource_cost: i64 = if optimal_resource_cost <= resource_amount {
        optimal_resource_cost
    } else {
        resource_amount
    };
    assert(-0x8000_0000 * 0x8000_0000 <= resource_cost * (resource_value as i64) <= 0x8000_0000
        * 0x8000_0000) by (nonlinear_arith)
        requires
            -0x8000_0000 <= resource_cost <= 0x8000_0000,
            0 < resource_value <= 0x8000_0000,
    ;
    let megacredit_cost: i64 = cost as i64 - resource_cost * (resource_value as i64);
    let resource_left: i64 = resource_amount - resource_cost;
    let megacredits: i64 = if resource == Resource::MegaCredit {
        resource_left
    } else {
        game.resources.get(Resource::MegaCredit) as i64
    };
    if megacredits < megacredit_cost {
        if resource_left > 0 {
            if resource == Resource::MegaCredit {
                Some((resource_left - 1, resource_left - 1))
            } else {
                Some((resource_left - 1, megacredits))
            }
        } else {
            None
        }
    } else if resource == Resource::MegaCredit {
        Some((megacredits - megacredit_cost, megacredits - megacredit_cost))
    } else {
        Some((resource_left, megacredits - megacredit_cost))
    }
}

/// Whether `v` is the value of some `i32`.
fn is_i32(v: i64) -> (fits: bool)
    ensures
        fits == (i32::MIN <= v <= i32::MAX),
{
    -0x8000_0000 <= v && v <= 0x7fff_ffff
}

/// Whether the machine can hold what `mixed_payment` would leave.
pub fn mixed_payment_fits(game: &Game, cost: i32, resource: Resource, resource_value: i32) -> (fits:
    bool)
    requires
        resource_value > 0,
    ensures
        fits == verdict_fits(paid(game@, cost as int, resource, resource_value as int)),
{
    proof {
        game.lemma_representable();
        if let Ok(state) = paid(game@, cost as int, resource, resource_value as int) {
            assert(state.resources.in_range() <==> (i32::MIN <= state.resources.get(resource)
                <= i32::MAX && i32::MIN <= state.resources.get(Resource::MegaCredit) <= i32::MAX))
                by {
                if i32::MIN <= state.resources.get(resource) <= i32::MAX && i32::MIN
                    <= state.resources.get(Resource::MegaCredit) <= i32::MAX {
                    assert forall|other: Resource|
                        i32::MIN <= #[trigger] state.resources.get(other) <= i32::MAX by {
                        assert(i32::MIN <= game@.resources.get(other) <= i32::MAX);
                    }
                }
            }
        }
    }
    match plan_payment(game, cost, resource, resource_value) {
        Some((secondary, megacredits)) => is_i32(secondary) && is_i32(megacredits),
        None => true,
    }
}

/// Pays `cost` with `resource`, each unit worth `resource_value` megacredits, and with
/// megacredits for the rest; pays nothing where the two together do not suffice.
pub fn mixed_payment(game: &mut Game, cost: i32, resource: Resource, resource_value: i32) -> (result:
    ActionResult)
    requires
        resource_value > 0,
        verdict_fits(paid(old(game)@, cost as int, resource, resource_value as int)),
    ensures
        settled(
            *old(game),
            *final(game),
            result,
            paid(old(game)@, cost as int, resource, resource_value as int),
        ),
{
    match plan_payment(game, cost, resource, resource_value) {
        Some((secondary, megacredits)) => {
            game.resources.set(resource, secondary as i32);
            game.resources.set(Resource::MegaCredit, megacredits as i32);
            Ok(())
        },
        None => InvalidActionError::new(
            ErrorKind::InsufficientResource(Resource::MegaCredit),
        ).into_err(),
    }
}

/// Whether the machine can hold what `pass` would leave.
pub fn pass_fits(game: &Game) -> (fits: bool)
    ensures
        fits == verdict_fits(passed(game@)),
{
    if game.tile_stack.len() > 0 || game.cards_to_be_drawn.len() < 4 {
        return true;
    }
    let stocks = game.resources;
    let productions = game.productions;
    let mega_credit: i64 = stocks.get(Resource::MegaCredit) as i64 + game.tr as i64
        + productions.get(Resource::MegaCredit) as i64;
    let steel: i64 = stocks.get(Resource::Steel) as i64 + productions.get(Resource::Steel) as i64;
    let titanium: i64 = stocks.get(Resource::Titanium) as i64 + productions.get(
        Resource::Titanium,
    ) as i64;
    let plant: i64 = stocks.get(Resource::Plant) as i64 + productions.get(Resource::Plant) as i64;
    let heat: i64 = stocks.get(Resource::Heat) as i64 + stocks.get(Resource::Energy) as i64
        + productions.get(Resource::Heat) as i64;
    proof {
        game.lemma_representable();
        let after = passed(game@)->Ok_0;
        assert(after.resources.get(Resource::MegaCredit) == mega_credit);
        assert(after.resources.get(Resource::Steel) == steel);
        assert(after.resources.get(Resource::Titanium) == titanium);
        assert(after.resources.get(Resource::Plant) == plant);
        assert(after.resources.get(Resource::Heat) == heat);
        assert(i32::MIN <= game@.productions.get(Resource::Energy) <= i32::MAX);
    }
    game.generation < 0xffff_ffff && is_i32(mega_credit) && is_i32(steel) && is_i32(titanium)
        && is_i32(plant) && is_i32(heat)
}

/// Ends the generation, unless a tile waits to be placed or the draw pile is exhausted.
pub fn pass(game: &mut Game) -> (result: ActionResult)
    requires
        verdict_fits(passed(old(game)@)),
    ensures
        settled(*old(game), *final(game), result, passed(old(game)@)),
{
    if game.tile_stack.len() > 0 {
        return InvalidActionError::new(ErrorKind::AwaitingPlacement).into_err();
    }
    if game.cards_to_be_drawn.len() < 4 {
        return InvalidActionError::new(ErrorKind::DeckExhausted).into_err();
    }
    let stocks = game.resources;
    let productions = game.productions;
    let mega_credit: i64 = stocks.get(Resource::MegaCredit) as i64 + game.tr as i64
        + productions.get(Resource::MegaCredit) as i64;
    let steel: i64 = stocks.get(Resource::Steel) as i64 + productions.get(Resource::Steel) as i64;
    let titanium: i64 = stocks.get(Resource::Titanium) as i64 + productions.get(
        Resource::Titanium,
    ) as i64;
    let plant: i64 = stocks.get(Resource::Plant) as i64 + productions.get(Resource::Plant) as i64;
    let energy: i64 = productions.get(Resource::Energy) as i64;
    let heat: i64 = stocks.get(Resource::Heat) as i64 + stocks.get(Resource::Energy) as i64
        + productions.get(Resource::Heat) as i64;
    proof {
        let after = passed(old(game)@)->Ok_0;
        assert(after.resources.get(Resource::MegaCredit) == mega_credit);
        assert(after.resources.get(Resource::Steel) == steel);
        assert(after.resources.get(Resource::Titanium) == titanium);
        assert(after.resources.get(Resource::Plant) == plant);
        assert(after.resources.get(Resource::Heat) == heat);
    }
    game.generation = game.generation + 1;
    game.resources.set(Resource::MegaCredit, mega_credit as i32);
    game.resources.set(Resource::Steel, steel as i32);
    game.resources.set(Resource::Titanium, titanium as i32);
    game.resources.set(Resource::Plant, plant as i32);
    game.resources.set(Resource::Energy, energy as i32);
    game.resources.set(Resource::Heat, heat as i32);
    draw_cards(game, 4)
}

/// Places the tile that waits at `position`, rewards the player and drops the tiles that
/// have lost their last cell; changes nothing where the rules do not allow the placement.
pub fn place_tile(game: &mut Game, position: (usize, usize)) -> (result: ActionResult)
    requires
        old(game).wf(),
        verdict_fits(tile_placed(old(game)@, position)),
    ensures
        settled(*old(game), *final(game), result, tile_placed(old(game)@, position)),
{
    if game.tile_stack.len() == 0 {
        return InvalidActionError::new(
            ErrorKind::IllegalTilePlacement(Tile::Empty, position.0, position.1),
        ).into_err();
    }
    let tile = game.tile_stack[game.tile_stack.len() - 1];
    if game.board.place_tile(&tile, position).is_err() {
        return InvalidActionError::new(
            ErrorKind::IllegalTilePlacement(tile, position.0, position.1),
        ).into_err();
    }
    game.tile_stack.pop();
    match tile {
        Tile::Greenery => increase_oxygen_if_not_maxed_out(game, 1),
        Tile::Ocean => increase_tr(game, 1),
        _ => (),
    }
    let ghost rest = old(game)@.tile_queue.drop_last();
    while game.tile_stack.len() > 0 && !game.board.can_place(
        &game.tile_stack[game.tile_stack.len() - 1],
    )
        invariant
            game.board.wf(),
            pruned(game@.tile_queue, game@.board) == pruned(rest, game@.board),
            game@ == (crate::game::GameView { tile_queue: game@.tile_queue, ..game@ }),
            tile_placed(old(game)@, position) is Ok,
            game@ == (crate::game::GameView {
                tile_queue: game@.tile_queue,
                ..tile_placed(old(game)@, position)->Ok_0
            }),
        decreases game.tile_stack.len(),
    {
        game.tile_stack.pop();
    }
    Ok(())
}

/// Whether the machine can hold what `place_tile` would leave.
pub fn place_tile_fits(game: &Game, position: (usize, usize)) -> (fits: bool)
    requires
        game.wf(),
    ensures
        fits == verdict_fits(tile_placed(game@, position)),
{
    proof {
        game.lemma_representable();
    }
    if game.tile_stack.len() == 0 {
        return true;
    }
    let tile = game.tile_stack[game.tile_stack.len() - 1];
    if !game.board.is_valid_placement(&tile, position.0, position.1) {
        return true;
    }
    let room = game.tr < 0x7fff_ffff && game.victory_points < 0x7fff_ffff;
    match tile {
        Tile::Greenery => game.oxygen >= MAX_OXYGEN || room,
        Tile::Ocean => room,
        _ => true,
    }
}

} // verus!
