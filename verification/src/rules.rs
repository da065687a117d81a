use vstd::prelude::*;
use crate::board::BoardView;
use crate::card::CardId;
use crate::game::GameView;
use crate::game::MAX_OXYGEN;
use crate::game::MAX_TEMPERATURE;
use crate::game::production_floor;
use crate::hex::Cell;
use crate::invalid_action_error::ErrorKind;
use crate::resource::Amounts;
use crate::resource::Resource;
use crate::tag::Tag;
use crate::tile::Tile;

verus! {

/// What a rule makes of a state: the next state, or the reason why there is none.
pub type Verdict = Result<GameView, ErrorKind>;

/// The verdict holds no state that the machine cannot represent.
pub open spec fn verdict_fits(verdict: Verdict) -> bool {
    verdict matches Ok(state) ==> state.representable()
}

/// The smaller of two integers.
pub open spec fn least(a: int, b: int) -> int {
    if a <= b {
        a
    } else {
        b
    }
}

/// The stock of `resource` changes by `delta`, and must not fall below zero.
pub open spec fn resource_changed(state: GameView, resource: Resource, delta: int) -> Verdict {
    let amount = state.resources.get(resource) + delta;
    if amount < 0 {
        Err(ErrorKind::InsufficientResource(resource))
    } else {
        Ok(GameView { resources: state.resources.set(resource, amount), ..state })
    }
}

/// The production of `resource` changes by `delta`, and must not fall below its floor.
pub open spec fn production_changed(state: GameView, resource: Resource, delta: int) -> Verdict {
    let amount = state.productions.get(resource) + delta;
    if amount < production_floor(resource) {
        Err(ErrorKind::ProductionBelowFloor(resource))
    } else {
        Ok(GameView { productions: state.productions.set(resource, amount), ..state })
    }
}

/// The terraforming rating rises by `amount`, and the victory points with it.
pub open spec fn rating_raised(state: GameView, amount: int) -> GameView {
    GameView {
        tr: state.tr + amount,
        victory_points: state.victory_points + amount,
        ..state
    }
}

/// How many of `amount` steps of two degrees the temperature can still take.
pub open spec fn warming_steps(state: GameView, amount: nat) -> int {
    if state.temperature >= MAX_TEMPERATURE {
        0
    } else {
        least(amount as int, (MAX_TEMPERATURE - state.temperature + 1) / 2)
    }
}

/// The temperature rises by up to `amount` steps of two degrees and stops at its maximum;
/// each step taken raises the terraforming rating by one.
pub open spec fn warmed(state: GameView, amount: nat) -> GameView {
    let steps = warming_steps(state, amount);
    rating_raised(GameView { temperature: state.temperature + 2 * steps, ..state }, steps)
}

/// How many of `amount` steps of one percent the oxygen can still take.
pub open spec fn oxygen_steps(state: GameView, amount: nat) -> int {
    if state.oxygen >= MAX_OXYGEN {
        0
    } else {
        least(amount as int, MAX_OXYGEN - state.oxygen)
    }
}

/// The oxygen rises by up to `amount` steps and stops at its maximum; each step taken raises
/// the terraforming rating by one.
pub open spec fn oxygenated(state: GameView, amount: nat) -> GameView {
    let steps = oxygen_steps(state, amount);
    rating_raised(GameView { oxygen: state.oxygen + steps, ..state }, steps)
}

/// The victory points change by `amount`.
pub open spec fn points_scored(state: GameView, amount: int) -> GameView {
    GameView { victory_points: state.victory_points + amount, ..state }
}

/// The tag is counted once more.
pub open spec fn tag_counted(state: GameView, tag: Tag) -> GameView {
    GameView { tags: state.tags.set(tag, state.tags.get(tag) + 1), ..state }
}

/// The last `count` cards of the draw pile move to the hand; a pile that holds fewer is
/// exhausted. A `count` below one draws nothing.
pub open spec fn cards_drawn(state: GameView, count: int) -> Verdict {
    if count <= 0 {
        Ok(state)
    } else if count > state.draw_pile.len() {
        Err(ErrorKind::DeckExhausted)
    } else {
        let kept = state.draw_pile.len() - count;
        Ok(
            GameView {
                hand: state.hand.union(state.draw_pile.skip(kept).to_set()),
                draw_pile: state.draw_pile.take(kept),
                ..state
            },
        )
    }
}

/// The card moves from the hand to the played cards.
pub open spec fn card_played(state: GameView, card_id: CardId) -> Verdict {
    if state.hand.contains(card_id) {
        Ok(
            GameView {
                hand: state.hand.remove(card_id),
                played: state.played.insert(card_id),
                ..state
            },
        )
    } else {
        Err(ErrorKind::CardNotInHand(card_id))
    }
}

/// The tile joins the queue if the board has a cell for it, and is dropped if it has none.
pub open spec fn tile_queued(state: GameView, tile: Tile) -> GameView {
    if state.board.placeable(tile) {
        GameView { tile_queue: state.tile_queue.push(tile), ..state }
    } else {
        state
    }
}

/// A cost is paid with `resource`, each unit of which is worth `rate` megacredits, and with
/// megacredits for the rest. As many units are spent as the cost holds whole and the stock
/// allows. Where the megacredits do not cover the rest, one more unit pays for it, with no
/// change given; where no unit is left either, the payment fails.
pub open spec fn paid(state: GameView, cost: int, resource: Resource, rate: int) -> Verdict
    recommends
        rate > 0,
{
    let available = state.resources.get(resource);
    let spent = least(cost / rate, available);
    let remainder = cost - spent * rate;
    let left = state.resources.set(resource, available - spent);
    if left.get(Resource::MegaCredit) >= remainder {
        Ok(
            GameView {
                resources: left.set(
                    Resource::MegaCredit,
                    left.get(Resource::MegaCredit) - remainder,
                ),
                ..state
            },
        )
    } else if left.get(resource) > 0 {
        Ok(GameView { resources: left.set(resource, left.get(resource) - 1), ..state })
    } else {
        Err(ErrorKind::InsufficientResource(Resource::MegaCredit))
    }
}

/// The stocks at the start of the next generation: the rating is paid out in megacredits,
/// the energy turns into heat, and every resource grows by its production.
pub open spec fn restocked(state: GameView) -> Amounts {
    Amounts {
        mega_credit: state.resources.mega_credit + state.tr + state.productions.mega_credit,
        steel: state.resources.steel + state.productions.steel,
        titanium: state.resources.titanium + state.productions.titanium,
        plant: state.resources.plant + state.productions.plant,
        energy: state.productions.energy,
        heat: state.resources.heat + state.resources.energy + state.productions.heat,
    }
}

/// The generation ends: the stocks are renewed and four cards are drawn. No generation ends
/// while a tile waits to be placed.
pub open spec fn passed(state: GameView) -> Verdict {
    if !state.idle() {
        Err(ErrorKind::AwaitingPlacement)
    } else {
        cards_drawn(
            GameView {
                generation: state.generation + 1,
                resources: restocked(state),
                ..state
            },
            4,
        )
    }
}

/// The queue without the tiles at its end for which the board has no cell left.
pub open spec fn pruned(queue: Seq<Tile>, board: BoardView) -> Seq<Tile>
    decreases queue.len(),
{
    if queue.len() == 0 || board.placeable(queue.last()) {
        queue
    } else {
        pruned(queue.drop_last(), board)
    }
}

/// The tile that waits at the end of the queue, or no tile where none waits.
pub open spec fn awaited(state: GameView) -> Tile {
    if state.tile_queue.len() == 0 {
        Tile::Empty
    } else {
        state.tile_queue.last()
    }
}

/// What placing a tile earns: an ocean raises the rating, a greenery the oxygen.
pub open spec fn rewarded(state: GameView, tile: Tile) -> GameView {
    match tile {
        Tile::Greenery => oxygenated(state, 1),
        Tile::Ocean => rating_raised(state, 1),
        _ => state,
    }
}

/// The tile that waits is placed at `position`, where the rules allow it there; the player
/// is rewarded, and the tiles that have thereby lost their last cell leave the queue.
pub open spec fn tile_placed(state: GameView, position: (usize, usize)) -> Verdict {
    let tile = awaited(state);
    let cell: Cell = (position.0 as int, position.1 as int);
    if state.tile_queue.len() == 0 || !state.board.legal(tile, cell) {
        Err(ErrorKind::IllegalTilePlacement(tile, position.0, position.1))
    } else {
        let board = state.board.place(tile, cell);
        Ok(
            GameView {
                board,
                tile_queue: pruned(state.tile_queue.drop_last(), board),
                ..rewarded(state, tile)
            },
        )
    }
}

/// Pruning leaves a queue that is empty or ends in a tile that the board has a cell for.
pub proof fn lemma_pruned_is_ready(queue: Seq<Tile>, board: BoardView)
    ensures
        pruned(queue, board).len() > 0 ==> board.placeable(pruned(queue, board).last()),
        pruned(queue, board).len() <= queue.len(),
    decreases queue.len(),
{
    if !(queue.len() == 0 || board.placeable(queue.last())) {
        lemma_pruned_is_ready(queue.drop_last(), board);
    }
}

/// Drawing cards keeps every card in one place.
pub proof fn lemma_cards_drawn_keeps_wf(state: GameView, count: int)
    requires
        state.wf(),
    ensures
        cards_drawn(state, count) matches Ok(next) ==> next.wf() && next.cards() == state.cards(),
{
    if let Ok(next) = cards_drawn(state, count) {
        if count > 0 {
            let kept = state.draw_pile.len() - count;
            let taken = state.draw_pile.skip(kept);
            assert forall|card: CardId| state.cards().contains(card) implies next.cards().contains(
                card,
            ) by {
                if state.draw_pile.to_set().contains(card) {
                    let i = choose|i: int| 0 <= i < state.draw_pile.len() && state.draw_pile[i] == card;
                    if i < kept {
                        assert(next.draw_pile[i] == card);
                    } else {
                        assert(taken[i - kept] == card);
                    }
                }
            }
        }
    }
}

/// Playing a card keeps every card in one place.
pub proof fn lemma_card_played_keeps_wf(state: GameView, card_id: CardId)
    requires
        state.wf(),
    ensures
        card_played(state, card_id) matches Ok(next) ==> next.wf() && next.cards() == state.cards(),
{
}

/// Raising the temperature keeps it on its scale: never above the maximum, and an even
/// number of degrees above its start.
pub proof fn lemma_warmed_keeps_wf(state: GameView, amount: nat)
    requires
        state.wf(),
    ensures
        warmed(state, amount).wf(),
        0 <= warming_steps(state, amount) <= amount,
{
}

/// Raising the temperature stops at its maximum. Each step taken adds two degrees, one to
/// the terraforming rating and one to the victory points. All steps asked for are taken
/// unless the maximum is reached, and raising in two turns is raising once by the sum.
pub proof fn lemma_warming_is_clamped(state: GameView, amount: nat, more: nat)
    requires
        state.wf(),
    ensures
        warmed(state, amount).temperature <= MAX_TEMPERATURE,
        warmed(state, amount).temperature == state.temperature + 2 * warming_steps(state, amount),
        warmed(state, amount).tr == state.tr + warming_steps(state, amount),
        warmed(state, amount).victory_points == state.victory_points + warming_steps(
            state,
            amount,
        ),
        0 <= warming_steps(state, amount) <= amount,
        warming_steps(state, amount) < amount ==> warmed(state, amount).temperature
            == MAX_TEMPERATURE,
        warmed(warmed(state, amount), more) == warmed(state, amount + more),
{
}

/// Raising the oxygen stops at its maximum. Each step taken adds one percent, one to the
/// terraforming rating and one to the victory points. All steps asked for are taken unless
/// the maximum is reached, and raising in two turns is raising once by the sum.
pub proof fn lemma_oxygen_is_clamped(state: GameView, amount: nat, more: nat)
    requires
        state.wf(),
    ensures
        oxygenated(state, amount).oxygen <= MAX_OXYGEN,
        oxygenated(state, amount).oxygen == state.oxygen + oxygen_steps(state, amount),
        oxygenated(state, amount).tr == state.tr + oxygen_steps(state, amount),
        oxygenated(state, amount).victory_points == state.victory_points + oxygen_steps(
            state,
            amount,
        ),
        0 <= oxygen_steps(state, amount) <= amount,
        oxygen_steps(state, amount) < amount ==> oxygenated(state, amount).oxygen == MAX_OXYGEN,
        oxygenated(oxygenated(state, amount), more) == oxygenated(state, amount + more),
{
}

/// A payment leaves no stock below zero.
pub proof fn lemma_paid_keeps_solvent(state: GameView, cost: int, resource: Resource, rate: int)
    requires
        state.solvent(),
        rate > 0,
    ensures
        paid(state, cost, resource, rate) matches Ok(next) ==> next.solvent(),
{
    if let Ok(next) = paid(state, cost, resource, rate) {
        assert forall|other: Resource| #[trigger] next.resources.get(other) >= 0 by {
            assert(state.resources.get(other) >= 0);
        }
    }
}

/// The terraforming rating, the megacredits in stock and their production together pay
/// for the next generation: ending it leaves no megacredits owed.
pub open spec fn pass_pays(state: GameView) -> bool {
    state.resources.mega_credit + state.tr + state.productions.mega_credit >= 0
}

/// The end of a generation leaves no stock below zero, where the rating pays for it.
pub proof fn lemma_passed_keeps_solvent(state: GameView)
    requires
        state.solvent(),
        pass_pays(state),
    ensures
        passed(state) matches Ok(next) ==> next.solvent(),
{
    if let Ok(next) = passed(state) {
        assert(state.resources.get(Resource::Steel) >= 0);
        assert(state.resources.get(Resource::Titanium) >= 0);
        assert(state.resources.get(Resource::Plant) >= 0);
        assert(state.resources.get(Resource::Energy) >= 0);
        assert(state.resources.get(Resource::Heat) >= 0);
        assert(state.productions.get(Resource::Steel) >= production_floor(Resource::Steel));
        assert(state.productions.get(Resource::Titanium) >= production_floor(Resource::Titanium));
        assert(state.productions.get(Resource::Plant) >= production_floor(Resource::Plant));
        assert(state.productions.get(Resource::Energy) >= production_floor(Resource::Energy));
        assert(state.productions.get(Resource::Heat) >= production_floor(Resource::Heat));
    }
}

/// Raising the oxygen never takes it above its maximum.
pub proof fn lemma_oxygenated_keeps_wf(state: GameView, amount: nat)
    requires
        state.wf(),
    ensures
        oxygenated(state, amount).wf(),
        0 <= oxygen_steps(state, amount) <= amount,
{
}

/// A tile is queued only if the board has a cell for it.
pub proof fn lemma_tile_queued_keeps_wf(state: GameView, tile: Tile)
    requires
        state.wf(),
    ensures
        tile_queued(state, tile).wf(),
{
}

/// Ending a generation keeps the invariant.
pub proof fn lemma_passed_keeps_wf(state: GameView)
    requires
        state.wf(),
    ensures
        passed(state) matches Ok(next) ==> next.wf() && next.cards() == state.cards()
            && next.generation == state.generation + 1,
{
    if state.idle() {
        let stocked = GameView {
            generation: state.generation + 1,
            resources: restocked(state),
            ..state
        };
        lemma_cards_drawn_keeps_wf(stocked, 4);
    }
}

/// Placing the tile that waits keeps the invariant: the board stays legal, and the queue
/// is empty or ends in a tile that can be placed. The queue gets shorter, so that no tile
/// waits for ever; and no card moves.
pub proof fn lemma_tile_placed_keeps_wf(state: GameView, position: (usize, usize))
    requires
        state.wf(),
    ensures
        tile_placed(state, position) matches Ok(next) ==> next.wf() && next.tile_queue.len()
            < state.tile_queue.len() && next.cards() == state.cards(),
{
    if let Ok(next) = tile_placed(state, position) {
        let tile = awaited(state);
        let cell: Cell = (position.0 as int, position.1 as int);
        crate::board::lemma_place_keeps_wf(state.board, tile, cell);
        lemma_pruned_is_ready(state.tile_queue.drop_last(), next.board);
    }
}

} // verus!
