use vstd::prelude::*;
use rand::seq::SliceRandom;
use std::collections::HashSet;
use crate::board::Board;
use crate::board::BoardView;
use crate::card::CardId;
use crate::card_compendium::build_card_id_list;
use crate::card_compendium::card_numbers;
use crate::game_map::GameMap;
use crate::mutation_helper::draw_cards;
use crate::resource::Amounts;
use crate::resource::Resource;
use crate::resource::ResourceTable;
use crate::tag::Tag;
use crate::tag::TagCounts;
use crate::tag::TagTable;
use crate::tile::Tile;

verus! {

/// The terraforming rating, and the victory points, at the start of a game.
pub const INITIAL_TR: i32 = 14;

/// The temperature at the start of a game, in degrees.
pub const INITIAL_TEMPERATURE: i32 = -30;

/// The oxygen at the start of a game, in percent.
pub const INITIAL_OXYGEN: i32 = 0;

/// The megacredits in stock at the start of a game.
pub const INITIAL_MEGA_CREDITS: i32 = 42;

/// The production of every resource at the start of a game.
pub const INITIAL_PRODUCTION: i32 = 1;

/// Number of cards dealt at the start of a game.
pub const INITIAL_HAND: usize = 10;

/// The temperature at which the planet is warm enough.
pub const MAX_TEMPERATURE: i32 = 8;

/// The oxygen at which the air can be breathed.
pub const MAX_OXYGEN: i32 = 14;

/// The number of oceans that the planet needs.
pub const MAX_OCEANS: i32 = 9;

/// The number of the last generation of a game.
pub const LAST_GENERATION: u32 = 14;

/// The lowest value that the production of `resource` may take.
pub open spec fn production_floor(resource: Resource) -> int {
    if resource == Resource::MegaCredit {
        -5
    } else {
        0
    }
}

/// The state of a game as the rules see it.
pub struct GameView {
    pub generation: nat,
    /// The terraforming rating.
    pub tr: int,
    pub oxygen: int,
    pub temperature: int,
    /// The stock of each resource.
    pub resources: Amounts,
    /// What each generation adds to the stock of each resource.
    pub productions: Amounts,
    pub board: BoardView,
    /// How often each tag was played.
    pub tags: TagCounts,
    /// The cards in the player's hand.
    pub hand: Set<CardId>,
    /// The cards that were played.
    pub played: Set<CardId>,
    /// The cards still to be drawn; the next one is the last.
    pub draw_pile: Seq<CardId>,
    pub victory_points: int,
    /// The tiles that wait to be placed; the next one is the last.
    pub tile_queue: Seq<Tile>,
}

impl GameView {
    /// What holds of the state of every game, whatever was done to it.
    pub open spec fn wf(self) -> bool {
        &&& self.board.wf()
        &&& self.generation >= 1
        &&& 0 <= self.oxygen <= MAX_OXYGEN
        &&& INITIAL_TEMPERATURE <= self.temperature <= MAX_TEMPERATURE
        &&& (self.temperature - INITIAL_TEMPERATURE) % 2 == 0
        &&& self.hand.finite()
        &&& self.played.finite()
        &&& self.hand.disjoint(self.played)
        &&& self.draw_pile.no_duplicates()
        &&& forall|i: int|
            0 <= i < self.draw_pile.len() ==> !self.hand.contains(#[trigger] self.draw_pile[i])
                && !self.played.contains(self.draw_pile[i])
        &&& self.tile_queue.len() > 0 ==> self.board.placeable(self.tile_queue.last())
    }

    /// Every number of the state fits the machine integer that holds it.
    pub open spec fn representable(self) -> bool {
        &&& self.generation <= u32::MAX
        &&& i32::MIN <= self.tr <= i32::MAX
        &&& i32::MIN <= self.oxygen <= i32::MAX
        &&& i32::MIN <= self.temperature <= i32::MAX
        &&& i32::MIN <= self.victory_points <= i32::MAX
        &&& self.resources.in_range()
        &&& self.productions.in_range()
        &&& self.tags.in_range()
    }

    /// No stock is negative and no production is below its floor.
    pub open spec fn solvent(self) -> bool {
        &&& forall|resource: Resource| #[trigger] self.resources.get(resource) >= 0
        &&& forall|resource: Resource| #[trigger]
            self.productions.get(resource) >= production_floor(resource)
    }

    /// The cards of the game, wherever they are.
    pub open spec fn cards(self) -> Set<CardId> {
        self.hand.union(self.played).union(self.draw_pile.to_set())
    }

    /// How many oceans have been placed.
    pub open spec fn oceans(self) -> int {
        self.board.placed_oceans as int
    }

    /// The last generation has been played.
    pub open spec fn over(self) -> bool {
        self.generation > LAST_GENERATION
    }

    /// The game is over, and the planet is habitable.
    pub open spec fn won(self) -> bool {
        &&& self.over()
        &&& self.oxygen == MAX_OXYGEN
        &&& self.temperature == MAX_TEMPERATURE
        &&& self.oceans() == MAX_OCEANS
    }

    /// No tile waits to be placed.
    pub open spec fn idle(self) -> bool {
        self.tile_queue.len() == 0
    }
}

/// The state in which a game starts on `board`, its cards dealt from `deck`: the last ten
/// cards of the deck are in the hand, and the others wait to be drawn.
pub open spec fn dealt(board: BoardView, deck: Seq<CardId>) -> GameView {
    GameView {
        generation: 1,
        tr: INITIAL_TR as int,
        oxygen: INITIAL_OXYGEN as int,
        temperature: INITIAL_TEMPERATURE as int,
        resources: Amounts::uniform(0).set(Resource::MegaCredit, INITIAL_MEGA_CREDITS as int),
        productions: Amounts::uniform(INITIAL_PRODUCTION as int),
        board,
        tags: TagCounts::zero(),
        hand: deck.skip(deck.len() - INITIAL_HAND).to_set(),
        played: Set::empty(),
        draw_pile: deck.take(deck.len() - INITIAL_HAND),
        victory_points: INITIAL_TR as int,
        tile_queue: Seq::empty(),
    }
}

/// A game that starts from a deck without duplicates is well formed; it has ten cards in
/// the hand, and every card of the deck is in the hand or waits to be drawn.
pub proof fn lemma_dealt_is_wf(board: BoardView, deck: Seq<CardId>)
    requires
        board.wf(),
        deck.no_duplicates(),
        deck.len() >= INITIAL_HAND,
    ensures
        dealt(board, deck).wf(),
        dealt(board, deck).solvent(),
        dealt(board, deck).hand.len() == INITIAL_HAND,
        dealt(board, deck).cards() == deck.to_set(),
{
    let state = dealt(board, deck);
    let kept = deck.len() - INITIAL_HAND;
    let taken = deck.skip(kept);
    taken.unique_seq_to_set();
    assert forall|card: CardId| state.cards().contains(card) <==> deck.to_set().contains(card) by {
        if taken.contains(card) {
            let j = choose|j: int| 0 <= j < taken.len() && taken[j] == card;
            assert(deck[kept + j] == card);
        }
        if state.draw_pile.contains(card) {
            let j = choose|j: int| 0 <= j < state.draw_pile.len() && state.draw_pile[j] == card;
        }
        if deck.contains(card) {
            let j = choose|j: int| 0 <= j < deck.len() && deck[j] == card;
            if j < kept {
                assert(state.draw_pile[j] == card);
            } else {
                assert(taken[j - kept] == card);
            }
        }
    }
}

/// The random number generator of the crate rand that each thread has for itself.
#[verifier::external_type_specification]
#[verifier::external_body]
pub struct ExThreadRng(rand::rngs::ThreadRng);

/// `thread_rng` of the crate rand hands out the generator of the calling thread. Nothing
/// is claimed of it. It is seeded by the system when a thread first asks for it, and the
/// crate gives up where the system has no seed to give.
pub assume_specification[ rand::thread_rng ]() -> (rng: rand::rngs::ThreadRng);

/// Puts the cards in a random order. This is `shuffle` of the crate rand, which swaps
/// cards in place, so that the pile holds afterwards the cards it held before, each as
/// often as before. Nothing is claimed of their order.
#[verifier::external_body]
fn shuffle(cards: &mut Vec<CardId>, rng: &mut rand::rngs::ThreadRng)
    ensures
        final(cards)@.to_multiset() == old(cards)@.to_multiset(),
{
    cards.shuffle(rng);
}

/// The state of one player's game.
#[derive(Debug)]
pub struct Game {
    pub generation: u32,
    pub tr: i32,
    pub oxygen: i32,
    pub temperature: i32,
    pub resources: ResourceTable,
    pub productions: ResourceTable,
    pub board: Board,
    pub tags: TagTable,
    pub cards_in_hand: HashSet<CardId>,
    pub played_cards: HashSet<CardId>,
    pub cards_to_be_drawn: Vec<CardId>,
    pub victory_points: i32,
    pub tile_stack: Vec<Tile>,
}

impl View for Game {
    type V = GameView;

    open spec fn view(&self) -> GameView {
        GameView {
            generation: self.generation as nat,
            tr: self.tr as int,
            oxygen: self.oxygen as int,
            temperature: self.temperature as int,
            resources: self.resources@,
            productions: self.productions@,
            board: self.board@,
            tags: self.tags@,
            hand: self.cards_in_hand@,
            played: self.played_cards@,
            draw_pile: self.cards_to_be_drawn@,
            victory_points: self.victory_points as int,
            tile_queue: self.tile_stack@,
        }
    }
}

/// A copy of a set of cards. This is `HashSet::clone` of the standard library, of which it
/// is taken on trust that the copy holds the cards of the set it was made from, and no others.
#[verifier::external_body]
fn copy_cards(cards: &HashSet<CardId>) -> (copy: HashSet<CardId>)
    ensures
        copy@ == cards@,
{
    cards.clone()
}

/// A copy of a pile of cards, or of a queue of tiles.
fn copy_pile<T: Copy>(pile: &Vec<T>) -> (copy: Vec<T>)
    ensures
        copy@ == pile@,
{
    let mut copy: Vec<T> = Vec::new();
    let mut i: usize = 0;
    while i < pile.len()
        invariant
            i <= pile.len(),
            copy@ == pile@.take(i as int),
        decreases pile.len() - i,
    {
        copy.push(pile[i]);
        i = i + 1;
    }
    copy
}

impl Clone for Game {
    /// A snapshot of the whole state.
    fn clone(&self) -> (copy: Game)
        ensures
            copy@ == self@,
    {
        Game {
            generation: self.generation,
            tr: self.tr,
            oxygen: self.oxygen,
            temperature: self.temperature,
            resources: self.resources,
            productions: self.productions,
            board: self.board.clone(),
            tags: self.tags,
            cards_in_hand: copy_cards(&self.cards_in_hand),
            played_cards: copy_cards(&self.played_cards),
            cards_to_be_drawn: copy_pile(&self.cards_to_be_drawn),
            victory_points: self.victory_points,
            tile_stack: copy_pile(&self.tile_stack),
        }
    }
}

impl Game {
    /// The invariant of the game.
    pub open spec fn wf(&self) -> bool {
        self@.wf()
    }

    /// A game on `map` with the cards of the compendium, shuffled.
    pub fn new(map: &GameMap) -> (game: Game)
        ensures
            game.wf(),
            game@.solvent(),
            game@.board.is_fresh(),
            game@.board.reserved == map@,
            exists|deck: Seq<CardId>|
                deck.to_multiset() == card_numbers().to_multiset() && game@ == #[trigger] dealt(
                    game@.board,
                    deck,
                ),
            game@.hand.len() == INITIAL_HAND,
            game@.draw_pile.len() == card_numbers().len() - INITIAL_HAND,
            game@.cards() == card_numbers().to_set(),
    {
        let mut deck = build_card_id_list();
        let mut rng = rand::thread_rng();
        shuffle(&mut deck, &mut rng);
        proof {
            card_numbers().lemma_multiset_has_no_duplicates();
            deck@.lemma_multiset_has_no_duplicates_conv();
            vstd::seq_lib::to_multiset_len(deck@);
            vstd::seq_lib::to_multiset_len(card_numbers());
            assert forall|card: CardId| deck@.to_set().contains(card) <==> card_numbers().to_set().contains(
                card,
            ) by {
                vstd::seq_lib::to_multiset_contains(deck@, card);
                vstd::seq_lib::to_multiset_contains(card_numbers(), card);
            }
        }
        Game::deal(map, deck)
    }

    /// A game on `map` with the cards of `deck`, in the order in which they come.
    pub fn deal(map: &GameMap, deck: Vec<CardId>) -> (game: Game)
        requires
            deck@.no_duplicates(),
            deck@.len() >= INITIAL_HAND,
        ensures
            game.wf(),
            game@.solvent(),
            game@.board.is_fresh(),
            game@.board.reserved == map@,
            game@ == dealt(game@.board, deck@),
            game@.hand.len() == INITIAL_HAND,
            game@.cards() == deck@.to_set(),
    {
        let mut game = Game {
            generation: 1,
            tr: INITIAL_TR,
            oxygen: INITIAL_OXYGEN,
            temperature: INITIAL_TEMPERATURE,
            resources: ResourceTable::new(INITIAL_MEGA_CREDITS, 0),
            productions: ResourceTable::new(INITIAL_PRODUCTION, INITIAL_PRODUCTION),
            board: Board::new(map),
            tags: TagTable::new(),
            cards_in_hand: HashSet::new(),
            played_cards: HashSet::new(),
            cards_to_be_drawn: deck,
            victory_points: INITIAL_TR,
            tile_stack: Vec::new(),
        };
        let _ = draw_cards(&mut game, INITIAL_HAND as i32);
        proof {
            assert(game@.hand =~= deck@.skip(deck@.len() - INITIAL_HAND).to_set());
            assert(game@.tile_queue =~= Seq::<Tile>::empty());
            lemma_dealt_is_wf(game@.board, deck@);
        }
        game
    }

    /// The state of a game in memory is representable.
    pub proof fn lemma_representable(self)
        ensures
            self@.representable(),
    {
        self.resources.lemma_in_range();
        self.productions.lemma_in_range();
        self.tags.lemma_in_range();
    }

    /// Whether the board has a cell where the rules allow `tile`.
    pub fn can_place(&self, tile: &Tile) -> (possible: bool)
        requires
            self.wf(),
        ensures
            possible == self@.board.placeable(*tile),
    {
        self.board.can_place(tile)
    }

    /// Whether the last generation has been played.
    pub fn is_over(&self) -> (over: bool)
        ensures
            over == self@.over(),
    {
        self.generation > LAST_GENERATION
    }

    /// Whether the game is over and the planet habitable.
    pub fn is_won(&self) -> (won: bool)
        ensures
            won == self@.won(),
    {
        self.is_over() && self.oxygen == MAX_OXYGEN && self.temperature == MAX_TEMPERATURE
            && self.board.placed_oceans() == 9
    }

    /// The stock of `resource`.
    pub fn resource(&self, resource: &Resource) -> (amount: i32)
        ensures
            amount == self@.resources.get(*resource),
    {
        self.resources.get(*resource)
    }

    /// The production of `resource`.
    pub fn production(&self, resource: &Resource) -> (amount: i32)
        ensures
            amount == self@.productions.get(*resource),
    {
        self.productions.get(*resource)
    }

    /// How often `tag` was played.
    pub fn tag(&self, tag: Tag) -> (count: i32)
        ensures
            count == self@.tags.get(tag),
    {
        self.tags.get(tag)
    }

    /// The oxygen, in percent.
    pub fn oxygen(&self) -> (oxygen: i32)
        ensures
            oxygen == self@.oxygen,
    {
        self.oxygen
    }

    /// The temperature, in degrees.
    pub fn temperature(&self) -> (temperature: i32)
        ensures
            temperature == self@.temperature,
    {
        self.temperature
    }

    /// How many oceans have been placed.
    pub fn oceans(&self) -> (oceans: i32)
        requires
            self.wf(),
        ensures
            oceans == self@.oceans(),
    {
        self.board.placed_oceans() as i32
    }
}

} // verus!
