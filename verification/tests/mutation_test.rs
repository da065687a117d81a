use trm_sim::game::{
    Game, INITIAL_MEGA_CREDITS, INITIAL_PRODUCTION, INITIAL_TR, MAX_OXYGEN, MAX_TEMPERATURE,
};
use trm_sim::game_map::tharsis;
use trm_sim::invalid_action_error::{ActionResult, ErrorKind, InvalidActionError};
use trm_sim::mutation::NormalMutation::{
    BuilderCardPaymentMutation, CardDrawMutation, CardPlayMutation, CompositeMutation,
    OxygenIncreaseMutation, PassMutation, ProductionMutation, ResourceMutation,
    SpaceCardPaymentMutation, TagMutation, TemperatureIncreaseMutation, TileQueuingMutation,
    TrMutation, VictoryPointMutation,
};
use trm_sim::mutation::{Mutation, NormalMutation, STEEL_VALUE, TITANIUM_VALUE};
use trm_sim::resource::Resource;
use trm_sim::resource::Resource::{Energy, Heat, MegaCredit, Plant, Steel, Titanium};
use trm_sim::tag::Tag::Power;
use trm_sim::tile::Tile;

fn game() -> Game {
    let mut game = Game::new(&tharsis());
    game.cards_to_be_drawn.sort_unstable();
    game
}

fn apply(game: &mut Game, mutation: &NormalMutation) -> ActionResult {
    mutation.apply(game)
}

fn refusal(kind: ErrorKind) -> ActionResult {
    Err(InvalidActionError::new(kind))
}

#[test]
fn test_production_mutations() {
    let mut game = game();
    assert!(apply(&mut game, &ProductionMutation(MegaCredit, -INITIAL_PRODUCTION - 6)).is_err());
    assert!(apply(&mut game, &ProductionMutation(MegaCredit, -INITIAL_PRODUCTION - 5)).is_ok());
    assert!(apply(&mut game, &ProductionMutation(MegaCredit, -1)).is_err());

    assert!(apply(&mut game, &ProductionMutation(Energy, -INITIAL_PRODUCTION - 1)).is_err());
    assert!(apply(&mut game, &ProductionMutation(Energy, 1)).is_ok());
    assert!(apply(&mut game, &ProductionMutation(Energy, -INITIAL_PRODUCTION - 1)).is_ok());
}

fn mixed_payment_case(cost: i32, resource: Resource, resource_value: i32, mutation: NormalMutation) {
    let mut game = game();
    game.resources.set(MegaCredit, 0);
    game.resources
        .set(resource, game.resource(&resource) + cost / resource_value);
    assert!(apply(&mut game, &mutation).is_err());
    game.resources
        .set(MegaCredit, game.resource(&MegaCredit) + cost % resource_value);
    assert!(apply(&mut game, &mutation).is_ok());
    assert_eq!(game.resource(&MegaCredit), 0);
    assert_eq!(game.resource(&resource), 0);

    game.resources
        .set(MegaCredit, game.resource(&MegaCredit) + cost - 1);
    assert!(apply(&mut game, &mutation).is_err());
    game.resources.set(MegaCredit, game.resource(&MegaCredit) + 1);
    assert!(apply(&mut game, &mutation).is_ok());
    assert_eq!(game.resource(&MegaCredit), 0);

    game.resources
        .set(resource, game.resource(&resource) + cost / resource_value + 1);
    assert!(apply(&mut game, &mutation).is_ok());
    assert_eq!(game.resource(&resource), 0);
    assert_eq!(game.resource(&MegaCredit), 0);

    game.resources
        .set(resource, game.resource(&resource) + cost / resource_value + 1);
    game.resources
        .set(MegaCredit, game.resource(&MegaCredit) + cost % resource_value + 15);
    assert!(apply(&mut game, &mutation).is_ok());
    assert_eq!(game.resource(&resource), 1);
    assert_eq!(game.resource(&MegaCredit), 15);

    game.resources.set(resource, game.resource(&resource) + 4);
    assert!(apply(&mut game, &mutation).is_ok());
    assert_eq!(game.resource(&resource), 0);
    assert_eq!(game.resource(&MegaCredit), 15 - cost + 5 * resource_value);
}

#[test]
fn test_mixed_payment_with_steel() {
    mixed_payment_case(25, Steel, STEEL_VALUE, BuilderCardPaymentMutation(25));
}

#[test]
fn test_mixed_payment_with_titanium() {
    mixed_payment_case(25, Titanium, TITANIUM_VALUE, SpaceCardPaymentMutation(25));
}

#[test]
fn test_resource_mutation() {
    let mut game = game();
    assert!(apply(&mut game, &ResourceMutation(MegaCredit, -INITIAL_MEGA_CREDITS - 1)).is_err());
    assert!(apply(&mut game, &ResourceMutation(MegaCredit, -INITIAL_MEGA_CREDITS)).is_ok());
    assert!(apply(&mut game, &ResourceMutation(MegaCredit, 0)).is_ok());
}

#[test]
fn test_temperature_and_oxygen_increase_mutations() {
    let mut game = game();
    let previous_tr = game.tr;
    game.temperature = -16;
    game.oxygen = 3;

    assert!(apply(&mut game, &TemperatureIncreaseMutation(3)).is_ok());
    assert!(apply(&mut game, &OxygenIncreaseMutation(2)).is_ok());

    assert_eq!(game.tr, previous_tr + 5);
    assert_eq!(game.temperature, -10);
    assert_eq!(game.oxygen, 5);

    game.temperature = MAX_TEMPERATURE - 4;
    game.oxygen = MAX_OXYGEN - 1;
    assert!(apply(&mut game, &OxygenIncreaseMutation(2)).is_ok());
    assert!(apply(&mut game, &TemperatureIncreaseMutation(3)).is_ok());

    assert_eq!(game.tr, previous_tr + 8);
    assert_eq!(game.temperature, MAX_TEMPERATURE);
    assert_eq!(game.oxygen, MAX_OXYGEN);
}

#[test]
fn test_tag_mutation() {
    let mut game = game();
    let tag_count = game.tag(Power);
    assert!(apply(&mut game, &TagMutation(Power)).is_ok());
    assert_eq!(tag_count + 1, game.tag(Power));
}

#[test]
fn test_card_draw() {
    let mut game = game();
    let top_card = *game.cards_to_be_drawn.last().unwrap();
    assert!(apply(&mut game, &CardDrawMutation(1)).is_ok());
    assert!(game.cards_in_hand.contains(&top_card));
    assert!(!game.cards_to_be_drawn.contains(&top_card));
}

#[test]
fn test_card_play() {
    let mut game = game();
    let card_id = *game.cards_in_hand.iter().take(1).last().unwrap();
    assert!(apply(&mut game, &CardPlayMutation(card_id)).is_ok());
    assert!(!game.cards_in_hand.contains(&card_id));
    assert!(game.played_cards.contains(&card_id));

    assert!(apply(&mut game, &CardPlayMutation(24353453)).is_err());
}

#[test]
fn test_tr_mutation() {
    let mut game = game();
    let prev_tr = game.tr;
    let prev_vp = game.victory_points;

    assert!(apply(&mut game, &TrMutation(2)).is_ok());
    assert_eq!(game.tr, prev_tr + 2);
    assert_eq!(game.victory_points, prev_vp + 2);
}

#[test]
fn test_vp_mutation() {
    let mut game = game();
    let prev_vp = game.victory_points;

    assert!(apply(&mut game, &VictoryPointMutation(2)).is_ok());
    assert_eq!(game.victory_points, prev_vp + 2);
}

#[test]
fn test_pass_mutation() {
    let mut game = game();
    assert!(apply(&mut game, &PassMutation).is_ok());

    assert_eq!(game.generation, 2);
    assert_eq!(
        game.resource(&MegaCredit),
        INITIAL_MEGA_CREDITS + INITIAL_TR + INITIAL_PRODUCTION
    );
    for resource in [Steel, Titanium, Plant, Energy, Heat] {
        assert_eq!(game.resource(&resource), 1);
    }

    game.productions.set(Energy, game.production(&Energy) + 2);
    game.productions
        .set(MegaCredit, game.production(&MegaCredit) + 1);
    game.tr += 2;

    assert!(apply(&mut game, &PassMutation).is_ok());

    assert_eq!(game.generation, 3);
    assert_eq!(
        game.resource(&MegaCredit),
        INITIAL_MEGA_CREDITS + 2 * INITIAL_TR + 2 * INITIAL_PRODUCTION + 3
    );

    assert_eq!(game.resource(&Energy), 3);
    assert_eq!(game.resource(&Heat), 3);
}

#[test]
fn test_tile_queueing() {
    let mut game = game();
    assert!(apply(&mut game, &TileQueuingMutation(Tile::Ocean)).is_ok());
    assert_eq!(game.tile_stack, vec![Tile::Ocean]);
    let map = tharsis();
    for ocean_position in map.ocean_positions().iter().take(9) {
        assert_eq!(Ok(()), game.board.place_tile(&Tile::Ocean, *ocean_position));
    }
    assert_eq!(game.board.placed_oceans(), 9);
    assert_eq!(game.tile_stack, vec![Tile::Ocean]);
}

#[test]
fn failed_composite_leaves_no_trace() {
    let mut game = game();
    let top_card = *game.cards_to_be_drawn.last().unwrap();
    let mutation = CompositeMutation(vec![
        ResourceMutation(Steel, 5),
        ProductionMutation(Heat, 2),
        TrMutation(3),
        TemperatureIncreaseMutation(2),
        OxygenIncreaseMutation(1),
        VictoryPointMutation(4),
        TagMutation(Power),
        CardDrawMutation(1),
        TileQueuingMutation(Tile::City),
        CompositeMutation(vec![
            ResourceMutation(MegaCredit, -2),
            ResourceMutation(Plant, -1),
        ]),
    ]);
    assert_eq!(
        apply(&mut game, &mutation),
        refusal(ErrorKind::InsufficientResource(Plant))
    );
    assert_eq!(game.resource(&Steel), 0);
    assert_eq!(game.resource(&MegaCredit), INITIAL_MEGA_CREDITS);
    assert_eq!(game.production(&Heat), INITIAL_PRODUCTION);
    assert_eq!(game.tr, INITIAL_TR);
    assert_eq!(game.victory_points, INITIAL_TR);
    assert_eq!(game.temperature, -30);
    assert_eq!(game.oxygen, 0);
    assert_eq!(game.tag(Power), 0);
    assert_eq!(game.cards_in_hand.len(), 10);
    assert_eq!(game.cards_to_be_drawn.last(), Some(&top_card));
    assert!(game.tile_stack.is_empty());
}

#[test]
fn composite_applies_children_in_order() {
    let mut game = game();
    let mutation = CompositeMutation(vec![
        ResourceMutation(MegaCredit, -42),
        ResourceMutation(MegaCredit, 7),
        CompositeMutation(vec![ResourceMutation(MegaCredit, -7), TrMutation(1)]),
    ]);
    assert_eq!(apply(&mut game, &mutation), Ok(()));
    assert_eq!(game.resource(&MegaCredit), 0);
    assert_eq!(game.tr, INITIAL_TR + 1);

    let reversed = CompositeMutation(vec![
        ResourceMutation(MegaCredit, -7),
        ResourceMutation(MegaCredit, 7),
    ]);
    assert_eq!(
        apply(&mut game, &reversed),
        refusal(ErrorKind::InsufficientResource(MegaCredit))
    );
    assert_eq!(apply(&mut game, &CompositeMutation(vec![])), Ok(()));
}

#[test]
fn each_error_names_its_cause() {
    let mut game = game();
    assert_eq!(
        apply(&mut game, &ResourceMutation(Heat, -1)),
        refusal(ErrorKind::InsufficientResource(Heat))
    );
    assert_eq!(
        apply(&mut game, &ProductionMutation(Steel, -2)),
        refusal(ErrorKind::ProductionBelowFloor(Steel))
    );
    assert_eq!(
        apply(&mut game, &CardPlayMutation(24353453)),
        refusal(ErrorKind::CardNotInHand(24353453))
    );
    assert_eq!(
        apply(&mut game, &CardDrawMutation(63)),
        refusal(ErrorKind::DeckExhausted)
    );
    assert_eq!(apply(&mut game, &CardDrawMutation(62)), Ok(()));
    assert_eq!(game.cards_in_hand.len(), 72);
    assert_eq!(apply(&mut game, &PassMutation), refusal(ErrorKind::DeckExhausted));
    assert_eq!(game.generation, 1);
    assert_eq!(apply(&mut game, &CardDrawMutation(-3)), Ok(()));
    assert_eq!(apply(&mut game, &CardDrawMutation(0)), Ok(()));
    assert_eq!(game.cards_in_hand.len(), 72);

    game.resources.set(MegaCredit, 0);
    assert_eq!(
        apply(&mut game, &BuilderCardPaymentMutation(1)),
        refusal(ErrorKind::InsufficientResource(MegaCredit))
    );
}

#[test]
fn requests_pass_two_gates() {
    let mut game = game();
    assert_eq!(
        Mutation::TilePlacing(Tile::City, (0, 0)).apply(&mut game),
        refusal(ErrorKind::IllegalTilePlacement(Tile::City, 0, 0))
    );
    assert_eq!(
        Mutation::Normal(TileQueuingMutation(Tile::City)).apply(&mut game),
        Ok(())
    );
    assert_eq!(
        Mutation::Normal(TrMutation(1)).apply(&mut game),
        refusal(ErrorKind::AwaitingPlacement)
    );
    assert_eq!(
        Mutation::Normal(PassMutation).apply(&mut game),
        refusal(ErrorKind::AwaitingPlacement)
    );
    assert_eq!(
        Mutation::TilePlacing(Tile::Greenery, (0, 0)).apply(&mut game),
        refusal(ErrorKind::IllegalTilePlacement(Tile::Greenery, 0, 0))
    );
    assert_eq!(
        Mutation::TilePlacing(Tile::City, (0, 1)).apply(&mut game),
        refusal(ErrorKind::IllegalTilePlacement(Tile::City, 0, 1))
    );
    assert_eq!(game.tile_stack, vec![Tile::City]);
    assert_eq!(Mutation::TilePlacing(Tile::City, (0, 0)).apply(&mut game), Ok(()));
    assert!(game.tile_stack.is_empty());
    assert_eq!(game.board.tile(0, 0), Tile::City);

    game.generation = 15;
    assert_eq!(
        Mutation::Normal(TrMutation(1)).apply(&mut game),
        refusal(ErrorKind::GameOver)
    );
    assert_eq!(
        Mutation::TilePlacing(Tile::City, (2, 2)).apply(&mut game),
        refusal(ErrorKind::GameOver)
    );
}

#[test]
fn what_does_not_fit_is_not_applied() {
    let mut game = game();
    game.resources.set(Steel, i32::MAX);
    let mutation = CompositeMutation(vec![TrMutation(1), ResourceMutation(Steel, 1)]);
    assert_eq!(mutation.checked_apply(&mut game), None);
    assert_eq!(game.tr, INITIAL_TR);
    assert_eq!(game.resource(&Steel), i32::MAX);
    assert_eq!(
        Mutation::Normal(ResourceMutation(Steel, 1)).checked_apply(&mut game),
        None
    );
    assert_eq!(
        Mutation::Normal(ResourceMutation(Steel, 0)).checked_apply(&mut game),
        Some(Ok(()))
    );
    assert_eq!(
        Mutation::Normal(ResourceMutation(Steel, -1)).checked_apply(&mut game),
        Some(Ok(()))
    );
    assert_eq!(game.resource(&Steel), i32::MAX - 1);
    assert_eq!(
        ResourceMutation(Heat, i32::MIN).checked_apply(&mut game),
        Some(refusal(ErrorKind::InsufficientResource(Heat)))
    );
    game.tr = i32::MAX;
    assert_eq!(TemperatureIncreaseMutation(1).checked_apply(&mut game), None);
    assert_eq!(TemperatureIncreaseMutation(0).checked_apply(&mut game), Some(Ok(())));
    assert_eq!(PassMutation.checked_apply(&mut game), None);
    assert_eq!(game.generation, 1);
}
