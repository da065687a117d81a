use std::collections::HashSet;
use trm_sim::action::{Action, StandardProject};
use trm_sim::card::Card;
use trm_sim::card_builder::CardBuilder;
use trm_sim::card_compendium::{build_card_compendium, build_card_id_list, card_builder};
use trm_sim::game::{
    Game, INITIAL_MEGA_CREDITS, INITIAL_OXYGEN, INITIAL_PRODUCTION, INITIAL_TEMPERATURE,
    INITIAL_TR, LAST_GENERATION, MAX_OCEANS, MAX_OXYGEN, MAX_TEMPERATURE,
};
use trm_sim::game_map::{tharsis, GameMap};
use trm_sim::game_memento::GameMemento;
use trm_sim::invalid_action_error::{ActionResult, ErrorKind, InvalidActionError};
use trm_sim::mutation::{Mutation, NormalMutation};
use trm_sim::mutation_helper::{
    draw_cards, increase_oxygen_if_not_maxed_out, increase_temperature_if_not_maxed_out,
    increase_tr, minimum_production_value_of, mixed_payment, mixed_payment_fits, pass, pass_fits,
    place_tile, place_tile_fits, play_card, production_change, queue_tile, resource_change,
};
use trm_sim::requirement::NewRequirement;
use trm_sim::resource::Resource::{Energy, Heat, MegaCredit, Plant, Steel, Titanium};
use trm_sim::tag::Tag;
use trm_sim::tile::Tile;

fn game() -> Game {
    let mut game = Game::new(&tharsis());
    game.cards_to_be_drawn.sort_unstable();
    game
}

fn refusal(kind: ErrorKind) -> ActionResult {
    Err(InvalidActionError::new(kind))
}

#[test]
fn fresh_game() {
    let game = Game::new(&tharsis());
    assert_eq!(game.resource(&MegaCredit), 42);
    for resource in [Steel, Titanium, Plant, Energy, Heat] {
        assert_eq!(game.resource(&resource), 0);
    }
    for resource in [MegaCredit, Steel, Titanium, Plant, Energy, Heat] {
        assert_eq!(game.production(&resource), 1);
    }
    assert_eq!(game.oxygen(), 0);
    assert_eq!(game.temperature(), -30);
    assert_eq!(game.oceans(), 0);
    assert_eq!(game.tr, 14);
    assert_eq!(game.victory_points, 14);
    assert_eq!(game.generation, 1);
    assert_eq!(game.cards_in_hand.len(), 10);
    assert!(game.played_cards.is_empty());
    assert!(game.tile_stack.is_empty());
    assert!(!game.is_over());
    assert!(!game.is_won());

    let all: HashSet<i32> = build_card_id_list().into_iter().collect();
    assert_eq!(all.len(), 72);
    let pile: HashSet<i32> = game.cards_to_be_drawn.iter().copied().collect();
    assert_eq!(pile.len(), game.cards_to_be_drawn.len());
    assert_eq!(pile.len(), 62);
    assert!(pile.is_disjoint(&game.cards_in_hand));
    let mut held = pile.clone();
    held.extend(game.cards_in_hand.iter().copied());
    assert_eq!(held, all);
    for tag in [
        Tag::Builder,
        Tag::Space,
        Tag::Earth,
        Tag::Jovian,
        Tag::Plant,
        Tag::Microbe,
        Tag::Power,
        Tag::Science,
        Tag::City,
    ] {
        assert_eq!(game.tag(tag), 0);
    }
}

#[test]
fn constants_of_the_game() {
    assert_eq!(INITIAL_TR, 14);
    assert_eq!(INITIAL_TEMPERATURE, -30);
    assert_eq!(INITIAL_OXYGEN, 0);
    assert_eq!(INITIAL_MEGA_CREDITS, 42);
    assert_eq!(INITIAL_PRODUCTION, 1);
    assert_eq!(MAX_TEMPERATURE, 8);
    assert_eq!(MAX_OXYGEN, 14);
    assert_eq!(MAX_OCEANS, 9);
    assert_eq!(LAST_GENERATION, 14);
    assert_eq!(minimum_production_value_of(&MegaCredit), -5);
    for resource in [Steel, Titanium, Plant, Energy, Heat] {
        assert_eq!(minimum_production_value_of(&resource), 0);
    }
}

#[test]
fn deal_takes_the_last_ten_cards() {
    let deck: Vec<i32> = (100..120).collect();
    let game = Game::deal(&tharsis(), deck);
    assert_eq!(game.cards_to_be_drawn, (100..110).collect::<Vec<i32>>());
    let hand: HashSet<i32> = (110..120).collect();
    assert_eq!(game.cards_in_hand, hand);
}

#[test]
fn shuffling_keeps_every_card() {
    let mut orders = HashSet::new();
    for _ in 0..8 {
        let game = Game::new(&tharsis());
        let mut cards: Vec<i32> = game.cards_to_be_drawn.clone();
        cards.extend(game.cards_in_hand.iter().copied());
        orders.insert(game.cards_to_be_drawn.clone());
        cards.sort_unstable();
        assert_eq!(cards, build_card_id_list());
    }
    assert!(orders.len() > 1);
}

#[test]
fn mixed_payment_with_steel_at_rate_two() {
    let mut game = game();
    game.resources.set(MegaCredit, 0);
    game.resources.set(Steel, 12);
    assert_eq!(
        mixed_payment(&mut game, 25, Steel, 2),
        refusal(ErrorKind::InsufficientResource(MegaCredit))
    );
    assert_eq!(game.resource(&Steel), 12);
    assert_eq!(game.resource(&MegaCredit), 0);

    game.resources.set(MegaCredit, 1);
    assert_eq!(mixed_payment(&mut game, 25, Steel, 2), Ok(()));
    assert_eq!(game.resource(&MegaCredit), 0);
    assert_eq!(game.resource(&Steel), 0);

    game.resources.set(MegaCredit, 24);
    assert!(mixed_payment(&mut game, 25, Steel, 2).is_err());
    assert_eq!(game.resource(&MegaCredit), 24);
    game.resources.set(MegaCredit, 25);
    assert_eq!(mixed_payment(&mut game, 25, Steel, 2), Ok(()));
    assert_eq!(game.resource(&MegaCredit), 0);
}

#[test]
fn mixed_payment_overpays_by_one_unit() {
    let mut game = game();
    game.resources.set(MegaCredit, 0);
    game.resources.set(Steel, 13);
    assert_eq!(mixed_payment(&mut game, 25, Steel, 2), Ok(()));
    assert_eq!(game.resource(&Steel), 0);
    assert_eq!(game.resource(&MegaCredit), 0);

    game.resources.set(MegaCredit, 0);
    game.resources.set(Titanium, 5);
    assert_eq!(mixed_payment(&mut game, 10, Titanium, 3), Ok(()));
    assert_eq!(game.resource(&Titanium), 1);
    assert_eq!(game.resource(&MegaCredit), 0);

    game.resources.set(MegaCredit, 3);
    game.resources.set(Titanium, 2);
    assert_eq!(
        mixed_payment(&mut game, 10, Titanium, 3),
        refusal(ErrorKind::InsufficientResource(MegaCredit))
    );
    assert_eq!(game.resource(&Titanium), 2);
    assert_eq!(game.resource(&MegaCredit), 3);

    game.resources.set(MegaCredit, 7);
    game.resources.set(Titanium, 1);
    assert_eq!(mixed_payment(&mut game, 10, Titanium, 3), Ok(()));
    assert_eq!(game.resource(&Titanium), 0);
    assert_eq!(game.resource(&MegaCredit), 0);

    game.resources.set(MegaCredit, 10);
    assert_eq!(mixed_payment(&mut game, 8, MegaCredit, 1), Ok(()));
    assert_eq!(game.resource(&MegaCredit), 2);
    assert_eq!(mixed_payment(&mut game, 0, Steel, 2), Ok(()));
    assert_eq!(game.resource(&MegaCredit), 2);
    assert!(mixed_payment_fits(&game, 25, Steel, 2));
}

#[test]
fn pass_bookkeeping() {
    let mut game = game();
    assert!(pass_fits(&game));
    assert_eq!(pass(&mut game), Ok(()));
    assert_eq!(game.resource(&MegaCredit), 57);
    for resource in [Steel, Titanium, Plant, Energy, Heat] {
        assert_eq!(game.resource(&resource), 1);
    }
    assert_eq!(game.generation, 2);
    assert_eq!(game.cards_in_hand.len(), 14);
    assert_eq!(game.cards_to_be_drawn.len(), 58);

    game.resources.set(Energy, 6);
    game.resources.set(Heat, 2);
    game.productions.set(Energy, 3);
    game.productions.set(Heat, 0);
    assert_eq!(pass(&mut game), Ok(()));
    assert_eq!(game.resource(&Energy), 3);
    assert_eq!(game.resource(&Heat), 8);

    game.tile_stack.push(Tile::City);
    assert_eq!(pass(&mut game), refusal(ErrorKind::AwaitingPlacement));
    assert_eq!(game.generation, 3);
}

#[test]
fn the_game_ends_after_the_last_generation() {
    let compendium = build_card_compendium();
    let mut game = game();
    for generation in 1..=14 {
        assert_eq!(game.generation, generation);
        assert!(!game.is_over());
        assert_eq!(Action::Pass.execute(&mut game, &compendium), Ok(()));
    }
    assert!(game.is_over());
    assert!(!game.is_won());
    assert_eq!(
        Action::Pass.execute(&mut game, &compendium),
        refusal(ErrorKind::GameOver)
    );
    assert_eq!(
        Action::StandardPowerPlant.execute(&mut game, &compendium),
        refusal(ErrorKind::GameOver)
    );
    assert_eq!(
        Action::TilePlacement((0, 0)).execute(&mut game, &compendium),
        refusal(ErrorKind::GameOver)
    );
    game.oxygen = MAX_OXYGEN;
    game.temperature = MAX_TEMPERATURE;
    assert!(!game.is_won());
    let map = tharsis();
    for position in map.ocean_positions().iter().take(9) {
        assert_eq!(Ok(()), game.board.place_tile(&Tile::Ocean, *position));
    }
    assert_eq!(game.oceans(), 9);
    assert!(game.is_won());
    game.generation = 14;
    assert!(!game.is_won());
}

#[test]
fn asteroid_until_the_temperature_is_maxed() {
    let compendium = build_card_compendium();
    let mut game = game();
    game.resources.set(MegaCredit, 14 * 25);
    let mut successes = 0;
    while game.temperature() < MAX_TEMPERATURE {
        assert_eq!(
            Action::StandardAsteroid.execute(&mut game, &compendium),
            Ok(())
        );
        successes += 1;
    }
    assert_eq!(successes * 2, game.temperature() - INITIAL_TEMPERATURE);
    assert_eq!(successes, 19);
    assert_eq!(game.tr, INITIAL_TR + 19);
    assert_eq!(game.victory_points, INITIAL_TR + 19);
    assert_eq!(game.resource(&MegaCredit), 14 * 6);

    assert_eq!(
        Action::StandardAsteroid.execute(&mut game, &compendium),
        Ok(())
    );
    assert_eq!(game.temperature(), MAX_TEMPERATURE);
    assert_eq!(game.tr, INITIAL_TR + 19);
    assert_eq!(game.resource(&MegaCredit), 14 * 5);

    game.resources.set(MegaCredit, 13);
    assert_eq!(
        Action::StandardAsteroid.execute(&mut game, &compendium),
        refusal(ErrorKind::InsufficientResource(MegaCredit))
    );
    assert_eq!(game.resource(&MegaCredit), 13);
}

#[test]
fn ocean_is_forfeited_when_no_cell_is_left() {
    let mut game = game();
    let map = tharsis();
    for position in map.ocean_positions().iter().take(9) {
        assert_eq!(Ok(()), game.board.place_tile(&Tile::Ocean, *position));
    }
    assert!(!game.can_place(&Tile::Ocean));
    assert!(!game.board.can_place(&Tile::Ocean));
    assert_eq!(
        NormalMutation::TileQueuingMutation(Tile::Ocean).apply(&mut game),
        Ok(())
    );
    assert!(game.tile_stack.is_empty());
    queue_tile(&mut game, Tile::Ocean);
    queue_tile(&mut game, Tile::Empty);
    assert!(game.tile_stack.is_empty());
    let compendium = build_card_compendium();
    assert_eq!(
        Action::StandardAquifer.execute(&mut game, &compendium),
        Ok(())
    );
    assert!(game.tile_stack.is_empty());
    assert_eq!(game.resource(&MegaCredit), 42 - 18);
}

#[test]
fn queued_tiles_that_lost_their_cell_are_dropped() {
    let mut game = game();
    let map = tharsis();
    let positions = map.ocean_positions().clone();
    for position in positions.iter().take(8) {
        assert_eq!(Ok(()), game.board.place_tile(&Tile::Ocean, *position));
    }
    queue_tile(&mut game, Tile::City);
    queue_tile(&mut game, Tile::Ocean);
    queue_tile(&mut game, Tile::Ocean);
    queue_tile(&mut game, Tile::Ocean);
    assert_eq!(
        game.tile_stack,
        vec![Tile::City, Tile::Ocean, Tile::Ocean, Tile::Ocean]
    );
    assert!(place_tile_fits(&game, positions[8]));
    assert_eq!(
        place_tile(&mut game, (0, 0)),
        refusal(ErrorKind::IllegalTilePlacement(Tile::Ocean, 0, 0))
    );
    assert_eq!(game.tile_stack.len(), 4);
    assert_eq!(place_tile(&mut game, positions[8]), Ok(()));
    assert_eq!(game.tile_stack, vec![Tile::City]);
    assert_eq!(game.oceans(), 9);
    assert_eq!(game.tr, INITIAL_TR + 1);
    assert_eq!(game.victory_points, INITIAL_TR + 1);

    assert_eq!(place_tile(&mut game, (2, 2)), Ok(()));
    assert!(game.tile_stack.is_empty());
    assert_eq!(game.tr, INITIAL_TR + 1);
    assert_eq!(
        place_tile(&mut game, (3, 3)),
        refusal(ErrorKind::IllegalTilePlacement(Tile::Empty, 3, 3))
    );

    queue_tile(&mut game, Tile::Greenery);
    assert_eq!(place_tile(&mut game, (2, 3)), Ok(()));
    assert_eq!(game.oxygen(), 1);
    assert_eq!(game.tr, INITIAL_TR + 2);
    game.oxygen = MAX_OXYGEN;
    queue_tile(&mut game, Tile::Greenery);
    assert_eq!(place_tile(&mut game, (2, 4)), Ok(()));
    assert_eq!(game.oxygen(), MAX_OXYGEN);
    assert_eq!(game.tr, INITIAL_TR + 2);
}

#[test]
fn helpers_change_what_they_name() {
    let mut game = game();
    increase_tr(&mut game, 3);
    assert_eq!((game.tr, game.victory_points), (17, 17));
    increase_tr(&mut game, -4);
    assert_eq!((game.tr, game.victory_points), (13, 13));
    increase_temperature_if_not_maxed_out(&mut game, 2);
    assert_eq!((game.temperature(), game.tr), (-26, 15));
    increase_temperature_if_not_maxed_out(&mut game, 0);
    assert_eq!((game.temperature(), game.tr), (-26, 15));
    increase_temperature_if_not_maxed_out(&mut game, 40);
    assert_eq!((game.temperature(), game.tr, game.victory_points), (8, 32, 32));
    increase_oxygen_if_not_maxed_out(&mut game, 13);
    assert_eq!((game.oxygen(), game.tr), (13, 45));
    increase_oxygen_if_not_maxed_out(&mut game, 5);
    assert_eq!((game.oxygen(), game.tr, game.victory_points), (14, 46, 46));

    assert_eq!(resource_change(&mut game, &Plant, 5), Ok(()));
    assert_eq!(resource_change(&mut game, &Plant, -5), Ok(()));
    assert_eq!(
        resource_change(&mut game, &Plant, -1),
        refusal(ErrorKind::InsufficientResource(Plant))
    );
    assert_eq!(game.resource(&Plant), 0);
    assert_eq!(production_change(&mut game, &MegaCredit, -6), Ok(()));
    assert_eq!(game.production(&MegaCredit), -5);
    assert_eq!(
        production_change(&mut game, &MegaCredit, -1),
        refusal(ErrorKind::ProductionBelowFloor(MegaCredit))
    );
    assert_eq!(game.production(&MegaCredit), -5);

    let top = *game.cards_to_be_drawn.last().unwrap();
    let below = game.cards_to_be_drawn[game.cards_to_be_drawn.len() - 2];
    assert_eq!(draw_cards(&mut game, 2), Ok(()));
    assert!(game.cards_in_hand.contains(&top) && game.cards_in_hand.contains(&below));
    assert_eq!(game.cards_to_be_drawn.len(), 60);
    assert_eq!(play_card(&mut game, top), Ok(()));
    assert!(game.played_cards.contains(&top) && !game.cards_in_hand.contains(&top));
    assert_eq!(
        play_card(&mut game, top),
        refusal(ErrorKind::CardNotInHand(top))
    );
    assert_eq!(game.played_cards.len(), 1);
}

#[test]
fn requirements_read_the_game() {
    let mut game = game();
    game.oxygen = 5;
    game.temperature = -12;
    assert!(NewRequirement::MinOxygen(5).is_fulfilled(&game));
    assert!(!NewRequirement::MinOxygen(6).is_fulfilled(&game));
    assert!(NewRequirement::MaxOxygen(5).is_fulfilled(&game));
    assert!(!NewRequirement::MaxOxygen(4).is_fulfilled(&game));
    assert!(NewRequirement::MinTemperature(-12).is_fulfilled(&game));
    assert!(!NewRequirement::MinTemperature(-10).is_fulfilled(&game));
    assert!(NewRequirement::MaxTemperature(-12).is_fulfilled(&game));
    assert!(!NewRequirement::MaxTemperature(-14).is_fulfilled(&game));
    assert!(NewRequirement::MinOcean(0).is_fulfilled(&game));
    assert!(!NewRequirement::MinOcean(1).is_fulfilled(&game));
    assert!(NewRequirement::MaxOcean(0).is_fulfilled(&game));
    assert_eq!(Ok(()), game.board.place_tile(&Tile::Ocean, (0, 1)));
    assert!(NewRequirement::MinOcean(1).is_fulfilled(&game));
    assert!(!NewRequirement::MaxOcean(0).is_fulfilled(&game));
    assert!(!NewRequirement::Tag(Tag::Science, 1).is_fulfilled(&game));
    game.tags.set(Tag::Science, 2);
    assert!(NewRequirement::Tag(Tag::Science, 2).is_fulfilled(&game));
    assert!(!NewRequirement::Tag(Tag::Science, 3).is_fulfilled(&game));
    assert!(NewRequirement::Tag(Tag::Jovian, 0).is_fulfilled(&game));
}

fn effects_of(card: &Card) -> &Vec<NormalMutation> {
    match &card.mutation {
        Mutation::Normal(NormalMutation::CompositeMutation(effects)) => effects,
        other => panic!("a card is a list of effects, not {:?}", other),
    }
}

#[test]
fn builder_orders_the_effects_of_a_card() {
    let card = CardBuilder::new()
        .cost(16)
        .tags(vec![Tag::Plant, Tag::Builder])
        .requirement(NewRequirement::MinTemperature(-12))
        .mutation(NormalMutation::ResourceMutation(Plant, 3))
        .mutation(NormalMutation::ProductionMutation(MegaCredit, 2))
        .victory_points(1)
        .id(26)
        .build();
    assert_eq!(card.requirement, Some(NewRequirement::MinTemperature(-12)));
    assert_eq!(
        format!("{:?}", effects_of(&card)),
        "[CardPlayMutation(26), BuilderCardPaymentMutation(16), VictoryPointMutation(1), \
         TagMutation(Plant), TagMutation(Builder), ResourceMutation(Plant, 3), \
         ProductionMutation(MegaCredit, 2)]"
    );

    let event = CardBuilder::new()
        .tags(vec![Tag::Space])
        .event()
        .cost(14)
        .cost(2)
        .mutation(NormalMutation::TemperatureIncreaseMutation(1))
        .id(9)
        .build();
    assert_eq!(event.requirement, None);
    assert_eq!(
        format!("{:?}", effects_of(&event)),
        "[CardPlayMutation(9), SpaceCardPaymentMutation(16), TemperatureIncreaseMutation(1)]"
    );

    let plain = CardBuilder::new().cost(13).id(4).victory_points(0).build();
    assert_eq!(
        format!("{:?}", effects_of(&plain)),
        "[CardPlayMutation(4), ResourceMutation(MegaCredit, -13)]"
    );
}

#[test]
fn compendium_holds_every_card_under_its_number() {
    let compendium = build_card_compendium();
    let card_ids = build_card_id_list();
    assert_eq!(compendium.len(), 72);
    assert_eq!(card_ids.len(), 72);
    assert_eq!(card_ids.first(), Some(&1));
    assert_eq!(card_ids.last(), Some(&205));
    for pair in card_ids.windows(2) {
        assert!(pair[0] < pair[1]);
    }
    for id in card_ids.iter() {
        let card = compendium.get(id).unwrap();
        assert_eq!(
            format!("{:?}", effects_of(card)[0]),
            format!("CardPlayMutation({})", id)
        );
        assert!(card_builder(*id).is_some());
    }
    assert!(card_builder(2).is_none());
    assert!(card_builder(0).is_none());
    assert!(card_builder(206).is_none());
    assert!(!compendium.contains_key(&2));

    let card = compendium.get(&143).unwrap();
    assert_eq!(card.requirement, None);
    assert_eq!(
        format!("{:?}", effects_of(card)),
        "[CardPlayMutation(143), SpaceCardPaymentMutation(36), VictoryPointMutation(2), \
         TileQueuingMutation(Ocean), CardDrawMutation(2), ResourceMutation(Plant, 5)]"
    );
    let city = compendium.get(&16).unwrap();
    assert_eq!(city.requirement, Some(NewRequirement::MaxOxygen(7)));
    assert_eq!(
        format!("{:?}", effects_of(city)),
        "[CardPlayMutation(16), BuilderCardPaymentMutation(24), VictoryPointMutation(1), \
         TagMutation(City), TagMutation(Builder), ProductionMutation(Energy, -1), \
         TileQueuingMutation(City), ProductionMutation(MegaCredit, 3), \
         ResourceMutation(Plant, 3)]"
    );
}

#[test]
fn playing_a_card() {
    let compendium = build_card_compendium();
    let mut game = game();
    assert_eq!(
        Action::Card(2).execute(&mut game, &compendium),
        refusal(ErrorKind::UnknownCard)
    );
    game.cards_in_hand.insert(114);
    game.cards_to_be_drawn.retain(|id| *id != 114);
    assert_eq!(
        Action::Card(114).execute(&mut game, &compendium),
        refusal(ErrorKind::RequirementNotMet(NewRequirement::MinOxygen(7)))
    );
    game.oxygen = 7;
    assert_eq!(Action::Card(114).execute(&mut game, &compendium), Ok(()));
    assert_eq!(game.resource(&MegaCredit), 42 - 11);
    assert_eq!(game.victory_points, INITIAL_TR + 2);
    assert_eq!(game.tr, INITIAL_TR);
    assert_eq!(game.tag(Tag::Science), 1);
    assert!(game.played_cards.contains(&114));
    assert!(!game.cards_in_hand.contains(&114));
    assert_eq!(
        Action::Card(114).execute(&mut game, &compendium),
        refusal(ErrorKind::CardNotInHand(114))
    );

    game.cards_in_hand.insert(203);
    game.cards_to_be_drawn.retain(|id| *id != 203);
    let before = game.save().to_game();
    assert_eq!(
        Action::Card(203).execute(&mut game, &compendium),
        refusal(ErrorKind::InsufficientResource(MegaCredit))
    );
    assert!(game.cards_in_hand.contains(&203));
    assert_eq!(game.resource(&MegaCredit), before.resource(&MegaCredit));
    assert_eq!(game.tag(Tag::Space), 0);
    game.resources.set(Titanium, 2);
    assert_eq!(Action::Card(203).execute(&mut game, &compendium), Ok(()));
    assert_eq!(game.resource(&Titanium), 0);
    assert_eq!(game.resource(&MegaCredit), 42 - 11 - 29);
    assert_eq!(game.production(&Heat), 8);
    assert_eq!(game.tag(Tag::Space), 1);
}

#[test]
fn standard_projects_and_conversions() {
    let compendium = build_card_compendium();
    let mut game = game();
    game.resources.set(MegaCredit, 100);
    assert_eq!(
        Action::StandardPowerPlant.execute(&mut game, &compendium),
        Ok(())
    );
    assert_eq!(game.resource(&MegaCredit), 89);
    assert_eq!(game.production(&Energy), 2);
    assert_eq!(Action::StandardCity.execute(&mut game, &compendium), Ok(()));
    assert_eq!(game.resource(&MegaCredit), 64);
    assert_eq!(game.production(&MegaCredit), 2);
    assert_eq!(game.tile_stack, vec![Tile::City]);
    assert_eq!(
        Action::StandardGreenery.execute(&mut game, &compendium),
        refusal(ErrorKind::AwaitingPlacement)
    );
    assert_eq!(
        Action::TilePlacement((4, 3)).execute(&mut game, &compendium),
        refusal(ErrorKind::IllegalTilePlacement(Tile::City, 4, 3))
    );
    assert_eq!(
        Action::TilePlacement((9, 0)).execute(&mut game, &compendium),
        refusal(ErrorKind::IllegalTilePlacement(Tile::City, 9, 0))
    );
    assert_eq!(
        Action::TilePlacement((4, 2)).execute(&mut game, &compendium),
        Ok(())
    );
    assert_eq!(
        Action::TilePlacement((4, 1)).execute(&mut game, &compendium),
        refusal(ErrorKind::IllegalTilePlacement(Tile::Empty, 4, 1))
    );
    assert_eq!(
        Action::StandardGreenery.execute(&mut game, &compendium),
        Ok(())
    );
    assert_eq!(game.resource(&MegaCredit), 41);
    assert_eq!(
        Action::TilePlacement((0, 0)).execute(&mut game, &compendium),
        refusal(ErrorKind::IllegalTilePlacement(Tile::Greenery, 0, 0))
    );
    assert_eq!(
        Action::TilePlacement((4, 1)).execute(&mut game, &compendium),
        Ok(())
    );
    assert_eq!(game.oxygen(), 1);
    assert_eq!(
        Action::StandardAquifer.execute(&mut game, &compendium),
        Ok(())
    );
    assert_eq!(
        Action::TilePlacement((4, 3)).execute(&mut game, &compendium),
        Ok(())
    );
    assert_eq!(game.oceans(), 1);
    assert_eq!(game.tr, INITIAL_TR + 2);
    assert_eq!(game.resource(&MegaCredit), 23);

    assert_eq!(
        Action::HeatConversion.execute(&mut game, &compendium),
        refusal(ErrorKind::InsufficientResource(Heat))
    );
    game.resources.set(Heat, 9);
    assert_eq!(Action::HeatConversion.execute(&mut game, &compendium), Ok(()));
    assert_eq!(game.resource(&Heat), 1);
    assert_eq!(game.temperature(), -28);
    assert_eq!(
        Action::PlantConversion.execute(&mut game, &compendium),
        refusal(ErrorKind::InsufficientResource(Plant))
    );
    game.resources.set(Plant, 8);
    assert_eq!(
        Action::PlantConversion.execute(&mut game, &compendium),
        Ok(())
    );
    assert_eq!(game.resource(&Plant), 0);
    assert_eq!(game.tile_stack, vec![Tile::Greenery]);

    assert_eq!(
        Action::TilePlacement((3, 1)).checked_execute(&mut game, &compendium),
        Some(Ok(()))
    );
    game.resources.set(MegaCredit, i32::MAX);
    assert_eq!(Action::Pass.checked_execute(&mut game, &compendium), None);
    assert_eq!(game.generation, 1);
    game.tr = i32::MAX;
    game.resources.set(MegaCredit, 50);
    game.cards_in_hand.insert(36);
    game.cards_to_be_drawn.retain(|id| *id != 36);
    assert_eq!(Action::Card(36).checked_execute(&mut game, &compendium), None);
    assert!(game.cards_in_hand.contains(&36));
    assert_eq!(game.resource(&MegaCredit), 50);
    assert_eq!(
        Action::Card(2).checked_execute(&mut game, &compendium),
        Some(refusal(ErrorKind::UnknownCard))
    );
    queue_tile(&mut game, Tile::Ocean);
    assert_eq!(
        Action::TilePlacement((0, 1)).checked_execute(&mut game, &compendium),
        None
    );
    assert_eq!(game.board.tile(0, 1), Tile::Empty);
    assert_eq!(game.tile_stack, vec![Tile::Ocean]);
    game.tr = 20;
    assert_eq!(
        Action::TilePlacement((0, 1)).checked_execute(&mut game, &compendium),
        Some(Ok(()))
    );
    assert_eq!(game.tr, 21);
    assert_eq!(
        format!("{:?}", StandardProject::Asteroid.mutation()),
        "Normal(CompositeMutation([ResourceMutation(MegaCredit, -14), \
         TemperatureIncreaseMutation(1)]))"
    );
}

#[test]
fn do_action_restores_the_game_from_a_snapshot() {
    let compendium = build_card_compendium();
    let mut game = game();
    let pile = game.cards_to_be_drawn.clone();
    assert_eq!(game.do_action(Action::StandardCity, &compendium), Ok(()));
    assert_eq!(game.do_action(Action::Pass, &compendium), Err(()));
    assert_eq!(game.generation, 1);
    assert_eq!(game.cards_to_be_drawn, pile);
    assert_eq!(game.tile_stack, vec![Tile::City]);
    assert_eq!(
        game.do_action(Action::TilePlacement((8, 0)), &compendium),
        Ok(())
    );
    let hand = game.cards_in_hand.clone();
    let memento = GameMemento::new(game.clone());
    assert_eq!(game.do_action(Action::Pass, &compendium), Ok(()));
    assert_eq!(game.generation, 2);
    assert_eq!(game.cards_in_hand.len(), 14);
    let restored = memento.to_game();
    assert_eq!(restored.generation, 1);
    assert_eq!(restored.cards_in_hand, hand);
    assert_eq!(restored.cards_in_hand.len(), 10);
    assert!(restored.played_cards.is_empty());
    assert_eq!(restored.board.tile(8, 0), Tile::City);
    assert_eq!(restored.cards_to_be_drawn, pile);
    assert_eq!(restored.resource(&MegaCredit), 42 - 25);
}

#[test]
fn a_map_knows_its_ocean_cells() {
    let map = GameMap::new(vec![(0, 0), (8, 4)]);
    assert!(map.is_ocean_position((0, 0)));
    assert!(map.is_ocean_position((8, 4)));
    assert!(!map.is_ocean_position((4, 8)));
    assert_eq!(map.ocean_positions(), &vec![(0, 0), (8, 4)]);
    let copy = map.clone();
    assert_eq!(copy.ocean_positions(), map.ocean_positions());
    assert_eq!(tharsis().ocean_positions().len(), 12);
    assert!(Tile::is_owned(Tile::City));
    assert!(Tile::is_owned(Tile::Greenery));
    assert!(!Tile::is_owned(Tile::Ocean));
    assert!(!Tile::is_owned(Tile::Empty));
}
