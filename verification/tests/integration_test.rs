use trm_sim::action::Action;
use trm_sim::card_compendium::build_card_compendium;
use trm_sim::game::{Game, INITIAL_TEMPERATURE, MAX_TEMPERATURE};
use trm_sim::game_map::tharsis;

#[test]
fn standard_asteroid_test() {
    let compendium = build_card_compendium();
    let mut game = Game::new(&tharsis());
    let mut temperature_increases = 0;

    while !game.is_over() {
        while game.temperature() < MAX_TEMPERATURE
            && Action::StandardAsteroid
                .execute(&mut game, &compendium)
                .is_ok()
        {
            temperature_increases += 1;
        }
        assert!(Action::Pass.execute(&mut game, &compendium).is_ok());
    }

    assert_eq!(
        game.temperature() - INITIAL_TEMPERATURE,
        temperature_increases * 2
    );
}
