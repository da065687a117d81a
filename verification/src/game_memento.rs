use vstd::prelude::*;
use std::collections::HashMap;
use crate::action::Action;
use crate::card::Card;
use crate::card::CardId;
use crate::game::Game;
use crate::game::GameView;

verus! {

/// A snapshot of a game, from which the game can be restored.
#[derive(Debug)]
pub struct GameMemento {
    game_data: Game,
}

impl View for GameMemento {
    type V = GameView;

    /// The state that the snapshot holds.
    closed spec fn view(&self) -> GameView {
        self.game_data@
    }
}

impl GameMemento {
    /// A snapshot that holds `game_data`.
    pub fn new(game_data: Game) -> (memento: GameMemento)
        ensures
            memento@ == game_data@,
    {
        GameMemento { game_data }
    }

    /// The game that the snapshot holds.
    pub fn to_game(self) -> (game: Game)
        ensures
            game@ == self@,
    {
        self.game_data
    }
}

impl Game {
    /// A snapshot of the game as it is now.
    pub fn save(&self) -> (memento: GameMemento)
        ensures
            memento@ == self@,
    {
        GameMemento::new(self.clone())
    }

    /// Carries the action out; where it is refused, the game is restored from a snapshot
    /// taken before, and the reason is dropped.
    pub fn do_action(&mut self, action: Action, compendium: &HashMap<CardId, Card>) -> (result:
        Result<(), ()>)
        requires
            old(self).wf(),
            action.fits(old(self)@, compendium@),
        ensures
            final(self).wf(),
            match action.outcome(old(self)@, compendium@) {
                Ok(state) => result is Ok && final(self)@ == state,
                Err(_) => result is Err && final(self)@ == old(self)@,
            },
    {
        let memento = self.save();
        if action.execute(self, compendium).is_err() {
            *self = memento.to_game();
            Err(())
        } else {
            Ok(())
        }
    }
}

} // verus!
