use vstd::prelude::*;
use crate::game::Game;
use crate::game::GameView;
use crate::tag::Tag;

verus! {

/// What a card may ask of the game before it can be played.
#[derive(Debug, Clone, Copy, PartialEq, Eq, Structural)]
pub enum NewRequirement {
    MinOxygen(i32),
    MaxOxygen(i32),
    MinTemperature(i32),
    MaxTemperature(i32),
    MinOcean(usize),
    MaxOcean(usize),
    Tag(Tag, i32),
}

impl NewRequirement {
    /// The game meets the requirement.
    pub open spec fn holds(self, game: GameView) -> bool {
        match self {
            NewRequirement::MinOxygen(amount) => game.oxygen >= amount,
            NewRequirement::MaxOxygen(amount) => game.oxygen <= amount,
            NewRequirement::MinTemperature(amount) => game.temperature >= amount,
            NewRequirement::MaxTemperature(amount) => game.temperature <= amount,
            NewRequirement::MinOcean(amount) => game.board.placed_oceans >= amount,
            NewRequirement::MaxOcean(amount) => game.board.placed_oceans <= amount,
            NewRequirement::Tag(tag, amount) => game.tags.get(tag) >= amount,
        }
    }

    /// Whether `game` meets the requirement.
    pub fn is_fulfilled(&self, game: &Game) -> (fulfilled: bool)
        ensures
            fulfilled == self.holds(game@),
    {
        match self {
            NewRequirement::MinOxygen(amount) => game.oxygen() >= *amount,
            NewRequirement::MaxOxygen(amount) => game.oxygen() <= *amount,
            NewRequirement::MinTemperature(amount) => game.temperature() >= *amount,
            NewRequirement::MaxTemperature(amount) => game.temperature() <= *amount,
            NewRequirement::MinOcean(amount) => game.board.placed_oceans() >= *amount,
            NewRequirement::MaxOcean(amount) => game.board.placed_oceans() <= *amount,
            NewRequirement::Tag(tag, amount) => game.tag(*tag) >= *amount,
        }
    }
}

} // verus!
