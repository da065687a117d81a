pub mod action;
pub mod board;
pub mod card;
pub mod card_builder;
pub mod card_compendium;
pub mod game;
pub mod game_map;
pub mod game_memento;
pub mod hex;
pub mod input;
pub mod invalid_action_error;
pub mod mutation;
pub mod mutation_helper;
pub mod requirement;
pub mod resource;
pub mod rules;
pub mod tag;
pub mod tile;

pub use action::Action;
pub use card::CardId;
pub use game::Game;
pub use game::{
    INITIAL_MEGA_CREDITS, INITIAL_OXYGEN, INITIAL_PRODUCTION, INITIAL_TEMPERATURE, INITIAL_TR,
    LAST_GENERATION, MAX_OCEANS, MAX_OXYGEN, MAX_TEMPERATURE,
};
pub use invalid_action_error::{ActionResult, InvalidActionError};
