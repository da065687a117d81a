use vstd::prelude::*;
use crate::game::Game;
use crate::game::GameView;
use crate::invalid_action_error::ActionResult;
use crate::invalid_action_error::ErrorKind;
use crate::invalid_action_error::InvalidActionError;
use crate::mutation::Mutation;
use crate::mutation::NormalMutation;
use crate::mutation_helper::settled;
use crate::requirement::NewRequirement;
use crate::rules::Verdict;

verus! {

/// The number printed on a card.
pub type CardId = i32;

/// A card: what playing it does, and what it asks of the game before it can be played.
#[derive(Debug)]
pub struct Card {
    pub mutation: Mutation,
    pub requirement: Option<NewRequirement>,
}

impl Card {
    /// What playing the card makes of `state`: where the game does not meet the card's
    /// requirement nothing is tried; else the card's effects take place as one request.
    pub open spec fn outcome(self, state: GameView) -> Verdict {
        match self.requirement {
            Some(requirement) if !requirement.holds(state) => Err(
                ErrorKind::RequirementNotMet(requirement),
            ),
            _ => self.mutation.outcome(state),
        }
    }

    /// Playing the card starts by taking the card `id` from the hand.
    pub open spec fn begins_with_play_of(self, id: CardId) -> bool {
        self.mutation matches Mutation::Normal(NormalMutation::CompositeMutation(mutations))
            && mutations@.len() > 0 && mutations@[0] == NormalMutation::CardPlayMutation(id)
    }

    /// No state that playing the card passes through is too large for the machine.
    pub open spec fn fits(self, state: GameView) -> bool {
        match self.requirement {
            Some(requirement) if !requirement.holds(state) => true,
            _ => self.mutation.fits(state),
        }
    }

    /// Every generation that playing the card ends is paid for.
    pub open spec fn keeps_credit(self, state: GameView) -> bool {
        match self.requirement {
            Some(requirement) if !requirement.holds(state) => true,
            _ => self.mutation.keeps_credit(state),
        }
    }

    /// A card that does `mutation` when it is played, and asks `requirement` of the game.
    pub fn new(mutation: Mutation, requirement: Option<NewRequirement>) -> (card: Card)
        ensures
            card.mutation == mutation,
            card.requirement == requirement,
    {
        Card { mutation, requirement }
    }

    /// Plays the card, or leaves the game untouched and says why.
    pub fn play(&self, game: &mut Game) -> (result: ActionResult)
        requires
            old(game).wf(),
            self.fits(old(game)@),
        ensures
            final(game).wf(),
            settled(*old(game), *final(game), result, self.outcome(old(game)@)),
            old(game)@.solvent() && self.keeps_credit(old(game)@) ==> final(game)@.solvent(),
    {
        if let Some(requirement) = &self.requirement {
            if !requirement.is_fulfilled(game) {
                return InvalidActionError::new(ErrorKind::RequirementNotMet(*requirement)).into_err();
            }
        }
        self.mutation.apply(game)
    }

    /// Plays the card as `play` does where that fits the machine; where it does not,
    /// nothing is returned and the game is left untouched.
    pub fn checked_play(&self, game: &mut Game) -> (result: Option<ActionResult>)
        requires
            old(game).wf(),
        ensures
            final(game).wf(),
            match result {
                Some(done) => self.fits(old(game)@) && settled(
                    *old(game),
                    *final(game),
                    done,
                    self.outcome(old(game)@),
                ),
                None => !self.fits(old(game)@) && *final(game) == *old(game),
            },
    {
        if let Some(requirement) = &self.requirement {
            if !requirement.is_fulfilled(game) {
                return Some(
                    InvalidActionError::new(ErrorKind::RequirementNotMet(*requirement)).into_err(),
                );
            }
        }
        self.mutation.checked_apply(game)
    }
}

} // verus!
