use vstd::prelude::*;
use crate::requirement::NewRequirement;
use crate::resource::Resource;
use crate::tile::Tile;

verus! {

/// Why an action was refused.
#[derive(Debug, Clone, Copy, PartialEq, Eq, Structural)]
pub enum ErrorKind {
    /// No card has this number.
    UnknownCard,
    /// The game does not meet what the card requires.
    RequirementNotMet(NewRequirement),
    /// The stock of a resource would fall below zero.
    InsufficientResource(Resource),
    /// The production of a resource would fall below its floor.
    ProductionBelowFloor(Resource),
    /// The tile may not be placed at this row and column.
    IllegalTilePlacement(Tile, usize, usize),
    /// The card is not in the player's hand.
    CardNotInHand(i32),
    /// The last generation is over.
    GameOver,
    /// A tile waits to be placed, and the action is no placement.
    AwaitingPlacement,
    /// The draw pile holds fewer cards than must be drawn.
    DeckExhausted,
}

/// The error with which a refused action returns; the game is then as it was before.
#[derive(Debug, Clone, Copy, PartialEq, Eq, Structural)]
pub struct InvalidActionError {
    pub kind: ErrorKind,
}

/// What an action returns: nothing where it was carried out, the error where it was refused.
pub type ActionResult = Result<(), InvalidActionError>;

impl InvalidActionError {
    /// The error of kind `kind`.
    pub fn new(kind: ErrorKind) -> (error: InvalidActionError)
        ensures
            error.kind == kind,
    {
        InvalidActionError { kind }
    }

    /// The error as the result of a refused action.
    pub fn into_err(self) -> (result: ActionResult)
        ensures
            result == Err::<(), InvalidActionError>(self),
    {
        Err(self)
    }
}

/// The refusal of kind `kind`, as a result.
pub open spec fn refused(kind: ErrorKind) -> ActionResult {
    Err(InvalidActionError { kind })
}

} // verus!
