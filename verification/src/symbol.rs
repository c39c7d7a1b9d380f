//! Players, cell states, outcomes and positions.

use vstd::prelude::*;

verus! {

/// A coordinate `(row, column)` on a 3x3 board. It names a cell inside a
/// sub-board, or a sub-board inside the meta-board.
pub type Position = (u8, u8);

/// A position lies on the board when both coordinates are below 3.
pub open spec fn valid_pos(p: Position) -> bool {
    p.0 < 3 && p.1 < 3
}

/// The nine positions of a 3x3 board.
pub open spec fn all_positions() -> Set<Position> {
    Set::new(|p: Position| valid_pos(p))
}

/// Tells whether `p` lies on the board.
pub fn in_bounds(p: Position) -> (r: bool)
    ensures
        r == valid_pos(p),
{
    p.0 < 3 && p.1 < 3
}

/// One of the two participants.
#[derive(Clone, Copy, Debug, PartialEq, Eq, Hash, Structural)]
pub enum Player {
    X,
    O,
}

/// What a cell shows, and what a sub-board shows once it is out of play.
///
/// A cell is `Empty`, `X` or `O`. A sub-board is `Empty` while it is in play,
/// `X` or `O` once that player has won it, and `Completed` once it has filled
/// up with no line in it.
#[derive(Clone, Copy, Debug, PartialEq, Eq, Hash, Structural)]
pub enum CellState {
    X,
    O,
    Empty,
    Completed,
}

/// How a finished board ended.
#[derive(Clone, Copy, Debug, PartialEq, Eq, Hash, Structural)]
pub enum Outcome {
    Won(Player),
    Drawn,
}

impl Player {
    pub open spec fn spec_get_next(&self) -> Player {
        match self {
            Player::X => Player::O,
            Player::O => Player::X,
        }
    }

    /// The other player.
    #[verifier::when_used_as_spec(spec_get_next)]
    pub fn get_next(&self) -> (r: Player)
        ensures
            r == self.spec_get_next(),
    {
        match self {
            Player::X => Player::O,
            Player::O => Player::X,
        }
    }

    pub open spec fn spec_to_state(&self) -> CellState {
        match self {
            Player::X => CellState::X,
            Player::O => CellState::O,
        }
    }

    /// The mark that this player leaves in a cell.
    #[verifier::when_used_as_spec(spec_to_state)]
    pub fn to_state(&self) -> (r: CellState)
        ensures
            r == self.spec_to_state(),
    {
        match self {
            Player::X => CellState::X,
            Player::O => CellState::O,
        }
    }
}

impl CellState {
    pub open spec fn spec_from_outcome(outcome: Option<Outcome>) -> CellState {
        match outcome {
            None => CellState::Empty,
            Some(Outcome::Won(p)) => p.to_state(),
            Some(Outcome::Drawn) => CellState::Completed,
        }
    }

    /// The state that a board shows for `outcome`: `Empty` while it has none,
    /// the winner's mark once it is won, `Completed` once it is drawn.
    #[verifier::when_used_as_spec(spec_from_outcome)]
    pub fn from_outcome(outcome: Option<Outcome>) -> (r: CellState)
        ensures
            r == CellState::spec_from_outcome(outcome),
    {
        match outcome {
            None => CellState::Empty,
            Some(Outcome::Won(p)) => p.to_state(),
            Some(Outcome::Drawn) => CellState::Completed,
        }
    }

    pub open spec fn spec_outcome(&self) -> Option<Outcome> {
        match self {
            CellState::Empty => None,
            CellState::X => Some(Outcome::Won(Player::X)),
            CellState::O => Some(Outcome::Won(Player::O)),
            CellState::Completed => Some(Outcome::Drawn),
        }
    }

    /// The outcome that this state stands for; the inverse of
    /// [`CellState::from_outcome`].
    #[verifier::when_used_as_spec(spec_outcome)]
    pub fn outcome(&self) -> (r: Option<Outcome>)
        ensures
            r == self.spec_outcome(),
    {
        match self {
            CellState::Empty => None,
            CellState::X => Some(Outcome::Won(Player::X)),
            CellState::O => Some(Outcome::Won(Player::O)),
            CellState::Completed => Some(Outcome::Drawn),
        }
    }

    pub open spec fn spec_owner(&self) -> Option<Player> {
        match self {
            CellState::X => Some(Player::X),
            CellState::O => Some(Player::O),
            _ => None,
        }
    }

    /// The player whose mark this is, if it is a player's mark.
    #[verifier::when_used_as_spec(spec_owner)]
    pub fn owner(&self) -> (r: Option<Player>)
        ensures
            r == self.spec_owner(),
    {
        match self {
            CellState::X => Some(Player::X),
            CellState::O => Some(Player::O),
            _ => None,
        }
    }
}

} // verus!
