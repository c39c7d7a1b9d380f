//! The outcome evaluator: line detection on a 3x3 map of states.
//!
//! The same evaluator serves both levels of the game. On a sub-board the map
//! holds the marks of its nine cells. On the meta-board it holds what each
//! sub-board shows: `Empty` while in play, a player's mark once won, and
//! `Completed` once drawn. A `Completed` entry fills its place but belongs to
//! no player, so three of them in a row are no line.

use vstd::prelude::*;
use crate::symbol::{valid_pos, CellState, Outcome, Player, Position};

verus! {

/// A 3x3 map of states, keyed by position.
pub type StateMap = Map<Position, CellState>;

/// The map that a 3x3 array of states stands for: row first, then column.
pub open spec fn map_of(a: [[CellState; 3]; 3]) -> StateMap {
    Map::new(|p: Position| valid_pos(p), |p: Position| a[p.0 as int][p.1 as int])
}

/// The player who holds all three of `a`, `b` and `c`, if one does.
pub open spec fn line_owner(a: CellState, b: CellState, c: CellState) -> Option<Player> {
    if a == b && b == c {
        a.owner()
    } else {
        None
    }
}

/// The owner of row `r`.
pub open spec fn row_owner(m: StateMap, r: u8) -> Option<Player> {
    line_owner(m[(r, 0u8)], m[(r, 1u8)], m[(r, 2u8)])
}

/// The owner of column `c`.
pub open spec fn col_owner(m: StateMap, c: u8) -> Option<Player> {
    line_owner(m[(0u8, c)], m[(1u8, c)], m[(2u8, c)])
}

/// The owner of the diagonal from `(0, 0)` to `(2, 2)`.
pub open spec fn diagonal_owner(m: StateMap) -> Option<Player> {
    line_owner(m[(0u8, 0u8)], m[(1u8, 1u8)], m[(2u8, 2u8)])
}

/// The owner of the diagonal from `(0, 2)` to `(2, 0)`.
pub open spec fn anti_diagonal_owner(m: StateMap) -> Option<Player> {
    line_owner(m[(0u8, 2u8)], m[(1u8, 1u8)], m[(2u8, 0u8)])
}

/// `p` holds at least one of the eight lines of `m`.
pub open spec fn has_line(m: StateMap, p: Player) -> bool {
    ||| exists|r: u8| r < 3 && row_owner(m, r) == Some(p)
    ||| exists|c: u8| c < 3 && col_owner(m, c) == Some(p)
    ||| diagonal_owner(m) == Some(p)
    ||| anti_diagonal_owner(m) == Some(p)
}

/// `first` if it names a player, else `second`.
pub open spec fn or_else(first: Option<Player>, second: Option<Player>) -> Option<Player> {
    if first is Some {
        first
    } else {
        second
    }
}

/// The owner of the first line that has one, looking at the rows from the
/// top, then the columns from the left, then the two diagonals.
///
/// Two lines with different owners never cross, so they are two rows or two
/// columns, and the order says which of them counts. In a game that is
/// played from the start this never arises: a board is out of play from its
/// first line on, as the laws of the library show.
pub open spec fn winner(m: StateMap) -> Option<Player> {
    or_else(
        row_owner(m, 0),
        or_else(
            row_owner(m, 1),
            or_else(
                row_owner(m, 2),
                or_else(
                    col_owner(m, 0),
                    or_else(
                        col_owner(m, 1),
                        or_else(
                            col_owner(m, 2),
                            or_else(diagonal_owner(m), anti_diagonal_owner(m)),
                        ),
                    ),
                ),
            ),
        ),
    )
}

/// No position of `m` is `Empty`.
pub open spec fn is_full(m: StateMap) -> bool {
    forall|p: Position| valid_pos(p) ==> m[p] != CellState::Empty
}

/// What the evaluator says of `m`: won by the owner of its first line; else
/// drawn if it is full; else still open.
#[verifier::opaque]
pub open spec fn outcome_of(m: StateMap) -> Option<Outcome> {
    match winner(m) {
        Some(p) => Some(Outcome::Won(p)),
        None => if is_full(m) {
            Some(Outcome::Drawn)
        } else {
            None
        },
    }
}

/// The player who holds all three states, if one does.
fn line_owner_of(a: CellState, b: CellState, c: CellState) -> (r: Option<Player>)
    ensures
        r == line_owner(a, b, c),
{
    if a == b && b == c {
        a.owner()
    } else {
        None
    }
}

/// Tells whether no entry of `state_map` is `Empty`.
fn full(state_map: &[[CellState; 3]; 3]) -> (r: bool)
    ensures
        r == is_full(map_of(*state_map)),
{
    let ghost m = map_of(*state_map);
    let mut row: u8 = 0;
    while row < 3
        invariant
            row <= 3,
            m == map_of(*state_map),
            forall|p: Position| valid_pos(p) && p.0 < row ==> m[p] != CellState::Empty,
        decreases 3 - row,
    {
        let mut col: u8 = 0;
        while col < 3
            invariant
                row < 3,
                col <= 3,
                m == map_of(*state_map),
                forall|p: Position| valid_pos(p) && p.0 < row ==> m[p] != CellState::Empty,
                forall|p: Position|
                    valid_pos(p) && p.0 == row && p.1 < col ==> m[p] != CellState::Empty,
            decreases 3 - col,
        {
            if state_map[row as usize][col as usize] == CellState::Empty {
                assert(valid_pos((row, col)) && m[(row, col)] == CellState::Empty);
                return false;
            }
            col += 1;
        }
        row += 1;
    }
    true
}

/// Evaluates a 3x3 map of states: `Some(Won(p))` where `p` owns its first
/// line, `Some(Drawn)` where it has no line and no `Empty` entry, `None`
/// where it is still open. It reads the map and changes nothing.
pub fn evaluate(state_map: &[[CellState; 3]; 3]) -> (r: Option<Outcome>)
    ensures
        r == outcome_of(map_of(*state_map)),
{
    let ghost m = map_of(*state_map);
    let mut i: u8 = 0;
    while i < 3
        invariant
            i <= 3,
            m == map_of(*state_map),
            forall|r: u8| r < i ==> row_owner(m, r) is None,
        decreases 3 - i,
    {
        let k = i as usize;
        let owner = line_owner_of(state_map[k][0], state_map[k][1], state_map[k][2]);
        assert(owner == row_owner(m, i));
        if let Some(p) = owner {
            proof {
                reveal(outcome_of);
            }
            return Some(Outcome::Won(p));
        }
        i += 1;
    }
    let mut j: u8 = 0;
    while j < 3
        invariant
            j <= 3,
            m == map_of(*state_map),
            forall|r: u8| r < 3 ==> row_owner(m, r) is None,
            forall|c: u8| c < j ==> col_owner(m, c) is None,
        decreases 3 - j,
    {
        let k = j as usize;
        let owner = line_owner_of(state_map[0][k], state_map[1][k], state_map[2][k]);
        assert(owner == col_owner(m, j));
        if let Some(p) = owner {
            proof {
                reveal(outcome_of);
            }
            return Some(Outcome::Won(p));
        }
        j += 1;
    }
    proof {
        reveal(outcome_of);
    }
    let diagonal = line_owner_of(state_map[0][0], state_map[1][1], state_map[2][2]);
    assert(diagonal == diagonal_owner(m));
    if let Some(p) = diagonal {
        return Some(Outcome::Won(p));
    }
    let anti_diagonal = line_owner_of(state_map[0][2], state_map[1][1], state_map[2][0]);
    assert(anti_diagonal == anti_diagonal_owner(m));
    if let Some(p) = anti_diagonal {
        return Some(Outcome::Won(p));
    }
    if full(state_map) {
        Some(Outcome::Drawn)
    } else {
        None
    }
}

/// The winner of a map holds one of its lines.
pub proof fn lemma_winner_has_line(m: StateMap)
    ensures
        winner(m) matches Some(p) ==> has_line(m, p),
{
    if winner(m) is Some {
        let p = winner(m).unwrap();
        if row_owner(m, 0) == Some(p) || row_owner(m, 1) == Some(p) || row_owner(m, 2) == Some(p) {
        } else if col_owner(m, 0) == Some(p) || col_owner(m, 1) == Some(p) || col_owner(m, 2)
            == Some(p) {
        } else {
        }
    }
}

/// A map has a winner exactly when a player holds a line of it.
pub proof fn lemma_winner_iff_line(m: StateMap)
    ensures
        winner(m) is Some <==> has_line(m, Player::X) || has_line(m, Player::O),
{
    lemma_winner_has_line(m);
    if has_line(m, Player::X) || has_line(m, Player::O) {
        let p = if has_line(m, Player::X) {
            Player::X
        } else {
            Player::O
        };
        if exists|r: u8| r < 3 && row_owner(m, r) == Some(p) {
            let r = choose|r: u8| r < 3 && row_owner(m, r) == Some(p);
            assert(r == 0 || r == 1 || r == 2);
        } else if exists|c: u8| c < 3 && col_owner(m, c) == Some(p) {
            let c = choose|c: u8| c < 3 && col_owner(m, c) == Some(p);
            assert(c == 0 || c == 1 || c == 2);
        }
    }
}

/// The evaluator gives an outcome exactly when a player holds a line or the
/// map is full, and `Drawn` only where no player holds a line.
pub proof fn lemma_outcome_cases(m: StateMap)
    ensures
        outcome_of(m) is Some <==> has_line(m, Player::X) || has_line(m, Player::O) || is_full(m),
        outcome_of(m) matches Some(Outcome::Won(p)) ==> has_line(m, p),
        outcome_of(m) == Some(Outcome::Drawn) <==> !has_line(m, Player::X) && !has_line(
            m,
            Player::O,
        ) && is_full(m),
{
    reveal(outcome_of);
    lemma_winner_iff_line(m);
    lemma_winner_has_line(m);
}

/// A map with no outcome yet has an `Empty` position.
pub proof fn lemma_open_has_empty(m: StateMap) -> (p: Position)
    requires
        outcome_of(m) is None,
    ensures
        valid_pos(p),
        m[p] == CellState::Empty,
{
    reveal(outcome_of);
    choose|p: Position| valid_pos(p) && m[p] == CellState::Empty
}

/// A map that holds only `Empty` has no outcome.
pub proof fn lemma_empty_map_is_open(m: StateMap)
    requires
        forall|p: Position| valid_pos(p) ==> m[p] == CellState::Empty,
    ensures
        outcome_of(m) is None,
{
    reveal(outcome_of);
    assert(valid_pos((0u8, 0u8)) && valid_pos((0u8, 1u8)) && valid_pos((0u8, 2u8)));
    assert(valid_pos((1u8, 0u8)) && valid_pos((1u8, 1u8)) && valid_pos((2u8, 0u8)));
}

} // verus!
