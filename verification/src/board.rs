//! The board model: nine sub-boards of nine cells, and raw move application.
//!
//! The model knows two rules only: a mark goes into an empty cell, and into a
//! sub-board that is still in play. Whose turn it is and which sub-board is
//! mandated are the coordinator's business.

use vstd::prelude::*;
use crate::outcome::{evaluate, lemma_empty_map_is_open, map_of, outcome_of, StateMap};
use crate::symbol::{all_positions, in_bounds, valid_pos, CellState, Outcome, Player, Position};

verus! {

/// The marks of the whole board: for each sub-board, the map of its cells.
pub type BoardMap = Map<Position, StateMap>;

/// One cell of a sub-board.
#[derive(Clone, Copy, Debug, PartialEq, Eq)]
pub struct Cell {
    /// Where the cell lies inside its sub-board.
    pub local_position: Position,
    /// What the cell shows: `Empty`, `X` or `O`.
    pub state: CellState,
}

/// One of the nine inner boards.
#[derive(Clone, Copy, Debug, PartialEq, Eq)]
pub struct SubBoard {
    meta_position: Position,
    cells: [[Cell; 3]; 3],
    state: CellState,
}

/// The whole game board.
#[derive(Clone, Copy, Debug, PartialEq, Eq)]
pub struct MetaBoard {
    sub_boards: [[SubBoard; 3]; 3],
}

/// A mark by `player` in the cell `local_position` of the sub-board
/// `meta_position`. This is what the two participants exchange.
#[derive(Clone, Copy, Debug, PartialEq, Eq, Hash)]
pub struct Move {
    pub meta_position: Position,
    pub local_position: Position,
    pub player: Player,
}

/// What an applied move did to the board.
#[derive(Clone, Copy, Debug, PartialEq, Eq)]
pub struct MoveEffect {
    /// The move that was applied: its cell now shows its player's mark.
    pub cell_changed: Move,
    /// How the move's sub-board ended, if this move ended it.
    pub sub_board_completed: Option<Outcome>,
    /// How the game ended, if this move ended it.
    pub meta_board_completed: Option<Outcome>,
}

/// Why a move is not legal.
#[derive(Clone, Copy, Debug, PartialEq, Eq, Hash)]
pub enum IllegalMove {
    /// A coordinate of the move is 3 or more.
    OutOfBounds,
    /// The sub-board is won or drawn already.
    SubBoardCompleted,
    /// The cell holds a mark already.
    CellOccupied,
    /// Another sub-board is mandated, and it is still in play.
    NotMandated,
}

/// The board on which nobody has played.
pub open spec fn empty_board() -> BoardMap {
    Map::new(
        |p: Position| valid_pos(p),
        |p: Position| Map::new(|q: Position| valid_pos(q), |q: Position| CellState::Empty),
    )
}

/// Every sub-board and every cell of `v` is there, and every cell shows
/// `Empty` or a player's mark.
pub open spec fn board_map_wf(v: BoardMap) -> bool {
    &&& v.dom() == all_positions()
    &&& forall|p: Position| valid_pos(p) ==> (#[trigger] v[p]).dom() == all_positions()
    &&& forall|p: Position, q: Position|
        valid_pos(p) && valid_pos(q) ==> #[trigger] v[p][q] != CellState::Completed
}

/// How the sub-board at `p` has ended, if it has.
pub open spec fn sub_outcome(v: BoardMap, p: Position) -> Option<Outcome> {
    outcome_of(v[p])
}

/// The sub-board at `p` is won or drawn, and so out of play.
pub open spec fn sub_completed(v: BoardMap, p: Position) -> bool {
    sub_outcome(v, p) is Some
}

/// What each sub-board shows: the 3x3 map that decides the game.
pub open spec fn outcome_map(v: BoardMap) -> StateMap {
    Map::new(|p: Position| valid_pos(p), |p: Position| CellState::from_outcome(sub_outcome(v, p)))
}

/// How the game has ended, if it has: the evaluator's answer on what the nine
/// sub-boards show.
pub open spec fn meta_outcome(v: BoardMap) -> Option<Outcome> {
    outcome_of(outcome_map(v))
}

/// The reason for which the board refuses `m`, or `None` where it takes it.
pub open spec fn raw_check(v: BoardMap, m: Move) -> Option<IllegalMove> {
    if !valid_pos(m.meta_position) || !valid_pos(m.local_position) {
        Some(IllegalMove::OutOfBounds)
    } else if sub_completed(v, m.meta_position) {
        Some(IllegalMove::SubBoardCompleted)
    } else if v[m.meta_position][m.local_position] != CellState::Empty {
        Some(IllegalMove::CellOccupied)
    } else {
        None
    }
}

/// The board after `m`: its cell shows its player's mark, nothing else has
/// changed.
pub open spec fn play(v: BoardMap, m: Move) -> BoardMap {
    v.insert(m.meta_position, v[m.meta_position].insert(m.local_position, m.player.to_state()))
}

/// What `m` does to a board `v` that takes it.
pub open spec fn raw_effect(v: BoardMap, m: Move) -> MoveEffect {
    MoveEffect {
        cell_changed: m,
        sub_board_completed: sub_outcome(play(v, m), m.meta_position),
        meta_board_completed: if meta_outcome(v) is None {
            meta_outcome(play(v, m))
        } else {
            None
        },
    }
}

/// On the empty board every sub-board is in play and the game is open.
pub proof fn lemma_empty_board_in_play()
    ensures
        forall|p: Position| valid_pos(p) ==> !sub_completed(empty_board(), p),
        meta_outcome(empty_board()) is None,
{
    assert forall|p: Position| valid_pos(p) implies !sub_completed(empty_board(), p) by {
        lemma_empty_map_is_open(empty_board()[p]);
    }
    lemma_empty_map_is_open(outcome_map(empty_board()));
}

impl View for SubBoard {
    type V = StateMap;

    /// The marks of the nine cells, by position.
    closed spec fn view(&self) -> StateMap {
        Map::new(
            |p: Position| valid_pos(p),
            |p: Position| self.cells[p.0 as int][p.1 as int].state,
        )
    }
}

impl SubBoard {
    /// Each cell knows its place and holds `Empty` or a player's mark, and
    /// the sub-board shows what the evaluator says of its cells.
    pub closed spec fn wf(&self) -> bool {
        &&& valid_pos(self.meta_position)
        &&& forall|p: Position|
            valid_pos(p) ==> (#[trigger] self.cells[p.0 as int][p.1 as int]).local_position == p
        &&& forall|p: Position|
            valid_pos(p) ==> (#[trigger] self.cells[p.0 as int][p.1 as int]).state
                != CellState::Completed
        &&& self.state == CellState::from_outcome(outcome_of(self@))
    }

    pub closed spec fn spec_meta_position(&self) -> Position {
        self.meta_position
    }

    /// A well-formed sub-board lies on the meta-board, and its view holds the
    /// nine cells, none of them `Completed`.
    pub proof fn lemma_wf(&self)
        requires
            self.wf(),
        ensures
            valid_pos(self.spec_meta_position()),
            self@.dom() == all_positions(),
            forall|p: Position| valid_pos(p) ==> #[trigger] self@[p] != CellState::Completed,
    {
        assert(self@.dom() =~= all_positions());
        assert forall|p: Position| valid_pos(p) implies #[trigger] self@[p]
            != CellState::Completed by {
            assert(self.cells[p.0 as int][p.1 as int].state != CellState::Completed);
        }
    }

    /// A sub-board at `meta_position` with nine empty cells.
    fn new(meta_position: Position) -> (r: SubBoard)
        requires
            valid_pos(meta_position),
        ensures
            r.wf(),
            r.meta_position == meta_position,
            r.state == CellState::Empty,
            r@ == empty_board()[meta_position],
    {
        let e = CellState::Empty;
        let cells = [
            [
                Cell { local_position: (0, 0), state: e },
                Cell { local_position: (0, 1), state: e },
                Cell { local_position: (0, 2), state: e },
            ],
            [
                Cell { local_position: (1, 0), state: e },
                Cell { local_position: (1, 1), state: e },
                Cell { local_position: (1, 2), state: e },
            ],
            [
                Cell { local_position: (2, 0), state: e },
                Cell { local_position: (2, 1), state: e },
                Cell { local_position: (2, 2), state: e },
            ],
        ];
        let r = SubBoard { meta_position, cells, state: e };
        proof {
            assert(r@ =~= empty_board()[meta_position]);
            lemma_empty_map_is_open(r@);
        }
        r
    }

    /// Where this sub-board lies on the meta-board.
    #[verifier::when_used_as_spec(spec_meta_position)]
    pub fn meta_position(&self) -> (r: Position)
        ensures
            r == self.spec_meta_position(),
    {
        self.meta_position
    }

    /// What this sub-board shows: `Empty` in play, a player's mark once won,
    /// `Completed` once drawn.
    pub fn state(&self) -> (r: CellState)
        requires
            self.wf(),
        ensures
            r == CellState::from_outcome(outcome_of(self@)),
    {
        self.state
    }

    /// How this sub-board has ended, if it has.
    pub fn outcome(&self) -> (r: Option<Outcome>)
        requires
            self.wf(),
        ensures
            r == outcome_of(self@),
    {
        self.state.outcome()
    }

    /// Tells whether this sub-board is won or drawn.
    pub fn is_completed(&self) -> (r: bool)
        requires
            self.wf(),
        ensures
            r == outcome_of(self@) is Some,
    {
        self.state != CellState::Empty
    }

    /// The cell at `local_position`, or `None` where that lies off the board.
    pub fn cell(&self, local_position: Position) -> (r: Option<Cell>)
        requires
            self.wf(),
        ensures
            r is Some == valid_pos(local_position),
            r matches Some(c) ==> c.local_position == local_position && c.state
                == self@[local_position],
    {
        if in_bounds(local_position) {
            Some(self.cells[local_position.0 as usize][local_position.1 as usize])
        } else {
            None
        }
    }

    /// Puts the mark of `player` into the cell at `local_position` and
    /// brings what the sub-board shows up to date. Returns how the sub-board
    /// has ended, if it has.
    fn mark(&mut self, local_position: Position, player: Player) -> (r: Option<Outcome>)
        requires
            old(self).wf(),
            valid_pos(local_position),
        ensures
            final(self).wf(),
            final(self).meta_position == old(self).meta_position,
            final(self)@ == old(self)@.insert(local_position, player.to_state()),
            r == outcome_of(final(self)@),
    {
        self.cells[local_position.0 as usize][local_position.1 as usize].state = player.to_state();
        let r = evaluate(&self.state_map());
        self.state = CellState::from_outcome(r);
        proof {
            assert(self@ =~= old(self)@.insert(local_position, player.to_state()));
            assert forall|q: Position| valid_pos(q) implies {
                &&& (#[trigger] self.cells[q.0 as int][q.1 as int]).local_position == q
                &&& self.cells[q.0 as int][q.1 as int].state != CellState::Completed
            } by {
                assert(old(self).cells[q.0 as int][q.1 as int].local_position == q);
            }
        }
        r
    }

    /// The marks of the nine cells as an array, row first.
    pub fn state_map(&self) -> (r: [[CellState; 3]; 3])
        ensures
            map_of(r) == self@,
    {
        let c = &self.cells;
        let r = [
            [c[0][0].state, c[0][1].state, c[0][2].state],
            [c[1][0].state, c[1][1].state, c[1][2].state],
            [c[2][0].state, c[2][1].state, c[2][2].state],
        ];
        assert(map_of(r) =~= self@);
        r
    }
}

impl View for MetaBoard {
    type V = BoardMap;

    /// The marks of all cells: by sub-board, then by cell.
    closed spec fn view(&self) -> BoardMap {
        Map::new(
            |p: Position| valid_pos(p),
            |p: Position| self.sub_boards[p.0 as int][p.1 as int]@,
        )
    }
}

impl MetaBoard {
    /// Each sub-board is well formed and knows its place.
    pub closed spec fn wf(&self) -> bool {
        forall|p: Position|
            valid_pos(p) ==> {
                &&& (#[trigger] self.sub_boards[p.0 as int][p.1 as int]).wf()
                &&& self.sub_boards[p.0 as int][p.1 as int].meta_position == p
            }
    }

    /// The view of a well-formed board holds all nine sub-boards with all
    /// their cells, none of them `Completed`.
    pub proof fn lemma_wf(&self)
        requires
            self.wf(),
        ensures
            board_map_wf(self@),
    {
        assert(self@.dom() =~= all_positions());
        assert forall|p: Position| valid_pos(p) implies (#[trigger] self@[p]).dom()
            == all_positions() by {
            self.sub_boards[p.0 as int][p.1 as int].lemma_wf();
        }
        assert forall|p: Position, q: Position|
            valid_pos(p) && valid_pos(q) implies #[trigger] self@[p][q]
            != CellState::Completed by {
            self.sub_boards[p.0 as int][p.1 as int].lemma_wf();
        }
    }

    /// The board on which nobody has played.
    pub fn new() -> (r: MetaBoard)
        ensures
            r.wf(),
            r@ == empty_board(),
    {
        let r = MetaBoard {
            sub_boards: [
                [SubBoard::new((0, 0)), SubBoard::new((0, 1)), SubBoard::new((0, 2))],
                [SubBoard::new((1, 0)), SubBoard::new((1, 1)), SubBoard::new((1, 2))],
                [SubBoard::new((2, 0)), SubBoard::new((2, 1)), SubBoard::new((2, 2))],
            ],
        };
        assert(r@ =~= empty_board());
        r
    }

    /// The sub-board at `meta_position`, or `None` where that lies off the
    /// board.
    pub fn sub_board(&self, meta_position: Position) -> (r: Option<&SubBoard>)
        requires
            self.wf(),
        ensures
            r is Some == valid_pos(meta_position),
            r matches Some(s) ==> s.wf() && s@ == self@[meta_position] && s.meta_position()
                == meta_position,
    {
        if in_bounds(meta_position) {
            Some(&self.sub_boards[meta_position.0 as usize][meta_position.1 as usize])
        } else {
            None
        }
    }

    /// What the cell `local_position` of the sub-board `meta_position`
    /// shows, or `None` where either lies off the board.
    pub fn cell_state(&self, meta_position: Position, local_position: Position) -> (r: Option<
        CellState,
    >)
        requires
            self.wf(),
        ensures
            r is Some == (valid_pos(meta_position) && valid_pos(local_position)),
            r matches Some(s) ==> s == self@[meta_position][local_position],
    {
        if in_bounds(meta_position) && in_bounds(local_position) {
            let sub = &self.sub_boards[meta_position.0 as usize][meta_position.1 as usize];
            Some(sub.cells[local_position.0 as usize][local_position.1 as usize].state)
        } else {
            None
        }
    }

    /// What each of the nine sub-boards shows, as an array, row first.
    pub fn state_map(&self) -> (r: [[CellState; 3]; 3])
        requires
            self.wf(),
        ensures
            map_of(r) == outcome_map(self@),
    {
        let s = &self.sub_boards;
        let r = [
            [s[0][0].state, s[0][1].state, s[0][2].state],
            [s[1][0].state, s[1][1].state, s[1][2].state],
            [s[2][0].state, s[2][1].state, s[2][2].state],
        ];
        proof {
            assert forall|p: Position| valid_pos(p) implies #[trigger] map_of(r)[p]
                == outcome_map(self@)[p] by {
                assert(self.sub_boards[p.0 as int][p.1 as int].wf());
            }
            assert(map_of(r) =~= outcome_map(self@));
        }
        r
    }

    /// How the game has ended, if it has: the evaluator applied to what the
    /// nine sub-boards show.
    pub fn outcome(&self) -> (r: Option<Outcome>)
        requires
            self.wf(),
        ensures
            r == meta_outcome(self@),
    {
        evaluate(&self.state_map())
    }

    /// Tells whether the game is won or drawn.
    pub fn is_completed(&self) -> (r: bool)
        requires
            self.wf(),
        ensures
            r == meta_outcome(self@) is Some,
    {
        self.outcome().is_some()
    }

    /// Tells whether the board would take `m`, and if not, why.
    pub fn check_move(&self, m: &Move) -> (r: Result<(), IllegalMove>)
        requires
            self.wf(),
        ensures
            r is Ok <==> raw_check(self@, *m) is None,
            r matches Err(e) ==> raw_check(self@, *m) == Some(e),
    {
        if !in_bounds(m.meta_position) || !in_bounds(m.local_position) {
            return Err(IllegalMove::OutOfBounds);
        }
        let sub = &self.sub_boards[m.meta_position.0 as usize][m.meta_position.1 as usize];
        assert(sub.wf());
        if sub.state != CellState::Empty {
            Err(IllegalMove::SubBoardCompleted)
        } else if sub.cells[m.local_position.0 as usize][m.local_position.1 as usize].state
            != CellState::Empty {
            Err(IllegalMove::CellOccupied)
        } else {
            Ok(())
        }
    }

    /// Puts the mark of `m` on the board, if the cell is on the board and
    /// empty and its sub-board is still in play; else refuses `m` and leaves
    /// the board as it was.
    ///
    /// A sub-board goes out of play with the move that gives it a line or
    /// fills it. Neither the turn nor the mandated sub-board is looked at.
    pub fn apply_move(&mut self, m: Move) -> (r: Result<MoveEffect, IllegalMove>)
        requires
            old(self).wf(),
        ensures
            final(self).wf(),
            match r {
                Ok(effect) => {
                    &&& raw_check(old(self)@, m) is None
                    &&& final(self)@ == play(old(self)@, m)
                    &&& effect == raw_effect(old(self)@, m)
                },
                Err(e) => {
                    &&& raw_check(old(self)@, m) == Some(e)
                    &&& *final(self) == *old(self)
                },
            },
    {
        match self.check_move(&m) {
            Err(e) => {
                return Err(e);
            },
            Ok(()) => {},
        }
        let before = self.outcome();
        let mr = m.meta_position.0 as usize;
        let mc = m.meta_position.1 as usize;
        let mut sub = self.sub_boards[mr][mc];
        assert(sub.wf());
        let sub_board_completed = sub.mark(m.local_position, m.player);
        self.sub_boards[mr][mc] = sub;
        proof {
            assert(self@ =~= play(old(self)@, m));
            assert forall|p: Position| valid_pos(p) implies {
                &&& (#[trigger] self.sub_boards[p.0 as int][p.1 as int]).wf()
                &&& self.sub_boards[p.0 as int][p.1 as int].meta_position == p
            } by {
                assert(old(self).sub_boards[p.0 as int][p.1 as int].wf());
            }
        }
        let after = self.outcome();
        Ok(
            MoveEffect {
                cell_changed: m,
                sub_board_completed,
                meta_board_completed: if before.is_none() {
                    after
                } else {
                    None
                },
            },
        )
    }
}

} // verus!
