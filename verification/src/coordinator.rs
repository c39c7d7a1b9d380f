//! The turn and constraint coordinator: whose turn it is, which sub-board the
//! next move must go to, and which moves are legal.
//!
//! A move sends the opponent to the sub-board that lies where its cell lies.
//! The mandate is dropped where it would point at a sub-board that is out of
//! play, and where the move has just ended its own sub-board or the game.

use vstd::prelude::*;
use crate::board::{
    board_map_wf, empty_board, meta_outcome, play, raw_check, raw_effect, sub_completed, BoardMap,
    IllegalMove, MetaBoard, Move, MoveEffect,
};
use crate::symbol::{valid_pos, Outcome, Player, Position};

verus! {

/// Whose turn it is, and where the next move must go.
#[derive(Clone, Copy, Debug, PartialEq, Eq)]
pub struct TurnState {
    /// The player who moves next.
    pub current_player: Player,
    /// The sub-board that the next move must go to; `None` leaves the choice
    /// among all sub-boards that are still in play.
    pub mandated_sub_board: Option<Position>,
}

/// Why the coordinator turns a move down. Each of these means that the move
/// changes nothing; none is fatal.
#[derive(Clone, Copy, Debug, PartialEq, Eq)]
pub enum MoveError {
    /// The move breaks a rule of the board or goes to a sub-board other than
    /// the mandated one.
    IllegalMove(IllegalMove),
    /// It is the other player's turn.
    OutOfTurn,
    /// The game is won or drawn.
    GameOver,
    /// The cell already holds the mover's own mark: the move was applied
    /// before and has been delivered again.
    DuplicateMove,
}

/// A game as the rules see it: the marks on the board, the player to move and
/// the mandated sub-board.
pub struct GameView {
    pub board: BoardMap,
    pub current_player: Player,
    pub mandated_sub_board: Option<Position>,
}

/// The game before the first move: an empty board, `X` to move, no mandate.
pub open spec fn initial_game() -> GameView {
    GameView { board: empty_board(), current_player: Player::X, mandated_sub_board: None }
}

/// The game is won or drawn.
pub open spec fn game_over(v: GameView) -> bool {
    meta_outcome(v.board) is Some
}

/// The mandate lets a move go to the sub-board `target`: there is no
/// mandate, or it names `target`, or the sub-board it names is out of play.
pub open spec fn mandate_allows(v: GameView, target: Position) -> bool {
    match v.mandated_sub_board {
        None => true,
        Some(p) => p == target || sub_completed(v.board, p),
    }
}

/// The move is legal: its cell is on the board and empty, its sub-board is
/// in play, and the mandate allows that sub-board.
pub open spec fn legal(v: GameView, m: Move) -> bool {
    raw_check(v.board, m) is None && mandate_allows(v, m.meta_position)
}

/// The coordinator accepts the move: the game is not over, it is the
/// mover's turn, and the move is legal.
pub open spec fn accepts(v: GameView, m: Move) -> bool {
    !game_over(v) && m.player == v.current_player && legal(v, m)
}

/// The reason for which the coordinator turns `m` down, or `None` where it
/// accepts it. Where several reasons hold, the first of these is given: the
/// game is over; a coordinate is off the board; the cell holds the mover's
/// own mark; it is not the mover's turn; the sub-board is out of play; the
/// cell is taken; another sub-board is mandated.
pub open spec fn refusal(v: GameView, m: Move) -> Option<MoveError> {
    if game_over(v) {
        Some(MoveError::GameOver)
    } else if !valid_pos(m.meta_position) || !valid_pos(m.local_position) {
        Some(MoveError::IllegalMove(IllegalMove::OutOfBounds))
    } else if v.board[m.meta_position][m.local_position] == m.player.to_state() {
        Some(MoveError::DuplicateMove)
    } else if m.player != v.current_player {
        Some(MoveError::OutOfTurn)
    } else if raw_check(v.board, m) is Some {
        Some(MoveError::IllegalMove(raw_check(v.board, m).unwrap()))
    } else if !mandate_allows(v, m.meta_position) {
        Some(MoveError::IllegalMove(IllegalMove::NotMandated))
    } else {
        None
    }
}

/// The mandate after `m`, given the board `after` it: none where `m` has
/// ended its own sub-board or the game; else the sub-board that lies where
/// the cell of `m` lies, unless that one is out of play.
pub open spec fn next_mandate(after: BoardMap, m: Move) -> Option<Position> {
    if sub_completed(after, m.meta_position) || meta_outcome(after) is Some {
        None
    } else if sub_completed(after, m.local_position) {
        None
    } else {
        Some(m.local_position)
    }
}

/// The game after the accepted move `m`.
pub open spec fn next(v: GameView, m: Move) -> GameView {
    GameView {
        board: play(v.board, m),
        current_player: v.current_player.get_next(),
        mandated_sub_board: next_mandate(play(v.board, m), m),
    }
}

/// The game after `m` was handed to the coordinator: the next game where it
/// accepts `m`, the same game where it does not.
pub open spec fn step(v: GameView, m: Move) -> GameView {
    if accepts(v, m) {
        next(v, m)
    } else {
        v
    }
}

/// The mandate, if there is one, names a sub-board that is still in play.
pub open spec fn lock_free(v: GameView) -> bool {
    v.mandated_sub_board matches Some(p) ==> !sub_completed(v.board, p)
}

/// The same game with a mandate that names a sub-board out of play dropped.
pub open spec fn unlocked(v: GameView) -> GameView {
    GameView {
        board: v.board,
        current_player: v.current_player,
        mandated_sub_board: if lock_free(v) {
            v.mandated_sub_board
        } else {
            None
        },
    }
}

/// The next move may go to the sub-board at `p`: the game is not over, the
/// sub-board is in play, and the mandate allows it.
pub open spec fn is_target(v: GameView, p: Position) -> bool {
    valid_pos(p) && !game_over(v) && !sub_completed(v.board, p) && mandate_allows(v, p)
}

/// The sub-boards that the next move may go to.
pub open spec fn legal_target_set(v: GameView) -> Set<Position> {
    Set::new(|p: Position| is_target(v, p))
}

/// The place of a position in reading order: rows from the top, each from
/// the left.
pub open spec fn reading_index(p: Position) -> int {
    p.0 * 3 + p.1
}

/// The turn and constraint coordinator of one game.
#[derive(Clone, Copy, Debug, PartialEq, Eq)]
pub struct Coordinator {
    board: MetaBoard,
    turn: TurnState,
}

impl View for Coordinator {
    type V = GameView;

    closed spec fn view(&self) -> GameView {
        GameView {
            board: self.board@,
            current_player: self.turn.current_player,
            mandated_sub_board: self.turn.mandated_sub_board,
        }
    }
}

impl Coordinator {
    /// The board is well formed, and the mandate, if there is one, names a
    /// position on the board.
    pub closed spec fn wf(&self) -> bool {
        &&& self.board.wf()
        &&& self.turn.mandated_sub_board matches Some(p) ==> valid_pos(p)
    }

    /// The view of a well-formed coordinator holds a whole board, and its
    /// mandate, if there is one, names a position on the board.
    pub proof fn lemma_wf(&self)
        requires
            self.wf(),
        ensures
            board_map_wf(self@.board),
            self@.mandated_sub_board matches Some(p) ==> valid_pos(p),
    {
        self.board.lemma_wf();
    }

    /// A coordinator for a new game: an empty board, `X` to move, any
    /// sub-board open to the first move.
    pub fn new() -> (r: Coordinator)
        ensures
            r.wf(),
            r@ == initial_game(),
            lock_free(r@),
    {
        Coordinator {
            board: MetaBoard::new(),
            turn: TurnState { current_player: Player::X, mandated_sub_board: None },
        }
    }

    /// The board.
    pub fn board(&self) -> (r: &MetaBoard)
        requires
            self.wf(),
        ensures
            r.wf(),
            r@ == self@.board,
    {
        &self.board
    }

    /// The player to move and the mandate.
    pub fn turn(&self) -> (r: TurnState)
        ensures
            r.current_player == self@.current_player,
            r.mandated_sub_board == self@.mandated_sub_board,
    {
        self.turn
    }

    /// The player who moves next.
    pub fn current_player(&self) -> (r: Player)
        ensures
            r == self@.current_player,
    {
        self.turn.current_player
    }

    /// The sub-board that the next move must go to, if one is mandated.
    pub fn mandated_sub_board(&self) -> (r: Option<Position>)
        ensures
            r == self@.mandated_sub_board,
    {
        self.turn.mandated_sub_board
    }

    /// How the game has ended, if it has.
    pub fn outcome(&self) -> (r: Option<Outcome>)
        requires
            self.wf(),
        ensures
            r == meta_outcome(self@.board),
    {
        self.board.outcome()
    }

    /// Tells whether the game is won or drawn.
    pub fn is_game_over(&self) -> (r: bool)
        requires
            self.wf(),
        ensures
            r == game_over(self@),
    {
        self.board.is_completed()
    }

    /// Tells whether the mandate lets a move go to the sub-board `target`.
    fn mandate_allows(&self, target: Position) -> (r: bool)
        requires
            self.wf(),
        ensures
            r == mandate_allows(self@, target),
    {
        match self.turn.mandated_sub_board {
            None => true,
            Some(p) => {
                if p.0 == target.0 && p.1 == target.1 {
                    true
                } else {
                    match self.board.sub_board(p) {
                        Some(sub) => sub.is_completed(),
                        None => false,
                    }
                }
            },
        }
    }

    /// Tells whether the coordinator would accept `m`, and if not, why.
    pub fn check_move(&self, m: &Move) -> (r: Result<(), MoveError>)
        requires
            self.wf(),
        ensures
            r is Ok <==> accepts(self@, *m),
            r matches Err(e) ==> refusal(self@, *m) == Some(e),
            r is Ok ==> refusal(self@, *m) is None,
    {
        if self.board.is_completed() {
            return Err(MoveError::GameOver);
        }
        match self.board.cell_state(m.meta_position, m.local_position) {
            None => {
                return Err(MoveError::IllegalMove(IllegalMove::OutOfBounds));
            },
            Some(s) => {
                if s == m.player.to_state() {
                    return Err(MoveError::DuplicateMove);
                }
            },
        }
        if m.player != self.turn.current_player {
            return Err(MoveError::OutOfTurn);
        }
        match self.board.check_move(m) {
            Err(e) => {
                return Err(MoveError::IllegalMove(e));
            },
            Ok(()) => {},
        }
        if !self.mandate_allows(m.meta_position) {
            return Err(MoveError::IllegalMove(IllegalMove::NotMandated));
        }
        Ok(())
    }

    /// Drops the mandate where it names a sub-board that is out of play, so
    /// that the player to move is never left without a legal move. Nothing
    /// else changes.
    pub fn prevent_available_grid_lock(&mut self)
        requires
            old(self).wf(),
        ensures
            final(self).wf(),
            final(self)@ == unlocked(old(self)@),
            lock_free(final(self)@),
    {
        if let Some(p) = self.turn.mandated_sub_board {
            let out_of_play = match self.board.sub_board(p) {
                Some(sub) => sub.is_completed(),
                None => false,
            };
            if out_of_play {
                self.turn.mandated_sub_board = None;
            }
        }
    }

    /// Hands `m` to the coordinator. Where it accepts `m`, the mark goes on
    /// the board, the turn passes to the other player and the mandate is set
    /// anew; where it does not, nothing changes and the reason comes back.
    ///
    /// Once the game is won or drawn every move is turned down with
    /// `GameOver`.
    pub fn apply_move(&mut self, m: Move) -> (r: Result<MoveEffect, MoveError>)
        requires
            old(self).wf(),
        ensures
            final(self).wf(),
            final(self)@ == step(old(self)@, m),
            match r {
                Ok(effect) => {
                    &&& accepts(old(self)@, m)
                    &&& refusal(old(self)@, m) is None
                    &&& effect == raw_effect(old(self)@.board, m)
                    &&& lock_free(final(self)@)
                },
                Err(e) => {
                    &&& !accepts(old(self)@, m)
                    &&& refusal(old(self)@, m) == Some(e)
                    &&& *final(self) == *old(self)
                },
            },
    {
        match self.check_move(&m) {
            Err(e) => {
                return Err(e);
            },
            Ok(()) => {},
        }
        let effect = match self.board.apply_move(m) {
            Ok(effect) => effect,
            Err(e) => {
                return Err(MoveError::IllegalMove(e));
            },
        };
        if effect.sub_board_completed.is_some() || effect.meta_board_completed.is_some() {
            self.turn.mandated_sub_board = None;
        } else {
            self.turn.mandated_sub_board = Some(m.local_position);
            self.prevent_available_grid_lock();
        }
        self.turn.current_player = self.turn.current_player.get_next();
        Ok(effect)
    }

    /// The sub-boards that the next move may go to, in reading order. There
    /// is none once the game is over.
    pub fn legal_targets(&self) -> (r: Vec<Position>)
        requires
            self.wf(),
        ensures
            forall|p: Position| r@.contains(p) <==> is_target(self@, p),
            forall|i: int, j: int|
                0 <= i < j < r@.len() ==> reading_index(r@[i]) < reading_index(r@[j]),
            r@.to_set() == legal_target_set(self@),
    {
        let mut targets: Vec<Position> = Vec::new();
        if self.board.is_completed() {
            assert(targets@.to_set() =~= legal_target_set(self@));
            return targets;
        }
        let mut k: u8 = 0;
        while k < 9
            invariant
                k <= 9,
                self.wf(),
                !game_over(self@),
                forall|i: int|
                    0 <= i < targets@.len() ==> reading_index(#[trigger] targets@[i]) < k,
                forall|i: int| 0 <= i < targets@.len() ==> is_target(self@, #[trigger] targets@[i]),
                forall|p: Position|
                    is_target(self@, p) && reading_index(p) < k ==> targets@.contains(p),
                forall|i: int, j: int|
                    0 <= i < j < targets@.len() ==> reading_index(targets@[i]) < reading_index(
                        targets@[j],
                    ),
            decreases 9 - k,
        {
            let p: Position = (k / 3, k % 3);
            assert(valid_pos(p) && reading_index(p) == k);
            let open = match self.board.sub_board(p) {
                Some(sub) => !sub.is_completed(),
                None => false,
            };
            let ghost before = targets@;
            if open && self.mandate_allows(p) {
                targets.push(p);
                assert(targets@[before.len() as int] == p);
                assert forall|q: Position|
                    is_target(self@, q) && reading_index(q) < k + 1 implies targets@.contains(
                    q,
                ) by {
                    if reading_index(q) < k {
                        let i = choose|i: int| 0 <= i < before.len() && before[i] == q;
                        assert(targets@[i] == q);
                    } else {
                        assert(q == p);
                    }
                }
            } else {
                assert forall|q: Position|
                    is_target(self@, q) && reading_index(q) < k + 1 implies targets@.contains(
                    q,
                ) by {
                    if reading_index(q) >= k {
                        assert(q == p);
                    }
                }
            }
            k += 1;
        }
        proof {
            assert forall|p: Position| is_target(self@, p) implies targets@.contains(p) by {
                assert(reading_index(p) < 9);
            }
            assert(targets@.to_set() =~= legal_target_set(self@));
        }
        targets
    }
}

} // verus!
