//! What holds of every game, whatever is played and whatever arrives.
//!
//! The laws are stated over the views that the contracts of the library use:
//! the marks on the board, the game as the coordinator sees it, and the
//! queues of a participant. Each is proved from the definitions alone.

use vstd::prelude::*;
use crate::board::{
    board_map_wf, lemma_empty_board_in_play, meta_outcome, outcome_map, play, raw_check,
    raw_effect, sub_completed, sub_outcome, BoardMap, Move, MoveEffect,
};
use crate::coordinator::{
    accepts, game_over, initial_game, is_target, legal_target_set, lock_free, next, step,
    unlocked, refusal, GameView, MoveError,
};
use crate::outcome::{
    anti_diagonal_owner, col_owner, diagonal_owner, has_line, lemma_open_has_empty,
    lemma_outcome_cases, lemma_winner_has_line, lemma_winner_iff_line, line_owner, outcome_of,
    row_owner, winner, StateMap,
};
use crate::session::{
    after_finish, after_signal, after_start, after_tick, may_follow, session_view_wf, GameState,
    SessionSignal, SessionView, StartClient,
};
use crate::symbol::{all_positions, valid_pos, CellState, Outcome, Player, Position};
use crate::sync::{effects, lemma_run_split, run, ticked, GameEvent, SyncView};

verus! {

/// The player to move after `n` moves were accepted, where `first` was to
/// move before them.
pub open spec fn player_after(first: Player, n: nat) -> Player {
    if n % 2 == 0 {
        first
    } else {
        first.get_next()
    }
}

/// Each of `events` is accepted when its turn comes.
pub open spec fn all_accepted(v: GameView, events: Seq<GameEvent>) -> bool
    decreases events.len(),
{
    events.len() > 0 ==> accepts(v, events[0].as_move()) && all_accepted(
        step(v, events[0].as_move()),
        events.drop_first(),
    )
}

/// The coordinator turns a move down exactly when it has a reason to: a
/// move is accepted if and only if none of the reasons holds of it.
pub proof fn law_rejection_has_a_reason(v: GameView, m: Move)
    ensures
        refusal(v, m) is None <==> accepts(v, m),
        refusal(v, m) == Some(MoveError::GameOver) <==> game_over(v),
        refusal(v, m) == Some(MoveError::OutOfTurn) ==> m.player != v.current_player,
        refusal(v, m) == Some(MoveError::DuplicateMove) ==> {
            v.board[m.meta_position][m.local_position] == m.player.to_state()
        },
{
}

/// The turn passes exactly when a move is accepted: an accepted move is the
/// move of the player whose turn it was and hands the turn to the other
/// player; a move that is turned down changes nothing at all.
pub proof fn law_turn_passes_on_acceptance(v: GameView, m: Move)
    ensures
        accepts(v, m) ==> m.player == v.current_player && step(v, m).current_player
            == v.current_player.get_next() && step(v, m).current_player != v.current_player,
        !accepts(v, m) ==> step(v, m) == v,
{
}

/// Whatever arrives, the player to move is decided by how many moves were
/// accepted: after an even number the same player as before, after an odd
/// number the other.
pub proof fn law_turn_follows_accepted_moves(v: GameView, events: Seq<GameEvent>)
    ensures
        run(v, events).current_player == player_after(
            v.current_player,
            effects(v, events).len(),
        ),
    decreases events.len(),
{
    if events.len() > 0 {
        let m = events[0].as_move();
        law_turn_follows_accepted_moves(step(v, m), events.drop_first());
    }
}

/// In a sequence of moves that are all accepted the players alternate
/// strictly: the moves are made in turn by the player who was to move and by
/// the other, and the turn ends with the one whom the count of moves gives.
pub proof fn law_turns_alternate(v: GameView, events: Seq<GameEvent>)
    requires
        all_accepted(v, events),
    ensures
        effects(v, events).len() == events.len(),
        run(v, events).current_player == player_after(v.current_player, events.len()),
        forall|i: int|
            0 <= i < events.len() ==> (#[trigger] events[i]).as_move().player == player_after(
                v.current_player,
                i as nat,
            ),
    decreases events.len(),
{
    if events.len() > 0 {
        let m = events[0].as_move();
        let rest = events.drop_first();
        law_turns_alternate(step(v, m), rest);
        assert forall|i: int| 0 <= i < events.len() implies {
            (#[trigger] events[i]).as_move().player == player_after(v.current_player, i as nat)
        } by {
            if i > 0 {
                assert(events[i] == rest[i - 1]);
            }
        }
    }
}

/// A sub-board that is out of play stays as it is: the board takes no move
/// into it, and a move that the board does take leaves its cells and its
/// outcome alone.
pub proof fn law_completed_sub_board_is_frozen(v: BoardMap, p: Position, m: Move)
    requires
        sub_completed(v, p),
    ensures
        m.meta_position == p ==> raw_check(v, m) is Some,
        raw_check(v, m) is None ==> play(v, m)[p] == v[p] && sub_outcome(play(v, m), p)
            == sub_outcome(v, p),
{
}

/// Whatever arrives afterwards, the coordinator accepts no move into a
/// sub-board that is out of play, and that sub-board keeps its cells and its
/// outcome.
pub proof fn law_completed_sub_board_stays_completed(
    v: GameView,
    events: Seq<GameEvent>,
    p: Position,
    m: Move,
)
    requires
        sub_completed(v.board, p),
    ensures
        run(v, events).board[p] == v.board[p],
        sub_outcome(run(v, events).board, p) == sub_outcome(v.board, p),
        m.meta_position == p ==> !accepts(run(v, events), m),
    decreases events.len(),
{
    if events.len() > 0 {
        let first = events[0].as_move();
        law_completed_sub_board_is_frozen(v.board, p, first);
        law_completed_sub_board_stays_completed(step(v, first), events.drop_first(), p, m);
    }
}

/// Where only one player holds lines of a map, the evaluator gives that
/// player as the winner, whatever the order in which it looks at the lines.
pub proof fn law_sole_line_owner_wins(m: StateMap, p: Player)
    requires
        has_line(m, p),
        !has_line(m, p.get_next()),
    ensures
        winner(m) == Some(p),
        outcome_of(m) == Some(Outcome::Won(p)),
{
    reveal(outcome_of);
    lemma_winner_iff_line(m);
    lemma_winner_has_line(m);
}

/// A line belongs to a player exactly when its three places show that
/// player's mark. A place that shows `Completed`, as a drawn sub-board does on
/// the meta-board, or `Empty` leaves the line without an owner.
pub proof fn law_line_needs_three_marks(a: CellState, b: CellState, c: CellState, p: Player)
    ensures
        line_owner(a, b, c) == Some(p) <==> a == p.to_state() && b == p.to_state() && c
            == p.to_state(),
        a.owner() is None || b.owner() is None || c.owner() is None ==> line_owner(a, b, c)
            is None,
{
}

/// A drawn sub-board fills its place on the meta-board and belongs to
/// nobody: a map that shows `Completed` everywhere is drawn, not won.
pub proof fn law_drawn_marks_form_no_line(m: StateMap)
    requires
        forall|p: Position| valid_pos(p) ==> m[p] == CellState::Completed,
    ensures
        outcome_of(m) == Some(Outcome::Drawn),
{
    reveal(outcome_of);
    assert(valid_pos((0u8, 0u8)) && valid_pos((0u8, 1u8)) && valid_pos((0u8, 2u8)));
    assert(valid_pos((1u8, 0u8)) && valid_pos((1u8, 1u8)) && valid_pos((2u8, 0u8)));
}

/// A player wins the game only by holding a line of sub-boards, and the game
/// is drawn only where all nine sub-boards are out of play and nobody holds a
/// line of them. While the game is open, a sub-board is still in play.
pub proof fn law_game_outcome_follows_sub_boards(v: BoardMap)
    ensures
        meta_outcome(v) matches Some(Outcome::Won(p)) ==> has_line(outcome_map(v), p),
        meta_outcome(v) == Some(Outcome::Drawn) ==> {
            &&& forall|p: Position| valid_pos(p) ==> sub_completed(v, p)
            &&& !has_line(outcome_map(v), Player::X)
            &&& !has_line(outcome_map(v), Player::O)
        },
        meta_outcome(v) is None ==> exists|p: Position| valid_pos(p) && !sub_completed(v, p),
{
    lemma_outcome_cases(outcome_map(v));
    if meta_outcome(v) == Some(Outcome::Drawn) {
        assert forall|p: Position| valid_pos(p) implies sub_completed(v, p) by {
            assert(outcome_map(v)[p] != CellState::Empty);
        }
    }
    if meta_outcome(v) is None {
        let p = lemma_open_has_empty(outcome_map(v));
        assert(!sub_completed(v, p));
    }
}

/// The game ends once: when it is over, nothing that arrives is applied, and
/// the game, its outcome included, stays as it is.
pub proof fn law_game_over_is_final(v: GameView, events: Seq<GameEvent>)
    requires
        game_over(v),
    ensures
        run(v, events) == v,
        effects(v, events) == Seq::<MoveEffect>::empty(),
    decreases events.len(),
{
    if events.len() > 0 {
        law_game_over_is_final(v, events.drop_first());
    }
}

/// The outcome of the game is the evaluator's answer on what the nine
/// sub-boards show. The move that ends the game reports that answer for the
/// board as it stands after the move, and whatever arrives later, the game
/// keeps that outcome.
pub proof fn law_game_outcome_is_evaluated_once(v: GameView, m: Move, later: Seq<GameEvent>)
    requires
        accepts(v, m),
        raw_effect(v.board, m).meta_board_completed is Some,
    ensures
        raw_effect(v.board, m).meta_board_completed == outcome_of(
            outcome_map(next(v, m).board),
        ),
        meta_outcome(run(next(v, m), later).board) == raw_effect(
            v.board,
            m,
        ).meta_board_completed,
        next(v, m).mandated_sub_board is None,
{
    law_game_over_is_final(next(v, m), later);
}

/// A mark, once made, is never changed: whatever is handed to the
/// coordinator, a cell that holds a mark holds the same mark afterwards.
pub proof fn law_marks_are_permanent(
    v: GameView,
    events: Seq<GameEvent>,
    meta_position: Position,
    local_position: Position,
)
    requires
        v.board[meta_position][local_position] != CellState::Empty,
    ensures
        run(v, events).board[meta_position][local_position]
            == v.board[meta_position][local_position],
    decreases events.len(),
{
    if events.len() > 0 {
        let m = events[0].as_move();
        law_marks_are_permanent(step(v, m), events.drop_first(), meta_position, local_position);
    }
}

/// After an accepted move the mandate never names a sub-board that is out of
/// play, and it stays so whatever arrives afterwards.
pub proof fn law_mandate_is_playable(v: GameView, m: Move, later: Seq<GameEvent>)
    requires
        accepts(v, m),
    ensures
        lock_free(next(v, m)),
        lock_free(run(next(v, m), later)),
{
    lemma_run_keeps_lock_free(next(v, m), later);
}

/// Handing events to the coordinator never makes the mandate name a
/// sub-board that is out of play.
pub proof fn lemma_run_keeps_lock_free(v: GameView, events: Seq<GameEvent>)
    requires
        lock_free(v),
    ensures
        lock_free(run(v, events)),
    decreases events.len(),
{
    if events.len() > 0 {
        lemma_run_keeps_lock_free(step(v, events[0].as_move()), events.drop_first());
    }
}

/// A move that was applied changes nothing when it is delivered again,
/// however much has arrived in between: the coordinator turns it down, a tick
/// that finds only the replay in the queue leaves the game as it was, and a
/// queue with the replay in front goes as the same queue without it.
pub proof fn law_replay_changes_nothing(
    v: GameView,
    m: Move,
    between: Seq<GameEvent>,
    rest: Seq<GameEvent>,
    g: SyncView,
)
    requires
        accepts(v, m),
        g.game == run(next(v, m), between),
        g.incoming == seq![GameEvent::ClickedCell(m)] + rest,
    ensures
        !accepts(g.game, m),
        step(g.game, m) == g.game,
        run(g.game, seq![GameEvent::ClickedCell(m)]) == g.game,
        effects(g.game, seq![GameEvent::ClickedCell(m)]) == Seq::<MoveEffect>::empty(),
        rest.len() == 0 ==> ticked(g).game == g.game,
        ticked(g).game == run(g.game, rest),
{
    let replay = seq![GameEvent::ClickedCell(m)];
    law_marks_are_permanent(next(v, m), between, m.meta_position, m.local_position);
    law_mandate_is_playable(v, m, between);
    assert(replay.drop_first() =~= Seq::<GameEvent>::empty());
    assert(run(g.game, replay) == g.game) by {
        reveal_with_fuel(run, 2);
    }
    assert(effects(g.game, replay) =~= Seq::<MoveEffect>::empty()) by {
        reveal_with_fuel(effects, 2);
    }
    assert(unlocked(g.game) == g.game);
    lemma_run_split(g.game, g.incoming, 1);
    assert(g.incoming.take(1) =~= replay);
    assert(g.incoming.skip(1) =~= rest);
}

/// Where an accepted move sends the opponent to a sub-board that is out of
/// play, no sub-board is mandated afterwards.
pub proof fn law_lock_prevention_clears_mandate(v: GameView, m: Move)
    requires
        accepts(v, m),
        sub_completed(play(v.board, m), m.local_position),
    ensures
        next(v, m).mandated_sub_board is None,
{
}

/// Where an accepted move sends the opponent to a sub-board that is out of
/// play and the game goes on, the opponent may play in every sub-board that
/// is still in play.
pub proof fn law_lock_prevention_frees_choice(v: GameView, m: Move)
    requires
        accepts(v, m),
        sub_completed(play(v.board, m), m.local_position),
        !game_over(next(v, m)),
    ensures
        forall|p: Position|
            valid_pos(p) && !sub_completed(next(v, m).board, p) ==> is_target(next(v, m), p),
        legal_target_set(next(v, m)) == Set::new(
            |p: Position| valid_pos(p) && !sub_completed(next(v, m).board, p),
        ),
{
    assert(legal_target_set(next(v, m)) =~= Set::new(
        |p: Position| valid_pos(p) && !sub_completed(next(v, m).board, p),
    ));
}

/// The sub-boards that the next move may go to are those into which the
/// player to move has a move that the coordinator accepts.
pub proof fn law_targets_are_where_moves_are(v: GameView, p: Position)
    ensures
        is_target(v, p) <==> exists|q: Position|
            accepts(
                v,
                Move { meta_position: p, local_position: q, player: v.current_player },
            ),
{
    if is_target(v, p) {
        let q = lemma_open_has_empty(v.board[p]);
        assert(accepts(v, Move { meta_position: p, local_position: q, player: v.current_player }));
    }
}

/// While the game goes on, the player to move has a move that the
/// coordinator accepts: nobody is ever locked out.
pub proof fn law_player_can_always_move(v: GameView)
    requires
        !game_over(v),
        v.mandated_sub_board matches Some(p) ==> valid_pos(p),
    ensures
        exists|m: Move| accepts(v, m),
        exists|p: Position| is_target(v, p),
{
    law_game_outcome_follows_sub_boards(v.board);
    let open = choose|p: Position| valid_pos(p) && !sub_completed(v.board, p);
    let p = if v.mandated_sub_board is Some && !sub_completed(
        v.board,
        v.mandated_sub_board.unwrap(),
    ) {
        v.mandated_sub_board.unwrap()
    } else {
        open
    };
    assert(is_target(v, p));
    law_targets_are_where_moves_are(v, p);
}

/// No player holds a line of `m` while the other holds one too.
pub open spec fn unambiguous(m: StateMap) -> bool {
    !(has_line(m, Player::X) && has_line(m, Player::O))
}

/// What holds of every game that is played from the start: the board is
/// whole, the mandate names a sub-board that is in play, and neither in a
/// sub-board nor among the sub-boards do both players hold a line.
pub open spec fn sound_game(v: GameView) -> bool {
    &&& board_map_wf(v.board)
    &&& v.mandated_sub_board matches Some(p) ==> valid_pos(p)
    &&& lock_free(v)
    &&& forall|p: Position| valid_pos(p) ==> unambiguous(#[trigger] v.board[p])
    &&& unambiguous(outcome_map(v.board))
}

/// A mark on a map without lines gives no line to the other player.
pub proof fn lemma_mark_gives_no_line_to_the_other(m: StateMap, q: Position, p: Player)
    requires
        !has_line(m, p.get_next()),
    ensures
        !has_line(m.insert(q, p.to_state()), p.get_next()),
{
    let after = m.insert(q, p.to_state());
    let other = p.get_next();
    if exists|r: u8| r < 3 && row_owner(after, r) == Some(other) {
        let r = choose|r: u8| r < 3 && row_owner(after, r) == Some(other);
        assert(row_owner(m, r) == Some(other));
    }
    if exists|c: u8| c < 3 && col_owner(after, c) == Some(other) {
        let c = choose|c: u8| c < 3 && col_owner(after, c) == Some(other);
        assert(col_owner(m, c) == Some(other));
    }
    if diagonal_owner(after) == Some(other) {
        assert(diagonal_owner(m) == Some(other));
    }
    if anti_diagonal_owner(after) == Some(other) {
        assert(anti_diagonal_owner(m) == Some(other));
    }
}

/// An entry that is no player's mark gives nobody a line.
pub proof fn lemma_no_mark_gives_no_line(m: StateMap, q: Position, s: CellState, p: Player)
    requires
        !has_line(m, p),
        s.owner() is None,
    ensures
        !has_line(m.insert(q, s), p),
{
    let after = m.insert(q, s);
    if exists|r: u8| r < 3 && row_owner(after, r) == Some(p) {
        let r = choose|r: u8| r < 3 && row_owner(after, r) == Some(p);
        assert(row_owner(m, r) == Some(p));
    }
    if exists|c: u8| c < 3 && col_owner(after, c) == Some(p) {
        let c = choose|c: u8| c < 3 && col_owner(after, c) == Some(p);
        assert(col_owner(m, c) == Some(p));
    }
    if diagonal_owner(after) == Some(p) {
        assert(diagonal_owner(m) == Some(p));
    }
    if anti_diagonal_owner(after) == Some(p) {
        assert(anti_diagonal_owner(m) == Some(p));
    }
}

/// The game before the first move is sound.
pub proof fn law_initial_game_is_sound()
    ensures
        sound_game(initial_game()),
{
    lemma_empty_board_in_play();
    let v = initial_game();
    assert(v.board.dom() =~= all_positions());
    assert forall|p: Position| valid_pos(p) implies (#[trigger] v.board[p]).dom()
        == all_positions() by {
        assert(v.board[p].dom() =~= all_positions());
    }
    assert forall|p: Position| valid_pos(p) implies unambiguous(#[trigger] v.board[p]) by {
        lemma_outcome_cases(v.board[p]);
    }
    lemma_outcome_cases(outcome_map(v.board));
}

/// A sound game stays sound whatever move is handed to the coordinator. In
/// particular the first line of a board is its only owner's: in play the
/// order in which the evaluator looks at the lines never matters.
pub proof fn law_step_keeps_game_sound(v: GameView, m: Move)
    requires
        sound_game(v),
    ensures
        sound_game(step(v, m)),
{
    if accepts(v, m) {
        let w = next(v, m);
        let target = m.meta_position;
        let mover = m.player;
        assert(w.board.dom() =~= all_positions());
        assert(w.board[target].dom() =~= all_positions());
        lemma_outcome_cases(v.board[target]);
        lemma_mark_gives_no_line_to_the_other(v.board[target], m.local_position, mover);
        assert forall|p: Position| valid_pos(p) implies unambiguous(#[trigger] w.board[p]) by {
            if p != target {
                assert(w.board[p] == v.board[p]);
            }
        }
        // Among the sub-boards only the entry of the move's own changes.
        let before = outcome_map(v.board);
        let shown = CellState::from_outcome(sub_outcome(w.board, target));
        assert(outcome_map(w.board) =~= before.insert(target, shown)) by {
            assert forall|p: Position| valid_pos(p) && p != target implies outcome_map(w.board)[p]
                == before[p] by {
                assert(w.board[p] == v.board[p]);
            }
        }
        lemma_outcome_cases(before);
        if shown.owner() is Some {
            let winner = shown.owner().unwrap();
            assert(shown == winner.to_state());
            lemma_mark_gives_no_line_to_the_other(before, target, winner);
        } else {
            lemma_no_mark_gives_no_line(before, target, shown, Player::X);
            lemma_no_mark_gives_no_line(before, target, shown, Player::O);
        }
    }
}

/// Every game that is played from the start is sound, whatever has arrived.
pub proof fn law_every_game_is_sound(events: Seq<GameEvent>)
    ensures
        sound_game(run(initial_game(), events)),
{
    law_initial_game_is_sound();
    lemma_run_keeps_game_sound(initial_game(), events);
}

/// Handing events to the coordinator keeps a sound game sound.
pub proof fn lemma_run_keeps_game_sound(v: GameView, events: Seq<GameEvent>)
    requires
        sound_game(v),
    ensures
        sound_game(run(v, events)),
    decreases events.len(),
{
    if events.len() > 0 {
        let m = events[0].as_move();
        law_step_keeps_game_sound(v, m);
        lemma_run_keeps_game_sound(step(v, m), events.drop_first());
    }
}

/// In a sound game the winner of a board is the one player who holds a line
/// of it, whichever line the evaluator comes to first.
pub proof fn law_winner_is_the_line_holder(v: GameView, p: Position, player: Player)
    requires
        sound_game(v),
        valid_pos(p),
    ensures
        sub_outcome(v.board, p) == Some(Outcome::Won(player)) <==> has_line(v.board[p], player),
        meta_outcome(v.board) == Some(Outcome::Won(player)) <==> has_line(
            outcome_map(v.board),
            player,
        ),
{
    lemma_outcome_cases(v.board[p]);
    lemma_outcome_cases(outcome_map(v.board));
    if has_line(v.board[p], player) {
        law_sole_line_owner_wins(v.board[p], player);
    }
    if has_line(outcome_map(v.board), player) {
        law_sole_line_owner_wins(outcome_map(v.board), player);
    }
}

/// Whatever happens to a session, its phase stays or goes on to one that
/// comes right after it: no phase is skipped, and none is gone back to but
/// the menu at the end.
pub proof fn law_phases_follow_in_order(
    v: SessionView,
    request: StartClient,
    signal: SessionSignal,
    now_ms: u64,
)
    ensures
        may_follow(v.state, after_start(v, request).state),
        may_follow(v.state, after_signal(v, signal).state),
        may_follow(v.state, after_finish(v, now_ms).state),
        may_follow(v.state, after_tick(v).state),
{
}

/// What holds of every session keeps holding whatever happens to it: the
/// game exists while it is started and played and never before, the role is
/// that of the game's player, and the settle timer runs while the session
/// winds up and at no other time.
pub proof fn law_session_stays_sound(
    v: SessionView,
    request: StartClient,
    signal: SessionSignal,
    now_ms: u64,
)
    requires
        session_view_wf(v),
    ensures
        session_view_wf(after_start(v, request)),
        session_view_wf(after_signal(v, signal)),
        session_view_wf(after_finish(v, now_ms)),
        session_view_wf(after_tick(v)),
{
}

/// The game is played in `InGame` only: in any other phase a tick leaves
/// the whole session as it is, and so the game in it.
pub proof fn law_game_runs_in_game_only(v: SessionView)
    requires
        v.state != GameState::InGame,
    ensures
        after_tick(v) == v,
{
}

} // verus!
