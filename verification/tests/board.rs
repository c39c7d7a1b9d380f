use ultimate_ttt::{CellState, IllegalMove, MetaBoard, Move, MoveEffect, Outcome, Player};

fn board_mv(meta: (u8, u8), local: (u8, u8), player: Player) -> Move {
    Move { meta_position: meta, local_position: local, player }
}

fn board_win_sub(board: &mut MetaBoard, meta: (u8, u8), player: Player) {
    for col in 0..3u8 {
        let effect = board.apply_move(board_mv(meta, (0, col), player)).unwrap();
        assert_eq!(effect.sub_board_completed.is_some(), col == 2);
    }
}

#[test]
fn new_board_is_empty() {
    let board = MetaBoard::new();
    assert_eq!(board.outcome(), None);
    assert!(!board.is_completed());
    for mr in 0..3u8 {
        for mc in 0..3u8 {
            let sub = board.sub_board((mr, mc)).unwrap();
            assert_eq!(sub.meta_position(), (mr, mc));
            assert_eq!(sub.state(), CellState::Empty);
            assert_eq!(sub.outcome(), None);
            assert!(!sub.is_completed());
            for lr in 0..3u8 {
                for lc in 0..3u8 {
                    let cell = sub.cell((lr, lc)).unwrap();
                    assert_eq!(cell.local_position, (lr, lc));
                    assert_eq!(cell.state, CellState::Empty);
                    assert_eq!(board.cell_state((mr, mc), (lr, lc)), Some(CellState::Empty));
                }
            }
        }
    }
    assert_eq!(board.state_map(), [[CellState::Empty; 3]; 3]);
}

#[test]
fn lookups_off_the_board_give_none() {
    let board = MetaBoard::new();
    assert!(board.sub_board((3, 0)).is_none());
    assert!(board.sub_board((0, 3)).is_none());
    assert_eq!(board.cell_state((3, 0), (0, 0)), None);
    assert_eq!(board.cell_state((0, 0), (0, 3)), None);
    assert!(board.sub_board((1, 1)).unwrap().cell((3, 3)).is_none());
}

#[test]
fn a_move_marks_its_cell_and_nothing_else() {
    let mut board = MetaBoard::new();
    let m = board_mv((1, 2), (0, 1), Player::O);
    let effect = board.apply_move(m).unwrap();
    assert_eq!(
        effect,
        MoveEffect { cell_changed: m, sub_board_completed: None, meta_board_completed: None }
    );
    for mr in 0..3u8 {
        for mc in 0..3u8 {
            for lr in 0..3u8 {
                for lc in 0..3u8 {
                    let expected = if (mr, mc, lr, lc) == (1, 2, 0, 1) {
                        CellState::O
                    } else {
                        CellState::Empty
                    };
                    assert_eq!(board.cell_state((mr, mc), (lr, lc)), Some(expected));
                }
            }
        }
    }
    assert_eq!(board.sub_board((1, 2)).unwrap().state(), CellState::Empty);
}

#[test]
fn the_board_does_not_look_at_turns() {
    let mut board = MetaBoard::new();
    assert!(board.apply_move(board_mv((0, 0), (0, 0), Player::X)).is_ok());
    assert!(board.apply_move(board_mv((2, 2), (1, 1), Player::X)).is_ok());
    assert!(board.apply_move(board_mv((1, 0), (2, 1), Player::X)).is_ok());
}

#[test]
fn a_move_off_the_board_is_refused() {
    let mut board = MetaBoard::new();
    let before = board;
    for m in [
        board_mv((3, 0), (0, 0), Player::X),
        board_mv((0, 3), (0, 0), Player::X),
        board_mv((0, 0), (3, 0), Player::X),
        board_mv((0, 0), (0, 3), Player::X),
        board_mv((255, 255), (255, 255), Player::O),
    ] {
        assert_eq!(board.check_move(&m), Err(IllegalMove::OutOfBounds));
        assert_eq!(board.apply_move(m), Err(IllegalMove::OutOfBounds));
        assert_eq!(board, before);
    }
}

#[test]
fn a_taken_cell_is_refused() {
    let mut board = MetaBoard::new();
    board.apply_move(board_mv((1, 1), (1, 1), Player::X)).unwrap();
    let before = board;
    assert_eq!(
        board.apply_move(board_mv((1, 1), (1, 1), Player::O)),
        Err(IllegalMove::CellOccupied)
    );
    assert_eq!(
        board.apply_move(board_mv((1, 1), (1, 1), Player::X)),
        Err(IllegalMove::CellOccupied)
    );
    assert_eq!(board, before);
    assert_eq!(board.cell_state((1, 1), (1, 1)), Some(CellState::X));
}

#[test]
fn three_in_a_row_complete_a_sub_board() {
    let mut board = MetaBoard::new();
    let first = board.apply_move(board_mv((0, 0), (0, 0), Player::X)).unwrap();
    let second = board.apply_move(board_mv((0, 0), (0, 1), Player::X)).unwrap();
    assert_eq!(first.sub_board_completed, None);
    assert_eq!(second.sub_board_completed, None);
    assert_eq!(board.sub_board((0, 0)).unwrap().state(), CellState::Empty);
    let third = board.apply_move(board_mv((0, 0), (0, 2), Player::X)).unwrap();
    assert_eq!(third.sub_board_completed, Some(Outcome::Won(Player::X)));
    assert_eq!(third.meta_board_completed, None);
    let sub = board.sub_board((0, 0)).unwrap();
    assert_eq!(sub.state(), CellState::X);
    assert_eq!(sub.outcome(), Some(Outcome::Won(Player::X)));
    assert!(sub.is_completed());
    assert_eq!(board.state_map()[0][0], CellState::X);
    assert_eq!(board.outcome(), None);
}

#[test]
fn a_completed_sub_board_takes_no_further_move() {
    let mut board = MetaBoard::new();
    board_win_sub(&mut board, (2, 1), Player::O);
    let before = board;
    for lr in 0..3u8 {
        for lc in 0..3u8 {
            for player in [Player::X, Player::O] {
                let m = board_mv((2, 1), (lr, lc), player);
                assert_eq!(board.apply_move(m), Err(IllegalMove::SubBoardCompleted));
                assert_eq!(board, before);
            }
        }
    }
    // Its empty cells stay empty, the others stay in play.
    assert_eq!(board.cell_state((2, 1), (1, 1)), Some(CellState::Empty));
    assert!(board.apply_move(board_mv((2, 0), (1, 1), Player::X)).is_ok());
}

#[test]
fn a_sub_board_filled_without_line_is_drawn() {
    let mut board = MetaBoard::new();
    // X O X / X O O / O X X
    let marks = [
        ((0, 0), Player::X),
        ((0, 1), Player::O),
        ((0, 2), Player::X),
        ((1, 0), Player::X),
        ((1, 1), Player::O),
        ((1, 2), Player::O),
        ((2, 0), Player::O),
        ((2, 1), Player::X),
    ];
    for (local, player) in marks {
        let effect = board.apply_move(board_mv((1, 1), local, player)).unwrap();
        assert_eq!(effect.sub_board_completed, None);
    }
    let last = board.apply_move(board_mv((1, 1), (2, 2), Player::X)).unwrap();
    assert_eq!(last.sub_board_completed, Some(Outcome::Drawn));
    let sub = board.sub_board((1, 1)).unwrap();
    assert_eq!(sub.state(), CellState::Completed);
    assert_eq!(sub.outcome(), Some(Outcome::Drawn));
    assert_eq!(
        sub.state_map(),
        [
            [CellState::X, CellState::O, CellState::X],
            [CellState::X, CellState::O, CellState::O],
            [CellState::O, CellState::X, CellState::X],
        ]
    );
    assert_eq!(board.state_map()[1][1], CellState::Completed);
}

#[test]
fn a_line_of_sub_boards_wins_the_game() {
    let mut board = MetaBoard::new();
    board_win_sub(&mut board, (0, 2), Player::O);
    board_win_sub(&mut board, (1, 1), Player::O);
    assert_eq!(board.outcome(), None);
    board.apply_move(board_mv((2, 0), (0, 0), Player::O)).unwrap();
    board.apply_move(board_mv((2, 0), (0, 1), Player::O)).unwrap();
    let last = board.apply_move(board_mv((2, 0), (0, 2), Player::O)).unwrap();
    assert_eq!(last.sub_board_completed, Some(Outcome::Won(Player::O)));
    assert_eq!(last.meta_board_completed, Some(Outcome::Won(Player::O)));
    assert_eq!(board.outcome(), Some(Outcome::Won(Player::O)));
    assert!(board.is_completed());
    assert_eq!(ultimate_ttt::evaluate(&board.state_map()), board.outcome());
}

#[test]
fn the_game_is_reported_as_ended_once() {
    let mut board = MetaBoard::new();
    board_win_sub(&mut board, (0, 0), Player::X);
    board_win_sub(&mut board, (0, 1), Player::X);
    board.apply_move(board_mv((0, 2), (0, 0), Player::X)).unwrap();
    board.apply_move(board_mv((0, 2), (0, 1), Player::X)).unwrap();
    let ending = board.apply_move(board_mv((0, 2), (0, 2), Player::X)).unwrap();
    assert_eq!(ending.meta_board_completed, Some(Outcome::Won(Player::X)));
    // The board alone still takes marks elsewhere, but reports no second end.
    board.apply_move(board_mv((1, 0), (0, 0), Player::O)).unwrap();
    board.apply_move(board_mv((1, 0), (0, 1), Player::O)).unwrap();
    let later = board.apply_move(board_mv((1, 0), (0, 2), Player::O)).unwrap();
    assert_eq!(later.sub_board_completed, Some(Outcome::Won(Player::O)));
    assert_eq!(later.meta_board_completed, None);
    assert_eq!(board.outcome(), Some(Outcome::Won(Player::X)));
}

#[test]
fn full_meta_board_without_line_is_drawn() {
    let mut board = MetaBoard::new();
    // X O X / X O O / O X X among the sub-boards.
    let owners = [
        ((0, 0), Player::X),
        ((0, 1), Player::O),
        ((0, 2), Player::X),
        ((1, 0), Player::X),
        ((1, 1), Player::O),
        ((1, 2), Player::O),
        ((2, 0), Player::O),
        ((2, 1), Player::X),
    ];
    for (meta, player) in owners {
        board_win_sub(&mut board, meta, player);
        assert_eq!(board.outcome(), None);
    }
    board.apply_move(board_mv((2, 2), (0, 0), Player::X)).unwrap();
    board.apply_move(board_mv((2, 2), (0, 1), Player::X)).unwrap();
    let last = board.apply_move(board_mv((2, 2), (0, 2), Player::X)).unwrap();
    assert_eq!(last.meta_board_completed, Some(Outcome::Drawn));
    assert_eq!(board.outcome(), Some(Outcome::Drawn));
    let before = board;
    for mr in 0..3u8 {
        for mc in 0..3u8 {
            for lr in 0..3u8 {
                for lc in 0..3u8 {
                    let m = board_mv((mr, mc), (lr, lc), Player::O);
                    assert_eq!(board.apply_move(m), Err(IllegalMove::SubBoardCompleted));
                }
            }
        }
    }
    assert_eq!(board, before);
}

#[test]
fn three_drawn_sub_boards_in_a_row_do_not_end_the_game() {
    let mut board = MetaBoard::new();
    let marks = [
        ((0, 0), Player::X),
        ((0, 1), Player::O),
        ((0, 2), Player::X),
        ((1, 0), Player::X),
        ((1, 1), Player::O),
        ((1, 2), Player::O),
        ((2, 0), Player::O),
        ((2, 1), Player::X),
        ((2, 2), Player::X),
    ];
    for col in 0..3u8 {
        for (local, player) in marks {
            board.apply_move(board_mv((0, col), local, player)).unwrap();
        }
        assert_eq!(board.sub_board((0, col)).unwrap().state(), CellState::Completed);
    }
    assert_eq!(board.outcome(), None);
    assert!(!board.is_completed());
}

#[test]
fn check_move_agrees_with_apply_move() {
    let mut board = MetaBoard::new();
    board_win_sub(&mut board, (0, 0), Player::X);
    board.apply_move(board_mv((1, 1), (1, 1), Player::O)).unwrap();
    for m in [
        board_mv((0, 0), (2, 2), Player::O),
        board_mv((1, 1), (1, 1), Player::X),
        board_mv((1, 1), (0, 0), Player::X),
        board_mv((4, 1), (0, 0), Player::X),
    ] {
        let mut copy = board;
        assert_eq!(board.check_move(&m), copy.apply_move(m).map(|_| ()));
    }
}
