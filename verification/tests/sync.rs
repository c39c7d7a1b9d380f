use ultimate_ttt::{
    CellState, ClickResult, EventSync, GameEvent, Move, MoveEffect, Outcome, Player,
};

fn sy_ev(meta: (u8, u8), local: (u8, u8), player: Player) -> GameEvent {
    GameEvent::ClickedCell(Move { meta_position: meta, local_position: local, player })
}

/// What the relay does: every event goes to every participant, the sender
/// included.
fn sy_relay(from: &mut EventSync, to: &mut [&mut EventSync]) {
    for event in from.drain_outgoing() {
        from.on_event_received(event);
        for other in to.iter_mut() {
            other.on_event_received(event);
        }
    }
}

#[test]
fn new_layer_is_idle() {
    let sync = EventSync::new(Player::O);
    assert_eq!(sync.identity().local_player, Player::O);
    assert_eq!(sync.outgoing_len(), 0);
    assert_eq!(sync.incoming_len(), 0);
    assert_eq!(sync.coordinator().current_player(), Player::X);
    assert_eq!(*sync.coordinator(), ultimate_ttt::Coordinator::new());
}

#[test]
fn accepted_click_is_queued_but_not_applied() {
    let mut x = EventSync::new(Player::X);
    assert_eq!(x.submit_local_click((0, 0), (1, 1)), ClickResult::Accepted);
    assert_eq!(x.outgoing_len(), 1);
    assert_eq!(x.incoming_len(), 0);
    assert_eq!(x.coordinator().board().cell_state((0, 0), (1, 1)), Some(CellState::Empty));
    assert_eq!(x.coordinator().current_player(), Player::X);
    assert_eq!(x.drain_outgoing(), vec![sy_ev((0, 0), (1, 1), Player::X)]);
}

#[test]
fn click_out_of_turn_is_rejected() {
    let mut o = EventSync::new(Player::O);
    let before = o.clone();
    assert_eq!(o.submit_local_click((0, 0), (1, 1)), ClickResult::Rejected);
    assert_eq!(o, before);
    assert_eq!(o.outgoing_len(), 0);
    assert!(o.drain_outgoing().is_empty());
}

#[test]
fn click_on_an_illegal_target_is_rejected() {
    let mut x = EventSync::new(Player::X);
    let mut o = EventSync::new(Player::O);
    assert_eq!(x.submit_local_click((0, 0), (1, 1)), ClickResult::Accepted);
    sy_relay(&mut x, &mut [&mut o]);
    x.apply_pending();
    o.apply_pending();
    let before = o.clone();
    // Off the board, outside the mandated sub-board, and on a taken cell.
    assert_eq!(o.submit_local_click((3, 0), (0, 0)), ClickResult::Rejected);
    assert_eq!(o.submit_local_click((0, 0), (0, 0)), ClickResult::Rejected);
    assert_eq!(o.submit_local_click((2, 2), (1, 1)), ClickResult::Rejected);
    assert_eq!(o, before);
    assert_eq!(o.submit_local_click((1, 1), (1, 1)), ClickResult::Accepted);
    sy_relay(&mut o, &mut [&mut x]);
    x.apply_pending();
    o.apply_pending();
    let before = x.clone();
    assert_eq!(x.submit_local_click((1, 1), (1, 1)), ClickResult::Rejected);
    assert_eq!(x, before);
}

#[test]
fn drain_hands_each_event_over_once_and_in_order() {
    let mut x = EventSync::new(Player::X);
    assert_eq!(x.submit_local_click((0, 0), (1, 1)), ClickResult::Accepted);
    // Nothing is applied before the echo, so a second click looks fine too.
    assert_eq!(x.submit_local_click((2, 2), (0, 0)), ClickResult::Accepted);
    assert_eq!(x.outgoing_len(), 2);
    assert_eq!(
        x.drain_outgoing(),
        vec![sy_ev((0, 0), (1, 1), Player::X), sy_ev((2, 2), (0, 0), Player::X)]
    );
    assert_eq!(x.outgoing_len(), 0);
    assert!(x.drain_outgoing().is_empty());
}

#[test]
fn received_events_wait_for_the_tick() {
    let mut o = EventSync::new(Player::O);
    o.on_event_received(sy_ev((0, 0), (1, 1), Player::X));
    assert_eq!(o.incoming_len(), 1);
    assert_eq!(o.coordinator().current_player(), Player::X);
    let effects = o.apply_pending();
    assert_eq!(
        effects,
        vec![MoveEffect {
            cell_changed: Move {
                meta_position: (0, 0),
                local_position: (1, 1),
                player: Player::X
            },
            sub_board_completed: None,
            meta_board_completed: None,
        }]
    );
    assert_eq!(o.incoming_len(), 0);
    assert_eq!(o.coordinator().current_player(), Player::O);
    assert_eq!(o.coordinator().mandated_sub_board(), Some((1, 1)));
}

#[test]
fn echo_of_an_applied_move_is_a_no_op() {
    let mut x = EventSync::new(Player::X);
    assert_eq!(x.submit_local_click((0, 0), (1, 1)), ClickResult::Accepted);
    let sent = x.drain_outgoing();
    assert_eq!(sent, vec![sy_ev((0, 0), (1, 1), Player::X)]);
    x.on_event_received(sent[0]);
    assert_eq!(x.apply_pending().len(), 1);
    assert_eq!(x.coordinator().current_player(), Player::O);
    let after_first = x.clone();
    // The same move arrives again.
    x.on_event_received(sent[0]);
    assert!(x.apply_pending().is_empty());
    assert_eq!(x, after_first);
    assert_eq!(x.coordinator().current_player(), Player::O);
    assert_eq!(x.coordinator().board().cell_state((0, 0), (1, 1)), Some(CellState::X));
}

#[test]
fn duplicate_in_the_same_tick_is_dropped() {
    let mut o = EventSync::new(Player::O);
    let e = sy_ev((0, 0), (1, 1), Player::X);
    o.on_event_received(e);
    o.on_event_received(e);
    o.on_event_received(e);
    assert_eq!(o.apply_pending().len(), 1);
    assert_eq!(o.coordinator().current_player(), Player::O);
    assert_eq!(o.incoming_len(), 0);
}

#[test]
fn replay_after_later_moves_changes_nothing() {
    let mut a = EventSync::new(Player::X);
    let first = sy_ev((0, 0), (1, 1), Player::X);
    for e in [first, sy_ev((1, 1), (2, 0), Player::O), sy_ev((2, 0), (0, 0), Player::X)] {
        a.on_event_received(e);
    }
    assert_eq!(a.apply_pending().len(), 3);
    let before = a.clone();
    a.on_event_received(first);
    a.on_event_received(sy_ev((1, 1), (2, 0), Player::O));
    assert!(a.apply_pending().is_empty());
    assert_eq!(a, before);
}

#[test]
fn several_moves_are_applied_in_arrival_order_in_one_tick() {
    let mut o = EventSync::new(Player::O);
    // The reply arrives before the move it answers and is dropped; what
    // comes after is applied in order.
    o.on_event_received(sy_ev((1, 1), (2, 2), Player::O));
    o.on_event_received(sy_ev((0, 0), (1, 1), Player::X));
    o.on_event_received(sy_ev((1, 1), (0, 2), Player::O));
    o.on_event_received(sy_ev((0, 2), (0, 0), Player::X));
    let effects = o.apply_pending();
    assert_eq!(effects.len(), 3);
    assert_eq!(effects[0].cell_changed.local_position, (1, 1));
    assert_eq!(effects[1].cell_changed.local_position, (0, 2));
    assert_eq!(effects[2].cell_changed.local_position, (0, 0));
    assert_eq!(o.coordinator().board().cell_state((1, 1), (2, 2)), Some(CellState::Empty));
    assert_eq!(o.coordinator().current_player(), Player::O);
    assert_eq!(o.coordinator().mandated_sub_board(), Some((0, 0)));
}

#[test]
fn a_move_that_arrives_too_late_is_dropped() {
    let mut x = EventSync::new(Player::X);
    x.on_event_received(sy_ev((0, 0), (1, 1), Player::X));
    x.on_event_received(sy_ev((1, 1), (2, 2), Player::O));
    x.apply_pending();
    let before = x.clone();
    // The mandate has moved on to (2, 2): a move by X elsewhere is stale.
    x.on_event_received(sy_ev((1, 1), (0, 0), Player::X));
    // A forged move off the board changes nothing either.
    x.on_event_received(sy_ev((7, 7), (0, 0), Player::X));
    assert!(x.apply_pending().is_empty());
    assert_eq!(x, before);
}

#[test]
fn both_participants_reach_the_same_game() {
    let mut x = EventSync::new(Player::X);
    let mut o = EventSync::new(Player::O);
    let clicks = [
        ((1, 1), (1, 1)),
        ((1, 1), (0, 0)),
        ((0, 0), (0, 0)),
        ((0, 0), (1, 1)),
        ((1, 1), (2, 2)),
        ((2, 2), (0, 0)),
        ((0, 0), (0, 1)),
        ((0, 1), (0, 0)),
        ((0, 0), (0, 2)),
    ];
    let mut completed = Vec::new();
    for (i, (meta, local)) in clicks.iter().enumerate() {
        if i % 2 == 0 {
            assert_eq!(o.submit_local_click(*meta, *local), ClickResult::Rejected);
            assert_eq!(x.submit_local_click(*meta, *local), ClickResult::Accepted);
            sy_relay(&mut x, &mut [&mut o]);
        } else {
            assert_eq!(x.submit_local_click(*meta, *local), ClickResult::Rejected);
            assert_eq!(o.submit_local_click(*meta, *local), ClickResult::Accepted);
            sy_relay(&mut o, &mut [&mut x]);
        }
        let seen_by_x = x.apply_pending();
        let seen_by_o = o.apply_pending();
        assert_eq!(seen_by_x, seen_by_o);
        assert_eq!(seen_by_x.len(), 1);
        completed.push(seen_by_x[0].sub_board_completed);
        assert_eq!(x.coordinator(), o.coordinator());
    }
    assert_eq!(completed[8], Some(Outcome::Won(Player::X)));
    assert!(completed[..8].iter().all(|c| c.is_none()));
    assert_eq!(x.coordinator().mandated_sub_board(), None);
}

#[test]
fn conflicting_local_guesses_are_settled_by_arrival_order() {
    let mut x = EventSync::new(Player::X);
    let mut o = EventSync::new(Player::O);
    // X clicks twice before any echo comes back: both look fine locally.
    assert_eq!(x.submit_local_click((0, 0), (1, 1)), ClickResult::Accepted);
    assert_eq!(x.submit_local_click((0, 0), (2, 2)), ClickResult::Accepted);
    sy_relay(&mut x, &mut [&mut o]);
    let seen_by_x = x.apply_pending();
    let seen_by_o = o.apply_pending();
    // Only the first is applied; the second is out of turn by then.
    assert_eq!(seen_by_x.len(), 1);
    assert_eq!(seen_by_x, seen_by_o);
    assert_eq!(x.coordinator(), o.coordinator());
    assert_eq!(x.coordinator().board().cell_state((0, 0), (2, 2)), Some(CellState::Empty));
}

#[test]
fn event_carries_its_move() {
    let m = Move { meta_position: (2, 1), local_position: (0, 2), player: Player::O };
    assert_eq!(GameEvent::ClickedCell(m).as_move(), m);
}
