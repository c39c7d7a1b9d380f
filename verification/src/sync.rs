//! The event synchronization layer of one participant: a queue of moves that
//! wait to be sent, a queue of moves that have arrived, and the rule that
//! only what has arrived is applied.
//!
//! A local click is checked against the game as this participant sees it and,
//! if it looks acceptable, queued for sending; the board does not change yet.
//! The relay hands every move back to every participant, the sender included,
//! and each applies what arrives, in the order of arrival, to its own copy of
//! the game. A move that is no longer acceptable when it arrives is dropped,
//! which also takes care of moves that are delivered twice.

use std::collections::VecDeque;
use vstd::prelude::*;
use crate::board::{raw_effect, Move, MoveEffect};
use crate::coordinator::{accepts, initial_game, lock_free, step, unlocked, Coordinator, GameView};
use crate::symbol::{Player, Position};

verus! {

/// What the participants send each other.
#[derive(Clone, Copy, Debug, PartialEq, Eq)]
pub enum GameEvent {
    /// A player has clicked a cell: the move that this asks for.
    ClickedCell(Move),
}

/// The events that wait to be sent, oldest first.
#[derive(Clone, Debug, PartialEq, Eq)]
pub struct SendEventQueue(pub VecDeque<GameEvent>);

/// The events that have arrived and wait to be applied, oldest first.
#[derive(Clone, Debug, PartialEq, Eq)]
pub struct ReceiveEventQueue(pub VecDeque<GameEvent>);

/// Which player this participant is. It is fixed for the whole game: the
/// host plays `X`, the one who joins plays `O`.
#[derive(Clone, Copy, Debug, PartialEq, Eq)]
pub struct Identity {
    pub local_player: Player,
}

/// The answer to a local click.
#[derive(Clone, Copy, Debug, PartialEq, Eq, Structural)]
pub enum ClickResult {
    /// The move looked acceptable and is queued for sending.
    Accepted,
    /// The move was not acceptable; nothing was queued.
    Rejected,
}

/// One participant's state as the contracts see it.
pub struct SyncView {
    pub identity: Player,
    pub game: GameView,
    pub outgoing: Seq<GameEvent>,
    pub incoming: Seq<GameEvent>,
}

impl GameEvent {
    pub open spec fn spec_as_move(&self) -> Move {
        match self {
            GameEvent::ClickedCell(m) => *m,
        }
    }

    /// The move that this event asks for.
    #[verifier::when_used_as_spec(spec_as_move)]
    pub fn as_move(&self) -> (r: Move)
        ensures
            r == self.spec_as_move(),
    {
        match self {
            GameEvent::ClickedCell(m) => *m,
        }
    }
}

/// The game after the coordinator was handed `events` one by one, oldest
/// first: each is applied if it is acceptable when its turn comes, and
/// dropped if not.
pub open spec fn run(v: GameView, events: Seq<GameEvent>) -> GameView
    decreases events.len(),
{
    if events.len() == 0 {
        v
    } else {
        run(step(v, events[0].as_move()), events.drop_first())
    }
}

/// The effects of those of `events` that were applied, in the same order.
pub open spec fn effects(v: GameView, events: Seq<GameEvent>) -> Seq<MoveEffect>
    decreases events.len(),
{
    if events.len() == 0 {
        Seq::empty()
    } else {
        let m = events[0].as_move();
        let rest = effects(step(v, m), events.drop_first());
        if accepts(v, m) {
            seq![raw_effect(v.board, m)] + rest
        } else {
            rest
        }
    }
}

/// The move that a click of `player` on the cell `local_position` of the
/// sub-board `meta_position` asks for.
pub open spec fn click_move(
    player: Player,
    meta_position: Position,
    local_position: Position,
) -> Move {
    Move { meta_position, local_position, player }
}

/// The click is acceptable: the coordinator would accept the move that it
/// asks for as the game stands here.
pub open spec fn accepts_click(
    v: SyncView,
    meta_position: Position,
    local_position: Position,
) -> bool {
    accepts(v.game, click_move(v.identity, meta_position, local_position))
}

/// The layer after an acceptable click: the move is queued for sending.
pub open spec fn after_click(
    v: SyncView,
    meta_position: Position,
    local_position: Position,
) -> SyncView {
    SyncView {
        outgoing: v.outgoing.push(
            GameEvent::ClickedCell(click_move(v.identity, meta_position, local_position)),
        ),
        ..v
    }
}

/// The participant's layer after a tick: the mandate re-validated, what had
/// arrived applied in order, the incoming queue empty.
pub open spec fn ticked(g: SyncView) -> SyncView {
    SyncView { game: run(unlocked(g.game), g.incoming), incoming: Seq::empty(), ..g }
}

/// The event synchronization layer of one participant.
#[derive(Clone, Debug, PartialEq, Eq)]
pub struct EventSync {
    identity: Identity,
    coordinator: Coordinator,
    outgoing: SendEventQueue,
    incoming: ReceiveEventQueue,
}

impl View for EventSync {
    type V = SyncView;

    closed spec fn view(&self) -> SyncView {
        SyncView {
            identity: self.identity.local_player,
            game: self.coordinator@,
            outgoing: self.outgoing.0@,
            incoming: self.incoming.0@,
        }
    }
}

impl EventSync {
    /// The coordinator is well formed.
    pub closed spec fn wf(&self) -> bool {
        self.coordinator.wf()
    }

    /// The layer of the participant who plays `local_player`, at the start
    /// of a game: nothing played, nothing queued.
    pub fn new(local_player: Player) -> (r: EventSync)
        ensures
            r.wf(),
            r@ == (SyncView {
                identity: local_player,
                game: initial_game(),
                outgoing: Seq::empty(),
                incoming: Seq::empty(),
            }),
    {
        EventSync {
            identity: Identity { local_player },
            coordinator: Coordinator::new(),
            outgoing: SendEventQueue(VecDeque::new()),
            incoming: ReceiveEventQueue(VecDeque::new()),
        }
    }

    /// Which player this participant is.
    pub fn identity(&self) -> (r: Identity)
        ensures
            r.local_player == self@.identity,
    {
        self.identity
    }

    /// The game as this participant sees it.
    pub fn coordinator(&self) -> (r: &Coordinator)
        requires
            self.wf(),
        ensures
            r.wf(),
            r@ == self@.game,
    {
        &self.coordinator
    }

    /// How many events wait to be sent.
    pub fn outgoing_len(&self) -> (r: usize)
        ensures
            r == self@.outgoing.len(),
    {
        self.outgoing.0.len()
    }

    /// How many events have arrived and wait to be applied.
    pub fn incoming_len(&self) -> (r: usize)
        ensures
            r == self@.incoming.len(),
    {
        self.incoming.0.len()
    }

    /// Takes a click of the local player on the cell `local_position` of the
    /// sub-board `meta_position`. Where the coordinator would accept that
    /// move as the game stands here, the move is queued for sending and the
    /// answer is `Accepted`; else nothing is queued and the answer is
    /// `Rejected`. The game itself does not change either way: a move is
    /// applied only when it arrives.
    pub fn submit_local_click(&mut self, meta_position: Position, local_position: Position) -> (r:
        ClickResult)
        requires
            old(self).wf(),
        ensures
            final(self).wf(),
            if accepts_click(old(self)@, meta_position, local_position) {
                &&& r == ClickResult::Accepted
                &&& final(self)@ == after_click(old(self)@, meta_position, local_position)
            } else {
                &&& r == ClickResult::Rejected
                &&& final(self)@ == old(self)@
            },
    {
        let m = Move { meta_position, local_position, player: self.identity.local_player };
        match self.coordinator.check_move(&m) {
            Ok(()) => {
                self.outgoing.0.push_back(GameEvent::ClickedCell(m));
                ClickResult::Accepted
            },
            Err(_) => ClickResult::Rejected,
        }
    }

    /// Hands over the events that wait to be sent, oldest first, and leaves
    /// the queue empty: no event is handed over twice.
    pub fn drain_outgoing(&mut self) -> (r: Vec<GameEvent>)
        requires
            old(self).wf(),
        ensures
            final(self).wf(),
            r@ == old(self)@.outgoing,
            final(self)@ == (SyncView { outgoing: Seq::empty(), ..old(self)@ }),
    {
        let mut taken: Vec<GameEvent> = Vec::new();
        while self.outgoing.0.len() > 0
            invariant
                self.identity == old(self).identity,
                self.coordinator == old(self).coordinator,
                self.incoming == old(self).incoming,
                taken@ + self.outgoing.0@ == old(self).outgoing.0@,
            decreases self.outgoing.0@.len(),
        {
            let ghost queued = self.outgoing.0@;
            let ghost sent = taken@;
            if let Some(event) = self.outgoing.0.pop_front() {
                taken.push(event);
                assert(taken@ + self.outgoing.0@ =~= sent + queued);
            }
        }
        assert(taken@ =~= taken@ + self.outgoing.0@);
        assert(self.outgoing.0@ =~= Seq::empty());
        taken
    }

    /// Takes an event that has arrived from the relay, be it the other
    /// player's or the echo of one's own, and queues it behind those that
    /// arrived before. Nothing is applied yet.
    pub fn on_event_received(&mut self, event: GameEvent)
        requires
            old(self).wf(),
        ensures
            final(self).wf(),
            final(self)@ == (SyncView { incoming: old(self)@.incoming.push(event), ..old(self)@ }),
    {
        self.incoming.0.push_back(event);
    }

    /// Hands the oldest event that has arrived to the coordinator and, where
    /// it was applied, adds its effect to `applied`.
    fn apply_front(&mut self, applied: &mut Vec<MoveEffect>)
        requires
            old(self).wf(),
            old(self)@.incoming.len() > 0,
        ensures
            final(self).wf(),
            lock_free(old(self)@.game) ==> lock_free(final(self)@.game),
            final(self)@.identity == old(self)@.identity,
            final(self)@.outgoing == old(self)@.outgoing,
            final(self)@.incoming == old(self)@.incoming.drop_first(),
            final(self)@.game == step(old(self)@.game, old(self)@.incoming[0].as_move()),
            final(applied)@ == old(applied)@ + effects(
                old(self)@.game,
                old(self)@.incoming.take(1),
            ),
    {
        let ghost game = self.coordinator@;
        let ghost queued = self.incoming.0@;
        if let Some(event) = self.incoming.0.pop_front() {
            assert(self.incoming.0@ =~= queued.drop_first());
            assert(queued.take(1).drop_first() =~= Seq::<GameEvent>::empty());
            assert(queued.take(1)[0] == event);
            assert(effects(step(game, event.as_move()), Seq::<GameEvent>::empty()) =~= Seq::<
                MoveEffect,
            >::empty());
            match self.coordinator.apply_move(event.as_move()) {
                Ok(effect) => {
                    applied.push(effect);
                    assert(applied@ =~= old(applied)@ + effects(game, queued.take(1)));
                },
                Err(_) => {
                    assert(applied@ =~= old(applied)@ + effects(game, queued.take(1)));
                },
            }
        }
    }

    /// Applies what has arrived: once per tick. First a mandate that names a
    /// sub-board out of play is dropped. Then each queued event, oldest
    /// first, is handed to the coordinator, which applies it if it is
    /// acceptable as the game stands by then and drops it if not. The queue
    /// is left empty. Returns the effects of the moves that were applied, in
    /// that order.
    pub fn apply_pending(&mut self) -> (r: Vec<MoveEffect>)
        requires
            old(self).wf(),
        ensures
            final(self).wf(),
            r@ == effects(unlocked(old(self)@.game), old(self)@.incoming),
            final(self)@ == ticked(old(self)@),
            lock_free(final(self)@.game),
    {
        let ghost start = unlocked(old(self)@.game);
        let ghost arrived = old(self)@.incoming;
        self.coordinator.prevent_available_grid_lock();
        let mut applied: Vec<MoveEffect> = Vec::new();
        let ghost mut done: int = 0;
        proof {
            lemma_run_split(start, arrived, 0);
            assert(arrived.take(0) =~= Seq::<GameEvent>::empty());
            assert(arrived.skip(0) =~= arrived);
        }
        while self.incoming.0.len() > 0
            invariant
                self.wf(),
                self@.identity == old(self)@.identity,
                self@.outgoing == old(self)@.outgoing,
                lock_free(self@.game),
                0 <= done <= arrived.len(),
                self@.incoming == arrived.skip(done),
                self@.game == run(start, arrived.take(done)),
                applied@ == effects(start, arrived.take(done)),
            decreases self.incoming.0@.len(),
        {
            let ghost game = self@.game;
            self.apply_front(&mut applied);
            proof {
                lemma_run_split(start, arrived.take(done + 1), done);
                assert(arrived.take(done + 1).take(done) =~= arrived.take(done));
                assert(arrived.take(done + 1).skip(done) =~= arrived.skip(done).take(1));
                assert(arrived.skip(done).drop_first() =~= arrived.skip(done + 1));
                lemma_run_one(game, arrived.skip(done).take(1));
                done = done + 1;
            }
        }
        proof {
            assert(self@.incoming =~= Seq::empty());
            assert(arrived.take(done) =~= arrived);
        }
        applied
    }
}

/// Handing over one event is one step of the coordinator.
pub proof fn lemma_run_one(v: GameView, events: Seq<GameEvent>)
    requires
        events.len() == 1,
    ensures
        run(v, events) == step(v, events[0].as_move()),
{
    reveal_with_fuel(run, 2);
}

/// Handing over a queue is handing over its first `n` events and then the
/// rest: the games agree, and the effects follow one another.
pub proof fn lemma_run_split(v: GameView, events: Seq<GameEvent>, n: int)
    requires
        0 <= n <= events.len(),
    ensures
        run(v, events) == run(run(v, events.take(n)), events.skip(n)),
        effects(v, events) == effects(v, events.take(n)) + effects(
            run(v, events.take(n)),
            events.skip(n),
        ),
    decreases n,
{
    if n == 0 {
        assert(events.take(0) =~= Seq::<GameEvent>::empty());
        assert(events.skip(0) =~= events);
        assert(effects(v, events) =~= Seq::<MoveEffect>::empty() + effects(v, events));
    } else {
        let m = events[0].as_move();
        let rest = events.drop_first();
        lemma_run_split(step(v, m), rest, n - 1);
        assert(events.take(n).drop_first() =~= rest.take(n - 1));
        assert(events.take(n)[0] == events[0]);
        assert(events.skip(n) =~= rest.skip(n - 1));
        let head = effects(step(v, m), rest.take(n - 1));
        let tail = effects(run(step(v, m), rest.take(n - 1)), rest.skip(n - 1));
        if accepts(v, m) {
            assert(seq![raw_effect(v.board, m)] + (head + tail) =~= (seq![raw_effect(v.board, m)]
                + head) + tail);
        }
    }
}

} // verus!
