//! The session state machine: the coarse phases that a participant goes
//! through, from the menu into a game and back.
//!
//! The host goes `InMenu`, `CreatingServer`, `Connecting`, `StartingGame`,
//! `InGame`, `FinishingGame` and back to `InMenu`; the one who joins skips
//! `CreatingServer`. The game exists from `StartingGame` on and is played in
//! `InGame` only. Connections, sockets and clocks are not this module's: what
//! happens there is reported to it as signals and as the time of day.

use vstd::prelude::*;
use crate::board::MoveEffect;
use crate::coordinator::{game_over, initial_game, lock_free, unlocked};
use crate::symbol::{Player, Position};
use crate::sync::{
    accepts_click, after_click, effects, ticked, ClickResult, EventSync, GameEvent, Identity,
    SyncView,
};

verus! {

/// How long `FinishingGame` lasts, in milliseconds: time for late events to
/// arrive and for the result to be looked at.
pub const SETTLE_DELAY_MS: u64 = 2000;

/// The phase of a session.
#[derive(Clone, Copy, Debug, PartialEq, Eq, Hash, Structural)]
pub enum GameState {
    InMenu,
    Connecting,
    CreatingServer,
    StartingGame,
    InGame,
    FinishingGame,
}

/// What the menu asks for.
#[derive(Clone, Copy, Debug, PartialEq, Eq, Hash)]
pub enum StartClient {
    /// Nothing yet.
    NotStarted,
    /// A start was asked for, but the address given is none.
    IncorrectAddress,
    /// Join the game that is hosted at this IPv4 address, given by its four
    /// octets.
    Client([u8; 4]),
    /// Host a game.
    Server,
}

/// The settle timer of `FinishingGame`.
#[derive(Clone, Copy, Debug, PartialEq, Eq, Hash)]
pub enum FinishTimer {
    /// Not running.
    Stopped,
    /// Started at this time, in milliseconds.
    Finishing(u64),
}

/// What is reported to the session from outside.
#[derive(Clone, Copy, Debug, PartialEq, Eq, Hash)]
pub enum SessionSignal {
    /// The host's endpoint is up.
    EndpointCreated,
    /// A peer has joined the host's endpoint.
    PeerJoined,
    /// Connection setup has settled which player this participant is.
    HostRoleAssigned(Player),
    /// This participant's connection to the relay stands.
    ConnectionEstablished,
    /// The presentation has set up its board.
    BoardReady,
    /// The connection is gone.
    ConnectionLost,
}

/// A session as the contracts see it.
pub struct SessionView {
    pub state: GameState,
    pub start_client: StartClient,
    pub role: Option<Player>,
    pub finish_timer: FinishTimer,
    pub game: Option<SyncView>,
}

/// A session in the menu, with nothing asked for and no game.
pub open spec fn initial_session() -> SessionView {
    SessionView {
        state: GameState::InMenu,
        start_client: StartClient::NotStarted,
        role: None,
        finish_timer: FinishTimer::Stopped,
        game: None,
    }
}

/// A participant's layer at the start of a game.
pub open spec fn fresh_game(local_player: Player) -> SyncView {
    SyncView {
        identity: local_player,
        game: initial_game(),
        outgoing: Seq::empty(),
        incoming: Seq::empty(),
    }
}

/// A connection is being set up.
pub open spec fn setting_up(state: GameState) -> bool {
    state == GameState::CreatingServer || state == GameState::Connecting
}

/// The game exists and is not yet being wound up.
pub open spec fn playing(state: GameState) -> bool {
    state == GameState::StartingGame || state == GameState::InGame
}

/// The phase `to` is `from` or comes right after it: from the menu one goes
/// on to host or to join, the host goes on to connect, a connection leads to
/// the start of the game and that to the game; the game, and a connection
/// that is lost before it, lead to the winding up, and that leads back to the
/// menu.
pub open spec fn may_follow(from: GameState, to: GameState) -> bool {
    from == to || match from {
        GameState::InMenu => to == GameState::Connecting || to == GameState::CreatingServer,
        GameState::CreatingServer => to == GameState::Connecting || to
            == GameState::FinishingGame,
        GameState::Connecting => to == GameState::StartingGame || to == GameState::FinishingGame,
        GameState::StartingGame => to == GameState::InGame || to == GameState::FinishingGame,
        GameState::InGame => to == GameState::FinishingGame,
        GameState::FinishingGame => to == GameState::InMenu,
    }
}

/// What holds of every session: the game exists in `StartingGame` and
/// `InGame` and not before; it is played by the player that the role names;
/// the settle timer runs in `FinishingGame` only; in the menu no role is
/// assigned.
pub open spec fn session_view_wf(v: SessionView) -> bool {
    &&& playing(v.state) ==> v.game is Some
    &&& (v.state == GameState::InMenu || setting_up(v.state)) ==> v.game is None
    &&& v.game matches Some(g) ==> v.role == Some(g.identity)
    &&& v.state != GameState::FinishingGame ==> v.finish_timer == FinishTimer::Stopped
    &&& v.state == GameState::InMenu ==> v.role is None
}

impl StartClient {
    pub open spec fn spec_from_menu(is_server: bool, address: Option<[u8; 4]>) -> StartClient {
        if is_server {
            StartClient::Server
        } else {
            match address {
                Some(octets) => StartClient::Client(octets),
                None => StartClient::IncorrectAddress,
            }
        }
    }

    /// What a press of the menu's start button asks for: to host where
    /// `is_server` is set; else to join at `address`, or `IncorrectAddress`
    /// where the text that was typed is no address.
    #[verifier::when_used_as_spec(spec_from_menu)]
    pub fn from_menu(is_server: bool, address: Option<[u8; 4]>) -> (r: StartClient)
        ensures
            r == StartClient::spec_from_menu(is_server, address),
    {
        if is_server {
            StartClient::Server
        } else {
            match address {
                Some(octets) => StartClient::Client(octets),
                None => StartClient::IncorrectAddress,
            }
        }
    }

    pub open spec fn spec_target(&self) -> GameState {
        match self {
            StartClient::Client(_) => GameState::Connecting,
            StartClient::Server => GameState::CreatingServer,
            _ => GameState::InMenu,
        }
    }

    /// The phase that the menu goes to on this request: `Connecting` to
    /// join, `CreatingServer` to host, and no further than the menu on
    /// anything else.
    #[verifier::when_used_as_spec(spec_target)]
    pub fn target(&self) -> (r: GameState)
        ensures
            r == self.spec_target(),
    {
        match self {
            StartClient::Client(_) => GameState::Connecting,
            StartClient::Server => GameState::CreatingServer,
            _ => GameState::InMenu,
        }
    }

    pub open spec fn spec_role(&self) -> Option<Player> {
        match self {
            StartClient::Server => Some(Player::X),
            StartClient::Client(_) => Some(Player::O),
            _ => None,
        }
    }

    /// The player that this request makes of the participant: the host
    /// plays `X`, the one who joins plays `O`.
    #[verifier::when_used_as_spec(spec_role)]
    pub fn role(&self) -> (r: Option<Player>)
        ensures
            r == self.spec_role(),
    {
        match self {
            StartClient::Server => Some(Player::X),
            StartClient::Client(_) => Some(Player::O),
            _ => None,
        }
    }

    pub open spec fn spec_server_address(&self) -> Option<[u8; 4]> {
        match self {
            StartClient::Server => Some([127u8, 0u8, 0u8, 1u8]),
            StartClient::Client(octets) => Some(*octets),
            _ => None,
        }
    }

    /// The address at which the relay is to be reached: the host reaches
    /// its own at `127.0.0.1`, the one who joins reaches the address given.
    #[verifier::when_used_as_spec(spec_server_address)]
    pub fn server_address(&self) -> (r: Option<[u8; 4]>)
        ensures
            r == self.spec_server_address(),
    {
        match self {
            StartClient::Server => Some([127, 0, 0, 1]),
            StartClient::Client(octets) => Some(*octets),
            _ => None,
        }
    }
}

/// The session after the menu asked for `request`: in the menu the request
/// is recorded and the phase goes where the request leads; in any other
/// phase nothing changes.
pub open spec fn after_start(v: SessionView, request: StartClient) -> SessionView {
    if v.state == GameState::InMenu {
        SessionView { state: request.target(), start_client: request, ..v }
    } else {
        v
    }
}

/// The phase after `signal`.
pub open spec fn signal_target(
    state: GameState,
    role: Option<Player>,
    signal: SessionSignal,
) -> GameState {
    match signal {
        SessionSignal::EndpointCreated => state,
        SessionSignal::PeerJoined => if state == GameState::CreatingServer {
            GameState::Connecting
        } else {
            state
        },
        SessionSignal::HostRoleAssigned(_) => state,
        SessionSignal::ConnectionEstablished => if state == GameState::Connecting && role is Some {
            GameState::StartingGame
        } else {
            state
        },
        SessionSignal::BoardReady => if state == GameState::StartingGame {
            GameState::InGame
        } else {
            state
        },
        SessionSignal::ConnectionLost => if setting_up(state) || playing(state) {
            GameState::FinishingGame
        } else {
            state
        },
    }
}

/// The session after `signal`. A role is taken while the connection is set
/// up, and at no other time. The game is made when the phase goes to
/// `StartingGame`, for the player that the role names.
pub open spec fn after_signal(v: SessionView, signal: SessionSignal) -> SessionView {
    let state = signal_target(v.state, v.role, signal);
    SessionView {
        state,
        role: match signal {
            SessionSignal::HostRoleAssigned(p) => if setting_up(v.state) {
                Some(p)
            } else {
                v.role
            },
            _ => v.role,
        },
        game: if state == GameState::StartingGame && v.state == GameState::Connecting {
            Some(fresh_game(v.role.unwrap()))
        } else {
            v.game
        },
        ..v
    }
}

/// The settle delay that began at `start` is over at `now`. A clock that
/// has gone back counts as no time gone by.
pub open spec fn settled(start: u64, now: u64) -> bool {
    now - start > SETTLE_DELAY_MS
}

/// The session after a look at the clock at `now_ms`. In `FinishingGame`
/// the first look starts the timer and forgets what the menu asked for; a
/// look after the settle delay ends the session: back to the menu, with no
/// role and no game. In any other phase nothing changes.
pub open spec fn after_finish(v: SessionView, now_ms: u64) -> SessionView {
    if v.state != GameState::FinishingGame {
        v
    } else {
        match v.finish_timer {
            FinishTimer::Stopped => SessionView {
                start_client: StartClient::NotStarted,
                finish_timer: FinishTimer::Finishing(now_ms),
                ..v
            },
            FinishTimer::Finishing(start) => if settled(start, now_ms) {
                SessionView {
                    state: GameState::InMenu,
                    role: None,
                    finish_timer: FinishTimer::Stopped,
                    game: None,
                    ..v
                }
            } else {
                v
            },
        }
    }
}

/// The session after a tick. The game is played in `InGame` only, and the
/// tick that ends the game takes the session to `FinishingGame`.
pub open spec fn after_tick(v: SessionView) -> SessionView {
    if v.state == GameState::InGame && v.game is Some {
        let g = ticked(v.game.unwrap());
        SessionView {
            state: if game_over(g.game) {
                GameState::FinishingGame
            } else {
                GameState::InGame
            },
            game: Some(g),
            ..v
        }
    } else {
        v
    }
}

/// One participant's session: its phase, what the menu asked for, its role,
/// and, while there is one, its game.
#[derive(Clone, Debug, PartialEq, Eq)]
pub struct Session {
    state: GameState,
    start_client: StartClient,
    role: Option<Player>,
    finish_timer: FinishTimer,
    game: Option<EventSync>,
}

impl View for Session {
    type V = SessionView;

    closed spec fn view(&self) -> SessionView {
        SessionView {
            state: self.state,
            start_client: self.start_client,
            role: self.role,
            finish_timer: self.finish_timer,
            game: match self.game {
                Some(g) => Some(g@),
                None => None,
            },
        }
    }
}

impl Session {
    /// The view is well formed, and so is the game, if there is one.
    pub closed spec fn wf(&self) -> bool {
        &&& session_view_wf(self@)
        &&& self.game matches Some(g) ==> g.wf()
    }

    /// What holds of every session holds of the view of a well-formed one.
    pub proof fn lemma_wf(&self)
        requires
            self.wf(),
        ensures
            session_view_wf(self@),
    {
    }

    /// A session in the menu.
    pub fn new() -> (r: Session)
        ensures
            r.wf(),
            r@ == initial_session(),
    {
        Session {
            state: GameState::InMenu,
            start_client: StartClient::NotStarted,
            role: None,
            finish_timer: FinishTimer::Stopped,
            game: None,
        }
    }

    /// The phase.
    pub fn state(&self) -> (r: GameState)
        ensures
            r == self@.state,
    {
        self.state
    }

    /// What the menu asked for last.
    pub fn start_client(&self) -> (r: StartClient)
        ensures
            r == self@.start_client,
    {
        self.start_client
    }

    /// Which player this participant is, once that is settled.
    pub fn identity(&self) -> (r: Option<Identity>)
        ensures
            r is Some <==> self@.role is Some,
            r matches Some(i) ==> Some(i.local_player) == self@.role,
    {
        match self.role {
            Some(local_player) => Some(Identity { local_player }),
            None => None,
        }
    }

    /// The settle timer.
    pub fn finish_timer(&self) -> (r: FinishTimer)
        ensures
            r == self@.finish_timer,
    {
        self.finish_timer
    }

    /// The game, while there is one.
    pub fn game(&self) -> (r: Option<&EventSync>)
        requires
            self.wf(),
        ensures
            r is Some <==> self@.game is Some,
            r matches Some(g) ==> g.wf() && Some(g@) == self@.game,
    {
        self.game.as_ref()
    }

    /// Takes what the menu asks for. In the menu the request is recorded,
    /// and a request to host or to join starts the session; in any other
    /// phase the request is ignored.
    pub fn start(&mut self, request: StartClient)
        requires
            old(self).wf(),
        ensures
            final(self).wf(),
            final(self)@ == after_start(old(self)@, request),
    {
        if self.state == GameState::InMenu {
            self.start_client = request;
            self.state = request.target();
        }
    }

    /// Takes a signal. A signal that means nothing in the present phase is
    /// ignored.
    pub fn handle(&mut self, signal: SessionSignal)
        requires
            old(self).wf(),
        ensures
            final(self).wf(),
            final(self)@ == after_signal(old(self)@, signal),
    {
        match signal {
            SessionSignal::EndpointCreated => {},
            SessionSignal::PeerJoined => {
                if self.state == GameState::CreatingServer {
                    self.state = GameState::Connecting;
                }
            },
            SessionSignal::HostRoleAssigned(p) => {
                if self.state == GameState::CreatingServer || self.state == GameState::Connecting {
                    self.role = Some(p);
                }
            },
            SessionSignal::ConnectionEstablished => {
                if self.state == GameState::Connecting {
                    if let Some(p) = self.role {
                        self.game = Some(EventSync::new(p));
                        self.state = GameState::StartingGame;
                    }
                }
            },
            SessionSignal::BoardReady => {
                if self.state == GameState::StartingGame {
                    self.state = GameState::InGame;
                }
            },
            SessionSignal::ConnectionLost => {
                if self.state == GameState::CreatingServer || self.state == GameState::Connecting
                    || self.state == GameState::StartingGame || self.state == GameState::InGame {
                    self.state = GameState::FinishingGame;
                }
            },
        }
    }

    /// Looks at the clock, which shows `now_ms` milliseconds. This winds the
    /// session up: see [`after_finish`].
    pub fn finish_game(&mut self, now_ms: u64)
        requires
            old(self).wf(),
        ensures
            final(self).wf(),
            final(self)@ == after_finish(old(self)@, now_ms),
    {
        if self.state == GameState::FinishingGame {
            match self.finish_timer {
                FinishTimer::Stopped => {
                    self.start_client = StartClient::NotStarted;
                    self.finish_timer = FinishTimer::Finishing(now_ms);
                },
                FinishTimer::Finishing(start) => {
                    if now_ms > start && now_ms - start > SETTLE_DELAY_MS {
                        self.finish_timer = FinishTimer::Stopped;
                        self.role = None;
                        self.game = None;
                        self.state = GameState::InMenu;
                    }
                },
            }
        }
    }

    /// Takes a click of the local player, as [`EventSync::submit_local_click`]
    /// does. Outside `InGame` every click is rejected.
    pub fn submit_local_click(&mut self, meta_position: Position, local_position: Position) -> (r:
        ClickResult)
        requires
            old(self).wf(),
        ensures
            final(self).wf(),
            ({
                let v = old(self)@;
                if v.state == GameState::InGame && accepts_click(
                    v.game.unwrap(),
                    meta_position,
                    local_position,
                ) {
                    &&& r == ClickResult::Accepted
                    &&& final(self)@ == (SessionView {
                        game: Some(after_click(v.game.unwrap(), meta_position, local_position)),
                        ..v
                    })
                } else {
                    &&& r == ClickResult::Rejected
                    &&& final(self)@ == v
                }
            }),
    {
        if self.state != GameState::InGame {
            return ClickResult::Rejected;
        }
        match &mut self.game {
            Some(game) => game.submit_local_click(meta_position, local_position),
            None => ClickResult::Rejected,
        }
    }

    /// Hands over the events that wait to be sent and leaves that queue
    /// empty, as [`EventSync::drain_outgoing`] does. Outside `InGame`
    /// nothing is handed over and nothing changes.
    pub fn drain_outgoing(&mut self) -> (r: Vec<GameEvent>)
        requires
            old(self).wf(),
        ensures
            final(self).wf(),
            ({
                let v = old(self)@;
                if v.state == GameState::InGame {
                    &&& r@ == v.game.unwrap().outgoing
                    &&& final(self)@ == (SessionView {
                        game: Some(SyncView { outgoing: Seq::empty(), ..v.game.unwrap() }),
                        ..v
                    })
                } else {
                    &&& r@ == Seq::<GameEvent>::empty()
                    &&& final(self)@ == v
                }
            }),
    {
        if self.state != GameState::InGame {
            return Vec::new();
        }
        match &mut self.game {
            Some(game) => game.drain_outgoing(),
            None => Vec::new(),
        }
    }

    /// Takes an event that has arrived, as [`EventSync::on_event_received`]
    /// does. Outside `InGame` the event is dropped.
    pub fn on_event_received(&mut self, event: GameEvent)
        requires
            old(self).wf(),
        ensures
            final(self).wf(),
            ({
                let v = old(self)@;
                if v.state == GameState::InGame {
                    final(self)@ == (SessionView {
                        game: Some(
                            SyncView {
                                incoming: v.game.unwrap().incoming.push(event),
                                ..v.game.unwrap()
                            },
                        ),
                        ..v
                    })
                } else {
                    final(self)@ == v
                }
            }),
    {
        if self.state != GameState::InGame {
            return ;
        }
        match &mut self.game {
            Some(game) => game.on_event_received(event),
            None => {},
        }
    }

    /// Applies what has arrived, as [`EventSync::apply_pending`] does, and
    /// goes to `FinishingGame` if that has ended the game. Outside `InGame`
    /// nothing is applied and nothing changes.
    pub fn apply_pending(&mut self) -> (r: Vec<MoveEffect>)
        requires
            old(self).wf(),
        ensures
            final(self).wf(),
            final(self)@ == after_tick(old(self)@),
            r@ == (if old(self)@.state == GameState::InGame {
                effects(unlocked(old(self)@.game.unwrap().game), old(self)@.game.unwrap().incoming)
            } else {
                Seq::empty()
            }),
            old(self)@.state == GameState::InGame ==> lock_free(final(self)@.game.unwrap().game),
    {
        if self.state != GameState::InGame {
            return Vec::new();
        }
        match &mut self.game {
            Some(game) => {
                let applied = game.apply_pending();
                if game.coordinator().is_game_over() {
                    self.state = GameState::FinishingGame;
                }
                applied
            },
            None => Vec::new(),
        }
    }
}

} // verus!
