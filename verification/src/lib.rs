//! Ultimate tic-tac-toe: a 3x3 meta-board of 3x3 sub-boards, the rules that
//! say which moves are legal and who has won, and the layer that keeps two
//! remote copies of one game in agreement over an unreliable link.
//!
//! Every function is verified against the contract it carries. The modules,
//! leaf first:
//!
//! - [`symbol`]: players, cell states, outcomes and board positions;
//! - [`outcome`]: line detection on any 3x3 map of states;
//! - [`board`]: the nine sub-boards and raw move application;
//! - [`coordinator`]: whose turn it is, the mandated sub-board, legality;
//! - [`sync`]: the outgoing and incoming event queues of one participant;
//! - [`session`]: the coarse phases from menu to game and back;
//! - [`laws`]: what holds of every game, stated and proved.

pub mod symbol;
pub mod outcome;
pub mod board;
pub mod coordinator;
pub mod sync;
pub mod session;
pub mod laws;

pub use board::{Cell, IllegalMove, MetaBoard, Move, MoveEffect, SubBoard};
pub use coordinator::{Coordinator, MoveError, TurnState};
pub use outcome::evaluate;
pub use sync::{
    ClickResult, EventSync, GameEvent, Identity, ReceiveEventQueue, SendEventQueue,
};
pub use session::{FinishTimer, GameState, Session, SessionSignal, StartClient, SETTLE_DELAY_MS};
pub use symbol::{CellState, Outcome, Player, Position};
