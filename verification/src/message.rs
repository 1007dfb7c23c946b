//! The transport-agnostic command and notification vocabulary, and the
//! directory commands that sessions send on behalf of their clients.
//!
//! Sessions and matches are referred to by plain numeric identifiers; the
//! unverified shell around the library maps those identifiers to live
//! connections and running matches.

use vstd::prelude::*;

use crate::game::{MoveDetails, MoveError};

verus! {

/// The side a participant plays.  The previously waiting participant is
/// assigned `White` and moves first.
#[derive(Clone, Copy, PartialEq, Eq, Structural, Debug)]
pub enum Color {
    White,
    Black,
}

/// Outcome reported back to a client for a login attempt or a move.
#[derive(Clone, Copy, PartialEq, Eq, Structural, Debug)]
pub enum ClientResult {
    Success,
    MoveError(MoveError),
    LoginError,
}

/// One inbound command, already decoded from its wire form.
#[derive(Debug)]
pub enum ClientMessage {
    Login(String),
    Enqueue,
    Dequeue,
    LeaveGame,
    PlayAgain,
    MakeMove(MoveDetails),
    Disconnect,
    Ping,
}

/// One outbound notification, to be encoded and written to a transport.
#[derive(Debug)]
pub enum OutgoingMessage {
    MovePiece { from: usize, to: usize },
    RemovePiece { at: usize },
    Check { checker: usize },
    Checkmate { winner: usize },
    CommandResult(ClientResult),
    GameStarted(Color),
    WinGame(String),
    LoseGame(String),
}

/// An outbound notification addressed to one session, optionally carrying the
/// identifier of a newly started match.
#[derive(Debug)]
pub struct Message {
    pub target: u64,
    pub inner: OutgoingMessage,
    pub game: Option<u64>,
}

/// Directory command: register `username` for the session `client`.
pub struct Login {
    pub username: String,
    pub client: u64,
}

/// Directory command: drop the registration of `username`, if any.
pub struct Logout {
    pub username: String,
}

/// Directory command: the session `player` went away; free the waiting slot
/// if it is the occupant.
pub struct Disconnect {
    pub player: u64,
}

} // verus!
