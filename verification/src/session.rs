//! The per-connection session: the state machine that turns decoded inbound
//! commands into directory and match commands, tracks liveness, and keeps
//! the session's identity and current match in step with the notifications
//! it receives.
//!
//! The session never touches another component's state: every decision is
//! returned as an effect value for the surrounding shell to deliver.

use vstd::prelude::*;

use crate::game::{ForfeitGame, MakeMove, MoveError};
use crate::message::{ClientMessage, ClientResult, Login, Logout, OutgoingMessage};
use crate::server::{CancelSearch, FindGame};

verus! {

/// Time units between two liveness checks of a session.
pub const HEARTBEAT_INTERVAL: u64 = 5;

/// Idle time after which a session counts as dead.
pub const HEARTBEAT_TIMEOUT: u64 = 10;

/// What a session asks its surroundings to do after one inbound command:
/// forward a command to the directory or to the current match, write a reply
/// to its own transport, stop, or nothing.
pub enum SessionEffect {
    Nothing,
    SendLogin(Login),
    SendFindGame(FindGame),
    SendCancelSearch(CancelSearch),
    SendForfeit(ForfeitGame),
    SendMove(MakeMove),
    Reply(OutgoingMessage),
    Stop(Option<Logout>),
}

/// The verdict of one liveness check.
pub enum TickOutcome {
    Continue,
    Timeout(Option<Logout>),
}

/// The state of one connection: its numeric reference, its confirmed name,
/// the name awaiting confirmation, the last-activity time, and the current
/// match.
pub struct Session {
    pub id: u64,
    pub username: Option<String>,
    pub pending_login: Option<String>,
    pub heartbeat: u64,
    pub game: Option<u64>,
}

impl Session {
    /// A fresh session for connection `id`, unnamed, in no match, alive as
    /// of `now`.
    pub fn new(id: u64, now: u64) -> (s: Session)
        ensures
            s.id == id,
            s.username is None,
            s.pending_login is None,
            s.heartbeat == now,
            s.game is None,
    {
        Session { id, username: None, pending_login: None, heartbeat: now, game: None }
    }

    /// Dispatches one decoded inbound command: every command refreshes the
    /// liveness timestamp; directory commands are forwarded; match commands
    /// are forwarded only while a match is current, and a move without a
    /// current match is answered locally with `NotInGame`, touching nothing
    /// else.
    pub fn handle_message(&mut self, msg: ClientMessage, now: u64) -> (e: SessionEffect)
        ensures
            final(self).id == old(self).id,
            final(self).heartbeat == now,
            final(self).game == old(self).game,
            final(self).username == old(self).username,
            match msg {
                ClientMessage::Ping => e is Nothing && final(self).pending_login == old(self).pending_login,
                ClientMessage::Login(name) => (e matches SessionEffect::SendLogin(l) && l.username
                    == name && l.client == old(self).id) && final(self).pending_login
                    == Some(name),
                ClientMessage::Enqueue => e == SessionEffect::SendFindGame(
                    FindGame(old(self).id),
                ) && final(self).pending_login == old(self).pending_login,
                ClientMessage::Dequeue => e == SessionEffect::SendCancelSearch(
                    CancelSearch(old(self).id),
                ) && final(self).pending_login == old(self).pending_login,
                ClientMessage::LeaveGame => (if old(self).game is Some {
                    e == SessionEffect::SendForfeit(ForfeitGame(old(self).id))
                } else {
                    e is Nothing
                }) && final(self).pending_login == old(self).pending_login,
                ClientMessage::MakeMove(d) => (if old(self).game is Some {
                    e matches SessionEffect::SendMove(m) && m.move_details == d && m.player == old(self).id
                } else {
                    e == SessionEffect::Reply(
                        OutgoingMessage::CommandResult(
                            ClientResult::MoveError(MoveError::NotInGame),
                        ),
                    )
                }) && final(self).pending_login == old(self).pending_login,
                ClientMessage::PlayAgain => e is Nothing && final(self).pending_login == old(self).pending_login,
                ClientMessage::Disconnect => (match old(self).username {
                    Some(u) => e matches SessionEffect::Stop(Some(l)) && l.username == u,
                    None => e == SessionEffect::Stop(Option::<Logout>::None),
                }) && final(self).pending_login == old(self).pending_login,
            },
    {
        self.heartbeat = now;
        match msg {
            ClientMessage::Ping => SessionEffect::Nothing,
            ClientMessage::Login(username) => {
                self.pending_login = Some(username.clone());
                SessionEffect::SendLogin(Login { username, client: self.id })
            },
            ClientMessage::Enqueue => SessionEffect::SendFindGame(FindGame(self.id)),
            ClientMessage::Dequeue => SessionEffect::SendCancelSearch(CancelSearch(self.id)),
            ClientMessage::LeaveGame => match self.game {
                Some(_) => SessionEffect::SendForfeit(ForfeitGame(self.id)),
                None => SessionEffect::Nothing,
            },
            ClientMessage::MakeMove(move_details) => match self.game {
                Some(_) => SessionEffect::SendMove(MakeMove { move_details, player: self.id }),
                None => SessionEffect::Reply(
                    OutgoingMessage::CommandResult(ClientResult::MoveError(MoveError::NotInGame)),
                ),
            },
            ClientMessage::PlayAgain => SessionEffect::Nothing,
            ClientMessage::Disconnect => {
                let logout = match &self.username {
                    Some(u) => Some(Logout { username: u.clone() }),
                    None => None,
                };
                SessionEffect::Stop(logout)
            },
        }
    }

    /// Applies one notification pushed by the directory or a match to the
    /// session's bookkeeping: a game start records the new match reference, a
    /// win or loss clears it, and a login result confirms or abandons the
    /// pending name.  Liveness is untouched: notifications are no sign of
    /// client activity.
    pub fn handle_notification(&mut self, inner: &OutgoingMessage, game: Option<u64>)
        ensures
            final(self).id == old(self).id,
            final(self).heartbeat == old(self).heartbeat,
            match inner {
                OutgoingMessage::GameStarted(_) => final(self).game == game && final(self).username
                    == old(self).username && final(self).pending_login == old(self).pending_login,
                OutgoingMessage::WinGame(_) => final(self).game is None && final(self).username
                    == old(self).username && final(self).pending_login == old(self).pending_login,
                OutgoingMessage::LoseGame(_) => final(self).game is None && final(self).username
                    == old(self).username && final(self).pending_login == old(self).pending_login,
                OutgoingMessage::CommandResult(ClientResult::Success) => (match old(self).pending_login {
                    Some(n) => final(self).username == Some(n),
                    None => final(self).username == old(self).username,
                }) && final(self).pending_login is None && final(self).game == old(self).game,
                OutgoingMessage::CommandResult(ClientResult::LoginError) => final(self).pending_login is None
                    && final(self).username == old(self).username
                    && final(self).game == old(self).game,
                _ => *final(self) == *old(self),
            },
    {
        match inner {
            OutgoingMessage::GameStarted(_) => {
                self.game = game;
            },
            OutgoingMessage::WinGame(_) => {
                self.game = None;
            },
            OutgoingMessage::LoseGame(_) => {
                self.game = None;
            },
            OutgoingMessage::CommandResult(ClientResult::Success) => {
                let pending = match &self.pending_login {
                    Some(n) => Some(n.clone()),
                    None => None,
                };
                match pending {
                    Some(n) => {
                        self.username = Some(n);
                    },
                    None => {},
                }
                self.pending_login = None;
            },
            OutgoingMessage::CommandResult(ClientResult::LoginError) => {
                self.pending_login = None;
            },
            _ => {},
        }
    }

    /// One liveness check at time `now`: a session idle for longer than the
    /// timeout is to stop, logging out first when it is named.
    pub fn heartbeat_tick(&self, now: u64) -> (t: TickOutcome)
        requires
            self.heartbeat <= now,
        ensures
            now - self.heartbeat > HEARTBEAT_TIMEOUT ==> match self.username {
                Some(u) => t matches TickOutcome::Timeout(Some(l)) && l.username == u,
                None => t == TickOutcome::Timeout(Option::<Logout>::None),
            },
            now - self.heartbeat <= HEARTBEAT_TIMEOUT ==> t is Continue,
    {
        if now - self.heartbeat > HEARTBEAT_TIMEOUT {
            match &self.username {
                Some(u) => TickOutcome::Timeout(Some(Logout { username: u.clone() })),
                None => TickOutcome::Timeout(None),
            }
        } else {
            TickOutcome::Continue
        }
    }

    /// Teardown: hands out the logout command for the session's name exactly
    /// once; the name is cleared, so a second call yields nothing.
    pub fn terminate(&mut self) -> (r: Option<Logout>)
        ensures
            final(self).id == old(self).id,
            final(self).heartbeat == old(self).heartbeat,
            final(self).game == old(self).game,
            final(self).pending_login == old(self).pending_login,
            final(self).username is None,
            match old(self).username {
                Some(u) => r matches Some(l) && l.username == u,
                None => r is None,
            },
    {
        let r = match &self.username {
            Some(u) => Some(Logout { username: u.clone() }),
            None => None,
        };
        self.username = None;
        r
    }
}

} // verus!
