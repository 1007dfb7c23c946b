//! The directory and matchmaker: the registry of logged-in names and the
//! single-slot matchmaking queue.
//!
//! The directory owns both exclusively; every mutation goes through one of
//! the handlers here, processed one at a time, which is what keeps two
//! near-simultaneous pairing requests from both observing an empty slot.

use vstd::prelude::*;

use crate::game::Game;
use crate::message::{ClientResult, Color, Disconnect, Login, Logout, Message, OutgoingMessage};

verus! {

/// Whether some registration in `users` holds `name`.
pub open spec fn has_name(users: Seq<(Seq<char>, u64)>, name: Seq<char>) -> bool {
    exists|i: int| 0 <= i < users.len() && users[i].0 == name
}

/// The index of the registration holding `name`, when one does.
pub open spec fn index_of_name(users: Seq<(Seq<char>, u64)>, name: Seq<char>) -> int {
    choose|i: int| 0 <= i < users.len() && users[i].0 == name
}

/// Whether a login under `name` is accepted: exactly when no registration
/// currently holds the name.
pub open spec fn login_accepted(users: Seq<(Seq<char>, u64)>, name: Seq<char>) -> bool {
    !has_name(users, name)
}

/// The registrations after a logout of `name`: the one holding the name is
/// gone, the others keep their order.  Logging out an unregistered name
/// changes nothing.
pub open spec fn logout_users(users: Seq<(Seq<char>, u64)>, name: Seq<char>) -> Seq<
    (Seq<char>, u64),
> {
    if has_name(users, name) {
        users.remove(index_of_name(users, name))
    } else {
        users
    }
}

/// The pair a pairing request creates: the waiting participant (assigned
/// white) with the caller (assigned black); none when the slot is empty or
/// already held by the caller itself.
pub open spec fn find_game_created(waiting: Option<u64>, client: u64) -> Option<(u64, u64)> {
    match waiting {
        Some(w) => if w != client {
            Some((w, client))
        } else {
            None
        },
        None => None,
    }
}

/// The waiting slot after a pairing request: emptied by a pairing, occupied
/// by a lone caller, left as it is on a duplicate request.
pub open spec fn find_game_waiting_after(waiting: Option<u64>, client: u64) -> Option<u64> {
    match waiting {
        Some(w) => if w != client {
            None
        } else {
            Some(w)
        },
        None => Some(client),
    }
}

/// Directory query: the current set of logged-in names.
pub struct GetPlayers {}

/// Directory command: the session asks to be paired with another waiting
/// session.
pub struct FindGame(pub u64);

/// Directory command: the session stops waiting for a pairing.
pub struct CancelSearch(pub u64);

/// The directory: the identity registry and the single waiting slot.
pub struct Server {
    /// The logged-in names, each with the session that owns it.
    pub users: Vec<(String, u64)>,
    /// The at-most-one session waiting to be paired.
    pub waiting_for_game: Option<u64>,
}

impl Server {
    /// The registrations at the model level: each name as a character
    /// sequence, with its session.
    pub open spec fn users_view(self) -> Seq<(Seq<char>, u64)> {
        self.users@.map_values(|u: (String, u64)| (u.0@, u.1))
    }

    /// A name is registered at most once.
    pub open spec fn wf(self) -> bool {
        forall|i: int, j: int|
            0 <= i < j < self.users_view().len() ==> (#[trigger] self.users_view()[i]).0 != (
            #[trigger] self.users_view()[j]).0
    }

    /// An empty directory: no registrations, no one waiting.
    pub fn new() -> (s: Server)
        ensures
            s.wf(),
            s.users_view() == Seq::<(Seq<char>, u64)>::empty(),
            s.waiting_for_game is None,
    {
        let s = Server { users: Vec::new(), waiting_for_game: None };
        proof {
            assert(s.users_view() =~= Seq::<(Seq<char>, u64)>::empty());
        }
        s
    }

    /// Whether `name` is currently registered.
    fn contains_name(&self, name: &String) -> (r: bool)
        ensures
            r == has_name(self.users_view(), name@),
    {
        let n = self.users.len();
        let mut i: usize = 0;
        while i < n
            invariant
                i <= n,
                n == self.users@.len(),
                forall|j: int| 0 <= j < i ==> (#[trigger] self.users_view()[j]).0 != name@,
            decreases n - i,
        {
            if self.users[i].0 == *name {
                assert(self.users_view()[i as int].0 == name@);
                return true;
            }
            i = i + 1;
        }
        false
    }

    /// A login attempt: rejected when the name is live, recorded and
    /// acknowledged otherwise.  The reply goes back to the caller as a
    /// notification either way.
    pub fn handle_login(&mut self, msg: Login) -> (r: Message)
        requires
            old(self).wf(),
        ensures
            final(self).wf(),
            final(self).waiting_for_game == old(self).waiting_for_game,
            r.target == msg.client && r.game is None,
            login_accepted(old(self).users_view(), msg.username@) ==> {
                &&& final(self).users_view() == old(self).users_view().push(
                    (msg.username@, msg.client),
                )
                &&& r.inner == OutgoingMessage::CommandResult(ClientResult::Success)
            },
            !login_accepted(old(self).users_view(), msg.username@) ==> {
                &&& final(self).users_view() == old(self).users_view()
                &&& r.inner == OutgoingMessage::CommandResult(ClientResult::LoginError)
            },
    {
        if self.contains_name(&msg.username) {
            Message {
                target: msg.client,
                inner: OutgoingMessage::CommandResult(ClientResult::LoginError),
                game: None,
            }
        } else {
            let client = msg.client;
            self.users.push((msg.username, client));
            proof {
                let ov = old(self).users_view();
                let nv = self.users_view();
                assert(nv =~= ov.push((msg.username@, msg.client)));
                assert forall|i: int, j: int| 0 <= i < j < nv.len() implies (#[trigger] nv[i]).0
                    != (#[trigger] nv[j]).0 by {
                    if j == nv.len() - 1 {
                        assert(!has_name(ov, msg.username@));
                        assert(ov[i].0 != msg.username@);
                    }
                }
            }
            Message {
                target: client,
                inner: OutgoingMessage::CommandResult(ClientResult::Success),
                game: None,
            }
        }
    }

    /// A logout: the registration holding the name is dropped; a name not
    /// registered is a no-op.
    pub fn handle_logout(&mut self, msg: Logout)
        requires
            old(self).wf(),
        ensures
            final(self).wf(),
            final(self).waiting_for_game == old(self).waiting_for_game,
            final(self).users_view() == logout_users(old(self).users_view(), msg.username@),
    {
        let n = self.users.len();
        let mut i: usize = 0;
        while i < n
            invariant
                i <= n,
                n == self.users@.len(),
                self.wf(),
                *self == *old(self),
                forall|j: int| 0 <= j < i ==> (#[trigger] self.users_view()[j]).0
                    != msg.username@,
            decreases n - i,
        {
            if self.users[i].0 == msg.username {
                proof {
                    let ov = old(self).users_view();
                    assert(ov[i as int].0 == msg.username@);
                    assert(has_name(ov, msg.username@));
                    let k = index_of_name(ov, msg.username@);
                    // the found index is the registered one: names are unique
                    assert(ov[k].0 == msg.username@);
                    assert(k == i as int);
                }
                self.users.remove(i);
                proof {
                    let ov = old(self).users_view();
                    assert(self.users_view() =~= ov.remove(i as int));
                    assert forall|a: int, b: int|
                        0 <= a < b < self.users_view().len() implies (
                    #[trigger] self.users_view()[a]).0 != (#[trigger] self.users_view()[b]).0 by {
                        let rv = ov.remove(i as int);
                        assert(rv[a] == if a < i as int { ov[a] } else { ov[a + 1] });
                        assert(rv[b] == if b < i as int { ov[b] } else { ov[b + 1] });
                    }
                }
                return ;
            }
            i = i + 1;
        }
        proof {
            assert(!has_name(self.users_view(), msg.username@));
        }
    }

    /// An abrupt disconnect: the waiting slot is freed when the vanished
    /// session holds it; registrations are untouched (the session sends its
    /// own logout).
    pub fn handle_disconnect(&mut self, msg: Disconnect)
        ensures
            final(self).users == old(self).users,
            final(self).waiting_for_game == (if old(self).waiting_for_game == Some(msg.player) {
                Option::<u64>::None
            } else {
                old(self).waiting_for_game
            }),
    {
        match self.waiting_for_game {
            Some(w) => {
                if w == msg.player {
                    self.waiting_for_game = None;
                }
            },
            None => {},
        }
    }

    /// A pairing request: a lone caller occupies the waiting slot; a caller
    /// who finds a different session waiting starts a match with it — the
    /// waiter plays white, the caller black, both are notified with their
    /// side and the new match — and the slot empties; a caller who finds
    /// itself waiting changes nothing.
    pub fn handle_find_game(&mut self, msg: FindGame, game_id: u64) -> (r: (
        Option<Game>,
        Vec<Message>,
    ))
        requires
            old(self).wf(),
        ensures
            final(self).wf(),
            final(self).users == old(self).users,
            final(self).waiting_for_game == find_game_waiting_after(
                old(self).waiting_for_game,
                msg.0,
            ),
            match find_game_created(old(self).waiting_for_game, msg.0) {
                Some(pair) => {
                    &&& r.0 matches Some(g)
                    &&& g.wf()
                    &&& g.players@ == seq![pair.0, pair.1]
                    &&& g.turn == 0
                    &&& g.discarded@ == Seq::<crate::game::ChessPiece>::empty()
                    &&& g.board@ == crate::game::initial_board()
                    &&& r.1@ == seq![
                        (Message { target: pair.0, inner: (OutgoingMessage::GameStarted(Color::White)), game: Some(game_id) }),
                        (Message { target: pair.1, inner: (OutgoingMessage::GameStarted(Color::Black)), game: Some(game_id) }),
                    ]
                },
                None => r.0 is None && r.1@ == Seq::<Message>::empty(),
            },
    {
        let mut outbox: Vec<Message> = Vec::new();
        match self.waiting_for_game {
            Some(other) => {
                if other != msg.0 {
                    let mut players: Vec<u64> = Vec::new();
                    players.push(other);
                    players.push(msg.0);
                    proof {
                        assert(players@ =~= seq![other, msg.0]);
                    }
                    let game = Game::new(players);
                    outbox.push(Message {
                        target: other,
                        inner: OutgoingMessage::GameStarted(Color::White),
                        game: Some(game_id),
                    });
                    outbox.push(Message {
                        target: msg.0,
                        inner: OutgoingMessage::GameStarted(Color::Black),
                        game: Some(game_id),
                    });
                    self.waiting_for_game = None;
                    proof {
                        assert(self.users_view() =~= old(self).users_view());
                        assert(outbox@ =~= seq![
                            (Message { target: other, inner: (OutgoingMessage::GameStarted(Color::White)), game: Some(game_id) }),
                            (Message { target: msg.0, inner: (OutgoingMessage::GameStarted(Color::Black)), game: Some(game_id) }),
                        ]);
                    }
                    (Some(game), outbox)
                } else {
                    proof {
                        assert(self.users_view() =~= old(self).users_view());
                        assert(outbox@ =~= Seq::<Message>::empty());
                    }
                    (None, outbox)
                }
            },
            None => {
                self.waiting_for_game = Some(msg.0);
                proof {
                    assert(self.users_view() =~= old(self).users_view());
                    assert(outbox@ =~= Seq::<Message>::empty());
                }
                (None, outbox)
            },
        }
    }

    /// A cancel request: the waiting slot is freed only when the caller is
    /// its current occupant.
    pub fn handle_cancel_search(&mut self, msg: CancelSearch)
        ensures
            final(self).users == old(self).users,
            final(self).waiting_for_game == (if old(self).waiting_for_game == Some(msg.0) {
                Option::<u64>::None
            } else {
                old(self).waiting_for_game
            }),
    {
        match self.waiting_for_game {
            Some(other) => {
                if other == msg.0 {
                    self.waiting_for_game = None;
                }
            },
            None => {},
        }
    }

    /// The current set of logged-in names, in registration order; the order
    /// carries no meaning.
    pub fn handle_get_players(&self, _msg: GetPlayers) -> (names: Vec<String>)
        ensures
            names@.len() == self.users_view().len(),
            forall|i: int| 0 <= i < names@.len() ==> (#[trigger] names@[i])@
                == self.users_view()[i].0,
    {
        let n = self.users.len();
        let mut names: Vec<String> = Vec::new();
        let mut i: usize = 0;
        while i < n
            invariant
                i <= n,
                n == self.users@.len(),
                names@.len() == i,
                forall|j: int| 0 <= j < i ==> (#[trigger] names@[j])@ == self.users_view()[j].0,
            decreases n - i,
        {
            names.push(self.users[i].0.clone());
            i = i + 1;
        }
        names
    }
}

/// Law of the matchmaker: a pairing request creates at most one match; a
/// created match pairs the caller with the previously waiting, distinct
/// participant, so no participant is ever paired with itself; and pairing
/// empties the slot, so a pair of waiting participants yields exactly one
/// match until both enqueue again.
pub proof fn lemma_find_game_pairing(waiting: Option<u64>, a: u64, b: u64)
    ensures
        find_game_created(waiting, a) matches Some(pair) ==> pair.0 != pair.1 && pair.1 == a
            && waiting == Some(pair.0),
        find_game_created(waiting, a) is Some ==> find_game_waiting_after(waiting, a) is None,
        find_game_created(waiting, a) is Some ==> find_game_created(
            find_game_waiting_after(waiting, a),
            b,
        ) is None,
{
}

/// Law of the directory: a login is accepted exactly when no live
/// registration holds the name, and once `name` is logged out, a later login
/// under `name` is accepted again.
pub proof fn lemma_login_after_logout(users: Seq<(Seq<char>, u64)>, name: Seq<char>)
    requires
        forall|i: int, j: int| 0 <= i < j < users.len() ==> (#[trigger] users[i]).0 != (
        #[trigger] users[j]).0,
    ensures
        login_accepted(users, name) <==> !has_name(users, name),
        login_accepted(logout_users(users, name), name),
{
    if has_name(users, name) {
        let k = index_of_name(users, name);
        assert(0 <= k < users.len() && users[k].0 == name);
        let after = users.remove(k);
        if has_name(after, name) {
            let j = choose|j: int| 0 <= j < after.len() && after[j].0 == name;
            assert(after[j] == if j < k {
                users[j]
            } else {
                users[j + 1]
            });
            assert(false);
        }
    }
}

} // verus!
