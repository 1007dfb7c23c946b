use chess_server::message::{
    ClientResult, Color, Disconnect, Login, Logout, OutgoingMessage,
};
use chess_server::server::{CancelSearch, FindGame, GetPlayers, Server};

fn login(server: &mut Server, name: &str, client: u64) -> OutgoingMessage {
    let reply = server.handle_login(Login { username: name.to_string(), client });
    assert_eq!(reply.target, client);
    assert!(reply.game.is_none());
    reply.inner
}

#[test]
fn login_is_rejected_only_while_the_name_is_live() {
    let mut server = Server::new();
    assert!(matches!(
        login(&mut server, "alice", 1),
        OutgoingMessage::CommandResult(ClientResult::Success)
    ));
    // a second session asking for the live name is turned away, state unchanged
    assert!(matches!(
        login(&mut server, "alice", 2),
        OutgoingMessage::CommandResult(ClientResult::LoginError)
    ));
    assert_eq!(server.handle_get_players(GetPlayers {}), vec!["alice".to_string()]);
    // once the name is logged out, a different session may claim it
    server.handle_logout(Logout { username: "alice".to_string() });
    assert!(matches!(
        login(&mut server, "alice", 2),
        OutgoingMessage::CommandResult(ClientResult::Success)
    ));
}

#[test]
fn logout_of_an_unknown_name_is_a_no_op() {
    let mut server = Server::new();
    login(&mut server, "alice", 1);
    server.handle_logout(Logout { username: "bob".to_string() });
    assert_eq!(server.handle_get_players(GetPlayers {}), vec!["alice".to_string()]);
    server.handle_logout(Logout { username: "alice".to_string() });
    server.handle_logout(Logout { username: "alice".to_string() });
    assert!(server.handle_get_players(GetPlayers {}).is_empty());
}

#[test]
fn get_players_lists_every_live_name() {
    let mut server = Server::new();
    assert!(server.handle_get_players(GetPlayers {}).is_empty());
    login(&mut server, "alice", 1);
    login(&mut server, "bob", 2);
    let names = server.handle_get_players(GetPlayers {});
    assert_eq!(names.len(), 2);
    assert!(names.contains(&"alice".to_string()));
    assert!(names.contains(&"bob".to_string()));
}

#[test]
fn two_waiting_sessions_are_paired_once() {
    let mut server = Server::new();
    login(&mut server, "alice", 1);
    login(&mut server, "bob", 2);

    let (game, notes) = server.handle_find_game(FindGame(1), 100);
    assert!(game.is_none());
    assert!(notes.is_empty());

    let (game, notes) = server.handle_find_game(FindGame(2), 100);
    let game = game.expect("a pair of distinct waiting sessions starts a match");
    assert_eq!(game.players, vec![1, 2]);
    assert_eq!(game.turn, 0);
    assert_eq!(notes.len(), 2);
    assert_eq!(notes[0].target, 1);
    assert!(matches!(notes[0].inner, OutgoingMessage::GameStarted(Color::White)));
    assert_eq!(notes[0].game, Some(100));
    assert_eq!(notes[1].target, 2);
    assert!(matches!(notes[1].inner, OutgoingMessage::GameStarted(Color::Black)));
    assert_eq!(notes[1].game, Some(100));

    // the slot emptied: a third request just waits
    let (game, notes) = server.handle_find_game(FindGame(3), 101);
    assert!(game.is_none());
    assert!(notes.is_empty());
}

#[test]
fn duplicate_enqueue_never_pairs_a_session_with_itself() {
    let mut server = Server::new();
    let (game, notes) = server.handle_find_game(FindGame(1), 100);
    assert!(game.is_none() && notes.is_empty());
    let (game, notes) = server.handle_find_game(FindGame(1), 100);
    assert!(game.is_none() && notes.is_empty());
    // the slot still holds the session: a distinct peer is paired at once
    let (game, _) = server.handle_find_game(FindGame(2), 100);
    assert!(game.is_some());
}

#[test]
fn cancel_search_frees_the_slot_only_for_its_occupant() {
    let mut server = Server::new();
    server.handle_find_game(FindGame(1), 100);
    server.handle_cancel_search(CancelSearch(2));
    // still waiting: a peer is paired
    let (game, _) = server.handle_find_game(FindGame(3), 100);
    assert!(game.is_some());

    server.handle_find_game(FindGame(1), 101);
    server.handle_cancel_search(CancelSearch(1));
    // the slot is free again: the next request waits
    let (game, _) = server.handle_find_game(FindGame(3), 101);
    assert!(game.is_none());
}

#[test]
fn disconnect_frees_the_slot_like_a_cancel() {
    let mut server = Server::new();
    server.handle_find_game(FindGame(1), 100);
    server.handle_disconnect(Disconnect { player: 1 });
    let (game, _) = server.handle_find_game(FindGame(2), 100);
    assert!(game.is_none());
}
