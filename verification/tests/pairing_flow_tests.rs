//! The full pairing story, told through the library alone: two sessions log
//! in, both enqueue, and a match starts with opposite sides.

use chess_server::message::{ClientMessage, OutgoingMessage};
use chess_server::server::Server;
use chess_server::session::{Session, SessionEffect};

#[test]
fn two_logins_and_two_enqueues_start_one_match() {
    let mut server = Server::new();
    let mut alice = Session::new(1, 0);
    let mut bob = Session::new(2, 0);

    // alice logs in and enqueues
    let effect = alice.handle_message(ClientMessage::Login("alice".to_string()), 1);
    let login = match effect {
        SessionEffect::SendLogin(l) => l,
        _ => panic!("login is forwarded to the directory"),
    };
    let reply = server.handle_login(login);
    alice.handle_notification(&reply.inner, reply.game);
    assert_eq!(alice.username, Some("alice".to_string()));

    let effect = alice.handle_message(ClientMessage::Enqueue, 2);
    let find = match effect {
        SessionEffect::SendFindGame(f) => f,
        _ => panic!("enqueue is forwarded to the directory"),
    };
    let (game, notes) = server.handle_find_game(find, 100);
    assert!(game.is_none() && notes.is_empty());

    // bob logs in and enqueues
    let effect = bob.handle_message(ClientMessage::Login("bob".to_string()), 3);
    let login = match effect {
        SessionEffect::SendLogin(l) => l,
        _ => panic!("login is forwarded to the directory"),
    };
    let reply = server.handle_login(login);
    bob.handle_notification(&reply.inner, reply.game);
    assert_eq!(bob.username, Some("bob".to_string()));

    let effect = bob.handle_message(ClientMessage::Enqueue, 4);
    let find = match effect {
        SessionEffect::SendFindGame(f) => f,
        _ => panic!("enqueue is forwarded to the directory"),
    };
    let (game, notes) = server.handle_find_game(find, 100);

    // one match exists, with the two participants on opposite sides
    let game = game.expect("the second enqueue starts the match");
    assert_eq!(game.players, vec![1, 2]);
    assert_eq!(notes.len(), 2);
    let mut sides = Vec::new();
    for note in &notes {
        match note.inner {
            OutgoingMessage::GameStarted(side) => sides.push((note.target, side)),
            _ => panic!("both participants hear that the game started"),
        }
    }
    assert_eq!(sides.len(), 2);
    assert_eq!(sides[0].0, 1);
    assert_eq!(sides[1].0, 2);
    assert_ne!(sides[0].1, sides[1].1);

    // each session now holds the match reference
    for note in notes {
        if note.target == 1 {
            alice.handle_notification(&note.inner, note.game);
        } else {
            bob.handle_notification(&note.inner, note.game);
        }
    }
    assert_eq!(alice.game, Some(100));
    assert_eq!(bob.game, Some(100));
}
