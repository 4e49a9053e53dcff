use frontend_tui::game::{game_over_message, next_cursor, player_symbol_for, render_board_text};
use frontend_tui::models::{ApiGame, Key, Pending, Reply, Request, Screen};
use frontend_tui::session::Session;

fn game(id: &str, host: &str, guest: Option<&str>, turn: &str, status: &str) -> ApiGame {
    ApiGame {
        id: id.to_string(),
        mode: "pvp".to_string(),
        name: Some("room".to_string()),
        host_player_id: host.to_string(),
        guest_player_id: guest.map(|g| g.to_string()),
        board: vec![None; 9],
        current_turn: turn.to_string(),
        status: status.to_string(),
        winner: None,
        has_password: false,
    }
}

fn on_solo_game(player: &str, g: ApiGame) -> Session {
    let mut s = Session::new(player.to_string(), 0);
    s.solo_game = Some(g);
    s.screen = Screen::SoloGame;
    s
}

fn on_pvp_game(player: &str, g: ApiGame) -> Session {
    let mut s = Session::new(player.to_string(), 0);
    s.pvp_game = Some(g);
    s.screen = Screen::PvpGame;
    s
}

fn on_lobby(player: &str, games: Vec<ApiGame>) -> Session {
    let mut s = Session::new(player.to_string(), 0);
    s.pvp_games = games;
    s.screen = Screen::PvpLobby;
    s
}

fn on_create_form(player: &str, name: &str, password: &str) -> Session {
    let mut s = Session::new(player.to_string(), 0);
    s.screen = Screen::PvpCreate;
    s.create_name = name.to_string();
    s.create_password = password.to_string();
    s
}

#[test]
fn home_selection_clamps_without_wrapping() {
    let mut s = Session::new("alice".to_string(), 0);
    assert_eq!(s.handle_key(Key::Up), None);
    assert_eq!(s.home_index, 0);
    for _ in 0..5 {
        s.handle_key(Key::Down);
        assert!(s.home_index <= 2);
    }
    assert_eq!(s.home_index, 2);
    s.handle_key(Key::Up);
    assert_eq!(s.home_index, 1);
    for _ in 0..5 {
        s.handle_key(Key::Up);
    }
    assert_eq!(s.home_index, 0);
}

#[test]
fn home_exit_entry_and_quit_key_end_the_session() {
    let mut s = Session::new("alice".to_string(), 0);
    s.handle_key(Key::Down);
    s.handle_key(Key::Down);
    assert_eq!(s.handle_key(Key::Enter), None);
    assert!(s.should_quit);

    let mut t = Session::new("alice".to_string(), 0);
    t.handle_key(Key::Char('q'));
    assert!(t.should_quit);
}

#[test]
fn cursor_moves_hold_at_edges() {
    assert_eq!(next_cursor(0, Key::Left), 0);
    assert_eq!(next_cursor(0, Key::Up), 0);
    assert_eq!(next_cursor(0, Key::Right), 1);
    assert_eq!(next_cursor(2, Key::Right), 2);
    assert_eq!(next_cursor(2, Key::Down), 5);
    assert_eq!(next_cursor(8, Key::Down), 8);
    assert_eq!(next_cursor(8, Key::Right), 8);
    assert_eq!(next_cursor(6, Key::Left), 6);
    assert_eq!(next_cursor(4, Key::Up), 1);
    assert_eq!(next_cursor(4, Key::Char('x')), 4);
    let keys = [Key::Down, Key::Down, Key::Down, Key::Right, Key::Right, Key::Right, Key::Left, Key::Up];
    let mut c = 0;
    for k in keys {
        c = next_cursor(c, k);
        assert!(c < 9);
    }
    assert_eq!(c, 4);
}

#[test]
fn digit_sets_cursor_whatever_it_was() {
    for start in 0..9 {
        for d in 1..=9u32 {
            let ch = char::from_digit(d, 10).unwrap();
            assert_eq!(next_cursor(start, Key::Char(ch)), (d - 1) as usize);
        }
    }
    assert_eq!(next_cursor(3, Key::Char('0')), 3);
}

#[test]
fn player_symbol_follows_seat() {
    let g = game("g", "host", Some("guest"), "X", "IN_PROGRESS");
    assert_eq!(player_symbol_for(&"host".to_string(), &g), "X");
    assert_eq!(player_symbol_for(&"guest".to_string(), &g), "O");
    assert_eq!(player_symbol_for(&"other".to_string(), &g), "?");
}

#[test]
fn no_move_when_game_is_over() {
    let mut s = on_solo_game("alice", game("g1", "alice", None, "X", "WON"));
    assert_eq!(s.handle_key(Key::Enter), None);
    assert_eq!(s.pending, None);
    let mut t = on_pvp_game("alice", game("g2", "alice", Some("bob"), "X", "DRAW"));
    assert_eq!(t.handle_key(Key::Char(' ')), None);
}

#[test]
fn no_move_when_not_players_turn() {
    let mut s = on_pvp_game("bob", game("g2", "alice", Some("bob"), "X", "IN_PROGRESS"));
    assert_eq!(s.handle_key(Key::Enter), None);
    let mut t = on_pvp_game("alice", game("g2", "alice", Some("bob"), "O", "IN_PROGRESS"));
    assert_eq!(t.handle_key(Key::Enter), None);
}

#[test]
fn stranger_sentinel_never_matches_turn() {
    let mut s = on_pvp_game("carol", game("g2", "alice", Some("bob"), "?", "IN_PROGRESS"));
    assert_eq!(s.handle_key(Key::Enter), None);
}

#[test]
fn guest_moves_on_own_turn_at_cursor() {
    let mut s = on_pvp_game("bob", game("g2", "alice", Some("bob"), "O", "IN_PROGRESS"));
    s.handle_key(Key::Char('5'));
    let r = s.handle_key(Key::Enter).expect("a move");
    match r {
        Request::PlayMove { game_id, body } => {
            assert_eq!(game_id, "g2");
            assert_eq!(body.player_id, "bob");
            assert_eq!(body.index, 4);
        }
        other => panic!("unexpected request {:?}", other),
    }
    assert_eq!(s.pending, Some(Pending::PvpMove));
}

#[test]
fn winning_move_reply_reports_win() {
    let mut s = on_solo_game("alice", game("g1", "alice", None, "X", "IN_PROGRESS"));
    assert!(s.handle_key(Key::Enter).is_some());
    let mut done = game("g1", "alice", None, "O", "WON");
    done.winner = Some("X".to_string());
    s.complete(Reply::Game(Ok(done)));
    assert_eq!(s.screen, Screen::GameOver);
    assert_eq!(s.game_over_message, "Solo game finished.\nGame id: g1\nWinner: X (You won!)");
    assert!(s.game_over_message.contains("won"));
    assert_eq!(s.solo_game.as_ref().unwrap().status, "WON");
}

#[test]
fn losing_move_reply_reports_loss() {
    let mut s = on_pvp_game("alice", game("g2", "alice", Some("bob"), "X", "IN_PROGRESS"));
    assert!(s.handle_key(Key::Enter).is_some());
    let mut done = game("g2", "alice", Some("bob"), "X", "WON");
    done.winner = Some("O".to_string());
    s.complete(Reply::Game(Ok(done)));
    assert_eq!(s.screen, Screen::GameOver);
    assert_eq!(s.game_over_message, "PvP game finished.\nGame id: g2\nWinner: O (You lost.)");
    assert!(s.game_over_message.contains("lost"));
}

#[test]
fn drawn_move_reply_names_no_winner() {
    let mut s = on_solo_game("alice", game("g1", "alice", None, "X", "IN_PROGRESS"));
    assert!(s.handle_key(Key::Enter).is_some());
    s.complete(Reply::Game(Ok(game("g1", "alice", None, "X", "DRAW"))));
    assert_eq!(s.screen, Screen::GameOver);
    assert_eq!(s.game_over_message, "Solo game finished.\nGame id: g1\nResult: Draw");
    assert!(!s.game_over_message.contains("Winner"));
    assert!(!s.game_over_message.contains("won"));
}

#[test]
fn game_over_message_without_recorded_winner() {
    let g = game("g9", "alice", Some("bob"), "X", "WON");
    let m = game_over_message("PvP", &"alice".to_string(), &g);
    assert_eq!(m, "PvP game finished.\nGame id: g9\nWinner: Unknown (You lost.)");
}

#[test]
fn running_move_reply_updates_cached_game() {
    let mut s = on_solo_game("alice", game("g1", "alice", None, "X", "IN_PROGRESS"));
    s.handle_key(Key::Enter);
    let mut next = game("g1", "alice", None, "X", "IN_PROGRESS");
    next.board[0] = Some("X".to_string());
    next.board[4] = Some("O".to_string());
    s.complete(Reply::Game(Ok(next.clone())));
    assert_eq!(s.screen, Screen::SoloGame);
    assert_eq!(s.solo_game, Some(next));
    assert_eq!(s.pending, None);
}

#[test]
fn failed_move_shows_reason_and_keeps_view() {
    let g = game("g1", "alice", None, "X", "IN_PROGRESS");
    let mut s = on_solo_game("alice", g.clone());
    s.handle_key(Key::Enter);
    s.complete(Reply::Game(Err("request failed with 400".to_string())));
    assert_eq!(s.screen, Screen::Info);
    assert_eq!(s.info_message, "Move failed: request failed with 400");
    assert_eq!(s.solo_game, Some(g));
}

#[test]
fn join_gated_game_with_empty_buffer_sends_no_password() {
    let mut g = game("g7", "host", None, "X", "IN_PROGRESS");
    g.has_password = true;
    let mut s = on_lobby("bob", vec![g]);
    match s.handle_key(Key::Char('j')) {
        Some(Request::JoinPvp { game_id, body }) => {
            assert_eq!(game_id, "g7");
            assert_eq!(body.player_id, "bob");
            assert_eq!(body.password, None);
        }
        other => panic!("unexpected request {:?}", other),
    }
}

#[test]
fn join_gated_game_sends_buffer_verbatim() {
    let mut g = game("g7", "host", None, "X", "IN_PROGRESS");
    g.has_password = true;
    let mut s = on_lobby("bob", vec![g]);
    s.handle_key(Key::Char('p'));
    for c in " s3cr3t".chars() {
        s.handle_key(Key::Char(c));
    }
    s.handle_key(Key::Esc);
    assert!(!s.editing_join_password);
    match s.handle_key(Key::Enter) {
        Some(Request::JoinPvp { body, .. }) => assert_eq!(body.password, Some(" s3cr3t".to_string())),
        other => panic!("unexpected request {:?}", other),
    }
}

#[test]
fn join_open_game_ignores_buffer() {
    let mut s = on_lobby("bob", vec![game("g7", "host", None, "X", "IN_PROGRESS")]);
    s.join_password = "pw".to_string();
    match s.handle_key(Key::Enter) {
        Some(Request::JoinPvp { body, .. }) => assert_eq!(body.password, None),
        other => panic!("unexpected request {:?}", other),
    }
}

#[test]
fn join_on_empty_lobby_asks_nothing() {
    let mut s = on_lobby("bob", vec![]);
    assert_eq!(s.handle_key(Key::Enter), None);
    assert_eq!(s.pending, None);
}

#[test]
fn joined_game_opens_with_cursor_reset() {
    let mut s = on_lobby("bob", vec![game("g7", "host", None, "X", "IN_PROGRESS")]);
    s.board_cursor = 6;
    s.handle_key(Key::Enter);
    s.complete(Reply::Game(Ok(game("g7", "host", Some("bob"), "X", "IN_PROGRESS"))));
    assert_eq!(s.screen, Screen::PvpGame);
    assert_eq!(s.board_cursor, 0);
    assert_eq!(s.pvp_game.as_ref().unwrap().guest_player_id, Some("bob".to_string()));
}

#[test]
fn failed_join_shows_reason() {
    let mut s = on_lobby("bob", vec![game("g7", "host", None, "X", "IN_PROGRESS")]);
    s.handle_key(Key::Enter);
    s.complete(Reply::Game(Err("wrong password".to_string())));
    assert_eq!(s.screen, Screen::Info);
    assert_eq!(s.info_message, "Join failed: wrong password");
}

#[test]
fn join_password_buffer_is_capped_and_editable() {
    let mut s = on_lobby("bob", vec![]);
    s.handle_key(Key::Char('p'));
    assert!(s.editing_join_password);
    for _ in 0..40 {
        s.handle_key(Key::Char('a'));
    }
    assert_eq!(s.join_password.chars().count(), 32);
    s.handle_key(Key::Backspace);
    assert_eq!(s.join_password.chars().count(), 31);
    s.handle_key(Key::Char('q'));
    assert!(!s.should_quit);
    assert!(s.join_password.ends_with('q'));
    s.handle_key(Key::Enter);
    assert!(!s.editing_join_password);
    assert_eq!(s.pending, None);
}

#[test]
fn create_rejects_short_trimmed_name() {
    let mut s = on_create_form("alice", "  ab  ", "");
    assert_eq!(s.handle_key(Key::Enter), None);
    assert_eq!(s.pending, None);
    assert_eq!(s.screen, Screen::Info);
    assert_eq!(s.info_message, "Game name must be at least 3 chars");
}

#[test]
fn create_with_empty_password_sends_none() {
    let mut s = on_create_form("alice", " abc ", "   ");
    match s.handle_key(Key::Enter) {
        Some(Request::CreatePvp(b)) => {
            assert_eq!(b.player_id, "alice");
            assert_eq!(b.name, "abc");
            assert_eq!(b.password, None);
        }
        other => panic!("unexpected request {:?}", other),
    }
    assert_eq!(s.pending, Some(Pending::Create));
}

#[test]
fn create_sends_trimmed_password() {
    let mut s = on_create_form("alice", "abc", "  pw1  ");
    match s.handle_key(Key::Enter) {
        Some(Request::CreatePvp(b)) => {
            assert_eq!(b.name, "abc");
            assert_eq!(b.password, Some("pw1".to_string()));
        }
        other => panic!("unexpected request {:?}", other),
    }
}

#[test]
fn create_form_typing_fields_and_caps() {
    let mut s = on_lobby("alice", vec![]);
    s.handle_key(Key::Char('c'));
    assert_eq!(s.screen, Screen::PvpCreate);
    assert_eq!(s.create_field_index, 0);
    for _ in 0..45 {
        s.handle_key(Key::Char('n'));
    }
    assert_eq!(s.create_name.chars().count(), 40);
    s.handle_key(Key::Backspace);
    assert_eq!(s.create_name.chars().count(), 39);
    s.handle_key(Key::Tab);
    assert_eq!(s.create_field_index, 1);
    for _ in 0..35 {
        s.handle_key(Key::Char('x'));
    }
    assert_eq!(s.create_password.chars().count(), 32);
    s.handle_key(Key::Up);
    assert_eq!(s.create_field_index, 0);
    s.handle_key(Key::Down);
    assert_eq!(s.create_field_index, 1);
    s.handle_key(Key::Esc);
    assert_eq!(s.screen, Screen::PvpLobby);
}

#[test]
fn created_game_opens_two_player_screen() {
    let mut s = on_create_form("alice", "room", "");
    s.handle_key(Key::Enter);
    s.complete(Reply::Game(Ok(game("g5", "alice", None, "X", "IN_PROGRESS"))));
    assert_eq!(s.screen, Screen::PvpGame);
    assert_eq!(s.pvp_game.as_ref().unwrap().id, "g5");
}

#[test]
fn failed_create_shows_reason() {
    let mut s = on_create_form("alice", "room", "");
    s.handle_key(Key::Enter);
    s.complete(Reply::Game(Err("request failed with 500".to_string())));
    assert_eq!(s.info_message, "Create game failed: request failed with 500");
    assert_eq!(s.screen, Screen::Info);
}

#[test]
fn failed_lobby_poll_keeps_list() {
    let games = vec![game("a", "h", None, "X", "IN_PROGRESS"), game("b", "h", None, "X", "IN_PROGRESS")];
    let mut s = on_lobby("alice", games.clone());
    s.pvp_selected_index = 1;
    assert_eq!(s.poll(1500), Some(Request::ListOpenPvp));
    s.complete(Reply::Games(Err("connection refused".to_string())));
    assert_eq!(s.pvp_games, games);
    assert_eq!(s.pvp_selected_index, 1);
    assert_eq!(s.screen, Screen::PvpLobby);
    assert_eq!(s.info_message, "");
}

#[test]
fn failed_game_poll_keeps_game() {
    let g = game("g2", "alice", Some("bob"), "O", "IN_PROGRESS");
    let mut s = on_pvp_game("alice", g.clone());
    assert_eq!(s.poll(2000), Some(Request::GetGame { game_id: "g2".to_string() }));
    s.complete(Reply::Game(Err("timeout".to_string())));
    assert_eq!(s.pvp_game, Some(g));
    assert_eq!(s.screen, Screen::PvpGame);
    assert_eq!(s.info_message, "");
}

#[test]
fn game_poll_sees_opponent_win() {
    let mut s = on_pvp_game("alice", game("g2", "alice", Some("bob"), "O", "IN_PROGRESS"));
    s.poll(1000);
    let mut done = game("g2", "alice", Some("bob"), "X", "WON");
    done.winner = Some("O".to_string());
    s.complete(Reply::Game(Ok(done)));
    assert_eq!(s.screen, Screen::GameOver);
    assert!(s.game_over_message.contains("You lost."));
}

#[test]
fn poll_waits_for_interval_and_advances_gate() {
    let mut s = on_lobby("alice", vec![]);
    s.last_poll_ms = 500;
    assert_eq!(s.poll(1499), None);
    assert_eq!(s.last_poll_ms, 500);
    assert_eq!(s.poll(100), None);
    assert_eq!(s.poll(1500), Some(Request::ListOpenPvp));
    assert_eq!(s.last_poll_ms, 1500);
    // a reply is awaited: no second refresh
    assert_eq!(s.poll(9000), None);

    let mut h = Session::new("alice".to_string(), 0);
    assert_eq!(h.poll(5000), None);
    assert_eq!(h.last_poll_ms, 5000);
}

#[test]
fn keys_wait_for_pending_reply() {
    let mut s = Session::new("alice".to_string(), 0);
    assert!(s.handle_key(Key::Enter).is_some());
    assert_eq!(s.handle_key(Key::Char('q')), None);
    assert!(!s.should_quit);
    s.complete(Reply::Game(Err("down".to_string())));
    assert_eq!(s.info_message, "Could not start solo game: down");
    assert_eq!(s.screen, Screen::Info);
}

#[test]
fn reply_of_wrong_kind_is_dropped() {
    let mut s = Session::new("alice".to_string(), 0);
    s.handle_key(Key::Enter);
    s.complete(Reply::Games(Ok(vec![])));
    assert_eq!(s.pending, None);
    assert_eq!(s.screen, Screen::Home);
    assert_eq!(s.solo_game, None);
}

#[test]
fn fresh_session_solo_game_then_first_move() {
    let mut s = Session::new("alice".to_string(), 0);
    match s.handle_key(Key::Enter) {
        Some(Request::CreateSolo(b)) => {
            assert_eq!(b.player_id, "alice");
            assert_eq!(b.client_name, "rust-tui-client");
        }
        other => panic!("unexpected request {:?}", other),
    }
    s.complete(Reply::Game(Ok(ApiGame {
        id: "solo-1".to_string(),
        mode: "solo".to_string(),
        name: None,
        host_player_id: "alice".to_string(),
        guest_player_id: None,
        board: vec![None; 9],
        current_turn: "X".to_string(),
        status: "IN_PROGRESS".to_string(),
        winner: None,
        has_password: false,
    })));
    assert_eq!(s.screen, Screen::SoloGame);
    assert_eq!(s.board_cursor, 0);
    let mut calls = Vec::new();
    if let Some(r) = s.handle_key(Key::Enter) {
        calls.push(r);
    }
    assert_eq!(calls.len(), 1);
    match &calls[0] {
        Request::PlayMove { game_id, body } => {
            assert_eq!(game_id, "solo-1");
            assert_eq!(body.index, 0);
            assert_eq!(body.player_id, "alice");
        }
        other => panic!("unexpected request {:?}", other),
    }
}

#[test]
fn lobby_refresh_to_empty_list_clamps_selection() {
    let mut s = on_lobby("alice", vec![game("a", "h", None, "X", "IN_PROGRESS")]);
    assert_eq!(s.pvp_selected_index, 0);
    assert_eq!(s.handle_key(Key::Char('r')), Some(Request::ListOpenPvp));
    s.complete(Reply::Games(Ok(vec![])));
    assert_eq!(s.pvp_selected_index, 0);
    assert!(s.pvp_games.is_empty());

    let mut t = on_lobby("alice", vec![game("a", "h", None, "X", "IN_PROGRESS")]);
    t.poll(1000);
    t.complete(Reply::Games(Ok(vec![])));
    assert_eq!(t.pvp_selected_index, 0);
}

#[test]
fn lobby_poll_clamps_shrunk_selection() {
    let three = vec![
        game("a", "h", None, "X", "IN_PROGRESS"),
        game("b", "h", None, "X", "IN_PROGRESS"),
        game("c", "h", None, "X", "IN_PROGRESS"),
    ];
    let mut s = on_lobby("alice", three);
    s.handle_key(Key::Down);
    s.handle_key(Key::Down);
    s.handle_key(Key::Down);
    assert_eq!(s.pvp_selected_index, 2);
    s.poll(1000);
    s.complete(Reply::Games(Ok(vec![game("a", "h", None, "X", "IN_PROGRESS"), game("b", "h", None, "X", "IN_PROGRESS")])));
    assert_eq!(s.pvp_selected_index, 1);
}

#[test]
fn home_opens_lobby_or_reports_failure() {
    let mut s = Session::new("alice".to_string(), 0);
    s.handle_key(Key::Down);
    assert_eq!(s.handle_key(Key::Enter), Some(Request::ListOpenPvp));
    s.complete(Reply::Games(Ok(vec![game("a", "h", None, "X", "IN_PROGRESS")])));
    assert_eq!(s.screen, Screen::PvpLobby);
    assert_eq!(s.pvp_games.len(), 1);

    let mut t = Session::new("alice".to_string(), 0);
    t.handle_key(Key::Down);
    t.handle_key(Key::Enter);
    t.complete(Reply::Games(Err("offline".to_string())));
    assert_eq!(t.info_message, "Could not load PvP games: offline");
}

#[test]
fn failed_refresh_shows_reason() {
    let mut s = on_lobby("alice", vec![]);
    s.handle_key(Key::Char('r'));
    s.complete(Reply::Games(Err("offline".to_string())));
    assert_eq!(s.screen, Screen::Info);
    assert_eq!(s.info_message, "Refresh failed: offline");
}

#[test]
fn info_and_game_over_return_home() {
    let mut s = Session::new("alice".to_string(), 0);
    s.show_error("boom".to_string());
    assert_eq!(s.handle_key(Key::Char('x')), None);
    assert_eq!(s.screen, Screen::Info);
    s.handle_key(Key::Esc);
    assert_eq!(s.screen, Screen::Home);
    assert_eq!(s.info_message, "");

    s.screen = Screen::GameOver;
    s.handle_key(Key::Char('m'));
    assert_eq!(s.screen, Screen::Home);
    s.screen = Screen::GameOver;
    s.handle_key(Key::Char('q'));
    assert!(s.should_quit);
}

#[test]
fn back_keys_leave_game_screens() {
    let mut s = on_solo_game("alice", game("g1", "alice", None, "X", "IN_PROGRESS"));
    s.handle_key(Key::Char('b'));
    assert_eq!(s.screen, Screen::Home);
    let mut t = on_pvp_game("alice", game("g2", "alice", None, "X", "IN_PROGRESS"));
    t.handle_key(Key::Char('b'));
    assert_eq!(t.screen, Screen::PvpLobby);
}

#[test]
fn board_text_marks_cursor_cell() {
    let mut board: Vec<Option<String>> = vec![None; 9];
    board[0] = Some("X".to_string());
    board[4] = Some("O".to_string());
    let text = render_board_text(&board, 4);
    assert_eq!(
        text,
        " X |   |   \n-----------\n   |[O]|   \n-----------\n   |   |   \n\n1 2 3\n4 5 6\n7 8 9"
    );
}

#[test]
fn fresh_identity_is_a_hyphenated_uuid() {
    let a = Session::start(0);
    let b = Session::start(0);
    assert_eq!(a.player_id.len(), 36);
    assert_eq!(a.player_id.matches('-').count(), 4);
    assert_ne!(a.player_id, b.player_id);
    assert_eq!(a.screen, Screen::Home);
}
