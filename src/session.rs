use vstd::prelude::*;
use vstd::string::*;

use crate::game::{
    cursor_after, game_over_message, game_over_text, is_finished, is_game_finished, may_move,
    may_send_move, next_cursor,
};
use crate::models::{
    ApiGame, CreatePvpRequest, CreateSoloRequest, JoinPvpRequest, Key, Pending, PlayMoveRequest,
    Reply, Request, Screen,
};
use crate::text::{char_count, joined, pop_char, push_char, trim_text, trimmed};

verus! {

/// Number of entries of the home menu: solo, two players, exit.
pub const HOME_ITEMS: usize = 3;

/// Most characters that the join password buffer holds.
pub const JOIN_PASSWORD_CAP: usize = 32;

/// Most characters of a new game's name.
pub const NAME_CAP: usize = 40;

/// Most characters of a new game's password.
pub const PASSWORD_CAP: usize = 32;

/// Fewest characters of a new game's name, once trimmed.
pub const NAME_MIN: usize = 3;

/// Least time between two refreshes of remote state, in milliseconds.
pub const POLL_INTERVAL_MS: u64 = 1000;

/// Relies on `uuid::Uuid::new_v4` for a random identity, written by its
/// `Display` impl in the hyphenated form, which has 36 characters.
#[verifier::external_body]
fn fresh_player_id() -> (r: String)
    ensures
        r@.len() == 36,
{
    uuid::Uuid::new_v4().to_string()
}

/// The state of one client session: who plays, which screen is active, the
/// cached game views and the form buffers.
#[derive(Debug)]
pub struct Session {
    pub player_id: String,
    pub screen: Screen,
    pub home_index: usize,
    pub board_cursor: usize,
    pub solo_game: Option<ApiGame>,
    pub pvp_game: Option<ApiGame>,
    pub pvp_games: Vec<ApiGame>,
    pub pvp_selected_index: usize,
    pub create_name: String,
    pub create_password: String,
    pub create_field_index: usize,
    pub join_password: String,
    pub editing_join_password: bool,
    pub game_over_message: String,
    pub info_message: String,
    pub should_quit: bool,
    /// When the remote state was last refreshed, or a refresh last attempted.
    pub last_poll_ms: u64,
    /// The request whose reply is awaited, if any.
    pub pending: Option<Pending>,
}

/// The key confirms a move.
pub open spec fn is_confirm(key: Key) -> bool {
    key == Key::Enter || key == Key::Char(' ')
}

/// The home menu selection after one key: up and down move it, holding at
/// the first and the last entry.
pub open spec fn home_index_after(i: int, key: Key) -> int {
    match key {
        Key::Up => if i > 0 { i - 1 } else { 0 },
        Key::Down => if i + 1 < HOME_ITEMS { i + 1 } else { i },
        _ => i,
    }
}

/// `s` with its last character removed, if it has one.
pub open spec fn without_last(s: Seq<char>) -> Seq<char> {
    if s.len() > 0 { s.drop_last() } else { s }
}

/// `s` with `c` appended, unless it already holds `cap` characters.
pub open spec fn pushed_within(s: Seq<char>, c: char, cap: int) -> Seq<char> {
    if s.len() < cap { s.push(c) } else { s }
}

/// The lobby selection kept after the list was replaced by one of length
/// `len`: the old one if still in range, else the last entry (0 when empty).
pub open spec fn clamped_index(i: int, len: int) -> int {
    if i < len { i } else if len > 0 { len - 1 } else { 0 }
}

/// The password sent when joining `g` with the join buffer `buffer`: the
/// buffer, only for a game with a password and a non-empty buffer.
pub open spec fn join_password_for(g: ApiGame, buffer: String) -> Option<String> {
    if g.has_password && buffer@.len() > 0 { Some(buffer) } else { None }
}

/// `t` is `s` showing `msg` on the Info screen, and nothing else changed.
pub open spec fn shows_error(s: Session, t: Session, msg: Seq<char>) -> bool {
    &&& t.info_message@ == msg
    &&& t == (Session { info_message: t.info_message, screen: Screen::Info, ..s })
}

/// `t` is `s` with the quit flag set.
pub open spec fn quits(s: Session, t: Session) -> bool {
    t == (Session { should_quit: true, ..s })
}

/// A key on the home menu.
pub open spec fn home_step(s: Session, key: Key, t: Session, r: Option<Request>) -> bool {
    if key == Key::Char('q') {
        r is None && quits(s, t)
    } else if key == Key::Enter {
        if s.home_index == 0 {
            &&& t == (Session { pending: Some(Pending::StartSolo), ..s })
            &&& r matches Some(Request::CreateSolo(b)) && b.player_id == s.player_id
                && b.client_name@ == "rust-tui-client"@
        } else if s.home_index == 1 {
            &&& t == (Session { pending: Some(Pending::OpenLobby), ..s })
            &&& r == Some(Request::ListOpenPvp)
        } else {
            r is None && quits(s, t)
        }
    } else {
        &&& r is None
        &&& t == (Session { home_index: home_index_after(s.home_index as int, key) as usize, ..s })
    }
}

/// A key on a game screen: the solo one if `solo`, else the two-player one.
/// A confirm key asks for a move at the (moved) cursor only where the game
/// runs and it is this player's turn.
pub open spec fn board_step(s: Session, key: Key, solo: bool, t: Session, r: Option<Request>) -> bool {
    if key == Key::Char('b') {
        r is None && t == (Session { screen: if solo { Screen::Home } else { Screen::PvpLobby }, ..s })
    } else if key == Key::Char('q') {
        r is None && quits(s, t)
    } else {
        let cursor = cursor_after(s.board_cursor as int, key) as usize;
        let game = if solo { s.solo_game } else { s.pvp_game };
        let moved = Session { board_cursor: cursor, ..s };
        if is_confirm(key) && game is Some && may_move(s.player_id@, game->0) {
            &&& t == (Session {
                pending: Some(if solo { Pending::SoloMove } else { Pending::PvpMove }),
                ..moved
            })
            &&& r == Some(
                Request::PlayMove {
                    game_id: game->0.id,
                    body: PlayMoveRequest { player_id: s.player_id, index: cursor },
                },
            )
        } else {
            r is None && t == moved
        }
    }
}

/// A key in the lobby while the join password is edited.
pub open spec fn password_edit_step(s: Session, key: Key, t: Session) -> bool {
    match key {
        Key::Esc | Key::Enter => t == (Session { editing_join_password: false, ..s }),
        Key::Backspace => {
            &&& t.join_password@ == without_last(s.join_password@)
            &&& t == (Session { join_password: t.join_password, ..s })
        },
        Key::Char(c) => {
            &&& t.join_password@ == pushed_within(s.join_password@, c, JOIN_PASSWORD_CAP as int)
            &&& t == (Session { join_password: t.join_password, ..s })
        },
        _ => t == s,
    }
}

/// A key in the lobby.
pub open spec fn lobby_step(s: Session, key: Key, t: Session, r: Option<Request>) -> bool {
    let len = s.pvp_games@.len();
    let sel = s.pvp_selected_index;
    if s.editing_join_password {
        r is None && password_edit_step(s, key, t)
    } else if key == Key::Char('b') {
        r is None && t == (Session { screen: Screen::Home, ..s })
    } else if key == Key::Char('q') {
        r is None && quits(s, t)
    } else if key == Key::Up {
        r is None && t == (Session { pvp_selected_index: if sel > 0 { (sel - 1) as usize } else { 0 }, ..s })
    } else if key == Key::Down {
        r is None && t == (Session {
            pvp_selected_index: if sel + 1 < len { (sel + 1) as usize } else { sel },
            ..s
        })
    } else if key == Key::Char('r') {
        r == Some(Request::ListOpenPvp) && t == (Session { pending: Some(Pending::RefreshLobby), ..s })
    } else if key == Key::Char('c') {
        &&& r is None
        &&& t.create_name@.len() == 0
        &&& t.create_password@.len() == 0
        &&& t == (Session {
            create_name: t.create_name,
            create_password: t.create_password,
            create_field_index: 0,
            screen: Screen::PvpCreate,
            ..s
        })
    } else if key == Key::Char('p') {
        r is None && t == (Session { editing_join_password: true, ..s })
    } else if key == Key::Char('j') || key == Key::Enter {
        if len == 0 {
            r is None && t == s
        } else {
            let g = s.pvp_games@[sel as int];
            &&& t == (Session { pending: Some(Pending::Join), ..s })
            &&& r == Some(
                Request::JoinPvp {
                    game_id: g.id,
                    body: JoinPvpRequest {
                        player_id: s.player_id,
                        password: join_password_for(g, s.join_password),
                    },
                },
            )
        }
    } else {
        r is None && t == s
    }
}

/// The create request for a name and a password buffer: the trimmed name,
/// and the trimmed password unless it is empty.
pub open spec fn is_create_request(
    r: Option<Request>,
    player_id: String,
    name: Seq<char>,
    password: Seq<char>,
) -> bool {
    match r {
        Some(Request::CreatePvp(b)) => {
            &&& b.player_id == player_id
            &&& b.name@ == trimmed(name)
            &&& match b.password {
                Some(p) => trimmed(password).len() > 0 && p@ == trimmed(password),
                None => trimmed(password).len() == 0,
            }
        },
        _ => false,
    }
}

/// A key on the create form.
pub open spec fn create_step(s: Session, key: Key, t: Session, r: Option<Request>) -> bool {
    let on_name = s.create_field_index == 0;
    if key == Key::Esc || key == Key::Char('b') {
        r is None && t == (Session { screen: Screen::PvpLobby, ..s })
    } else if key == Key::Tab || key == Key::Down || key == Key::Up {
        r is None && t == (Session {
            create_field_index: ((s.create_field_index + 1) % 2) as usize,
            ..s
        })
    } else if key == Key::Backspace {
        &&& r is None
        &&& t.create_name@ == if on_name { without_last(s.create_name@) } else { s.create_name@ }
        &&& t.create_password@ == if on_name {
            s.create_password@
        } else {
            without_last(s.create_password@)
        }
        &&& t == (Session { create_name: t.create_name, create_password: t.create_password, ..s })
    } else if key == Key::Enter {
        if trimmed(s.create_name@).len() < NAME_MIN {
            r is None && shows_error(s, t, "Game name must be at least 3 chars"@)
        } else {
            &&& t == (Session { pending: Some(Pending::Create), ..s })
            &&& is_create_request(r, s.player_id, s.create_name@, s.create_password@)
        }
    } else if key is Char {
        let c = key->Char_0;
        &&& r is None
        &&& t.create_name@ == if on_name {
            pushed_within(s.create_name@, c, NAME_CAP as int)
        } else {
            s.create_name@
        }
        &&& t.create_password@ == if on_name {
            s.create_password@
        } else {
            pushed_within(s.create_password@, c, PASSWORD_CAP as int)
        }
        &&& t == (Session { create_name: t.create_name, create_password: t.create_password, ..s })
    } else {
        r is None && t == s
    }
}

/// A key on the game-over screen.
pub open spec fn game_over_step(s: Session, key: Key, t: Session) -> bool {
    if key == Key::Char('q') {
        quits(s, t)
    } else if key == Key::Enter || key == Key::Esc || key == Key::Char('b') || key == Key::Char('m') {
        t == (Session { screen: Screen::Home, ..s })
    } else {
        t == s
    }
}

/// A key on the Info screen: dismissing returns home and drops the message.
pub open spec fn info_step(s: Session, key: Key, t: Session) -> bool {
    if key == Key::Enter || key == Key::Esc || key == Key::Char('b') {
        t.info_message@.len() == 0 && t == (Session {
            info_message: t.info_message,
            screen: Screen::Home,
            ..s
        })
    } else {
        t == s
    }
}

/// One key press: `t` is the session after it and `r` the request to make.
/// While a reply is awaited keys are ignored.
pub open spec fn key_step(s: Session, key: Key, t: Session, r: Option<Request>) -> bool {
    if s.pending is Some {
        r is None && t == s
    } else {
        match s.screen {
            Screen::Home => home_step(s, key, t, r),
            Screen::SoloGame => board_step(s, key, true, t, r),
            Screen::PvpLobby => lobby_step(s, key, t, r),
            Screen::PvpCreate => create_step(s, key, t, r),
            Screen::PvpGame => board_step(s, key, false, t, r),
            Screen::GameOver => r is None && game_over_step(s, key, t),
            Screen::Info => r is None && info_step(s, key, t),
        }
    }
}

/// One tick of the poller at time `now`: once the interval has passed since
/// the last attempt, the lobby list or the running two-player game is
/// fetched again; the time of the attempt is kept whatever the screen.
pub open spec fn poll_step(s: Session, now: u64, t: Session, r: Option<Request>) -> bool {
    if s.pending is Some || now < s.last_poll_ms || now - s.last_poll_ms < POLL_INTERVAL_MS {
        r is None && t == s
    } else {
        let u = Session { last_poll_ms: now, ..s };
        if s.screen == Screen::PvpLobby {
            r == Some(Request::ListOpenPvp) && t == (Session { pending: Some(Pending::PollLobby), ..u })
        } else if s.screen == Screen::PvpGame && s.pvp_game is Some {
            &&& r == Some(Request::GetGame { game_id: s.pvp_game->0.id })
            &&& t == (Session { pending: Some(Pending::PollGame), ..u })
        } else {
            r is None && t == u
        }
    }
}

/// `t` is `s` with the game view `g` cached for the solo or the two-player
/// screen; where `g` has ended, the game-over screen shows its result.
pub open spec fn takes_game(s: Session, g: ApiGame, solo: bool, t: Session) -> bool {
    let cached = if solo {
        Session { solo_game: Some(g), ..s }
    } else {
        Session { pvp_game: Some(g), ..s }
    };
    if is_finished(g) {
        &&& t.game_over_message@ == game_over_text(
            if solo { "Solo"@ } else { "PvP"@ },
            s.player_id@,
            g,
        )
        &&& t == (Session {
            game_over_message: t.game_over_message,
            screen: Screen::GameOver,
            ..cached
        })
    } else {
        t == cached
    }
}

/// A reply to the request that `s` awaits. A failed request that the user
/// asked for shows its reason; a failed refresh changes nothing. A reply of
/// the wrong kind is dropped.
pub open spec fn reply_step(s: Session, reply: Reply, t: Session) -> bool {
    let b = Session { pending: None, ..s };
    match s.pending {
        None => t == s,
        Some(p) => match reply {
            Reply::Game(Ok(g)) => match p {
                Pending::StartSolo => t == (Session {
                    solo_game: Some(g),
                    board_cursor: 0,
                    screen: Screen::SoloGame,
                    ..b
                }),
                Pending::Join | Pending::Create => t == (Session {
                    pvp_game: Some(g),
                    board_cursor: 0,
                    screen: Screen::PvpGame,
                    ..b
                }),
                Pending::SoloMove => takes_game(b, g, true, t),
                Pending::PvpMove | Pending::PollGame => takes_game(b, g, false, t),
                _ => t == b,
            },
            Reply::Game(Err(e)) => match p {
                Pending::StartSolo => shows_error(b, t, "Could not start solo game: "@ + e@),
                Pending::Join => shows_error(b, t, "Join failed: "@ + e@),
                Pending::Create => shows_error(b, t, "Create game failed: "@ + e@),
                Pending::SoloMove | Pending::PvpMove => shows_error(b, t, "Move failed: "@ + e@),
                _ => t == b,
            },
            Reply::Games(Ok(games)) => match p {
                Pending::OpenLobby => t == (Session {
                    pvp_games: games,
                    pvp_selected_index: 0,
                    screen: Screen::PvpLobby,
                    ..b
                }),
                Pending::RefreshLobby => t == (Session { pvp_games: games, pvp_selected_index: 0, ..b }),
                Pending::PollLobby => t == (Session {
                    pvp_games: games,
                    pvp_selected_index: clamped_index(
                        s.pvp_selected_index as int,
                        games@.len() as int,
                    ) as usize,
                    ..b
                }),
                _ => t == b,
            },
            Reply::Games(Err(e)) => match p {
                Pending::OpenLobby => shows_error(b, t, "Could not load PvP games: "@ + e@),
                Pending::RefreshLobby => shows_error(b, t, "Refresh failed: "@ + e@),
                _ => t == b,
            },
        },
    }
}

impl Session {
    /// The session's invariant: selections within their ranges, form buffers
    /// within their caps, and each game screen with its game view.
    pub open spec fn wf(&self) -> bool {
        &&& self.home_index < HOME_ITEMS
        &&& self.board_cursor < 9
        &&& self.create_field_index < 2
        &&& if self.pvp_games@.len() > 0 {
            self.pvp_selected_index < self.pvp_games@.len()
        } else {
            self.pvp_selected_index == 0
        }
        &&& self.screen == Screen::SoloGame ==> self.solo_game is Some
        &&& self.screen == Screen::PvpGame ==> self.pvp_game is Some
        &&& self.join_password@.len() <= JOIN_PASSWORD_CAP
        &&& self.create_name@.len() <= NAME_CAP
        &&& self.create_password@.len() <= PASSWORD_CAP
    }

    /// A session that has just begun at time `now` for `player_id`.
    pub open spec fn is_fresh(&self, player_id: String, now: u64) -> bool {
        &&& self.player_id == player_id
        &&& self.screen == Screen::Home
        &&& self.home_index == 0
        &&& self.board_cursor == 0
        &&& self.solo_game is None
        &&& self.pvp_game is None
        &&& self.pvp_games@.len() == 0
        &&& self.pvp_selected_index == 0
        &&& self.create_name@.len() == 0
        &&& self.create_password@.len() == 0
        &&& self.create_field_index == 0
        &&& self.join_password@.len() == 0
        &&& !self.editing_join_password
        &&& self.game_over_message@.len() == 0
        &&& self.info_message@.len() == 0
        &&& !self.should_quit
        &&& self.last_poll_ms == now
        &&& self.pending is None
    }

    /// A new session for `player_id`, on the home screen, at time `now_ms`.
    pub fn new(player_id: String, now_ms: u64) -> (r: Session)
        ensures
            r.is_fresh(player_id, now_ms),
            r.wf(),
    {
        Session {
            player_id,
            screen: Screen::Home,
            home_index: 0,
            board_cursor: 0,
            solo_game: None,
            pvp_game: None,
            pvp_games: Vec::new(),
            pvp_selected_index: 0,
            create_name: String::new(),
            create_password: String::new(),
            create_field_index: 0,
            join_password: String::new(),
            editing_join_password: false,
            game_over_message: String::new(),
            info_message: String::new(),
            should_quit: false,
            last_poll_ms: now_ms,
            pending: None,
        }
    }

    /// A new session at time `now_ms` for a freshly drawn player identity.
    pub fn start(now_ms: u64) -> (r: Session)
        ensures
            r.is_fresh(r.player_id, now_ms),
            r.player_id@.len() == 36,
            r.wf(),
    {
        Session::new(fresh_player_id(), now_ms)
    }

    /// Shows `message` on the Info screen.
    pub fn show_error(&mut self, message: String)
        ensures
            *final(self) == (Session { info_message: message, screen: Screen::Info, ..*old(self) }),
    {
        self.info_message = message;
        self.screen = Screen::Info;
    }

    /// Shows the result of the finished `game` on the game-over screen.
    pub fn open_game_over(&mut self, game: &ApiGame, mode_label: &str)
        ensures
            final(self).game_over_message@ == game_over_text(
                mode_label@,
                old(self).player_id@,
                *game,
            ),
            *final(self) == (Session {
                game_over_message: final(self).game_over_message,
                screen: Screen::GameOver,
                ..*old(self)
            }),
    {
        self.game_over_message = game_over_message(mode_label, &self.player_id, game);
        self.screen = Screen::GameOver;
    }
    /// A key on the home menu.
    fn handle_home_key(&mut self, key: Key) -> (r: Option<Request>)
        requires
            old(self).wf(),
        ensures
            home_step(*old(self), key, *final(self), r),
    {
        match key {
            Key::Char('q') => {
                self.should_quit = true;
                None
            },
            Key::Up => {
                if self.home_index > 0 {
                    self.home_index = self.home_index - 1;
                }
                None
            },
            Key::Down => {
                if self.home_index + 1 < HOME_ITEMS {
                    self.home_index = self.home_index + 1;
                }
                None
            },
            Key::Enter => {
                if self.home_index == 0 {
                    let body = CreateSoloRequest {
                        player_id: self.player_id.clone(),
                        client_name: String::from_str("rust-tui-client"),
                    };
                    self.pending = Some(Pending::StartSolo);
                    Some(Request::CreateSolo(body))
                } else if self.home_index == 1 {
                    self.pending = Some(Pending::OpenLobby);
                    Some(Request::ListOpenPvp)
                } else {
                    self.should_quit = true;
                    None
                }
            },
            _ => None,
        }
    }

    /// A key on a game screen: the solo one if `solo`, else the two-player one.
    fn handle_board_key(&mut self, key: Key, solo: bool) -> (r: Option<Request>)
        requires
            old(self).wf(),
        ensures
            board_step(*old(self), key, solo, *final(self), r),
    {
        match key {
            Key::Char('b') => {
                self.screen = if solo { Screen::Home } else { Screen::PvpLobby };
                return None;
            },
            Key::Char('q') => {
                self.should_quit = true;
                return None;
            },
            _ => {},
        }
        self.board_cursor = next_cursor(self.board_cursor, key);
        let confirm = match key {
            Key::Enter | Key::Char(' ') => true,
            _ => false,
        };
        if !confirm {
            return None;
        }
        let game = if solo { &self.solo_game } else { &self.pvp_game };
        let request = match game {
            Some(g) => if may_send_move(&self.player_id, g) {
                Some(
                    Request::PlayMove {
                        game_id: g.id.clone(),
                        body: PlayMoveRequest {
                            player_id: self.player_id.clone(),
                            index: self.board_cursor,
                        },
                    },
                )
            } else {
                None
            },
            None => None,
        };
        if request.is_some() {
            self.pending = Some(if solo { Pending::SoloMove } else { Pending::PvpMove });
        }
        request
    }
    /// A key in the lobby.
    fn handle_pvp_lobby_key(&mut self, key: Key) -> (r: Option<Request>)
        requires
            old(self).wf(),
        ensures
            lobby_step(*old(self), key, *final(self), r),
    {
        if self.editing_join_password {
            match key {
                Key::Esc | Key::Enter => self.editing_join_password = false,
                Key::Backspace => pop_char(&mut self.join_password),
                Key::Char(c) => {
                    if char_count(self.join_password.as_str()) < JOIN_PASSWORD_CAP {
                        push_char(&mut self.join_password, c);
                    }
                },
                _ => {},
            }
            return None;
        }
        match key {
            Key::Char('b') => {
                self.screen = Screen::Home;
                None
            },
            Key::Char('q') => {
                self.should_quit = true;
                None
            },
            Key::Up => {
                if self.pvp_selected_index > 0 {
                    self.pvp_selected_index = self.pvp_selected_index - 1;
                }
                None
            },
            Key::Down => {
                let len = self.pvp_games.len();
                if len > 0 && self.pvp_selected_index < len - 1 {
                    self.pvp_selected_index = self.pvp_selected_index + 1;
                }
                None
            },
            Key::Char('r') => {
                self.pending = Some(Pending::RefreshLobby);
                Some(Request::ListOpenPvp)
            },
            Key::Char('c') => {
                self.create_name = String::new();
                self.create_password = String::new();
                self.create_field_index = 0;
                self.screen = Screen::PvpCreate;
                None
            },
            Key::Char('p') => {
                self.editing_join_password = true;
                None
            },
            Key::Char('j') | Key::Enter => {
                if self.pvp_games.len() == 0 {
                    return None;
                }
                let g = &self.pvp_games[self.pvp_selected_index];
                let password = if g.has_password && char_count(self.join_password.as_str()) > 0 {
                    Some(self.join_password.clone())
                } else {
                    None
                };
                let request = Request::JoinPvp {
                    game_id: g.id.clone(),
                    body: JoinPvpRequest { player_id: self.player_id.clone(), password },
                };
                self.pending = Some(Pending::Join);
                Some(request)
            },
            _ => None,
        }
    }

    /// A key on the create form.
    fn handle_pvp_create_key(&mut self, key: Key) -> (r: Option<Request>)
        requires
            old(self).wf(),
        ensures
            create_step(*old(self), key, *final(self), r),
    {
        let on_name = self.create_field_index == 0;
        match key {
            Key::Esc | Key::Char('b') => {
                self.screen = Screen::PvpLobby;
                None
            },
            Key::Tab | Key::Down | Key::Up => {
                self.create_field_index = (self.create_field_index + 1) % 2;
                None
            },
            Key::Backspace => {
                if on_name {
                    pop_char(&mut self.create_name);
                } else {
                    pop_char(&mut self.create_password);
                }
                None
            },
            Key::Enter => {
                let name = trim_text(self.create_name.as_str());
                if char_count(name.as_str()) < NAME_MIN {
                    self.show_error(String::from_str("Game name must be at least 3 chars"));
                    return None;
                }
                let password = trim_text(self.create_password.as_str());
                let password = if char_count(password.as_str()) == 0 {
                    None
                } else {
                    Some(password)
                };
                let body = CreatePvpRequest { player_id: self.player_id.clone(), name, password };
                self.pending = Some(Pending::Create);
                Some(Request::CreatePvp(body))
            },
            Key::Char(c) => {
                if on_name {
                    if char_count(self.create_name.as_str()) < NAME_CAP {
                        push_char(&mut self.create_name, c);
                    }
                } else if char_count(self.create_password.as_str()) < PASSWORD_CAP {
                    push_char(&mut self.create_password, c);
                }
                None
            },
            _ => None,
        }
    }

    /// A key on the game-over screen.
    fn handle_game_over_key(&mut self, key: Key)
        ensures
            game_over_step(*old(self), key, *final(self)),
    {
        match key {
            Key::Char('q') => self.should_quit = true,
            Key::Enter | Key::Esc | Key::Char('b') | Key::Char('m') => self.screen = Screen::Home,
            _ => {},
        }
    }

    /// A key on the Info screen.
    fn handle_info_key(&mut self, key: Key)
        ensures
            info_step(*old(self), key, *final(self)),
    {
        match key {
            Key::Enter | Key::Esc | Key::Char('b') => {
                self.info_message = String::new();
                self.screen = Screen::Home;
            },
            _ => {},
        }
    }

    /// Handles one key press. Returns the request to make of the game
    /// service, if the key asks for one; its reply goes to `complete`.
    pub fn handle_key(&mut self, key: Key) -> (r: Option<Request>)
        requires
            old(self).wf(),
        ensures
            key_step(*old(self), key, *final(self), r),
            final(self).wf(),
    {
        if self.pending.is_some() {
            return None;
        }
        match self.screen {
            Screen::Home => self.handle_home_key(key),
            Screen::SoloGame => self.handle_board_key(key, true),
            Screen::PvpLobby => self.handle_pvp_lobby_key(key),
            Screen::PvpCreate => self.handle_pvp_create_key(key),
            Screen::PvpGame => self.handle_board_key(key, false),
            Screen::GameOver => {
                self.handle_game_over_key(key);
                None
            },
            Screen::Info => {
                self.handle_info_key(key);
                None
            },
        }
    }
    /// One tick of the poller at time `now_ms`. Returns the refresh to make of
    /// the game service, if one is due; its reply goes to `complete`.
    pub fn poll(&mut self, now_ms: u64) -> (r: Option<Request>)
        requires
            old(self).wf(),
        ensures
            poll_step(*old(self), now_ms, *final(self), r),
            final(self).wf(),
    {
        if self.pending.is_some() || now_ms < self.last_poll_ms || now_ms - self.last_poll_ms
            < POLL_INTERVAL_MS {
            return None;
        }
        self.last_poll_ms = now_ms;
        match self.screen {
            Screen::PvpLobby => {
                self.pending = Some(Pending::PollLobby);
                Some(Request::ListOpenPvp)
            },
            Screen::PvpGame => {
                let game_id = match &self.pvp_game {
                    Some(g) => g.id.clone(),
                    None => {
                        return None;
                    },
                };
                self.pending = Some(Pending::PollGame);
                Some(Request::GetGame { game_id })
            },
            _ => None,
        }
    }

    /// Caches `game` for the solo screen (if `solo`) or the two-player one,
    /// and shows its result where it has ended.
    fn take_game(&mut self, game: ApiGame, solo: bool)
        ensures
            takes_game(*old(self), game, solo, *final(self)),
    {
        if is_game_finished(&game) {
            self.open_game_over(&game, if solo { "Solo" } else { "PvP" });
        }
        if solo {
            self.solo_game = Some(game);
        } else {
            self.pvp_game = Some(game);
        }
    }

    /// Shows `prefix` followed by `reason` on the Info screen.
    fn show_failure(&mut self, prefix: &str, reason: String)
        ensures
            shows_error(*old(self), *final(self), prefix@ + reason@),
    {
        let message = joined(prefix, reason.as_str());
        self.show_error(message);
    }

    /// Applies the reply to the request that the session awaits.
    pub fn complete(&mut self, reply: Reply)
        requires
            old(self).wf(),
        ensures
            reply_step(*old(self), reply, *final(self)),
            final(self).wf(),
    {
        let p = match self.pending {
            Some(p) => p,
            None => {
                return ;
            },
        };
        self.pending = None;
        match reply {
            Reply::Game(Ok(g)) => match p {
                Pending::StartSolo => {
                    self.solo_game = Some(g);
                    self.board_cursor = 0;
                    self.screen = Screen::SoloGame;
                },
                Pending::Join | Pending::Create => {
                    self.pvp_game = Some(g);
                    self.board_cursor = 0;
                    self.screen = Screen::PvpGame;
                },
                Pending::SoloMove => self.take_game(g, true),
                Pending::PvpMove | Pending::PollGame => self.take_game(g, false),
                _ => {},
            },
            Reply::Game(Err(e)) => match p {
                Pending::StartSolo => self.show_failure("Could not start solo game: ", e),
                Pending::Join => self.show_failure("Join failed: ", e),
                Pending::Create => self.show_failure("Create game failed: ", e),
                Pending::SoloMove | Pending::PvpMove => self.show_failure("Move failed: ", e),
                _ => {},
            },
            Reply::Games(Ok(games)) => match p {
                Pending::OpenLobby => {
                    self.pvp_games = games;
                    self.pvp_selected_index = 0;
                    self.screen = Screen::PvpLobby;
                },
                Pending::RefreshLobby => {
                    self.pvp_games = games;
                    self.pvp_selected_index = 0;
                },
                Pending::PollLobby => {
                    self.pvp_games = games;
                    let len = self.pvp_games.len();
                    if self.pvp_selected_index >= len {
                        self.pvp_selected_index = if len > 0 { len - 1 } else { 0 };
                    }
                },
                _ => {},
            },
            Reply::Games(Err(e)) => match p {
                Pending::OpenLobby => self.show_failure("Could not load PvP games: ", e),
                Pending::RefreshLobby => self.show_failure("Refresh failed: ", e),
                _ => {},
            },
        }
    }
}

} // verus!
