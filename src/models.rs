use vstd::prelude::*;

verus! {

/// A snapshot of one game as the game service reports it.
///
/// The service is the single source of truth for game content: a cached
/// snapshot is replaced as a whole, never edited in place.
#[derive(Clone, Debug, PartialEq, Eq)]
pub struct ApiGame {
    pub id: String,
    pub mode: String,
    pub name: Option<String>,
    pub host_player_id: String,
    pub guest_player_id: Option<String>,
    pub board: Vec<Option<String>>,
    pub current_turn: String,
    pub status: String,
    pub winner: Option<String>,
    pub has_password: bool,
}

/// Body of the request that starts a game against the computer.
#[derive(Clone, Debug, PartialEq, Eq)]
pub struct CreateSoloRequest {
    pub player_id: String,
    pub client_name: String,
}

/// Body of the request that opens a game for two players.
#[derive(Clone, Debug, PartialEq, Eq)]
pub struct CreatePvpRequest {
    pub player_id: String,
    pub name: String,
    pub password: Option<String>,
}

/// Body of the request that joins an open game.
#[derive(Clone, Debug, PartialEq, Eq)]
pub struct JoinPvpRequest {
    pub player_id: String,
    pub password: Option<String>,
}

/// Body of the request that plays one cell.
#[derive(Clone, Debug, PartialEq, Eq)]
pub struct PlayMoveRequest {
    pub player_id: String,
    pub index: usize,
}

/// Which screen of the client is active.
#[derive(Clone, Copy, Debug, PartialEq, Eq, Structural)]
pub enum Screen {
    Home,
    SoloGame,
    PvpLobby,
    PvpCreate,
    PvpGame,
    GameOver,
    Info,
}

/// A key press, as far as the controller distinguishes keys.
#[derive(Clone, Copy, Debug, PartialEq, Eq, Structural)]
pub enum Key {
    Up,
    Down,
    Left,
    Right,
    Enter,
    Esc,
    Tab,
    Backspace,
    Char(char),
    Other,
}

/// One call into the game service that the controller asks its host to make.
#[derive(Clone, Debug, PartialEq, Eq)]
pub enum Request {
    CreateSolo(CreateSoloRequest),
    CreatePvp(CreatePvpRequest),
    ListOpenPvp,
    JoinPvp { game_id: String, body: JoinPvpRequest },
    GetGame { game_id: String },
    PlayMove { game_id: String, body: PlayMoveRequest },
}

/// What the game service answered to a `Request`; a failure carries a short
/// human-readable reason.
#[derive(Debug, PartialEq, Eq)]
pub enum Reply {
    Game(Result<ApiGame, String>),
    Games(Result<Vec<ApiGame>, String>),
}

/// Why a request is outstanding: decides what its reply does to the session.
#[derive(Clone, Copy, Debug, PartialEq, Eq, Structural)]
pub enum Pending {
    StartSolo,
    OpenLobby,
    RefreshLobby,
    PollLobby,
    Join,
    Create,
    SoloMove,
    PvpMove,
    PollGame,
}

} // verus!
