use vstd::prelude::*;
use vstd::string::*;

use crate::models::{ApiGame, Key};
use crate::text::{joined, same_text};

verus! {

/// The game has ended: won by someone, or drawn.
pub open spec fn is_finished(g: ApiGame) -> bool {
    g.status@ == "WON"@ || g.status@ == "DRAW"@
}

/// The game still accepts moves.
pub open spec fn is_in_progress(g: ApiGame) -> bool {
    g.status@ == "IN_PROGRESS"@
}

/// `player` is the host of `g`.
pub open spec fn is_host(player: Seq<char>, g: ApiGame) -> bool {
    g.host_player_id@ == player
}

/// `player` is the guest of `g`.
pub open spec fn is_guest(player: Seq<char>, g: ApiGame) -> bool {
    match g.guest_player_id {
        Some(id) => id@ == player,
        None => false,
    }
}

/// `player` takes part in `g`, as host or as guest.
pub open spec fn is_seated(player: Seq<char>, g: ApiGame) -> bool {
    is_host(player, g) || is_guest(player, g)
}

/// The symbol that `player` plays in `g`: the host plays X, the guest O; a
/// stranger gets the sentinel `?`.
pub open spec fn symbol_of(player: Seq<char>, g: ApiGame) -> Seq<char> {
    if is_host(player, g) {
        "X"@
    } else if is_guest(player, g) {
        "O"@
    } else {
        "?"@
    }
}

/// It is `player`'s turn in `g`. The sentinel of a stranger never matches.
pub open spec fn is_turn_of(player: Seq<char>, g: ApiGame) -> bool {
    is_seated(player, g) && symbol_of(player, g) == g.current_turn@
}

/// A move by `player` is worth sending: the game runs and it is their turn.
pub open spec fn may_move(player: Seq<char>, g: ApiGame) -> bool {
    is_in_progress(g) && is_turn_of(player, g)
}

/// `player` is the recorded winner of `g`.
pub open spec fn is_won_by(player: Seq<char>, g: ApiGame) -> bool {
    is_seated(player, g) && match g.winner {
        Some(w) => w@ == symbol_of(player, g),
        None => false,
    }
}

/// How the winner is shown.
pub open spec fn winner_label(g: ApiGame) -> Seq<char> {
    match g.winner {
        Some(w) => w@,
        None => "Unknown"@,
    }
}

/// The outcome line of a finished game, as seen by `player`.
pub open spec fn result_line(player: Seq<char>, g: ApiGame) -> Seq<char> {
    if g.status@ == "WON"@ {
        "Winner: "@ + winner_label(g) + " ("@ + (if is_won_by(player, g) {
            "You won!"@
        } else {
            "You lost."@
        }) + ")"@
    } else {
        "Result: Draw"@
    }
}

/// The message shown when a game of the given mode has ended.
pub open spec fn game_over_text(mode: Seq<char>, player: Seq<char>, g: ApiGame) -> Seq<char> {
    mode + " game finished.\nGame id: "@ + g.id@ + "\n"@ + result_line(player, g)
}

/// The board cursor after one key: arrows move within the 3x3 grid and hold
/// at its edges, a digit `d` from 1 to 9 jumps to cell `d - 1`, any other key
/// leaves it.
pub open spec fn cursor_after(cursor: int, key: Key) -> int {
    let row = cursor / 3;
    let col = cursor % 3;
    match key {
        Key::Left => row * 3 + if col > 0 { col - 1 } else { 0 },
        Key::Right => row * 3 + if col < 2 { col + 1 } else { 2 },
        Key::Up => (if row > 0 { row - 1 } else { 0 }) * 3 + col,
        Key::Down => (if row < 2 { row + 1 } else { 2 }) * 3 + col,
        Key::Char(c) => if '1' <= c && c <= '9' {
            (c as int) - ('1' as int)
        } else {
            cursor
        },
        _ => cursor,
    }
}

/// How one cell's content is shown.
pub open spec fn cell_text(v: Option<String>) -> Seq<char> {
    match v {
        Some(s) => s@,
        None => " "@,
    }
}

/// Cell `i`, bracketed where the cursor stands and padded elsewhere.
pub open spec fn cell_label(board: Seq<Option<String>>, cursor: int, i: int) -> Seq<char> {
    if cursor == i {
        "["@ + cell_text(board[i]) + "]"@
    } else {
        " "@ + cell_text(board[i]) + " "@
    }
}

/// Row `r` of the board: its three cells separated by bars.
pub open spec fn row_text(board: Seq<Option<String>>, cursor: int, r: int) -> Seq<char> {
    cell_label(board, cursor, 3 * r) + "|"@ + cell_label(board, cursor, 3 * r + 1) + "|"@
        + cell_label(board, cursor, 3 * r + 2)
}

/// The board as text: three rows between rules, then the digit legend.
pub open spec fn board_text(board: Seq<Option<String>>, cursor: int) -> Seq<char> {
    row_text(board, cursor, 0) + "\n-----------\n"@ + row_text(board, cursor, 1)
        + "\n-----------\n"@ + row_text(board, cursor, 2) + "\n\n1 2 3\n4 5 6\n7 8 9"@
}

/// Whether the game has ended.
pub fn is_game_finished(game: &ApiGame) -> (r: bool)
    ensures
        r == is_finished(*game),
{
    same_text(&game.status, "WON") || same_text(&game.status, "DRAW")
}

/// Whether the game still accepts moves.
pub fn is_game_running(game: &ApiGame) -> (r: bool)
    ensures
        r == is_in_progress(*game),
{
    same_text(&game.status, "IN_PROGRESS")
}

fn is_guest_of(player_id: &String, game: &ApiGame) -> (r: bool)
    ensures
        r == is_guest(player_id@, *game),
{
    match &game.guest_player_id {
        Some(id) => *id == *player_id,
        None => false,
    }
}

/// The symbol that `player_id` plays in `game`.
pub fn player_symbol_for(player_id: &String, game: &ApiGame) -> (r: String)
    ensures
        r@ == symbol_of(player_id@, *game),
{
    if game.host_player_id == *player_id {
        String::from_str("X")
    } else if is_guest_of(player_id, game) {
        String::from_str("O")
    } else {
        String::from_str("?")
    }
}

/// Whether it is `player_id`'s turn in `game`.
pub fn is_players_turn(player_id: &String, game: &ApiGame) -> (r: bool)
    ensures
        r == is_turn_of(player_id@, *game),
{
    let seated = game.host_player_id == *player_id || is_guest_of(player_id, game);
    seated && player_symbol_for(player_id, game) == game.current_turn
}

/// Whether a move by `player_id` in `game` is worth sending.
pub fn may_send_move(player_id: &String, game: &ApiGame) -> (r: bool)
    ensures
        r == may_move(player_id@, *game),
{
    is_game_running(game) && is_players_turn(player_id, game)
}

fn won_by(player_id: &String, game: &ApiGame) -> (r: bool)
    ensures
        r == is_won_by(player_id@, *game),
{
    let seated = game.host_player_id == *player_id || is_guest_of(player_id, game);
    match &game.winner {
        Some(w) => seated && *w == player_symbol_for(player_id, game),
        None => false,
    }
}

fn result_text(player_id: &String, game: &ApiGame) -> (r: String)
    ensures
        r@ == result_line(player_id@, *game),
{
    if same_text(&game.status, "WON") {
        let mut r = String::from_str("Winner: ");
        match &game.winner {
            Some(w) => r.append(w.as_str()),
            None => r.append("Unknown"),
        }
        r.append(" (");
        if won_by(player_id, game) {
            r.append("You won!");
        } else {
            r.append("You lost.");
        }
        r.append(")");
        r
    } else {
        String::from_str("Result: Draw")
    }
}

/// The message shown when `game`, played in the mode named `mode_label`, has
/// ended.
pub fn game_over_message(mode_label: &str, player_id: &String, game: &ApiGame) -> (r: String)
    ensures
        r@ == game_over_text(mode_label@, player_id@, *game),
{
    let mut r = joined(mode_label, " game finished.\nGame id: ");
    r.append(game.id.as_str());
    r.append("\n");
    let line = result_text(player_id, game);
    r.append(line.as_str());
    r
}

/// The board cursor after `key`.
pub fn next_cursor(cursor: usize, key: Key) -> (r: usize)
    requires
        cursor < 9,
    ensures
        r == cursor_after(cursor as int, key),
        r < 9,
{
    let row = cursor / 3;
    let col = cursor % 3;
    match key {
        Key::Left => row * 3 + if col > 0 { col - 1 } else { 0 },
        Key::Right => row * 3 + if col < 2 { col + 1 } else { 2 },
        Key::Up => (if row > 0 { row - 1 } else { 0 }) * 3 + col,
        Key::Down => (if row < 2 { row + 1 } else { 2 }) * 3 + col,
        Key::Char(c) => if '1' <= c && c <= '9' {
            ((c as u32) - ('1' as u32)) as usize
        } else {
            cursor
        },
        _ => cursor,
    }
}

fn cell_label_text(board: &[Option<String>], board_cursor: usize, i: usize) -> (r: String)
    requires
        i < board@.len(),
    ensures
        r@ == cell_label(board@, board_cursor as int, i as int),
{
    let value = match &board[i] {
        Some(v) => v.as_str(),
        None => " ",
    };
    let mut r = if board_cursor == i {
        String::from_str("[")
    } else {
        String::from_str(" ")
    };
    r.append(value);
    if board_cursor == i {
        r.append("]");
    } else {
        r.append(" ");
    }
    r
}

fn row_label_text(board: &[Option<String>], board_cursor: usize, row: usize) -> (r: String)
    requires
        board@.len() == 9,
        row < 3,
    ensures
        r@ == row_text(board@, board_cursor as int, row as int),
{
    let mut r = cell_label_text(board, board_cursor, 3 * row);
    r.append("|");
    let middle = cell_label_text(board, board_cursor, 3 * row + 1);
    r.append(middle.as_str());
    r.append("|");
    let last = cell_label_text(board, board_cursor, 3 * row + 2);
    r.append(last.as_str());
    r
}

/// The board of nine cells as text, with the cell under the cursor bracketed.
pub fn render_board_text(board: &[Option<String>], board_cursor: usize) -> (r: String)
    requires
        board@.len() == 9,
    ensures
        r@ == board_text(board@, board_cursor as int),
{
    let mut r = row_label_text(board, board_cursor, 0);
    r.append("\n-----------\n");
    let second = row_label_text(board, board_cursor, 1);
    r.append(second.as_str());
    r.append("\n-----------\n");
    let third = row_label_text(board, board_cursor, 2);
    r.append(third.as_str());
    r.append("\n\n1 2 3\n4 5 6\n7 8 9");
    r
}

} // verus!
