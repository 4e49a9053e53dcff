use vstd::prelude::*;

use crate::game::{
    cursor_after, is_finished, is_in_progress, is_won_by, result_line, symbol_of, winner_label,
};
use crate::models::{ApiGame, Key, Pending, Reply, Request, Screen};
use crate::session::{home_index_after, key_step, poll_step, reply_step, HOME_ITEMS, NAME_MIN, Session};
use crate::text::trimmed;

verus! {

/// `part` occurs in `s`.
pub open spec fn contains(s: Seq<char>, part: Seq<char>) -> bool {
    exists|i: int| 0 <= i <= s.len() - part.len() && #[trigger] s.subrange(i, i + part.len()) == part
}

/// The home menu selection after a sequence of keys.
pub open spec fn home_index_after_all(i: int, keys: Seq<Key>) -> int
    decreases keys.len(),
{
    if keys.len() == 0 {
        i
    } else {
        home_index_after_all(home_index_after(i, keys[0]), keys.drop_first())
    }
}

/// The board cursor after a sequence of keys.
pub open spec fn cursor_after_all(c: int, keys: Seq<Key>) -> int
    decreases keys.len(),
{
    if keys.len() == 0 {
        c
    } else {
        cursor_after_all(cursor_after(c, keys[0]), keys.drop_first())
    }
}

/// Any sequence of keys keeps the home selection among the three entries,
/// and no key wraps it around: each moves it by one entry at most, up from
/// the first entry and down from the last leave it where it is.
pub proof fn lemma_home_index_stays_in_menu(i: int, keys: Seq<Key>)
    requires
        0 <= i < HOME_ITEMS,
    ensures
        0 <= home_index_after_all(i, keys) < HOME_ITEMS,
        keys.len() > 0 ==> -1 <= home_index_after(i, keys[0]) - i <= 1,
        home_index_after(0, Key::Up) == 0,
        home_index_after(HOME_ITEMS - 1, Key::Down) == HOME_ITEMS - 1,
    decreases keys.len(),
{
    if keys.len() > 0 {
        lemma_home_index_stays_in_menu(home_index_after(i, keys[0]), keys.drop_first());
    }
}

/// Any sequence of keys keeps the board cursor on one of the nine cells.
pub proof fn lemma_cursor_stays_on_board(c: int, keys: Seq<Key>)
    requires
        0 <= c < 9,
    ensures
        0 <= cursor_after_all(c, keys) < 9,
    decreases keys.len(),
{
    if keys.len() > 0 {
        lemma_cursor_after_on_board(c, keys[0]);
        lemma_cursor_stays_on_board(cursor_after(c, keys[0]), keys.drop_first());
    }
}

proof fn lemma_cursor_after_on_board(c: int, key: Key)
    requires
        0 <= c < 9,
    ensures
        0 <= cursor_after(c, key) < 9,
{
}

/// A digit `d` from 1 to 9 puts the cursor on cell `d - 1`, wherever it was.
pub proof fn lemma_digit_selects_cell(c: int, d: char)
    requires
        '1' <= d <= '9',
    ensures
        cursor_after(c, Key::Char(d)) == (d as int) - ('1' as int),
{
}

/// On a game screen, a key never asks for a move where the game has ended or
/// where this player's symbol is not the one whose turn it is.
pub proof fn lemma_no_move_out_of_turn(s: Session, key: Key, t: Session, r: Option<Request>)
    requires
        s.screen == Screen::SoloGame || s.screen == Screen::PvpGame,
        key_step(s, key, t, r),
        ({
            let g = if s.screen == Screen::SoloGame { s.solo_game } else { s.pvp_game };
            g is Some && (!is_in_progress(g->0) || symbol_of(s.player_id@, g->0) != g->0.current_turn@)
        }),
    ensures
        r is None,
{
}

/// The reply to a move that ended the game opens the game-over screen. Its
/// message says "You won!" when the winner is the acting player's symbol,
/// "You lost." when it is another, and for a draw ends in a result line that
/// names no winner.
pub proof fn lemma_move_reply_outcome(s: Session, g: ApiGame, t: Session)
    requires
        s.pending == Some(Pending::SoloMove) || s.pending == Some(Pending::PvpMove),
        reply_step(s, Reply::Game(Ok(g)), t),
        is_finished(g),
    ensures
        t.screen == Screen::GameOver,
        g.status@ == "WON"@ && is_won_by(s.player_id@, g) ==> contains(
            t.game_over_message@,
            "You won!"@,
        ),
        g.status@ == "WON"@ && !is_won_by(s.player_id@, g) ==> contains(
            t.game_over_message@,
            "You lost."@,
        ),
        g.status@ == "DRAW"@ ==> result_line(s.player_id@, g) == "Result: Draw"@
            && t.game_over_message@.subrange(
            t.game_over_message@.len() - "Result: Draw"@.len(),
            t.game_over_message@.len() as int,
        ) == "Result: Draw"@,
{
    reveal_strlit("WON");
    reveal_strlit("DRAW");
    let m = t.game_over_message@;
    let player = s.player_id@;
    let mode = if s.pending == Some(Pending::SoloMove) { "Solo"@ } else { "PvP"@ };
    let head = mode + " game finished.\nGame id: "@ + g.id@ + "\n"@;
    assert(m == head + result_line(player, g));
    if g.status@ == "WON"@ {
        let label = winner_label(g);
        let pre = head + "Winner: "@ + label + " ("@;
        let word = if is_won_by(player, g) { "You won!"@ } else { "You lost."@ };
        assert(m =~= pre + word + ")"@);
        assert(m.subrange(pre.len() as int, (pre.len() + word.len()) as int) =~= word);
        assert("WON"@.len() != "DRAW"@.len());
    } else {
        assert(m.subrange(m.len() - "Result: Draw"@.len(), m.len() as int) =~= "Result: Draw"@);
    }
}

/// Joining a game with a password sends no password while the join buffer
/// is empty, and the buffer as it stands otherwise.
pub proof fn lemma_join_sends_buffered_password(s: Session, key: Key, t: Session, r: Option<Request>)
    requires
        s.screen == Screen::PvpLobby,
        s.pending is None,
        !s.editing_join_password,
        key == Key::Char('j') || key == Key::Enter,
        s.pvp_selected_index < s.pvp_games@.len(),
        s.pvp_games@[s.pvp_selected_index as int].has_password,
        key_step(s, key, t, r),
    ensures
        (r matches Some(Request::JoinPvp { body, .. }) && if s.join_password@.len() == 0 {
            body.password is None
        } else {
            body.password == Some(s.join_password)
        }),
{
}

/// Confirming the create form with a trimmed name shorter than three
/// characters asks for nothing and shows a message; a longer one asks to
/// create the game with the trimmed name, and with the trimmed password
/// unless that is empty.
pub proof fn lemma_create_checks_name(s: Session, t: Session, r: Option<Request>)
    requires
        s.screen == Screen::PvpCreate,
        s.pending is None,
        key_step(s, Key::Enter, t, r),
    ensures
        trimmed(s.create_name@).len() < NAME_MIN ==> r is None && t.screen == Screen::Info,
        trimmed(s.create_name@).len() >= NAME_MIN ==> (r matches Some(Request::CreatePvp(b))
            && b.name@ == trimmed(s.create_name@) && if trimmed(s.create_password@).len() == 0 {
            b.password is None
        } else {
            (b.password matches Some(p) && p@ == trimmed(s.create_password@))
        }),
{
}

/// A refresh that fails leaves the cached lobby list, its selection and the
/// cached game as they were, and shows no message.
pub proof fn lemma_failed_poll_keeps_views(
    s: Session,
    now: u64,
    u: Session,
    r: Option<Request>,
    reply: Reply,
    t: Session,
)
    requires
        s.screen == Screen::PvpLobby || s.screen == Screen::PvpGame,
        poll_step(s, now, u, r),
        r is Some,
        reply_step(u, reply, t),
        reply matches Reply::Games(Err(_)) || reply matches Reply::Game(Err(_)),
    ensures
        t.pvp_games == s.pvp_games,
        t.pvp_selected_index == s.pvp_selected_index,
        t.pvp_game == s.pvp_game,
        t.screen == s.screen,
        t.info_message == s.info_message,
{
}

} // verus!
