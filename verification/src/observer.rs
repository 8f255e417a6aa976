//! Pure predicates behind the process/window observer: which window titles
//! mean an update is running, and which process-listing contents mean a game
//! is running.  The binary takes fresh OS snapshots (window titles, a process
//! listing) and hands them here as plain strings.

use vstd::prelude::*;
use crate::game::{Game, league_markers, valorant_markers};
use crate::text;

verus! {

/// Point-in-time snapshot: whether each game's processes are present.
#[derive(Clone, Copy, PartialEq, Eq, Structural, Debug)]
pub struct GameStatus {
    pub league_running: bool,
    pub valorant_running: bool,
}

/// Some marker occurs as a substring of `s`.
pub open spec fn any_marker(s: Seq<char>, markers: Seq<Seq<char>>) -> bool {
    exists|k: int| 0 <= k < markers.len() && text::has_substring(s, markers[k])
}

/// Title substrings that mark a client update in progress.
pub open spec fn update_markers() -> Seq<Seq<char>> {
    seq!["Update"@, "Installing"@, "Updating"@]
}

/// A window title that indicates an update is in progress.
pub fn is_update_title(title: &str) -> (b: bool)
    ensures
        b == any_marker(title@, update_markers()),
{
    let u = text::contains_substr(title, "Update");
    let i = text::contains_substr(title, "Installing");
    let g = text::contains_substr(title, "Updating");
    let r = u || i || g;
    proof {
        if r {
            if u {
                assert(update_markers()[0] == "Update"@);
            } else if i {
                assert(update_markers()[1] == "Installing"@);
            } else {
                assert(update_markers()[2] == "Updating"@);
            }
        } else {
            assert forall|k: int| 0 <= k < update_markers().len() implies !text::has_substring(
                title@,
                update_markers()[k],
            ) by {
                if k == 0 {
                    assert(update_markers()[0] == "Update"@);
                } else if k == 1 {
                    assert(update_markers()[1] == "Installing"@);
                } else {
                    assert(update_markers()[2] == "Updating"@);
                }
            }
        }
    }
    r
}

/// Whether any of the live window titles indicates an update in progress.
pub fn any_update_title(titles: &Vec<String>) -> (b: bool)
    ensures
        b == exists|i: int|
            0 <= i < titles@.len() && any_marker(titles@[i]@, update_markers()),
{
    let mut i: usize = 0;
    while i < titles.len()
        invariant
            i <= titles@.len(),
            forall|q: int| 0 <= q < i ==> !any_marker(titles@[q]@, update_markers()),
        decreases titles@.len() - i,
    {
        if is_update_title(titles[i].as_str()) {
            return true;
        }
        i += 1;
    }
    false
}

/// Derive a [`GameStatus`] from a raw process listing: a game counts as
/// running when any of its marker process names occurs in the listing.
pub fn game_status_from_process_list(list: &str) -> (st: GameStatus)
    ensures
        st.league_running == any_marker(list@, league_markers()),
        st.valorant_running == any_marker(list@, valorant_markers()),
{
    let l0 = text::contains_substr(list, "League of Legends.exe");
    let l1 = text::contains_substr(list, "LeagueClient.exe");
    let l2 = text::contains_substr(list, "LeagueClientUx.exe");
    let v0 = text::contains_substr(list, "VALORANT.exe");
    let v1 = text::contains_substr(list, "VALORANT-Win64-Shipping.exe");
    let league = l0 || l1 || l2;
    let valorant = v0 || v1;
    proof {
        assert(league_markers()[0] == "League of Legends.exe"@);
        assert(league_markers()[1] == "LeagueClient.exe"@);
        assert(league_markers()[2] == "LeagueClientUx.exe"@);
        assert(valorant_markers()[0] == "VALORANT.exe"@);
        assert(valorant_markers()[1] == "VALORANT-Win64-Shipping.exe"@);
        if !league {
            assert forall|k: int| 0 <= k < league_markers().len() implies !text::has_substring(
                list@,
                league_markers()[k],
            ) by {}
        }
        if !valorant {
            assert forall|k: int| 0 <= k < valorant_markers().len() implies !text::has_substring(
                list@,
                valorant_markers()[k],
            ) by {}
        }
    }
    GameStatus { league_running: league, valorant_running: valorant }
}

/// Whether `st` reports the processes of `g` as running.
pub open spec fn spec_game_running(st: GameStatus, g: Game) -> bool {
    match g {
        Game::League => st.league_running,
        Game::Valorant => st.valorant_running,
    }
}

/// Select the field of `st` that belongs to `g`.
pub fn game_running(st: &GameStatus, g: Game) -> (b: bool)
    ensures
        b == spec_game_running(*st, g),
{
    match g {
        Game::League => st.league_running,
        Game::Valorant => st.valorant_running,
    }
}

/// The two (window class, window title) signatures whose presence means the
/// client window is up.  The binary enumerates top-level windows against
/// these.
pub fn client_window_signatures() -> (r: Vec<(String, String)>)
    ensures
        r@.len() == 2,
        r@[0].0@ == "Chrome_WidgetWin_1"@ && r@[0].1@ == "Riot Client"@,
        r@[1].0@ == "RCLIENT"@ && r@[1].1@ == "Riot Client"@,
{
    let mut r: Vec<(String, String)> = Vec::new();
    r.push((String::from_str("Chrome_WidgetWin_1"), String::from_str("Riot Client")));
    r.push((String::from_str("RCLIENT"), String::from_str("Riot Client")));
    r
}

/// The window classes whose title text is inspected for update markers.
pub fn update_window_classes() -> (r: Vec<String>)
    ensures
        r@.len() == 3,
        r@[0]@ == "Chrome_WidgetWin_1"@,
        r@[1]@ == "VALORANT  "@,
        r@[2]@ == "RiotClientMainWindow"@,
{
    let mut r: Vec<String> = Vec::new();
    r.push(String::from_str("Chrome_WidgetWin_1"));
    r.push(String::from_str("VALORANT  "));
    r.push(String::from_str("RiotClientMainWindow"));
    r
}

} // verus!
