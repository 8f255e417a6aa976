//! The closed set of supported games: selector parsing, client launch
//! arguments, and the process names associated with each game.

use vstd::prelude::*;
use crate::text;

verus! {

/// A game the client can be asked to start.
#[derive(Clone, Copy, PartialEq, Eq, Structural, Debug)]
pub enum Game {
    League,
    Valorant,
}

/// Turn a selector string into a [`Game`]; anything outside the closed set is
/// rejected with `None`.
pub fn parse_game(s: &str) -> (r: Option<Game>)
    ensures
        r == Option::<Game>::Some(Game::League) <==> s@ == "league"@,
        r == Option::<Game>::Some(Game::Valorant) <==> s@ == "valorant"@,
        r is None <==> (s@ != "league"@ && s@ != "valorant"@),
{
    proof {
        reveal_strlit("league");
        reveal_strlit("valorant");
        assert("league"@.len() == 6);
        assert("valorant"@.len() == 8);
    }
    if text::str_eq(s, "league") {
        Option::Some(Game::League)
    } else if text::str_eq(s, "valorant") {
        Option::Some(Game::Valorant)
    } else {
        Option::None
    }
}

/// The fixed argument string handed to the client to start `g`.
pub open spec fn spec_launch_args(g: Game) -> Seq<char> {
    match g {
        Game::League => "--launch-product=league_of_legends --launch-patchline=live"@,
        Game::Valorant => "--launch-product=valorant --launch-patchline=live"@,
    }
}

/// The fixed argument string handed to the client to start `g`.
pub fn launch_args(g: Game) -> (r: &'static str)
    ensures
        r@ == spec_launch_args(g),
{
    match g {
        Game::League => "--launch-product=league_of_legends --launch-patchline=live",
        Game::Valorant => "--launch-product=valorant --launch-patchline=live",
    }
}

/// Process names whose presence in a process listing means League is running.
pub open spec fn league_markers() -> Seq<Seq<char>> {
    seq!["League of Legends.exe"@, "LeagueClient.exe"@, "LeagueClientUx.exe"@]
}

/// Process names whose presence in a process listing means Valorant is
/// running.
pub open spec fn valorant_markers() -> Seq<Seq<char>> {
    seq!["VALORANT.exe"@, "VALORANT-Win64-Shipping.exe"@]
}

/// Every process name belonging to the `g` family, client processes
/// included: the set that forced termination must sweep.
pub open spec fn kill_list(g: Game) -> Seq<Seq<char>> {
    match g {
        Game::League => seq![
            "League of Legends.exe"@,
            "LeagueClient.exe"@,
            "LeagueClientUx.exe"@,
            "LeagueClientUxRender.exe"@,
            "RiotClientServices.exe"@,
            "RiotClientUx.exe"@,
            "RiotClientUxRender.exe"@,
        ],
        Game::Valorant => seq![
            "VALORANT.exe"@,
            "VALORANT-Win64-Shipping.exe"@,
            "RiotClientServices.exe"@,
            "RiotClientUx.exe"@,
            "RiotClientUxRender.exe"@,
        ],
    }
}

/// The process names of the `g` family as owned strings, in the fixed order
/// of [`kill_list`].
pub fn game_process_names(g: Game) -> (r: Vec<String>)
    ensures
        r.deep_view() == kill_list(g),
{
    let mut r: Vec<String> = Vec::new();
    match g {
        Game::League => {
            r.push(String::from_str("League of Legends.exe"));
            r.push(String::from_str("LeagueClient.exe"));
            r.push(String::from_str("LeagueClientUx.exe"));
            r.push(String::from_str("LeagueClientUxRender.exe"));
            r.push(String::from_str("RiotClientServices.exe"));
            r.push(String::from_str("RiotClientUx.exe"));
            r.push(String::from_str("RiotClientUxRender.exe"));
        },
        Game::Valorant => {
            r.push(String::from_str("VALORANT.exe"));
            r.push(String::from_str("VALORANT-Win64-Shipping.exe"));
            r.push(String::from_str("RiotClientServices.exe"));
            r.push(String::from_str("RiotClientUx.exe"));
            r.push(String::from_str("RiotClientUxRender.exe"));
        },
    }
    proof {
        assert(r.deep_view() =~~= kill_list(g));
    }
    r
}

} // verus!
