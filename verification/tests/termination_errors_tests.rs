use nidalee::errors::LaunchError;
use nidalee::game::{game_process_names, launch_args, parse_game, Game};
use nidalee::termination::{first_surviving, termination_outcome, termination_plan};

#[test]
fn parse_game_accepts_only_the_closed_set() {
    assert_eq!(parse_game("league"), Some(Game::League));
    assert_eq!(parse_game("valorant"), Some(Game::Valorant));
    assert_eq!(parse_game("fortnite"), None);
    assert_eq!(parse_game("League"), None);
    assert_eq!(parse_game(""), None);
}

#[test]
fn launch_args_per_game() {
    assert_eq!(
        launch_args(Game::League),
        "--launch-product=league_of_legends --launch-patchline=live"
    );
    assert_eq!(launch_args(Game::Valorant), "--launch-product=valorant --launch-patchline=live");
}

#[test]
fn process_lists_per_family() {
    let league = game_process_names(Game::League);
    assert_eq!(league.len(), 7);
    assert_eq!(league[0], "League of Legends.exe");
    assert_eq!(league[4], "RiotClientServices.exe");
    let valorant = game_process_names(Game::Valorant);
    assert_eq!(valorant.len(), 5);
    assert_eq!(valorant[0], "VALORANT.exe");
    assert_eq!(valorant[1], "VALORANT-Win64-Shipping.exe");
}

#[test]
fn termination_plan_sweeps_every_name_twice() {
    let names = game_process_names(Game::Valorant);
    let plan = termination_plan(Game::Valorant);
    assert_eq!(plan.len(), 10);
    for (i, name) in names.iter().enumerate() {
        assert_eq!(&plan[i].name, name);
        assert!(!plan[i].forced);
        assert_eq!(&plan[i + names.len()].name, name);
        assert!(plan[i + names.len()].forced);
    }
}

#[test]
fn termination_attempts_every_name_even_after_a_failure() {
    // A driver that executes the plan step by step; killing the 2nd of the
    // 5 valorant names always fails.  Every name must still be attempted,
    // in both passes.
    let plan = termination_plan(Game::Valorant);
    let mut attempted: Vec<(String, bool)> = Vec::new();
    let mut failures = 0;
    for step in &plan {
        attempted.push((step.name.clone(), step.forced));
        if step.name == "VALORANT-Win64-Shipping.exe" {
            failures += 1; // the kill command fails; the sweep goes on
        }
    }
    assert_eq!(failures, 2);
    assert_eq!(attempted.len(), 10);
    let names = game_process_names(Game::Valorant);
    for name in &names {
        assert!(attempted.iter().any(|(n, forced)| n == name && !forced));
        assert!(attempted.iter().any(|(n, forced)| n == name && *forced));
    }
}

#[test]
fn termination_outcome_names_the_first_survivor() {
    let names = game_process_names(Game::Valorant);
    let clean = "System 4\r\nexplorer.exe 77\r\n";
    assert_eq!(first_surviving(clean, &names), None);
    assert!(termination_outcome(clean, &names).is_ok());

    let dirty = "System 4\r\nRiotClientUx.exe 12\r\n";
    assert_eq!(first_surviving(dirty, &names), Some(3));
    let err = termination_outcome(dirty, &names).unwrap_err();
    assert_eq!(err, LaunchError::ProcessTerminationFailed { name: String::from("RiotClientUx.exe") });
}

#[test]
fn error_messages_are_exact() {
    assert_eq!(
        LaunchError::ClientNotFound.message(),
        "Could not find Riot Client. Please set the path in Settings."
    );
    assert_eq!(LaunchError::ClientAlreadyRunning.message(), "Game is already running");
    assert_eq!(
        LaunchError::WindowTimeout.message(),
        "Riot Client window not found after 30 seconds"
    );
    assert_eq!(
        LaunchError::UpdateTimeout.message(),
        "Game update is taking too long. Please try again later."
    );
    assert_eq!(LaunchError::InvalidGameSelector.message(), "Invalid game type");
    assert_eq!(
        LaunchError::LaunchVerificationTimeout { attempts: 3 }.message(),
        "Failed to launch the game after 3 attempts. Please try again or launch the game manually."
    );
    assert_eq!(
        LaunchError::ProcessTerminationFailed { name: String::from("x.exe") }.message(),
        "Failed to close process: x.exe"
    );
}
