use nidalee::errors::LaunchError;
use nidalee::injector::WindowRect;
use nidalee::observer::GameStatus;
use nidalee::orchestrator::{LaunchAction, LaunchEvent, Orchestrator};
use nidalee::settings::Settings;
use nidalee::store::{Account, SessionStore};

fn account() -> Account {
    Account {
        id: String::from("acc-1"),
        name: String::from("main"),
        username: String::from("summoner"),
        password: String::from("hunter2"),
        category: String::from("ranked"),
        last_login: None,
        game_type: String::from("league"),
    }
}

fn settings_with_path(path: &str) -> Settings {
    Settings {
        riot_client_path: String::from(path),
        league_path: String::new(),
        valorant_path: String::new(),
        start_with_windows: false,
        minimize_to_tray: false,
        minimize_on_game_launch: false,
        login_delay: 5,
        preferred_monitor: None,
    }
}

fn idle_status() -> GameStatus {
    GameStatus { league_running: false, valorant_running: false }
}

fn action_kind(a: &LaunchAction) -> &'static str {
    match a {
        LaunchAction::CheckGameStatus => "status",
        LaunchAction::VerifyPath { .. } => "verify_path",
        LaunchAction::RunLocator => "locate",
        LaunchAction::PersistPath { .. } => "persist_path",
        LaunchAction::MinimizeWindow => "minimize",
        LaunchAction::SpawnClient { .. } => "spawn_client",
        LaunchAction::SleepSecs { .. } => "sleep_s",
        LaunchAction::SleepMs { .. } => "sleep_ms",
        LaunchAction::PollWindow => "poll_window",
        LaunchAction::PollUpdating => "poll_updating",
        LaunchAction::QueryWindowRect => "query_rect",
        LaunchAction::Inject { .. } => "inject",
        LaunchAction::SpawnGame { .. } => "spawn_game",
        LaunchAction::PollGame => "poll_game",
        LaunchAction::StampLogin => "stamp",
        LaunchAction::ForceTerminate => "terminate",
    }
}

/// Run the machine against a scripted responder until it goes quiet,
/// recording the kind of every action performed.
fn run_machine(
    orch: &mut Orchestrator,
    first: Option<LaunchAction>,
    mut respond: impl FnMut(&LaunchAction) -> LaunchEvent,
) -> Vec<&'static str> {
    let mut log = Vec::new();
    let mut act = first;
    let mut guard = 0;
    while let Some(a) = act {
        guard += 1;
        assert!(guard < 100_000, "machine did not settle");
        log.push(action_kind(&a));
        let ev = respond(&a);
        act = orch.step(ev);
    }
    log
}

#[test]
fn scenario_success_on_second_verification_poll() {
    // Path already valid, window appears on the first poll, no update
    // detected, injection runs, the game is seen on the 2nd verification
    // poll: success, and the account's last login moves forward.
    let mut store = SessionStore::new(settings_with_path("C:\\rc\\RiotClientServices.exe"));
    store.save_account(account());
    let start_stamp = store.stamp_login_now("acc-1").unwrap();

    let settings = store.get_settings();
    let acc = store.get_account("acc-1").unwrap();
    let (mut orch, first) = Orchestrator::start(&acc, &settings, "league");

    let mut game_polls = 0;
    let mut stamped: Option<String> = None;
    let log = run_machine(&mut orch, first, |a| match a {
        LaunchAction::CheckGameStatus => LaunchEvent::Status { status: idle_status() },
        LaunchAction::VerifyPath { .. } => LaunchEvent::PathValid { yes: true },
        LaunchAction::SpawnClient { .. } | LaunchAction::SpawnGame { .. } => {
            LaunchEvent::Spawned { ok: true }
        }
        LaunchAction::PollWindow => LaunchEvent::Window { present: true },
        LaunchAction::PollUpdating => LaunchEvent::Updating { updating: false },
        LaunchAction::QueryWindowRect => LaunchEvent::Rect {
            rect: Some(WindowRect { left: 0, top: 0, right: 1280, bottom: 720 }),
        },
        LaunchAction::PollGame => {
            game_polls += 1;
            LaunchEvent::Running { running: game_polls >= 2 }
        }
        LaunchAction::StampLogin => {
            stamped = store.stamp_login_now("acc-1");
            LaunchEvent::Ack
        }
        _ => LaunchEvent::Ack,
    });

    assert_eq!(orch.outcome(), Some(Ok(())));
    assert_eq!(log.iter().filter(|k| **k == "spawn_client").count(), 1);
    assert_eq!(log.iter().filter(|k| **k == "poll_game").count(), 2);
    assert_eq!(log.iter().filter(|k| **k == "inject").count(), 1);
    let end_stamp = stamped.expect("login was never stamped");
    // RFC 3339 UTC timestamps order lexicographically.
    assert!(end_stamp >= start_stamp);
    let after = store.get_account("acc-1").unwrap();
    assert_eq!(after.last_login.as_deref(), Some(end_stamp.as_str()));
}

#[test]
fn scenario_locator_exhausted_means_client_not_found() {
    // An empty configured path sends the machine to the locator; when the
    // locator comes back empty the request fails with ClientNotFound and
    // nothing was ever spawned or persisted.
    let settings = settings_with_path("");
    let (mut orch, first) = Orchestrator::start(&account(), &settings, "league");
    let log = run_machine(&mut orch, first, |a| match a {
        LaunchAction::CheckGameStatus => LaunchEvent::Status { status: idle_status() },
        LaunchAction::RunLocator => LaunchEvent::Located { path: None },
        _ => LaunchEvent::Ack,
    });
    assert_eq!(orch.outcome(), Some(Err(LaunchError::ClientNotFound)));
    assert_eq!(log, vec!["status", "locate"]);
}

#[test]
fn scenario_window_timeout_after_exactly_thirty_polls() {
    // The window never appears: exactly 30 polls, then WindowTimeout, and
    // no cleanup of the spawned client.
    let settings = settings_with_path("C:\\rc\\RiotClientServices.exe");
    let (mut orch, first) = Orchestrator::start(&account(), &settings, "league");
    let log = run_machine(&mut orch, first, |a| match a {
        LaunchAction::CheckGameStatus => LaunchEvent::Status { status: idle_status() },
        LaunchAction::VerifyPath { .. } => LaunchEvent::PathValid { yes: true },
        LaunchAction::SpawnClient { .. } => LaunchEvent::Spawned { ok: true },
        LaunchAction::PollWindow => LaunchEvent::Window { present: false },
        _ => LaunchEvent::Ack,
    });
    assert_eq!(orch.outcome(), Some(Err(LaunchError::WindowTimeout)));
    assert_eq!(log.iter().filter(|k| **k == "poll_window").count(), 30);
    assert!(!log.contains(&"terminate"));
}

#[test]
fn scenario_invalid_selector_fails_before_anything_runs() {
    let settings = settings_with_path("C:\\rc\\RiotClientServices.exe");
    let (orch, first) = Orchestrator::start(&account(), &settings, "hexgate");
    assert!(first.is_none(), "no action may be asked for an invalid selector");
    assert_eq!(orch.outcome(), Some(Err(LaunchError::InvalidGameSelector)));
}

#[test]
fn update_debounce_needs_two_quiet_polls() {
    // The update flag flips false -> true -> false within one polling
    // interval; the machine must not move on after the first quiet poll.
    let settings = settings_with_path("C:\\rc\\RiotClientServices.exe");
    let (mut orch, first) = Orchestrator::start(&account(), &settings, "league");
    let script = [false, true, false, false];
    let mut update_polls = 0;
    let mut reached_login_wait_after = 0;
    let log = run_machine(&mut orch, first, |a| match a {
        LaunchAction::CheckGameStatus => LaunchEvent::Status { status: idle_status() },
        LaunchAction::VerifyPath { .. } => LaunchEvent::PathValid { yes: true },
        LaunchAction::SpawnClient { .. } => LaunchEvent::Spawned { ok: true },
        LaunchAction::PollWindow => LaunchEvent::Window { present: true },
        LaunchAction::PollUpdating => {
            let updating = script[update_polls];
            update_polls += 1;
            LaunchEvent::Updating { updating }
        }
        LaunchAction::SleepSecs { secs } if *secs == 5 => {
            // The login delay (clamped to 5 s here) runs only once the
            // debounce is satisfied.
            if reached_login_wait_after == 0 {
                reached_login_wait_after = update_polls;
            }
            LaunchEvent::Ack
        }
        LaunchAction::QueryWindowRect => LaunchEvent::Rect { rect: None },
        LaunchAction::SpawnGame { .. } => LaunchEvent::Spawned { ok: true },
        LaunchAction::PollGame => LaunchEvent::Running { running: true },
        _ => LaunchEvent::Ack,
    });
    assert_eq!(orch.outcome(), Some(Ok(())));
    // All four scripted polls were needed: the early false did not end the
    // wait, because its confirmation check saw the update again.
    assert_eq!(update_polls, 4);
    assert_eq!(reached_login_wait_after, 4);
    assert_eq!(log.iter().filter(|k| **k == "poll_updating").count(), 4);
}

#[test]
fn retry_cap_is_exactly_three_spawn_cycles() {
    // Verification never sees the game: exactly 3 full spawn cycles (per
    // the retry policy), 12 verification polls each, cleanup between
    // retries but not after the last, then LaunchVerificationTimeout.
    let settings = settings_with_path("C:\\rc\\RiotClientServices.exe");
    let (mut orch, first) = Orchestrator::start(&account(), &settings, "valorant");
    let log = run_machine(&mut orch, first, |a| match a {
        LaunchAction::CheckGameStatus => LaunchEvent::Status { status: idle_status() },
        LaunchAction::VerifyPath { .. } => LaunchEvent::PathValid { yes: true },
        LaunchAction::SpawnClient { .. } | LaunchAction::SpawnGame { .. } => {
            LaunchEvent::Spawned { ok: true }
        }
        LaunchAction::PollWindow => LaunchEvent::Window { present: true },
        LaunchAction::PollUpdating => LaunchEvent::Updating { updating: false },
        LaunchAction::QueryWindowRect => LaunchEvent::Rect { rect: None },
        LaunchAction::PollGame => LaunchEvent::Running { running: false },
        _ => LaunchEvent::Ack,
    });
    assert_eq!(
        orch.outcome(),
        Some(Err(LaunchError::LaunchVerificationTimeout { attempts: 3 }))
    );
    assert_eq!(log.iter().filter(|k| **k == "spawn_client").count(), 3);
    assert_eq!(log.iter().filter(|k| **k == "spawn_game").count(), 3);
    assert_eq!(log.iter().filter(|k| **k == "poll_game").count(), 36);
    assert_eq!(log.iter().filter(|k| **k == "terminate").count(), 2);
}

#[test]
fn scenario_update_timeout_after_bounded_polls() {
    // The client never leaves its updating state: the wait is bounded, and
    // exceeding it is its own failure, distinct from the window timeout.
    let settings = settings_with_path("C:\\rc\\RiotClientServices.exe");
    let (mut orch, first) = Orchestrator::start(&account(), &settings, "league");
    let log = run_machine(&mut orch, first, |a| match a {
        LaunchAction::CheckGameStatus => LaunchEvent::Status { status: idle_status() },
        LaunchAction::VerifyPath { .. } => LaunchEvent::PathValid { yes: true },
        LaunchAction::SpawnClient { .. } => LaunchEvent::Spawned { ok: true },
        LaunchAction::PollWindow => LaunchEvent::Window { present: true },
        LaunchAction::PollUpdating => LaunchEvent::Updating { updating: true },
        _ => LaunchEvent::Ack,
    });
    assert_eq!(orch.outcome(), Some(Err(LaunchError::UpdateTimeout)));
    assert_eq!(log.iter().filter(|k| **k == "poll_updating").count(), 180);
}

#[test]
fn game_already_running_is_rejected_up_front() {
    let settings = settings_with_path("C:\\rc\\RiotClientServices.exe");
    let (mut orch, first) = Orchestrator::start(&account(), &settings, "league");
    let log = run_machine(&mut orch, first, |a| match a {
        LaunchAction::CheckGameStatus => LaunchEvent::Status {
            status: GameStatus { league_running: true, valorant_running: false },
        },
        _ => LaunchEvent::Ack,
    });
    assert_eq!(orch.outcome(), Some(Err(LaunchError::ClientAlreadyRunning)));
    assert_eq!(log, vec!["status"]);
}

#[test]
fn freshly_located_path_is_persisted_and_used() {
    let settings = settings_with_path("");
    let (mut orch, first) = Orchestrator::start(&account(), &settings, "league");
    let mut persisted: Option<String> = None;
    let mut spawned_from: Option<String> = None;
    let log = run_machine(&mut orch, first, |a| match a {
        LaunchAction::CheckGameStatus => LaunchEvent::Status { status: idle_status() },
        LaunchAction::RunLocator => LaunchEvent::Located {
            path: Some(String::from("D:\\rc\\RiotClientServices.exe")),
        },
        LaunchAction::PersistPath { path } => {
            persisted = Some(path.clone());
            LaunchEvent::Ack
        }
        LaunchAction::SpawnClient { path } => {
            spawned_from = Some(path.clone());
            LaunchEvent::Spawned { ok: false }
        }
        _ => LaunchEvent::Ack,
    });
    assert_eq!(orch.outcome(), Some(Err(LaunchError::SpawnFailed)));
    assert_eq!(persisted.as_deref(), Some("D:\\rc\\RiotClientServices.exe"));
    assert_eq!(spawned_from.as_deref(), Some("D:\\rc\\RiotClientServices.exe"));
    assert_eq!(log, vec!["status", "locate", "persist_path", "spawn_client"]);
}

#[test]
fn minimize_runs_before_spawn_when_configured() {
    let mut settings = settings_with_path("C:\\rc\\RiotClientServices.exe");
    settings.minimize_on_game_launch = true;
    let (mut orch, first) = Orchestrator::start(&account(), &settings, "league");
    let log = run_machine(&mut orch, first, |a| match a {
        LaunchAction::CheckGameStatus => LaunchEvent::Status { status: idle_status() },
        LaunchAction::VerifyPath { .. } => LaunchEvent::PathValid { yes: true },
        LaunchAction::SpawnClient { .. } => LaunchEvent::Spawned { ok: false },
        _ => LaunchEvent::Ack,
    });
    assert_eq!(orch.outcome(), Some(Err(LaunchError::SpawnFailed)));
    assert_eq!(log, vec!["status", "verify_path", "minimize", "spawn_client"]);
}
