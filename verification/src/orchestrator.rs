//! The launch orchestration state machine.
//!
//! One launch request walks the machine from a fresh [`Orchestrator::start`]
//! to `Succeeded` or `Failed`.  The machine only decides: every OS-facing
//! effect is named by a [`LaunchAction`] that the driver performs, feeding
//! the observed outcome back through [`Orchestrator::step`] as a
//! [`LaunchEvent`].  The transition relation itself is the spec function
//! [`spec_next`]; `step` is proved to follow it exactly, so the polling
//! bounds, the update debounce and the retry cap hold of every run.

use vstd::prelude::*;
use crate::errors::LaunchError;
use crate::game::{Game, parse_game, launch_args, spec_launch_args};
use crate::injector::{InputCommand, WindowRect, injection_plan, spec_injection_plan};
use crate::observer::{GameStatus, spec_game_running};
use crate::settings::{Settings, clamped_delay};
use crate::store::Account;
use crate::text;

verus! {

/// How many times the client window is polled for before giving up.
pub const WINDOW_POLL_LIMIT: u32 = 30;

/// How many update polls are spent before the update is declared stuck.
pub const UPDATE_POLL_LIMIT: u32 = 180;

/// How many game-running polls one spawn cycle gets.
pub const VERIFY_POLL_LIMIT: u32 = 12;

/// Total spawn cycles allowed per launch request.
pub const RETRY_CAP: u32 = 3;

/// The outcome of one performed action, handed back to the machine.
pub enum LaunchEvent {
    /// Reply to `CheckGameStatus`: a fresh process snapshot.
    Status { status: GameStatus },
    /// Reply to `VerifyPath`: whether the path names an existing file.
    PathValid { yes: bool },
    /// Reply to `RunLocator`: the resolved client path, if found.
    Located { path: Option<String> },
    /// Reply to actions that only need completion (sleeps, persists,
    /// minimize, injection, forced termination, stamping).
    Ack,
    /// Reply to `SpawnClient` / `SpawnGame`: whether the spawn succeeded.
    Spawned { ok: bool },
    /// Reply to `PollWindow`: whether the client window is present.
    Window { present: bool },
    /// Reply to `PollUpdating`: whether an update window is showing.
    Updating { updating: bool },
    /// Reply to `QueryWindowRect`: the client window's rectangle, if the
    /// window was found.
    Rect { rect: Option<WindowRect> },
    /// Reply to `PollGame`: whether the selected game's processes run.
    Running { running: bool },
}

/// The next effect the driver must perform.
pub enum LaunchAction {
    /// Take a fresh process snapshot.
    CheckGameStatus,
    /// Test whether `path` names an existing file.
    VerifyPath { path: String },
    /// Run the executable locator to completion.
    RunLocator,
    /// Persist `path` as the client path in the settings store.
    PersistPath { path: String },
    /// Hide the presenting window.
    MinimizeWindow,
    /// Spawn the client, detached, with no arguments.
    SpawnClient { path: String },
    /// Block for `secs` seconds.
    SleepSecs { secs: u64 },
    /// Block for `ms` milliseconds.
    SleepMs { ms: u64 },
    /// Ask whether the client window is present.
    PollWindow,
    /// Ask whether an update window is showing.
    PollUpdating,
    /// Fetch the client window's bounding rectangle.
    QueryWindowRect,
    /// Play back the injection plan, step by step.
    Inject { plan: Vec<InputCommand> },
    /// Spawn the client with the game's launch arguments.
    SpawnGame { path: String, args: String },
    /// Ask whether the selected game's processes run.
    PollGame,
    /// Stamp the account's last login and persist it.
    StampLogin,
    /// Force-terminate the game family's processes (best effort; the
    /// outcome is not consulted).
    ForceTerminate,
}

/// Where the machine stands; counters carry how much of each bound is used.
#[derive(Debug)]
pub enum Phase {
    /// Awaiting the initial process snapshot.
    StatusCheck,
    /// Awaiting the existence check of the configured path.
    PathVerify,
    /// Awaiting the locator's verdict.
    Locating,
    /// Awaiting the persist of a freshly located path.
    PathPersist,
    /// Awaiting the minimize side effect.
    Minimizing,
    /// Awaiting the client spawn outcome.
    Spawning,
    /// Awaiting a window-presence poll; `polls` were already answered.
    WindowPoll { polls: u32 },
    /// Awaiting the 1 s pause before the next window poll.
    WindowSleep { polls: u32 },
    /// Awaiting the 2 s render pause after the window appeared.
    WindowSettle,
    /// Awaiting an update poll; `confirming` marks the extra
    /// stabilization check after an update-free poll.
    UpdatePoll { checks: u32, confirming: bool },
    /// Awaiting the 1 s pause before the next update poll.
    UpdateSleep { checks: u32 },
    /// Awaiting the half-second pause before the confirmation poll.
    UpdateConfirmSleep { checks: u32 },
    /// Awaiting the configured login delay.
    LoginWait,
    /// Awaiting the client window rectangle.
    RectQuery,
    /// Awaiting completion of the injection playback.
    Injecting,
    /// Awaiting the game-launch spawn outcome.
    GameSpawning,
    /// Awaiting the 5 s pause before the next verification poll.
    VerifySleep { checks: u32 },
    /// Awaiting a game-running poll; `checks` polls already failed.
    VerifyPoll { checks: u32 },
    /// Awaiting the last-login stamp.
    Stamping,
    /// Awaiting the forced termination sweep before a retry.
    Terminating,
    /// Awaiting the 2 s pause before the retry's spawn.
    RetryWait,
    /// Terminal: the game was seen running and the login was stamped.
    Succeeded,
    /// Terminal failure.
    Failed { error: LaunchError },
}

/// One launch request in flight.
pub struct Orchestrator {
    /// The validated game selector.
    pub game: Game,
    pub username: String,
    pub password: String,
    pub account_id: String,
    /// The client path in use; replaced when the locator resolves a fresh
    /// one.
    pub client_path: String,
    /// The effective (clamped) login delay in seconds.
    pub login_delay: u64,
    pub minimize_on_launch: bool,
    /// Which spawn cycle is running, starting at 1.
    pub attempt: u32,
    pub phase: Phase,
}

/// Shorthand for a terminal failure phase.
pub open spec fn failed(e: LaunchError) -> Phase {
    Phase::Failed { error: e }
}

/// The phase reached once a usable path is at hand: the optional minimize
/// side effect first, then the spawn.
pub open spec fn after_path(minimize_on_launch: bool) -> Phase {
    if minimize_on_launch {
        Phase::Minimizing
    } else {
        Phase::Spawning
    }
}

/// Counters never leave their bounds, and terminal errors are the ones the
/// machine can actually reach.
pub open spec fn phase_wf(p: Phase) -> bool {
    match p {
        Phase::WindowPoll { polls } => polls < WINDOW_POLL_LIMIT,
        Phase::WindowSleep { polls } => polls < WINDOW_POLL_LIMIT,
        Phase::UpdatePoll { checks, .. } => checks < UPDATE_POLL_LIMIT,
        Phase::UpdateSleep { checks } => checks < UPDATE_POLL_LIMIT,
        Phase::UpdateConfirmSleep { checks } => checks < UPDATE_POLL_LIMIT,
        Phase::VerifySleep { checks } => checks < VERIFY_POLL_LIMIT,
        Phase::VerifyPoll { checks } => checks < VERIFY_POLL_LIMIT,
        _ => true,
    }
}

impl Orchestrator {
    /// The machine's invariant: bounded counters and a bounded attempt
    /// number.
    pub open spec fn wf(self) -> bool {
        phase_wf(self.phase) && 1 <= self.attempt <= RETRY_CAP
    }

    /// Which event answers the pending action of each phase.  Terminal
    /// phases accept nothing.
    pub open spec fn accepts(self, ev: LaunchEvent) -> bool {
        match self.phase {
            Phase::StatusCheck => ev is Status,
            Phase::PathVerify => ev is PathValid,
            Phase::Locating => ev is Located,
            Phase::PathPersist => ev is Ack,
            Phase::Minimizing => ev is Ack,
            Phase::Spawning => ev is Spawned,
            Phase::WindowPoll { .. } => ev is Window,
            Phase::WindowSleep { .. } => ev is Ack,
            Phase::WindowSettle => ev is Ack,
            Phase::UpdatePoll { .. } => ev is Updating,
            Phase::UpdateSleep { .. } => ev is Ack,
            Phase::UpdateConfirmSleep { .. } => ev is Ack,
            Phase::LoginWait => ev is Ack,
            Phase::RectQuery => ev is Rect,
            Phase::Injecting => ev is Ack,
            Phase::GameSpawning => ev is Spawned,
            Phase::VerifySleep { .. } => ev is Ack,
            Phase::VerifyPoll { .. } => ev is Running,
            Phase::Stamping => ev is Ack,
            Phase::Terminating => ev is Ack,
            Phase::RetryWait => ev is Ack,
            Phase::Succeeded => false,
            Phase::Failed { .. } => false,
        }
    }
}

/// The transition relation: from the machine `o` and the event `ev` to the
/// next phase and attempt number.
pub open spec fn spec_next(o: Orchestrator, ev: LaunchEvent) -> (Phase, u32) {
    let a = o.attempt;
    match (o.phase, ev) {
        (Phase::StatusCheck, LaunchEvent::Status { status }) => {
            if spec_game_running(status, o.game) {
                (failed(LaunchError::ClientAlreadyRunning), a)
            } else if o.client_path@.len() == 0 {
                (Phase::Locating, a)
            } else {
                (Phase::PathVerify, a)
            }
        },
        (Phase::PathVerify, LaunchEvent::PathValid { yes }) => {
            if yes {
                (after_path(o.minimize_on_launch), a)
            } else {
                (Phase::Locating, a)
            }
        },
        (Phase::Locating, LaunchEvent::Located { path }) => {
            if path is Some {
                (Phase::PathPersist, a)
            } else {
                (failed(LaunchError::ClientNotFound), a)
            }
        },
        (Phase::PathPersist, LaunchEvent::Ack) => (after_path(o.minimize_on_launch), a),
        (Phase::Minimizing, LaunchEvent::Ack) => (Phase::Spawning, a),
        (Phase::Spawning, LaunchEvent::Spawned { ok }) => {
            if ok {
                (Phase::WindowPoll { polls: 0 }, a)
            } else {
                (failed(LaunchError::SpawnFailed), a)
            }
        },
        (Phase::WindowPoll { polls }, LaunchEvent::Window { present }) => {
            if present {
                (Phase::WindowSettle, a)
            } else if polls + 1 >= WINDOW_POLL_LIMIT {
                (failed(LaunchError::WindowTimeout), a)
            } else {
                (Phase::WindowSleep { polls: (polls + 1) as u32 }, a)
            }
        },
        (Phase::WindowSleep { polls }, LaunchEvent::Ack) => (Phase::WindowPoll { polls }, a),
        (Phase::WindowSettle, LaunchEvent::Ack) => (
            Phase::UpdatePoll { checks: 0, confirming: false },
            a,
        ),
        (Phase::UpdatePoll { checks, confirming }, LaunchEvent::Updating { updating }) => {
            if updating {
                // Seen updating — whether first-hand or on the confirmation
                // check — so the wait goes on and consumes one bounded
                // attempt.
                if checks + 1 >= UPDATE_POLL_LIMIT {
                    (failed(LaunchError::UpdateTimeout), a)
                } else {
                    (Phase::UpdateSleep { checks: (checks + 1) as u32 }, a)
                }
            } else if confirming {
                // Update-free twice in a row: the debounce is satisfied.
                (Phase::LoginWait, a)
            } else {
                // First update-free poll: schedule the confirmation check.
                (Phase::UpdateConfirmSleep { checks }, a)
            }
        },
        (Phase::UpdateSleep { checks }, LaunchEvent::Ack) => (
            Phase::UpdatePoll { checks, confirming: false },
            a,
        ),
        (Phase::UpdateConfirmSleep { checks }, LaunchEvent::Ack) => (
            Phase::UpdatePoll { checks, confirming: true },
            a,
        ),
        (Phase::LoginWait, LaunchEvent::Ack) => (Phase::RectQuery, a),
        (Phase::RectQuery, LaunchEvent::Rect { rect }) => {
            match rect {
                Option::Some(rc) => {
                    if rc.wf() {
                        (Phase::Injecting, a)
                    } else {
                        (Phase::GameSpawning, a)
                    }
                },
                Option::None => (Phase::GameSpawning, a),
            }
        },
        (Phase::Injecting, LaunchEvent::Ack) => (Phase::GameSpawning, a),
        (Phase::GameSpawning, LaunchEvent::Spawned { ok }) => {
            if ok {
                (Phase::VerifySleep { checks: 0 }, a)
            } else {
                (failed(LaunchError::SpawnFailed), a)
            }
        },
        (Phase::VerifySleep { checks }, LaunchEvent::Ack) => (Phase::VerifyPoll { checks }, a),
        (Phase::VerifyPoll { checks }, LaunchEvent::Running { running }) => {
            if running {
                (Phase::Stamping, a)
            } else if checks + 1 < VERIFY_POLL_LIMIT {
                (Phase::VerifySleep { checks: (checks + 1) as u32 }, a)
            } else if a < RETRY_CAP {
                // This spawn cycle is spent; clean up and run another.
                (Phase::Terminating, (a + 1) as u32)
            } else {
                (failed(LaunchError::LaunchVerificationTimeout { attempts: a }), a)
            }
        },
        (Phase::Stamping, LaunchEvent::Ack) => (Phase::Succeeded, a),
        (Phase::Terminating, LaunchEvent::Ack) => (Phase::RetryWait, a),
        (Phase::RetryWait, LaunchEvent::Ack) => (Phase::Spawning, a),
        _ => (o.phase, a),
    }
}

/// The action owed for the phase just entered.  `o` is the machine after
/// the transition; `ev` is the event that caused it (the injection plan is
/// built from the rectangle it carried).
pub open spec fn action_ok(ev: LaunchEvent, o: Orchestrator, act: Option<LaunchAction>) -> bool {
    match o.phase {
        Phase::StatusCheck => act == Option::Some(LaunchAction::CheckGameStatus),
        Phase::PathVerify => act matches Option::Some(LaunchAction::VerifyPath { path })
            && path@ == text::backslashed(o.client_path@),
        Phase::Locating => act == Option::Some(LaunchAction::RunLocator),
        Phase::PathPersist => act matches Option::Some(LaunchAction::PersistPath { path }) && path
            == o.client_path,
        Phase::Minimizing => act == Option::Some(LaunchAction::MinimizeWindow),
        Phase::Spawning => act matches Option::Some(LaunchAction::SpawnClient { path }) && path
            == o.client_path,
        Phase::WindowPoll { .. } => act == Option::Some(LaunchAction::PollWindow),
        Phase::WindowSleep { .. } => act == Option::Some(
            LaunchAction::SleepSecs { secs: 1u64 },
        ),
        Phase::WindowSettle => act == Option::Some(LaunchAction::SleepSecs { secs: 2u64 }),
        Phase::UpdatePoll { .. } => act == Option::Some(LaunchAction::PollUpdating),
        Phase::UpdateSleep { .. } => act == Option::Some(
            LaunchAction::SleepSecs { secs: 1u64 },
        ),
        Phase::UpdateConfirmSleep { .. } => act == Option::Some(
            LaunchAction::SleepMs { ms: 500u64 },
        ),
        Phase::LoginWait => act == Option::Some(
            LaunchAction::SleepSecs { secs: o.login_delay },
        ),
        Phase::RectQuery => act == Option::Some(LaunchAction::QueryWindowRect),
        Phase::Injecting => act matches Option::Some(LaunchAction::Inject { plan })
            && ev matches LaunchEvent::Rect { rect: Option::Some(rc) } && plan@
            == spec_injection_plan(rc, o.username@, o.password@),
        Phase::GameSpawning => act matches Option::Some(LaunchAction::SpawnGame { path, args })
            && path == o.client_path && args@ == spec_launch_args(o.game),
        Phase::VerifySleep { .. } => act == Option::Some(
            LaunchAction::SleepSecs { secs: 5u64 },
        ),
        Phase::VerifyPoll { .. } => act == Option::Some(LaunchAction::PollGame),
        Phase::Stamping => act == Option::Some(LaunchAction::StampLogin),
        Phase::Terminating => act == Option::Some(LaunchAction::ForceTerminate),
        Phase::RetryWait => act == Option::Some(LaunchAction::SleepSecs { secs: 2u64 }),
        Phase::Succeeded => act is None,
        Phase::Failed { .. } => act is None,
    }
}

/// The request fields the machine never rewrites.
pub open spec fn same_request(a: Orchestrator, b: Orchestrator) -> bool {
    &&& a.game == b.game
    &&& a.username == b.username
    &&& a.password == b.password
    &&& a.account_id == b.account_id
    &&& a.login_delay == b.login_delay
    &&& a.minimize_on_launch == b.minimize_on_launch
}

/// The update debounce: after one update-free poll the machine only
/// schedules a confirmation check, and when that check sees "updating"
/// again — the flip false → true → false within one polling interval — it
/// goes back to waiting instead of moving on to the login delay.
pub proof fn lemma_update_debounce_no_early_exit(o: Orchestrator, checks: u32)
    requires
        (o.phase == Phase::UpdatePoll { checks, confirming: false }),
    ensures
        (spec_next(o, LaunchEvent::Updating { updating: false }) == (
            Phase::UpdateConfirmSleep { checks },
            o.attempt,
        )),
        ({
            let o1 = Orchestrator { phase: Phase::UpdateConfirmSleep { checks }, ..o };
            spec_next(o1, LaunchEvent::Ack) == (
                Phase::UpdatePoll { checks, confirming: true },
                o.attempt,
            )
        }),
        ({
            let o2 = Orchestrator { phase: Phase::UpdatePoll { checks, confirming: true }, ..o };
            let after = spec_next(o2, LaunchEvent::Updating { updating: true }).0;
            after != Phase::LoginWait && (after is UpdateSleep || after == failed(
                LaunchError::UpdateTimeout,
            ))
        }),
{
}

/// The only door to the login delay: a confirming update poll that came
/// back update-free.  One update-free poll alone never leaves the wait.
pub proof fn lemma_login_wait_needs_confirmation(o: Orchestrator, ev: LaunchEvent)
    requires
        o.accepts(ev),
        spec_next(o, ev).0 == Phase::LoginWait,
    ensures
        (o.phase matches Phase::UpdatePoll { confirming, .. } && confirming),
        (ev matches LaunchEvent::Updating { updating } && !updating),
{
}

/// The retry cap is exact: a spent verification cycle starts the cleanup
/// for a fresh spawn cycle only while attempts remain, and after the last
/// one the machine fails, naming the cap.
pub proof fn lemma_retry_cap_exact(o: Orchestrator, checks: u32)
    requires
        o.wf(),
        (o.phase == Phase::VerifyPoll { checks }),
        checks + 1 == VERIFY_POLL_LIMIT,
    ensures
        (o.attempt < RETRY_CAP ==> spec_next(o, LaunchEvent::Running { running: false }) == (
            Phase::Terminating,
            (o.attempt + 1) as u32,
        )),
        (o.attempt == RETRY_CAP ==> spec_next(o, LaunchEvent::Running { running: false }) == (
            failed(LaunchError::LaunchVerificationTimeout { attempts: RETRY_CAP }),
            RETRY_CAP,
        )),
{
}

/// The attempt counter counts spawn cycles and nothing else: it moves only
/// when a fully spent verification cycle starts the next retry, and then by
/// exactly one, never past the cap.
pub proof fn lemma_attempt_counts_spawn_cycles(o: Orchestrator, ev: LaunchEvent)
    requires
        o.wf(),
        o.accepts(ev),
    ensures
        (spec_next(o, ev).1 != o.attempt ==> {
            &&& o.phase matches Phase::VerifyPoll { checks } && checks + 1 == VERIFY_POLL_LIMIT
            &&& ev matches LaunchEvent::Running { running } && !running
            &&& o.attempt < RETRY_CAP
            &&& spec_next(o, ev).1 == o.attempt + 1
            &&& spec_next(o, ev).0 == Phase::Terminating
        }),
        spec_next(o, ev).1 <= RETRY_CAP,
{
}

impl Orchestrator {
    /// Open a launch request.  An unsupported selector fails immediately
    /// with `InvalidGameSelector`, before any action is asked of the
    /// driver; otherwise the machine starts by taking a process snapshot.
    pub fn start(account: &Account, settings: &Settings, selector: &str) -> (r: (
        Orchestrator,
        Option<LaunchAction>,
    ))
        ensures
            r.0.wf(),
            r.0.username == account.username,
            r.0.password == account.password,
            r.0.account_id == account.id,
            r.0.client_path == settings.riot_client_path,
            r.0.login_delay == clamped_delay(settings.login_delay),
            r.0.minimize_on_launch == settings.minimize_on_game_launch,
            r.0.attempt == 1,
            (selector@ != "league"@ && selector@ != "valorant"@) ==> r.0.phase == failed(
                LaunchError::InvalidGameSelector,
            ) && r.1 is None,
            selector@ == "league"@ ==> r.0.game == Game::League,
            selector@ == "valorant"@ ==> r.0.game == Game::Valorant,
            (selector@ == "league"@ || selector@ == "valorant"@) ==> r.0.phase
                == Phase::StatusCheck && r.1 == Option::Some(LaunchAction::CheckGameStatus),
    {
        let phase: Phase;
        let action: Option<LaunchAction>;
        let game: Game;
        match parse_game(selector) {
            Option::Some(g) => {
                game = g;
                phase = Phase::StatusCheck;
                action = Option::Some(LaunchAction::CheckGameStatus);
            },
            Option::None => {
                game = Game::League;
                phase = Phase::Failed { error: LaunchError::InvalidGameSelector };
                action = Option::None;
            },
        }
        let o = Orchestrator {
            game,
            username: account.username.clone(),
            password: account.password.clone(),
            account_id: account.id.clone(),
            client_path: settings.riot_client_path.clone(),
            login_delay: settings.effective_login_delay(),
            minimize_on_launch: settings.minimize_on_game_launch,
            attempt: 1,
            phase,
        };
        (o, action)
    }

    /// Feed the outcome of the pending action back in; the machine moves as
    /// [`spec_next`] says and owes the action of the phase it entered.
    pub fn step(&mut self, ev: LaunchEvent) -> (act: Option<LaunchAction>)
        requires
            old(self).wf(),
            old(self).accepts(ev),
        ensures
            final(self).wf(),
            final(self).phase == spec_next(*old(self), ev).0,
            final(self).attempt == spec_next(*old(self), ev).1,
            action_ok(ev, *final(self), act),
            same_request(*old(self), *final(self)),
            ev matches LaunchEvent::Located { path: Option::Some(p) } ==> (old(
                self,
            ).phase is Locating ==> final(self).client_path == p),
            !(old(self).phase is Locating && ev matches LaunchEvent::Located {
                path: Option::Some(_),
            }) ==> final(self).client_path == old(self).client_path,
    {
        match ev {
            LaunchEvent::Status { status } => {
                let running = crate::observer::game_running(&status, self.game);
                if running {
                    self.phase = Phase::Failed { error: LaunchError::ClientAlreadyRunning };
                    Option::None
                } else if self.client_path.as_str().unicode_len() == 0 {
                    self.phase = Phase::Locating;
                    Option::Some(LaunchAction::RunLocator)
                } else {
                    self.phase = Phase::PathVerify;
                    Option::Some(
                        LaunchAction::VerifyPath {
                            path: text::backslashes(self.client_path.as_str()),
                        },
                    )
                }
            },
            LaunchEvent::PathValid { yes } => {
                if yes {
                    self.enter_pre_spawn()
                } else {
                    self.phase = Phase::Locating;
                    Option::Some(LaunchAction::RunLocator)
                }
            },
            LaunchEvent::Located { path } => {
                match path {
                    Option::Some(p) => {
                        self.client_path = p;
                        self.phase = Phase::PathPersist;
                        Option::Some(
                            LaunchAction::PersistPath { path: self.client_path.clone() },
                        )
                    },
                    Option::None => {
                        self.phase = Phase::Failed { error: LaunchError::ClientNotFound };
                        Option::None
                    },
                }
            },
            LaunchEvent::Spawned { ok } => {
                let client_spawn = matches!(&self.phase, Phase::Spawning);
                if client_spawn {
                    if ok {
                        self.phase = Phase::WindowPoll { polls: 0 };
                        Option::Some(LaunchAction::PollWindow)
                    } else {
                        self.phase = Phase::Failed { error: LaunchError::SpawnFailed };
                        Option::None
                    }
                } else {
                    if ok {
                        self.phase = Phase::VerifySleep { checks: 0 };
                        Option::Some(LaunchAction::SleepSecs { secs: 5 })
                    } else {
                        self.phase = Phase::Failed { error: LaunchError::SpawnFailed };
                        Option::None
                    }
                }
            },
            LaunchEvent::Window { present } => {
                let polls = match &self.phase {
                    Phase::WindowPoll { polls } => *polls,
                    _ => 0,
                };
                if present {
                    self.phase = Phase::WindowSettle;
                    Option::Some(LaunchAction::SleepSecs { secs: 2 })
                } else if polls + 1 >= WINDOW_POLL_LIMIT {
                    self.phase = Phase::Failed { error: LaunchError::WindowTimeout };
                    Option::None
                } else {
                    self.phase = Phase::WindowSleep { polls: polls + 1 };
                    Option::Some(LaunchAction::SleepSecs { secs: 1 })
                }
            },
            LaunchEvent::Updating { updating } => {
                let (checks, confirming) = match &self.phase {
                    Phase::UpdatePoll { checks, confirming } => (*checks, *confirming),
                    _ => (0, false),
                };
                if updating {
                    if checks + 1 >= UPDATE_POLL_LIMIT {
                        self.phase = Phase::Failed { error: LaunchError::UpdateTimeout };
                        Option::None
                    } else {
                        self.phase = Phase::UpdateSleep { checks: checks + 1 };
                        Option::Some(LaunchAction::SleepSecs { secs: 1 })
                    }
                } else if confirming {
                    self.phase = Phase::LoginWait;
                    Option::Some(LaunchAction::SleepSecs { secs: self.login_delay })
                } else {
                    self.phase = Phase::UpdateConfirmSleep { checks };
                    Option::Some(LaunchAction::SleepMs { ms: 500 })
                }
            },
            LaunchEvent::Rect { rect } => {
                match rect {
                    Option::Some(rc) => {
                        if rc.left <= rc.right && rc.top <= rc.bottom {
                            let plan = injection_plan(
                                &rc,
                                self.username.as_str(),
                                self.password.as_str(),
                            );
                            self.phase = Phase::Injecting;
                            Option::Some(LaunchAction::Inject { plan })
                        } else {
                            self.enter_game_spawn()
                        }
                    },
                    Option::None => self.enter_game_spawn(),
                }
            },
            LaunchEvent::Running { running } => {
                let checks = match &self.phase {
                    Phase::VerifyPoll { checks } => *checks,
                    _ => 0,
                };
                if running {
                    self.phase = Phase::Stamping;
                    Option::Some(LaunchAction::StampLogin)
                } else if checks + 1 < VERIFY_POLL_LIMIT {
                    self.phase = Phase::VerifySleep { checks: checks + 1 };
                    Option::Some(LaunchAction::SleepSecs { secs: 5 })
                } else if self.attempt < RETRY_CAP {
                    self.attempt = self.attempt + 1;
                    self.phase = Phase::Terminating;
                    Option::Some(LaunchAction::ForceTerminate)
                } else {
                    self.phase = Phase::Failed {
                        error: LaunchError::LaunchVerificationTimeout { attempts: self.attempt },
                    };
                    Option::None
                }
            },
            LaunchEvent::Ack => {
                match &self.phase {
                    Phase::PathPersist => self.enter_pre_spawn(),
                    Phase::Minimizing => {
                        self.phase = Phase::Spawning;
                        Option::Some(
                            LaunchAction::SpawnClient { path: self.client_path.clone() },
                        )
                    },
                    Phase::WindowSleep { polls } => {
                        let p = *polls;
                        self.phase = Phase::WindowPoll { polls: p };
                        Option::Some(LaunchAction::PollWindow)
                    },
                    Phase::WindowSettle => {
                        self.phase = Phase::UpdatePoll { checks: 0, confirming: false };
                        Option::Some(LaunchAction::PollUpdating)
                    },
                    Phase::UpdateSleep { checks } => {
                        let c = *checks;
                        self.phase = Phase::UpdatePoll { checks: c, confirming: false };
                        Option::Some(LaunchAction::PollUpdating)
                    },
                    Phase::UpdateConfirmSleep { checks } => {
                        let c = *checks;
                        self.phase = Phase::UpdatePoll { checks: c, confirming: true };
                        Option::Some(LaunchAction::PollUpdating)
                    },
                    Phase::LoginWait => {
                        self.phase = Phase::RectQuery;
                        Option::Some(LaunchAction::QueryWindowRect)
                    },
                    Phase::Injecting => self.enter_game_spawn(),
                    Phase::VerifySleep { checks } => {
                        let c = *checks;
                        self.phase = Phase::VerifyPoll { checks: c };
                        Option::Some(LaunchAction::PollGame)
                    },
                    Phase::Stamping => {
                        self.phase = Phase::Succeeded;
                        Option::None
                    },
                    Phase::Terminating => {
                        self.phase = Phase::RetryWait;
                        Option::Some(LaunchAction::SleepSecs { secs: 2 })
                    },
                    Phase::RetryWait => {
                        self.phase = Phase::Spawning;
                        Option::Some(
                            LaunchAction::SpawnClient { path: self.client_path.clone() },
                        )
                    },
                    _ => Option::None,
                }
            },
        }
    }

    /// Move to the pre-spawn side effect (minimize if configured) or
    /// straight to the spawn.
    fn enter_pre_spawn(&mut self) -> (act: Option<LaunchAction>)
        ensures
            final(self).phase == after_path(old(self).minimize_on_launch),
            final(self).attempt == old(self).attempt,
            final(self).client_path == old(self).client_path,
            same_request(*old(self), *final(self)),
            action_ok(LaunchEvent::Ack, *final(self), act),
            phase_wf(final(self).phase),
    {
        if self.minimize_on_launch {
            self.phase = Phase::Minimizing;
            Option::Some(LaunchAction::MinimizeWindow)
        } else {
            self.phase = Phase::Spawning;
            Option::Some(LaunchAction::SpawnClient { path: self.client_path.clone() })
        }
    }

    /// Move to the game-launch spawn.
    fn enter_game_spawn(&mut self) -> (act: Option<LaunchAction>)
        ensures
            final(self).phase == Phase::GameSpawning,
            final(self).attempt == old(self).attempt,
            final(self).client_path == old(self).client_path,
            same_request(*old(self), *final(self)),
            action_ok(LaunchEvent::Ack, *final(self), act),
    {
        self.phase = Phase::GameSpawning;
        Option::Some(
            LaunchAction::SpawnGame {
                path: self.client_path.clone(),
                args: String::from_str(launch_args(self.game)),
            },
        )
    }

    /// The terminal result, once one is reached.
    pub fn outcome(&self) -> (r: Option<Result<(), LaunchError>>)
        ensures
            self.phase is Succeeded ==> r == Option::Some(Result::<(), LaunchError>::Ok(())),
            self.phase matches Phase::Failed { error } ==> r matches Option::Some(res) && res
                matches Result::Err(e) && e == error,
            !(self.phase is Succeeded || self.phase is Failed) ==> r is None,
    {
        match &self.phase {
            Phase::Succeeded => Option::Some(Result::Ok(())),
            Phase::Failed { error } => Option::Some(Result::Err(error.duplicate())),
            _ => Option::None,
        }
    }
}

} // verus!
