//! The persisted settings record and the rules the launcher applies to it:
//! path normalization, defaulting, and the clamp on the configured login
//! delay.

use vstd::prelude::*;
use crate::text;

verus! {

/// The user-configurable settings record.
#[derive(Clone, Debug)]
pub struct Settings {
    pub riot_client_path: String,
    pub league_path: String,
    pub valorant_path: String,
    pub start_with_windows: bool,
    pub minimize_to_tray: bool,
    pub minimize_on_game_launch: bool,
    pub login_delay: u32,
    pub preferred_monitor: Option<usize>,
}

/// The configured login delay clamped into the allowed `[2, 30]` range.
pub open spec fn clamped_delay(d: u32) -> u64 {
    if d < 2 {
        2
    } else if d > 30 {
        30
    } else {
        d as u64
    }
}

/// Whatever the configured login delay is, the effective delay lies in
/// `[2, 30]`.
pub proof fn lemma_login_delay_clamped(d: u32)
    ensures
        2 <= clamped_delay(d) <= 30,
{
}

impl Settings {
    /// The delay (in seconds) actually waited before typing credentials:
    /// the configured value clamped into `[2, 30]`.
    pub fn effective_login_delay(&self) -> (r: u64)
        ensures
            r == clamped_delay(self.login_delay),
            2 <= r <= 30,
    {
        if self.login_delay < 2 {
            2
        } else if self.login_delay > 30 {
            30
        } else {
            self.login_delay as u64
        }
    }

    /// An exact copy, field by field.
    pub fn duplicate(&self) -> (r: Settings)
        ensures
            r == *self,
    {
        Settings {
            riot_client_path: self.riot_client_path.clone(),
            league_path: self.league_path.clone(),
            valorant_path: self.valorant_path.clone(),
            start_with_windows: self.start_with_windows,
            minimize_to_tray: self.minimize_to_tray,
            minimize_on_game_launch: self.minimize_on_game_launch,
            login_delay: self.login_delay,
            preferred_monitor: self.preferred_monitor,
        }
    }

    /// Rewrite the three stored paths with backslash separators, as done on
    /// every settings save; the other fields keep their values.
    pub fn normalize_paths(&mut self)
        ensures
            final(self).riot_client_path@ == text::backslashed(old(self).riot_client_path@),
            final(self).league_path@ == text::backslashed(old(self).league_path@),
            final(self).valorant_path@ == text::backslashed(old(self).valorant_path@),
            final(self).start_with_windows == old(self).start_with_windows,
            final(self).minimize_to_tray == old(self).minimize_to_tray,
            final(self).minimize_on_game_launch == old(self).minimize_on_game_launch,
            final(self).login_delay == old(self).login_delay,
            final(self).preferred_monitor == old(self).preferred_monitor,
    {
        self.riot_client_path = text::backslashes(self.riot_client_path.as_str());
        self.league_path = text::backslashes(self.league_path.as_str());
        self.valorant_path = text::backslashes(self.valorant_path.as_str());
    }
}

impl Default for Settings {
    /// The record used when no settings have been stored yet: empty paths,
    /// all flags off, a 5 second login delay, no preferred monitor.
    fn default() -> (r: Settings)
        ensures
            r.riot_client_path@ == Seq::<char>::empty(),
            r.league_path@ == Seq::<char>::empty(),
            r.valorant_path@ == Seq::<char>::empty(),
            !r.start_with_windows,
            !r.minimize_to_tray,
            !r.minimize_on_game_launch,
            r.login_delay == 5,
            r.preferred_monitor is None,
    {
        Settings {
            riot_client_path: String::new(),
            league_path: String::new(),
            valorant_path: String::new(),
            start_with_windows: false,
            minimize_to_tray: false,
            minimize_on_game_launch: false,
            login_delay: 5,
            preferred_monitor: Option::None,
        }
    }
}

/// How the main window should leave the screen when the user minimizes it.
#[derive(Clone, Copy, PartialEq, Eq, Structural, Debug)]
pub enum MinimizeMode {
    /// Hide the window entirely (tray mode).
    Hide,
    /// Ordinary taskbar minimize.
    Minimize,
}

/// The minimize behaviour selected by the settings.
pub fn minimize_mode(s: &Settings) -> (r: MinimizeMode)
    ensures
        r == MinimizeMode::Hide <==> s.minimize_to_tray,
{
    if s.minimize_to_tray {
        MinimizeMode::Hide
    } else {
        MinimizeMode::Minimize
    }
}

} // verus!
