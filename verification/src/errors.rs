//! The failure taxonomy of a launch request, with the human-readable message
//! carried to the caller for each kind.

use vstd::prelude::*;
use crate::text;

verus! {

/// Terminal failure of one launch request.
#[derive(Clone, Debug, PartialEq, Eq)]
pub enum LaunchError {
    /// Every locator strategy came up empty.
    ClientNotFound,
    /// The selected game's processes were already present before the launch.
    ClientAlreadyRunning,
    /// The OS refused to spawn the client process.
    SpawnFailed,
    /// The client window never appeared within the polling bound.
    WindowTimeout,
    /// The client stayed in its updating state past the polling bound.
    UpdateTimeout,
    /// Every spawn cycle ran out of verification polls; `attempts` names how
    /// many full cycles were made.
    LaunchVerificationTimeout { attempts: u32 },
    /// The selector named no supported game.
    InvalidGameSelector,
    /// A process of the game family survived forced termination.
    ProcessTerminationFailed { name: String },
}

impl LaunchError {
    /// An exact copy, variant by variant.
    pub fn duplicate(&self) -> (r: LaunchError)
        ensures
            r == *self,
    {
        match self {
            LaunchError::ClientNotFound => LaunchError::ClientNotFound,
            LaunchError::ClientAlreadyRunning => LaunchError::ClientAlreadyRunning,
            LaunchError::SpawnFailed => LaunchError::SpawnFailed,
            LaunchError::WindowTimeout => LaunchError::WindowTimeout,
            LaunchError::UpdateTimeout => LaunchError::UpdateTimeout,
            LaunchError::LaunchVerificationTimeout { attempts } => {
                LaunchError::LaunchVerificationTimeout { attempts: *attempts }
            },
            LaunchError::InvalidGameSelector => LaunchError::InvalidGameSelector,
            LaunchError::ProcessTerminationFailed { name } => {
                LaunchError::ProcessTerminationFailed { name: name.clone() }
            },
        }
    }

    /// The message reported to the caller for this failure.
    pub fn message(&self) -> (r: String)
        ensures
            *self is ClientNotFound ==> r@ == "Could not find Riot Client. Please set the path in Settings."@,
            *self is ClientAlreadyRunning ==> r@ == "Game is already running"@,
            *self is SpawnFailed ==> r@ == "Failed to start the client process"@,
            *self is WindowTimeout ==> r@ == "Riot Client window not found after 30 seconds"@,
            *self is UpdateTimeout ==> r@ == "Game update is taking too long. Please try again later."@,
            *self matches LaunchError::LaunchVerificationTimeout { attempts } ==> r@
                == "Failed to launch the game after "@ + text::dec_str(attempts as int)
                + " attempts. Please try again or launch the game manually."@,
            *self is InvalidGameSelector ==> r@ == "Invalid game type"@,
            *self matches LaunchError::ProcessTerminationFailed { name } ==> r@
                == "Failed to close process: "@ + name@,
    {
        match self {
            LaunchError::ClientNotFound => String::from_str(
                "Could not find Riot Client. Please set the path in Settings.",
            ),
            LaunchError::ClientAlreadyRunning => String::from_str("Game is already running"),
            LaunchError::SpawnFailed => String::from_str("Failed to start the client process"),
            LaunchError::WindowTimeout => String::from_str(
                "Riot Client window not found after 30 seconds",
            ),
            LaunchError::UpdateTimeout => String::from_str(
                "Game update is taking too long. Please try again later.",
            ),
            LaunchError::LaunchVerificationTimeout { attempts } => {
                let mut r = String::from_str("Failed to launch the game after ");
                let count = text::u32_to_string(*attempts);
                r.append(count.as_str());
                r.append(" attempts. Please try again or launch the game manually.");
                r
            },
            LaunchError::InvalidGameSelector => String::from_str("Invalid game type"),
            LaunchError::ProcessTerminationFailed { name } => {
                let mut r = String::from_str("Failed to close process: ");
                r.append(name.as_str());
                r
            },
        }
    }
}

} // verus!
