//! Verified core of a desktop helper that signs a user into a third-party
//! multi-game launcher ("the client") and starts one of its games.
//!
//! Everything that decides or computes lives here: text matching over window
//! titles and process listings, the prioritized search for the client
//! executable, the keystroke plan that enters credentials, the launch
//! orchestration state machine with its polling bounds and retry cap, and the
//! in-memory account/settings store.  The surrounding binary performs the
//! OS-facing side effects (spawning, window queries, key injection,
//! persistence) and feeds their outcomes back as plain events.

pub mod errors;
pub mod game;
pub mod injector;
pub mod locator;
pub mod monitor;
pub mod observer;
pub mod orchestrator;
pub mod settings;
pub mod startup;
pub mod store;
pub mod termination;
pub mod text;
