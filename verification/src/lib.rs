//! Verified control core for a remotely operated submersible vehicle.
//!
//! The crate models operator intent (`control_state`), turns changes of
//! intent into a minimal ordered stream of discrete hardware commands
//! (`diff`), keeps a local mirror of the vehicle for visual feedback
//! (`mock`), frames commands for the serial link (`link`), and drives the
//! per-frame control session protocol (`session`).  Input polling, window
//! rendering and the serial transport itself live outside the library and
//! exchange plain values with it.

pub mod commands;
pub mod control_state;
pub mod diff;
pub mod link;
pub mod mock;
pub mod session;
