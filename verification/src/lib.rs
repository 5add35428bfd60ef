//! A minimal always-on process keeper.
//!
//! The library holds the verified core of the supervisor: the restart-policy
//! state machine, the registry of supervised records, the classification of
//! process terminations, and the rendering of lifecycle event lines.  The
//! unverified surroundings (command-line handling, configuration loading,
//! process spawning and status polling, log output) drive this core and live
//! outside the library.

pub mod config;
pub mod event;
pub mod machine;
pub mod registry;
pub mod render;
