//! Coordination core of an idle and power-state daemon: the state that
//! decides which idle timers exist, whom they notify, whether sleep is being
//! held off, and which input devices are watched.

pub mod command;
pub mod config;
pub mod devices;
pub mod inhibit;
pub mod protocol;
pub mod registry;
pub mod router;
pub mod slots;
pub mod sunset;
pub mod types;
