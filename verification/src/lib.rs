//! Telemetry acquisition and safety-response engine for an uninterruptible
//! power supply that is attached as a USB human-interface device and speaks
//! an ASCII status protocol.
//!
//! The crate decides; it does no input or output of its own. What comes
//! from outside (the bytes of a read, the time, whether the main window has
//! the focus, whether a file exists) comes in as arguments, and what has to
//! happen outside goes out as a list of effects or as the next action of a
//! loop:
//!
//! - `packet` decodes what the device sends;
//! - `monitor` holds the state and decides what a reading sets off: the
//!   edges of the battery and utility-power state machine, the alerts, the
//!   shutdown deadline;
//! - `shutdown` is the scheduler: one pending deadline, the earliest wins;
//! - `sound` hands out the generation tokens that make alert sounds
//!   cancelable, and steps a playback;
//! - `connection` decides what connects and disconnects the monitor and
//!   which error is worth reporting, and `poll` steps the poll loop;
//! - `history` keeps the bounded histories and answers queries on them;
//! - `settings` and `commands` normalise the configuration and serve the
//!   requests of the user;
//! - `alert`, `clock` and `text` hold names, calendar time and text.
//!
//! Quantities that the device reports with decimals are kept as whole
//! numbers of thousandths.

pub mod alert;
pub mod clock;
pub mod commands;
pub mod connection;
pub mod history;
pub mod monitor;
pub mod packet;
pub mod poll;
pub mod settings;
pub mod shutdown;
pub mod sound;
pub mod text;
