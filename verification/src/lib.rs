//! Activity-aware keep-awake scheduler.
//!
//! The library holds the verified core of a utility that keeps an operating
//! system from idling: the suppression state machine driven by user-activity
//! events, the deadline and countdown arithmetic for the three run modes,
//! the text formats for countdowns and for the settings file, and the
//! per-tick decision of the main loop. The unverified shell around it reads
//! devices, sleeps, spawns the sampling threads and prints to the terminal.

pub mod app;
pub mod cli;
pub mod clock;
pub mod config;
pub mod monitor;
pub mod spinner;
pub mod suppress;
pub mod text;
pub mod timefmt;
pub mod ui;

pub use crate::app::App;
pub use crate::config::Config;
pub use crate::spinner::Spinner;
pub use crate::ui::Ui;
