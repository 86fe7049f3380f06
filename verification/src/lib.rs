//! Decision logic of a desktop application's start-up update check.
//!
//! On launch the application asks its updater whether a newer version exists,
//! offers it to the user, and installs it when the user agrees. The network,
//! the installer and the message boxes belong to the application's runtime.
//! This crate holds what lies between them: which step follows which answer,
//! what is logged, and what the boxes say.
//!
//! - [`flow`] is the state machine: [`flow::start`] and [`flow::step`].
//! - [`dialog`] builds the two message boxes.
//! - [`update`] holds what the updater reports, and the diagnostic lines.
//! - [`trace`] replays whole runs, and states what holds of every run.

pub mod dialog;
pub mod flow;
pub mod trace;
pub mod update;

pub use dialog::{Buttons, Dialog, DialogKind};
pub use flow::{start, step, Event, Phase, Request, Transition};
pub use trace::replay;
pub use update::{ErrorKind, UpdateError, UpdateInfo};
