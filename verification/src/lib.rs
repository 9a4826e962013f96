//! Locates or installs the `crates-lsp` language-server binary and builds the
//! workspace configuration that is handed to it.
//!
//! The crate has two independent parts:
//!
//! * [`resolver`] — a step-by-step decision procedure that turns host answers
//!   (file checks, lookups on the executable search path, release metadata,
//!   download results) into the next action to perform, until a usable binary
//!   path is produced or the attempt fails.  The host performs the actions;
//!   the decisions are verified here.
//! * [`settings`] — the settings-document model, the built-in default
//!   configuration, and the merge of user settings over it.
//!
//! [`platform`] holds the supported (operating system, architecture) pairs
//! and their release-asset table; [`command`] builds the launch command for a
//! resolved binary path.

pub mod command;
pub mod platform;
pub mod resolver;
pub mod settings;
