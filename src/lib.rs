//! Core logic of a background file-retention utility: the age predicate and
//! counting of expired files, the tray menu state machine, role dispatch for
//! the cooperating processes, and the folder configuration model.

pub mod config;
pub mod editor;
pub mod launch;
pub mod notifier;
pub mod retention;
pub mod startup;
pub mod text;
pub mod tray;
