//! Editing of protected files through a privilege helper: the rules that decide
//! whether a path may be edited, how its staging copies are named, when the
//! edited copy is committed and how often the privileged write is retried.
//!
//! The library performs no input or output of its own. Every file operation and
//! every child process is carried out by the caller, which reports what happened
//! as an [`event::Event`] and is told by the returned [`file_handler::Stage`]
//! what to do next:
//!
//! 1. [`file_handler::start_processing`] gives the first stage of a path;
//! 2. the caller carries out [`file_handler::Stage::action`] of the stage;
//! 3. [`file_handler::process_file`] turns the stage and the outcome into the
//!    next stage, until that stage asks for nothing more.
//!
//! What holds of every run that is driven in this way is stated and proved in
//! [`invariants`].

pub mod editor;
pub mod error;
pub mod event;
pub mod file_handler;
pub mod helper;
pub mod invariants;
pub mod startup;
pub mod utils;
