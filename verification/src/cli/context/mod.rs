//! `soma context`: what a cloud model is given, and what is done with its answers.
//!
//! Each command checks its flags and says what it asks of the store; what the store gave is
//! then told as JSON or in a form for reading.
pub mod args;
pub mod envelope;
pub mod error;
pub mod hardening;
pub mod ranking;
pub mod reports;
pub mod request_laws;
pub mod requests;
pub mod review;
pub mod run;
pub mod semantic;
pub mod thread_identity;
pub mod tokens;
pub mod verify;

pub use error::{exit_code_for, resolve_db_path, ContextCliContext, ContextError};
pub use run::run_context;
