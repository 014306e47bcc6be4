//! SOMA keeps what is done in terminals and with assistants, and hands the part of it that
//! matters to cloud models.
//!
//! This crate holds its rules. What a command asks for is decided here from plain values:
//! flags, variables, the bytes of files and what the store said. Reading and writing those
//! is left to the program around it.
//!
//! - [`capture`] takes in episodes: marks in terminal output, payloads, signatures.
//! - [`cli`] holds the commands: spools and adapters, proofs of client bindings, what a
//!   model is given, and what an operator can look at or forget.
//! - [`json`], [`text`], [`number`], [`path`], [`shell`] and [`fingerprint`] are what the
//!   rules are written with.
//! - [`outside`] is the one place where other crates are called.
pub mod capture;
pub mod cli;
pub mod dup;
pub mod fingerprint;
pub mod json;
pub mod number;
pub mod outcome;
pub mod outside;
pub mod path;
pub mod shell;
pub mod storage;
pub mod text;
