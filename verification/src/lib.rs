//! A minimal, filesystem-backed metadata shell.
//!
//! Clients issue line-oriented commands (`CREATE`, `DROP`, `USE`, `SHOW`,
//! `HELP`) that manipulate a hierarchy of databases (top-level directories),
//! collections (subdirectories) and documents (files). This crate holds the
//! verified core: the lexer, the token cursor, the command interpreter and
//! the session-step logic, all stated against a pure model of the directory
//! tree. The surrounding process (RPC transport, real filesystem access,
//! configuration loading) lives outside the library and exchanges plain
//! values with it.

pub mod clock;
pub mod collection;
pub mod configuration;
pub mod database_manager;
pub mod db_functions;
pub mod document;
pub mod laws;
pub mod lexer;
pub mod semantics;
pub mod session;
pub mod store;
pub mod text;
pub mod token_list;

pub use document::Document;
