//! An LSP proxy between the Helix editor and the Copilot language server.
//!
//! Every function states in its contract what it does.  The contracts speak of
//! mathematical values: [`json::Json`] for a JSON value, [`jsonrpc::MessageView`] for a
//! message, [`translator::TranslatorView`] for the state of the translation.  Functions
//! named `law_*` state and prove what holds across several functions.

pub mod auth;
pub mod cli;
pub mod config;
pub mod framing;
pub mod helix;
pub mod initializer;
pub mod installer;
pub mod json;
pub mod jsonrpc;
pub mod proxy;
pub mod router;
pub mod setup;
pub mod text;
pub mod translator;
