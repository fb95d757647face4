//! Control layer of an input-method engine: classifies key events, keeps the
//! idle/active mode, and turns the commands of the preprocessor into an
//! ordered list of effects for the host to perform.
//!
//! The engine itself performs nothing on the host. Every entry point returns
//! the effects it asks for, in the order in which they are to be performed,
//! and the caller carries them out.

pub mod afrim_api;
pub mod classifier;
pub mod command;
pub mod engine;
pub mod host;
pub mod keys;
pub mod laws;
pub mod predicator;
pub mod preprocessor;
pub mod translator;
pub mod utils;
