//! Client-side access layer for an embedded, append-only time-series engine.
//!
//! The crate holds everything that is decided on this side of the engine's
//! foreign boundary: which strings may cross it, which native call is made
//! with which arguments, what a sample record looks like byte for byte, and
//! what each reply of the engine means for the caller. Every native call is
//! described by a value (`OpenCall`, `CreateCall`, `ResolveCall`, ...) that
//! the embedder performs and then completes with the engine's reply; the
//! crate itself never touches a raw handle.

pub mod bootstrap;
pub mod clock;
pub mod config;
pub mod cstr;
pub mod db;
pub mod error;
pub mod path;
pub mod sample;
pub mod session;

pub use crate::bootstrap::Bootstrap;
pub use crate::config::DBConfig;
pub use crate::db::DB;
pub use crate::error::Error;
pub use crate::sample::Sample;
pub use crate::session::Session;
