//! Decision logic of a function-interception engine for a managed-runtime
//! host: which symbols are redirected, how the original address is captured,
//! and the state machines that lead a runtime to invoke one entrypoint once.

pub mod config;
pub mod engine;
pub mod environment;
pub mod hook;
pub mod launcher;
pub mod patches;
pub mod paths;
pub mod platform;
pub mod player;
pub mod proxy;
pub mod runtimes;
pub mod shared;
pub mod table;
pub mod text;
pub mod utils;
pub mod windows;
