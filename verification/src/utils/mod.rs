//! Helpers of the engine.

pub mod bindings;
pub mod lazy_file_writer;
pub mod process_lock;
