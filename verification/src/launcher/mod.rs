//! What the launcher decides before it starts the host process.

pub mod architecture;
pub mod command_line;
pub mod doorstop_path;
pub mod executable;
pub mod unix;
pub mod windows;
