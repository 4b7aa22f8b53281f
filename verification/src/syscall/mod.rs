//! The pure decisions of the system-call handlers.

pub mod fs;
pub mod net;
