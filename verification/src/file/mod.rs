//! Open files as the system calls see them.

pub mod fd_table;
pub mod fs;
pub mod net;
