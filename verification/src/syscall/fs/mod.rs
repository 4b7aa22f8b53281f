//! File-system calls.

pub mod ctl;
pub mod dirent;
pub mod fd_ops;
pub mod io;
