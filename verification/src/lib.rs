//! The user-memory validator and the futex engine of a Linux-compatible
//! kernel personality layer, together with the pure decision logic of the
//! surrounding system calls.

pub mod addr;
pub mod errno;
pub mod file;
pub mod futex;
pub mod mm;
pub mod syscall;
pub mod time;
pub mod vfs;
