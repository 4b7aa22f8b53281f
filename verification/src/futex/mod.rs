//! Futexes: keys, wait queues, the table that holds them, and the
//! operations of the `futex` system call.

pub mod key;
pub mod lemmas;
pub mod op;
pub mod queue;
pub mod robust;
pub mod table;
