//! Validated access to user memory.

pub mod fault;
pub mod paged;
pub mod ptr;
pub mod region;
pub mod scan;
pub mod space;
pub mod text;
pub mod word;
